//! The kinds of WCH-Link probes.

use crate::error::WchLinkError;
use vstd::prelude::*;

verus! {

/// All WCH-Link probe variants, see-also: <http://www.wch-ic.com/products/WCH-Link.html>
#[derive(Clone, Copy, Debug, PartialEq, Eq, Structural)]
pub enum WchLinkVariant {
    /// WCH-Link-CH549, does not support RV32EC
    Ch549,
    /// WCH-LinkE-CH32V305, the full featured version
    ECh32v305,
    /// WCH-LinkS-CH32V203
    SCh32v203,
    /// WCH-LinkW-CH32V208, a wirelessed version
    WCh32v208,
}

impl WchLinkVariant {
    /// The number of the variant.
    pub open spec fn code(self) -> u8 {
        match self {
            WchLinkVariant::Ch549 => 1,
            WchLinkVariant::ECh32v305 => 2,
            WchLinkVariant::SCh32v203 => 3,
            WchLinkVariant::WCh32v208 => 5,
        }
    }

    /// The variant that a number stands for. Besides the own numbers of the variants, 0x12 stands
    /// for the WCH-LinkE.
    pub open spec fn from_code(value: u8) -> Option<Self> {
        match value {
            1 => Some(WchLinkVariant::Ch549),
            2 => Some(WchLinkVariant::ECh32v305),
            3 => Some(WchLinkVariant::SCh32v203),
            5 => Some(WchLinkVariant::WCh32v208),
            0x12 => Some(WchLinkVariant::ECh32v305),
            _ => None,
        }
    }

    /// The name of the variant.
    pub open spec fn label(self) -> Seq<char> {
        match self {
            WchLinkVariant::Ch549 => "WCH-Link-CH549"@,
            WchLinkVariant::ECh32v305 => "WCH-LinkE-CH32V305"@,
            WchLinkVariant::SCh32v203 => "WCH-LinkS-CH32V203"@,
            WchLinkVariant::WCh32v208 => "WCH-LinkW-CH32V208"@,
        }
    }

    /// The number of the variant.
    pub fn to_u8(self) -> (value: u8)
        ensures
            value == self.code(),
    {
        match self {
            WchLinkVariant::Ch549 => 1,
            WchLinkVariant::ECh32v305 => 2,
            WchLinkVariant::SCh32v203 => 3,
            WchLinkVariant::WCh32v208 => 5,
        }
    }

    /// The variant that a probe reports itself to be.
    pub fn try_from_u8(value: u8) -> (result: Result<Self, WchLinkError>)
        ensures
            result == (match Self::from_code(value) {
                Some(variant) => Ok(variant),
                None => Err(WchLinkError::UnknownDevice),
            }),
    {
        match value {
            1 => Ok(Self::Ch549),
            2 => Ok(Self::ECh32v305),
            3 => Ok(Self::SCh32v203),
            5 => Ok(Self::WCh32v208),
            0x12 => Ok(Self::ECh32v305),  // ??
            _ => Err(WchLinkError::UnknownDevice),
        }
    }

    /// The name of the variant.
    pub fn to_string(&self) -> (text: String)
        ensures
            text@ == self.label(),
    {
        match self {
            WchLinkVariant::Ch549 => "WCH-Link-CH549".to_owned(),
            WchLinkVariant::ECh32v305 => "WCH-LinkE-CH32V305".to_owned(),
            WchLinkVariant::SCh32v203 => "WCH-LinkS-CH32V203".to_owned(),
            WchLinkVariant::WCh32v208 => "WCH-LinkW-CH32V208".to_owned(),
        }
    }
}

} // verus!
