//! The chip families that a WCH-Link can attach to.

use vstd::prelude::*;

verus! {

/// Currently supported RISC-V chip series/families. The IP core name is "Qingke".
#[derive(Clone, Copy, Debug, PartialEq, Eq, Structural)]
pub enum RiscvChip {
    /// CH32V103 Qingke-V3A series
    CH32V103,
    /// CH571/CH573 Qingke-V3A BLE 4.2 series
    CH57X,
    /// CH565/CH569 Qingke-V3A series
    CH56X,
    /// CH32V20X Qingke-V4B/V4C series
    CH32V20X,
    /// CH32V30X Qingke-V4C/V4F series, the same as CH32V20X
    CH32V30X,
    /// CH58x Qingke-V4A BLE 5.3 series
    CH58X,
    /// CH32V003 Qingke-V2A series
    CH32V003,
    // The only reference I can find is <https://www.wch.cn/news/606.html>.
    /// RISC-V EC controller, undocumented.
    CH8571,
    /// CH59x Qingke-V4C BLE 5.4 series, fallback as CH58X
    CH59X,
    /// CH643 Qingke-V4C series, RGB Display Driver MCU
    CH643,
    /// CH32X035 Qingke-V4C USB-PD series, fallback as CH643
    CH32X035,
    /// CH32L103 Qingke-V4C low power series, USB-PD
    CH32L103,
    /// CH641 Qingke-V2A series, USB-PD, fallback as CH32V003
    CH641,
}

impl RiscvChip {
    /// The number of the chip family.
    pub open spec fn code(self) -> u8 {
        match self {
            RiscvChip::CH32V103 => 0x01,
            RiscvChip::CH57X => 0x02,
            RiscvChip::CH56X => 0x03,
            RiscvChip::CH32V20X => 0x05,
            RiscvChip::CH32V30X => 0x06,
            RiscvChip::CH58X => 0x07,
            RiscvChip::CH32V003 => 0x09,
            RiscvChip::CH8571 => 0x0A,
            RiscvChip::CH59X => 0x0B,
            RiscvChip::CH643 => 0x0C,
            RiscvChip::CH32X035 => 0x0D,
            RiscvChip::CH32L103 => 0x0E,
            RiscvChip::CH641 => 0x49,
        }
    }

    /// The chip family of a number, if there is one.
    pub open spec fn from_code(value: u8) -> Option<Self> {
        match value {
            0x01 => Some(RiscvChip::CH32V103),
            0x02 => Some(RiscvChip::CH57X),
            0x03 => Some(RiscvChip::CH56X),
            0x05 => Some(RiscvChip::CH32V20X),
            0x06 => Some(RiscvChip::CH32V30X),
            0x07 => Some(RiscvChip::CH58X),
            0x09 => Some(RiscvChip::CH32V003),
            0x0A => Some(RiscvChip::CH8571),
            0x0B => Some(RiscvChip::CH59X),
            0x0C => Some(RiscvChip::CH643),
            0x0D => Some(RiscvChip::CH32X035),
            0x0E => Some(RiscvChip::CH32L103),
            0x49 => Some(RiscvChip::CH641),
            _ => None,
        }
    }

    /// Whether the flash of the chip family can be protected: true of the CH32 families, of the
    /// CH643 and of the CH641.
    pub open spec fn flash_protect(self) -> bool {
        match self {
            RiscvChip::CH57X | RiscvChip::CH56X | RiscvChip::CH58X | RiscvChip::CH8571
            | RiscvChip::CH59X => false,
            _ => true,
        }
    }

    /// The number of the chip family.
    pub fn to_u8(self) -> (value: u8)
        ensures
            value == self.code(),
    {
        match self {
            RiscvChip::CH32V103 => 0x01,
            RiscvChip::CH57X => 0x02,
            RiscvChip::CH56X => 0x03,
            RiscvChip::CH32V20X => 0x05,
            RiscvChip::CH32V30X => 0x06,
            RiscvChip::CH58X => 0x07,
            RiscvChip::CH32V003 => 0x09,
            RiscvChip::CH8571 => 0x0A,
            RiscvChip::CH59X => 0x0B,
            RiscvChip::CH643 => 0x0C,
            RiscvChip::CH32X035 => 0x0D,
            RiscvChip::CH32L103 => 0x0E,
            RiscvChip::CH641 => 0x49,
        }
    }

    /// The chip family of a number, if there is one.
    pub fn try_from_u8(value: u8) -> (result: Option<Self>)
        ensures
            result == Self::from_code(value),
    {
        match value {
            0x01 => Some(RiscvChip::CH32V103),
            0x02 => Some(RiscvChip::CH57X),
            0x03 => Some(RiscvChip::CH56X),
            0x05 => Some(RiscvChip::CH32V20X),
            0x06 => Some(RiscvChip::CH32V30X),
            0x07 => Some(RiscvChip::CH58X),
            0x09 => Some(RiscvChip::CH32V003),
            0x0A => Some(RiscvChip::CH8571),
            0x0B => Some(RiscvChip::CH59X),
            0x0C => Some(RiscvChip::CH643),
            0x0D => Some(RiscvChip::CH32X035),
            0x0E => Some(RiscvChip::CH32L103),
            0x49 => Some(RiscvChip::CH641),
            _ => None,
        }
    }

    /// Whether the flash of the chip family can be protected.
    pub fn support_flash_protect(&self) -> (supported: bool)
        ensures
            supported == self.flash_protect(),
    {
        matches!(
            self,
            RiscvChip::CH32V103
                | RiscvChip::CH32V20X
                | RiscvChip::CH32V30X
                | RiscvChip::CH32V003
                | RiscvChip::CH643
                | RiscvChip::CH32L103
                | RiscvChip::CH32X035
                | RiscvChip::CH641
        )
    }
}

} // verus!
