//! The errors of the probe.

use crate::text::push_hex_byte;
use vstd::prelude::*;

verus! {

/// The wire protocols that a probe may speak to its target.
#[derive(Clone, Copy, Debug, PartialEq, Eq, Structural)]
pub enum WireProtocol {
    /// Serial Wire Debug
    Swd,
    /// JTAG
    Jtag,
}

/// What can go wrong with a WCH-Link.
#[derive(Debug, PartialEq, Eq)]
pub enum WchLinkError {
    /// The probe reports a variant that is not known.
    UnknownDevice,
    /// The firmware of the probe is not supported.
    UnsupportedFirmwareVersion,
    /// A command was not written as a whole.
    NotEnoughBytesWritten {
        /// The bytes that were written.
        is: usize,
        /// The bytes of the command.
        should: usize,
    },
    /// An answer was not read as a whole.
    NotEnoughBytesRead {
        /// The bytes that were read.
        is: usize,
        /// The bytes of the answer.
        should: usize,
    },
    /// The probe lacks a USB endpoint.
    EndpointNotFound,
    /// The payload of an answer cannot be understood.
    InvalidPayload,
    /// The probe answered with a protocol error.
    Protocol(u8, Vec<u8>),
    /// The target is of a chip family that is not known.
    UnknownChip(u8),
}

impl WchLinkError {
    /// The message of the error.
    pub open spec fn message(self) -> Seq<char> {
        match self {
            WchLinkError::UnknownDevice => "Unknown WCH-Link device(new variant?)"@,
            WchLinkError::UnsupportedFirmwareVersion => "Firmware version is not supported."@,
            WchLinkError::NotEnoughBytesWritten { .. } => "Not enough bytes written."@,
            WchLinkError::NotEnoughBytesRead { .. } => "Not enough bytes read."@,
            WchLinkError::EndpointNotFound => "Usb endpoint not found."@,
            WchLinkError::InvalidPayload => "Invalid payload."@,
            WchLinkError::Protocol(..) => "Protocl error."@,
            WchLinkError::UnknownChip(chip) => "Unknown chip 0x"@ + crate::text::hex_byte(chip),
        }
    }

    /// The message of the error.
    pub fn to_string(&self) -> (text: String)
        ensures
            text@ == self.message(),
    {
        match self {
            WchLinkError::UnknownDevice => "Unknown WCH-Link device(new variant?)".to_owned(),
            WchLinkError::UnsupportedFirmwareVersion => {
                "Firmware version is not supported.".to_owned()
            },
            WchLinkError::NotEnoughBytesWritten { .. } => "Not enough bytes written.".to_owned(),
            WchLinkError::NotEnoughBytesRead { .. } => "Not enough bytes read.".to_owned(),
            WchLinkError::EndpointNotFound => "Usb endpoint not found.".to_owned(),
            WchLinkError::InvalidPayload => "Invalid payload.".to_owned(),
            WchLinkError::Protocol(_, _) => "Protocl error.".to_owned(),
            WchLinkError::UnknownChip(chip) => {
                let mut text: String = "Unknown chip 0x".to_owned();
                push_hex_byte(&mut text, *chip);
                text
            },
        }
    }
}

/// Why an operation of a debug probe failed.
#[derive(Debug, PartialEq, Eq)]
pub enum DebugProbeError {
    /// The firmware of the probe is not one that is supported.
    ProbeFirmwareOutdated,
    /// The probe has no speed for the one that was asked for, in kHz.
    UnsupportedSpeed(u32),
    /// The probe cannot do what was asked for.
    NotImplemented(&'static str),
    /// The probe does not speak the protocol.
    UnsupportedProtocol(WireProtocol),
    /// An error of the WCH-Link.
    ProbeSpecific(WchLinkError),
    /// A USB transfer failed, with the message of the USB layer.
    Usb(String),
}

/// Why a probe could not be made.
#[derive(Debug, PartialEq, Eq)]
pub enum ProbeCreationError {
    /// An error of the WCH-Link.
    ProbeSpecific(WchLinkError),
}

impl vstd::std_specs::convert::FromSpecImpl<WchLinkError> for DebugProbeError {
    open spec fn obeys_from_spec() -> bool {
        true
    }

    open spec fn from_spec(e: WchLinkError) -> Self {
        if e == WchLinkError::UnsupportedFirmwareVersion {
            DebugProbeError::ProbeFirmwareOutdated
        } else {
            DebugProbeError::ProbeSpecific(e)
        }
    }
}

impl From<WchLinkError> for DebugProbeError {
    fn from(e: WchLinkError) -> (error: Self) {
        match e {
            WchLinkError::UnsupportedFirmwareVersion => DebugProbeError::ProbeFirmwareOutdated,
            _ => DebugProbeError::ProbeSpecific(e),
        }
    }
}

impl vstd::std_specs::convert::FromSpecImpl<WchLinkError> for ProbeCreationError {
    open spec fn obeys_from_spec() -> bool {
        true
    }

    open spec fn from_spec(e: WchLinkError) -> Self {
        ProbeCreationError::ProbeSpecific(e)
    }
}

impl From<WchLinkError> for ProbeCreationError {
    fn from(e: WchLinkError) -> (error: Self) {
        ProbeCreationError::ProbeSpecific(e)
    }
}

} // verus!
