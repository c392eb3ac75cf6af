//! The commands that a WCH-Link takes, and its answers to them.

use crate::chip::RiscvChip;
use crate::variant::WchLinkVariant;
use vstd::prelude::*;

verus! {

/// One of the speeds that the probe offers for the link to the target.
#[derive(Clone, Copy, Debug, PartialEq, Eq, Structural)]
pub struct Speed {
    /// The speed in kHz.
    pub khz: u32,
}

impl Speed {
    /// The speed in kHz.
    pub fn to_khz(self) -> (khz: u32)
        ensures
            khz == self.khz,
    {
        self.khz
    }
}

/// An access to the debug module of the target.
#[derive(Clone, Copy, Debug, PartialEq, Eq, Structural)]
pub enum DmiOp {
    /// Access nothing.
    Nop,
    /// Read a register.
    Read {
        /// Address of the register.
        addr: u8,
    },
    /// Write a register.
    Write {
        /// Address of the register.
        addr: u8,
        /// The new content.
        data: u32,
    },
}

/// A command to the probe.
#[derive(Clone, Copy, Debug, PartialEq, Eq, Structural)]
pub enum Command {
    /// Ask for the variant and the firmware version of the probe.
    GetProbeInfo,
    /// Attach to the target chip.
    AttachChip,
    /// Detach from the target chip.
    DetachChip,
    /// Reset the target chip.
    ResetTarget,
    /// Ask whether the flash of the target is protected.
    CheckFlashProtection,
    /// Lift the protection of the flash of the target.
    UnprotectFlash,
    /// Set the speed of the link to a target of the given family.
    SetSpeed(RiscvChip, Speed),
    /// Access the debug module of the target.
    DmiOp(DmiOp),
}

/// What the probe tells about itself.
#[derive(Clone, Copy, Debug, PartialEq, Eq, Structural)]
pub struct ProbeInfo {
    /// Major firmware version.
    pub major_version: u8,
    /// Minor firmware version.
    pub minor_version: u8,
    /// Variant of the probe.
    pub variant: WchLinkVariant,
}

/// What the probe tells about the chip that it attached to.
#[derive(Clone, Copy, Debug, PartialEq, Eq, Structural)]
pub struct AttachedChip {
    /// Family of the chip.
    pub chip_family: RiscvChip,
    /// Id that identifies the chip within its family.
    pub chip_id: u32,
}

/// What the debug module answered to an access.
#[derive(Clone, Copy, Debug, PartialEq, Eq, Structural)]
pub struct DmiResult {
    /// Address of the register.
    pub addr: u8,
    /// Content of the register.
    pub data: u32,
    /// Status of the access.
    pub op: u8,
}

/// The answer to a command.
#[derive(Clone, Copy, Debug, PartialEq, Eq, Structural)]
pub enum Response {
    /// To [`Command::GetProbeInfo`].
    ProbeInfo(ProbeInfo),
    /// To [`Command::AttachChip`].
    Attached(AttachedChip),
    /// To [`Command::DmiOp`].
    Dmi(DmiResult),
    /// To every other command: it was carried out.
    Done,
}

impl Response {
    /// Whether this is an answer to the command.
    pub open spec fn is_answer_to(self, command: Command) -> bool {
        match command {
            Command::GetProbeInfo => self is ProbeInfo,
            Command::AttachChip => self is Attached,
            Command::DmiOp(_) => self is Dmi,
            _ => self is Done,
        }
    }
}

} // verus!
