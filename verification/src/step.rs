//! The steps of an operation.
//!
//! An operation of the probe is a dialogue: each [`Step`] either ends it or names the [`Command`]
//! that has to be sent next, together with what the operation waits for then.

use crate::command::{Command, Response, Speed};
use crate::error::DebugProbeError;
use vstd::prelude::*;

verus! {

/// What an operation waits for after it asked for a command to be sent.
#[derive(Clone, Copy, Debug, PartialEq, Eq, Structural)]
pub enum Pending {
    /// Initialization waits for what the probe tells about itself.
    ProbeInfo,
    /// The speed is being set.
    SetSpeed(Speed),
    /// Attaching waits for what the probe tells about the chip.
    Attach,
    /// Attaching checks the protection of the flash.
    CheckFlashProtection,
    /// Attaching lifts the protection of the flash.
    UnprotectFlash,
    /// The probe detaches.
    Detach,
    /// The target is being reset.
    TargetReset,
    /// The debug module is being switched off.
    DmReset,
    /// The debug module is being switched on again.
    DmActivate,
    /// A register of the debug module is being read.
    DmiRead,
    /// A no-op, whose answer is reported.
    DmiNop,
    /// A no-op, which reports the answer to the last read.
    DmiNopLastRead,
    /// A register of the debug module is being written.
    DmiWrite,
}

impl Pending {
    /// Whether the response is of the kind that the operation waits for.
    pub open spec fn expects(self, response: Response) -> bool {
        match self {
            Pending::ProbeInfo => response is ProbeInfo,
            Pending::Attach => response is Attached,
            Pending::DmReset | Pending::DmActivate | Pending::DmiRead | Pending::DmiNop
            | Pending::DmiNopLastRead | Pending::DmiWrite => response is Dmi,
            _ => response is Done,
        }
    }
}

/// What an operation results in.
#[derive(Debug, PartialEq, Eq)]
pub enum Output {
    /// Nothing but that it is done.
    Done,
    /// The speed that was set, in kHz.
    SpeedKhz(u32),
    /// The content of a JTAG register.
    Register(Vec<u8>),
}

/// What an operation does next.
#[derive(Debug, PartialEq, Eq)]
pub enum Step {
    /// It waits for the answer to the command.
    Send(Command, Pending),
    /// It has succeeded.
    Finished(Output),
    /// It has failed.
    Failed(DebugProbeError),
}

/// The view of an [`Output`].
#[verifier::ext_equal]
pub enum OutputView {
    Done,
    SpeedKhz(u32),
    Register(Seq<u8>),
}

/// The view of a [`Step`].
#[verifier::ext_equal]
pub enum StepView {
    Send(Command, Pending),
    Finished(OutputView),
    Failed(DebugProbeError),
}

impl View for Output {
    type V = OutputView;

    open spec fn view(&self) -> OutputView {
        match self {
            Output::Done => OutputView::Done,
            Output::SpeedKhz(khz) => OutputView::SpeedKhz(*khz),
            Output::Register(bytes) => OutputView::Register(bytes@),
        }
    }
}

impl View for Step {
    type V = StepView;

    open spec fn view(&self) -> StepView {
        match self {
            Step::Send(command, pending) => StepView::Send(*command, *pending),
            Step::Finished(output) => StepView::Finished(output@),
            Step::Failed(error) => StepView::Failed(*error),
        }
    }
}

/// An operation of the probe that takes a dialogue.
pub enum Operation {
    /// Initialize the probe.
    Init,
    /// Set a speed, given the one that the probe offers for it.
    SetSpeed(u32, Option<Speed>),
    /// Attach to the target.
    Attach,
    /// Detach from the target.
    Detach,
    /// Reset the target.
    TargetReset,
    /// Write data to the JTAG register at an address.
    WriteRegister(u32, Seq<u8>),
}

} // verus!
