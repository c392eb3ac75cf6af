//! The WCH-Link as a debug probe.
//!
//! A method that starts an operation gives its first [`Step`]. Where that is a [`Command`] to be
//! sent, the answer to the command goes to [`WchLink::resume`], which gives the next step. Who runs
//! this dialogue does the USB transfers, and nothing else.
//!
//! WCH-Link's USB based access to the debug module is presented as a fake JTAG access.

use crate::bytes::{from_le_bytes, to_le_bytes};
use crate::chip::RiscvChip;
use crate::command::{AttachedChip, Command, DmiOp, DmiResult, ProbeInfo, Response, Speed};
use crate::dmi::{decode_dmi, encode_dmi, DMI_OP_NOP, DMI_OP_READ, DMI_OP_WRITE};
use crate::error::{DebugProbeError, WchLinkError, WireProtocol};
use crate::step::{Operation, Output, OutputView, Pending, Step, StepView};
use crate::text::push_decimal;
use crate::variant::WchLinkVariant;
use vstd::prelude::*;
use vstd::string::StringExecFns;

verus! {

/// JTAG register that holds nothing.
pub const REG_BYPASS_ADDRESS: u8 = 0x1f;

/// JTAG register that identifies the target.
pub const REG_IDCODE_ADDRESS: u8 = 0x01;

/// JTAG register that controls the debug transport module.
pub const REG_DTMCS_ADDRESS: u8 = 0x10;

/// JTAG register that accesses the debug module.
pub const REG_DMI_ADDRESS: u8 = 0x11;

/// Bit of `dtmcs` that resets the debug module interface.
pub const DTMCS_DMIRESET_MASK: u32 = 0x1_0000;

/// Bit of `dtmcs` that resets the debug module interface hard, which is not supported.
pub const DTMCS_DMIHARDRESET_MASK: u32 = 0x2_0000;

/// Hard coded id of the target.
pub const IDCODE: u32 = 0x1;

/// Content of `dtmcs`: 7 address bits, version 1.0.
pub const DTMCS: u32 = 0x71;

/// Address of the `dmcontrol` register of the debug module.
pub const DMCONTROL_ADDRESS: u8 = 0x10;

/// The length of the `dmi` register in bits.
pub const DMI_LEN: u32 = 41;

/// A device in the JTAG scan chain of a target.
#[derive(Debug, PartialEq, Eq)]
pub struct ScanChainElement {
    /// Name of the device.
    pub name: Option<String>,
    /// Length of its instruction register.
    pub ir_len: Option<u8>,
}

/// WCH-Link device (mod:RV)
#[derive(Debug)]
pub struct WchLink {
    name: String,
    variant: WchLinkVariant,
    v_major: u8,
    v_minor: u8,
    /// Chip family
    chip_family: RiscvChip,
    /// Chip id to identify the target chip variant
    chip_id: u32,
    /// The answer to the last read of the debug module, to support NOP after READ
    last_dmi_read: Option<(u8, u32, u8)>,
    speed: Speed,
}

/// The view of a [`WchLink`].
#[verifier::ext_equal]
pub struct LinkState {
    pub name: Seq<char>,
    pub variant: WchLinkVariant,
    pub v_major: u8,
    pub v_minor: u8,
    pub chip_family: RiscvChip,
    pub chip_id: u32,
    pub last_dmi_read: Option<(u8, u32, u8)>,
    pub speed: Speed,
}

impl View for WchLink {
    type V = LinkState;

    closed spec fn view(&self) -> LinkState {
        LinkState {
            name: self.name@,
            variant: self.variant,
            v_major: self.v_major,
            v_minor: self.v_minor,
            chip_family: self.chip_family,
            chip_id: self.chip_id,
            last_dmi_read: self.last_dmi_read,
            speed: self.speed,
        }
    }
}

/// The state of a probe that has not been talked to yet.
pub open spec fn initial_state(speed: Speed) -> LinkState {
    LinkState {
        name: "WCH-Link"@,
        variant: WchLinkVariant::Ch549,
        v_major: 0,
        v_minor: 0,
        chip_family: RiscvChip::CH32V103,
        chip_id: 0,
        last_dmi_read: None,
        speed,
    }
}

/// The firmware is too old: it is not of major version 2, and below minor version 7.
pub open spec fn firmware_too_old(major: u8, minor: u8) -> bool {
    major != 2 && minor < 7
}

/// The firmware is too new: it is not of major version 2, and above minor version 7.
pub open spec fn firmware_too_new(major: u8, minor: u8) -> bool {
    major != 2 && minor > 7
}

/// The name of a probe: its variant and its firmware version.
pub open spec fn probe_name(info: ProbeInfo) -> Seq<char> {
    info.variant.label() + " v"@ + crate::text::decimal(info.major_version as nat) + "."@
        + crate::text::decimal(info.minor_version as nat)
}

impl LinkState {
    /// The state after the probe told about itself. The variant is taken over unless the firmware
    /// is too old.
    pub open spec fn with_probe_info(self, info: ProbeInfo) -> LinkState {
        LinkState {
            v_major: info.major_version,
            v_minor: info.minor_version,
            variant: if firmware_too_old(info.major_version, info.minor_version) {
                self.variant
            } else {
                info.variant
            },
            ..self
        }
    }

    /// The state after initialization, whether it succeeds or not.
    pub open spec fn initialized(self, info: ProbeInfo) -> LinkState {
        LinkState {
            name: if firmware_too_old(info.major_version, info.minor_version) || firmware_too_new(
                info.major_version,
                info.minor_version,
            ) {
                self.name
            } else {
                probe_name(info)
            },
            ..self.with_probe_info(info)
        }
    }
}

/// The JTAG register that an address selects: the lowest 8 bits count.
pub open spec fn selected_register(address: u32) -> u8 {
    (address % 0x100) as u8
}

/// The JTAG registers that can be read. All of them are read as 32 bits.
pub open spec fn can_read(address: u32, len: u32) -> bool {
    &&& len == 32
    &&& selected_register(address) == REG_IDCODE_ADDRESS || selected_register(address)
        == REG_DTMCS_ADDRESS || selected_register(address) == REG_BYPASS_ADDRESS
}

/// The content of a JTAG register that can be read.
pub open spec fn register_content(address: u32) -> u32 {
    if selected_register(address) == REG_IDCODE_ADDRESS {
        IDCODE
    } else if selected_register(address) == REG_DTMCS_ADDRESS {
        DTMCS
    } else {
        0
    }
}

/// The result of an access to `dtmcs`: its content.
pub open spec fn dtmcs_output() -> OutputView {
    OutputView::Register(crate::bytes::le_bytes(DTMCS as nat, 4))
}

/// The result of an access to the debug module: the `dmi` register, as 128 bits.
pub open spec fn dmi_output(answer: (u8, u32, u8)) -> OutputView {
    OutputView::Register(
        crate::bytes::le_bytes(crate::dmi::dmi_word(answer.0, answer.1, answer.2) as nat, 16),
    )
}

/// What can be written: 32 bits to `dtmcs`, and an access of 41 bits to `dmi`, which comes in 128
/// bits. Of the operations of an access, one is reserved.
pub open spec fn can_write(address: u32, data: Seq<u8>, len: u32) -> bool {
    if selected_register(address) == REG_DTMCS_ADDRESS {
        data.len() == 4
    } else {
        &&& selected_register(address) == REG_DMI_ADDRESS
        &&& len == DMI_LEN
        &&& data.len() == 16
        &&& crate::dmi::dmi_access(crate::bytes::le_value(data)).op != 3
    }
}

/// Whether a value written to `dtmcs` has the bit that resets the debug module interface.
pub open spec fn asks_for_dmi_reset(value: nat) -> bool {
    value / 0x1_0000 % 2 == 1
}

/// Whether a value written to `dtmcs` has the bit for a hard reset of the debug module interface,
/// and not the one for a reset.
pub open spec fn asks_for_dmi_hard_reset(value: nat) -> bool {
    !asks_for_dmi_reset(value) && value / 0x2_0000 % 2 == 1
}

/// The command that writes a register of the debug module.
pub open spec fn dm_write(addr: u8, data: u32) -> Command {
    Command::DmiOp(DmiOp::Write { addr, data })
}

/// How a write to a JTAG register starts. A write to `dtmcs` goes to the probe only if it asks for
/// a reset of the debug module interface. A write to `dmi` goes to the probe as the access that it
/// asks for.
pub open spec fn write_started(address: u32, data: Seq<u8>) -> StepView {
    if selected_register(address) == REG_DTMCS_ADDRESS {
        if asks_for_dmi_reset(crate::bytes::le_value(data)) {
            StepView::Send(dm_write(DMCONTROL_ADDRESS, 0), Pending::DmReset)
        } else {
            StepView::Finished(dtmcs_output())
        }
    } else {
        let access = crate::dmi::dmi_access(crate::bytes::le_value(data));
        if access.op == DMI_OP_READ {
            StepView::Send(Command::DmiOp(DmiOp::Read { addr: access.addr }), Pending::DmiRead)
        } else if access.op == DMI_OP_WRITE {
            StepView::Send(dm_write(access.addr, access.value), Pending::DmiWrite)
        } else if access.addr == 0 && access.value == 0 {
            StepView::Send(Command::DmiOp(DmiOp::Nop), Pending::DmiNopLastRead)
        } else {
            StepView::Send(Command::DmiOp(DmiOp::Nop), Pending::DmiNop)
        }
    }
}

/// The answer of the debug module, as it is kept and reported.
pub open spec fn dmi_answer(response: Response) -> (u8, u32, u8) {
    (response->Dmi_0.addr, response->Dmi_0.data, response->Dmi_0.op)
}

impl LinkState {
    /// The first step of an operation.
    pub open spec fn started(self, operation: Operation) -> StepView {
        match operation {
            Operation::Init => StepView::Send(Command::GetProbeInfo, Pending::ProbeInfo),
            Operation::SetSpeed(_, Some(speed)) => StepView::Send(
                Command::SetSpeed(self.chip_family, speed),
                Pending::SetSpeed(speed),
            ),
            Operation::SetSpeed(speed_khz, None) => StepView::Failed(
                DebugProbeError::UnsupportedSpeed(speed_khz),
            ),
            Operation::Attach => StepView::Send(Command::AttachChip, Pending::Attach),
            Operation::Detach => StepView::Send(Command::DetachChip, Pending::Detach),
            Operation::TargetReset => StepView::Send(Command::ResetTarget, Pending::TargetReset),
            Operation::WriteRegister(address, data) => write_started(address, data),
        }
    }

    /// Whether an operation can go on with the reply. A failure can always be handed to it. A
    /// response has to be of the kind that it waits for, and the answer to the last read can only
    /// be reported if there was one.
    pub open spec fn can_resume(
        self,
        pending: Pending,
        reply: Result<Response, DebugProbeError>,
    ) -> bool {
        match reply {
            Ok(response) => {
                &&& pending.expects(response)
                &&& pending is DmiNopLastRead ==> self.last_dmi_read is Some
            },
            Err(_) => true,
        }
    }

    /// The state after a reply. A failure changes nothing.
    pub open spec fn after(
        self,
        pending: Pending,
        reply: Result<Response, DebugProbeError>,
    ) -> LinkState {
        match (pending, reply) {
            (Pending::ProbeInfo, Ok(response)) => self.initialized(response->ProbeInfo_0),
            (Pending::Attach, Ok(response)) => LinkState {
                chip_family: response->Attached_0.chip_family,
                chip_id: response->Attached_0.chip_id,
                ..self
            },
            (Pending::DmiRead, Ok(response)) => LinkState {
                last_dmi_read: Some(dmi_answer(response)),
                ..self
            },
            _ => self,
        }
    }

    /// What an operation does next after a reply. It fails with the failure that is handed to it.
    pub open spec fn next(
        self,
        pending: Pending,
        reply: Result<Response, DebugProbeError>,
    ) -> StepView {
        match reply {
            Err(error) => StepView::Failed(error),
            Ok(response) => match pending {
                Pending::ProbeInfo => {
                    let info = response->ProbeInfo_0;
                    if firmware_too_old(info.major_version, info.minor_version)
                        || firmware_too_new(info.major_version, info.minor_version) {
                        StepView::Failed(DebugProbeError::ProbeFirmwareOutdated)
                    } else {
                        StepView::Finished(OutputView::Done)
                    }
                },
                Pending::SetSpeed(speed) => StepView::Finished(OutputView::SpeedKhz(speed.khz)),
                Pending::Attach => if response->Attached_0.chip_family.flash_protect() {
                    StepView::Send(Command::CheckFlashProtection, Pending::CheckFlashProtection)
                } else {
                    StepView::Finished(OutputView::Done)
                },
                Pending::CheckFlashProtection => StepView::Send(
                    Command::UnprotectFlash,
                    Pending::UnprotectFlash,
                ),
                Pending::UnprotectFlash | Pending::Detach
                | Pending::TargetReset => StepView::Finished(OutputView::Done),
                Pending::DmReset => StepView::Send(
                    dm_write(DMCONTROL_ADDRESS, 1),
                    Pending::DmActivate,
                ),
                Pending::DmActivate => StepView::Finished(dtmcs_output()),
                Pending::DmiRead | Pending::DmiNop | Pending::DmiWrite => StepView::Finished(
                    dmi_output(dmi_answer(response)),
                ),
                Pending::DmiNopLastRead => StepView::Finished(
                    dmi_output(self.last_dmi_read->Some_0),
                ),
            },
        }
    }
}

impl WchLink {
    /// Starts the dialogue with a probe, whose link to the target has the given speed. The
    /// operation initializes the probe.
    pub fn new(speed: Speed) -> (result: (WchLink, Step))
        ensures
            result.0@ == initial_state(speed),
            result.0@.speed == speed,
            result.1@ == StepView::Send(Command::GetProbeInfo, Pending::ProbeInfo),
            result.1@ == result.0@.started(Operation::Init),
    {
        let link = WchLink {
            name: "WCH-Link".to_owned(),
            variant: WchLinkVariant::Ch549,
            v_major: 0,
            v_minor: 0,
            chip_family: RiscvChip::CH32V103,
            chip_id: 0,
            last_dmi_read: None,
            speed,
        };
        (link, Step::Send(Command::GetProbeInfo, Pending::ProbeInfo))
    }

    /// Takes over what the probe tells about itself, unless its firmware is too old.
    pub fn get_probe_info(&mut self, probe_info: ProbeInfo) -> (result: Result<
        (),
        DebugProbeError,
    >)
        ensures
            final(self)@ == old(self)@.with_probe_info(probe_info),
            result == (if firmware_too_old(probe_info.major_version, probe_info.minor_version) {
                Err(DebugProbeError::ProbeFirmwareOutdated)
            } else {
                Ok(())
            }),
    {
        self.v_major = probe_info.major_version;
        self.v_minor = probe_info.minor_version;

        if self.v_major != 0x02 && self.v_minor < 0x07 {
            return Err(DebugProbeError::ProbeFirmwareOutdated);
        }
        self.variant = probe_info.variant;

        Ok(())
    }

    /// Initializes the probe with what it tells about itself, and names it.
    pub fn init(&mut self, probe_info: ProbeInfo) -> (result: Result<(), DebugProbeError>)
        ensures
            final(self)@ == old(self)@.initialized(probe_info),
            result is Ok <==> probe_info.major_version == 2 || probe_info.minor_version == 7,
            result is Ok ==> final(self)@.name == probe_info.variant.label() + " v"@
                + crate::text::decimal(probe_info.major_version as nat) + "."@
                + crate::text::decimal(probe_info.minor_version as nat),
            result == (if firmware_too_old(probe_info.major_version, probe_info.minor_version)
                || firmware_too_new(probe_info.major_version, probe_info.minor_version) {
                Err(DebugProbeError::ProbeFirmwareOutdated)
            } else {
                Ok(())
            }),
    {
        match self.get_probe_info(probe_info) {
            Err(error) => return Err(error),
            Ok(()) => {},
        }

        if self.v_major != 0x02 && self.v_minor > 7 {
            return Err(DebugProbeError::from(WchLinkError::UnsupportedFirmwareVersion));
        }
        let mut name: String = self.variant.to_string();
        name.append(" v");
        push_decimal(&mut name, self.v_major);
        name.append(".");
        push_decimal(&mut name, self.v_minor);
        self.name = name;

        Ok(())
    }

    /// Command that reads a register of the debug module.
    pub fn dmi_op_read(addr: u8) -> (command: Command)
        ensures
            command == Command::DmiOp(DmiOp::Read { addr }),
    {
        Command::DmiOp(DmiOp::Read { addr })
    }

    /// Command that writes a register of the debug module.
    pub fn dmi_op_write(addr: u8, data: u32) -> (command: Command)
        ensures
            command == Command::DmiOp(DmiOp::Write { addr, data }),
    {
        Command::DmiOp(DmiOp::Write { addr, data })
    }

    /// Command that accesses nothing in the debug module.
    pub fn dmi_op_nop() -> (command: Command)
        ensures
            command == Command::DmiOp(DmiOp::Nop),
    {
        Command::DmiOp(DmiOp::Nop)
    }

    /// Name of the probe.
    pub fn get_name(&self) -> (name: &str)
        ensures
            name@ == self@.name,
    {
        self.name.as_str()
    }

    /// Speed of the link to the target, in kHz.
    #[verifier::allow_in_spec]
    pub fn speed_khz(&self) -> (khz: u32)
        ensures
            khz == self@.speed.khz,
        returns
            self@.speed.khz,
    {
        self.speed.to_khz()
    }

    /// Sets the speed of the link to `speed`, the one that the probe offers for `speed_khz`, if it
    /// offers one.
    pub fn set_speed(&self, speed_khz: u32, speed: Option<Speed>) -> (step: Step)
        ensures
            step@ == self@.started(Operation::SetSpeed(speed_khz, speed)),
            speed matches Some(speed) ==> step@ == StepView::Send(
                Command::SetSpeed(self@.chip_family, speed),
                Pending::SetSpeed(speed),
            ),
            speed is None ==> step@ == StepView::Failed(
                DebugProbeError::UnsupportedSpeed(speed_khz),
            ),
    {
        match speed {
            Some(speed) => Step::Send(
                Command::SetSpeed(self.chip_family, speed),
                Pending::SetSpeed(speed),
            ),
            None => Step::Failed(DebugProbeError::UnsupportedSpeed(speed_khz)),
        }
    }

    /// Attaches to the target chip.
    pub fn attach(&self) -> (step: Step)
        ensures
            step@ == self@.started(Operation::Attach),
            step@ == StepView::Send(Command::AttachChip, Pending::Attach),
    {
        Step::Send(Command::AttachChip, Pending::Attach)
    }

    /// Takes over what the probe tells about the chip that it attached to.
    fn attached(&mut self, chip: AttachedChip) -> (step: Step)
        ensures
            final(self)@ == old(self)@.after(Pending::Attach, Ok(Response::Attached(chip))),
            step@ == old(self)@.next(Pending::Attach, Ok(Response::Attached(chip))),
    {
        self.chip_family = chip.chip_family;
        self.chip_id = chip.chip_id;

        if self.chip_family.support_flash_protect() {
            Step::Send(Command::CheckFlashProtection, Pending::CheckFlashProtection)
        } else {
            Step::Finished(Output::Done)
        }
    }

    /// Detaches from the target chip.
    pub fn detach(&self) -> (step: Step)
        ensures
            step@ == self@.started(Operation::Detach),
            step@ == StepView::Send(Command::DetachChip, Pending::Detach),
    {
        Step::Send(Command::DetachChip, Pending::Detach)
    }

    /// Resets the target.
    pub fn target_reset(&self) -> (step: Step)
        ensures
            step@ == self@.started(Operation::TargetReset),
            step@ == StepView::Send(Command::ResetTarget, Pending::TargetReset),
    {
        Step::Send(Command::ResetTarget, Pending::TargetReset)
    }

    /// Holding the target in reset is not implemented.
    pub fn target_reset_assert(&self) -> (result: Result<(), DebugProbeError>)
        ensures
            result matches Err(DebugProbeError::NotImplemented(operation)) && operation@
                == "target_reset_assert"@,
    {
        Err(DebugProbeError::NotImplemented("target_reset_assert"))
    }

    /// Nothing has to be done to release the target from reset.
    pub fn target_reset_deassert(&self) -> (result: Result<(), DebugProbeError>)
        ensures
            result == Ok::<(), DebugProbeError>(()),
    {
        Ok(())
    }

    /// Assumes JTAG, as it is the only supported protocol for RISC-V.
    #[verifier::allow_in_spec]
    pub fn select_protocol(&self, protocol: WireProtocol) -> (result: Result<(), DebugProbeError>)
        ensures
            result == (if protocol == WireProtocol::Jtag {
                Ok(())
            } else {
                Err(DebugProbeError::UnsupportedProtocol(protocol))
            }),
        returns
            (if protocol == WireProtocol::Jtag {
                Ok::<(), DebugProbeError>(())
            } else {
                Err::<(), DebugProbeError>(DebugProbeError::UnsupportedProtocol(protocol))
            }),
    {
        match protocol {
            WireProtocol::Jtag => Ok(()),
            _ => Err(DebugProbeError::UnsupportedProtocol(protocol)),
        }
    }

    /// The protocol that the probe speaks.
    #[verifier::allow_in_spec]
    pub fn active_protocol(&self) -> (protocol: Option<WireProtocol>)
        ensures
            protocol == Some(WireProtocol::Jtag),
        returns
            Some(WireProtocol::Jtag),
    {
        Some(WireProtocol::Jtag)
    }

    /// The probe can debug RISC-V targets.
    pub fn has_riscv_interface(&self) -> (has: bool)
        ensures
            has,
    {
        true
    }

    /// The scan chain is not needed: the probe does not go through JTAG.
    pub fn set_scan_chain(&mut self, _scan_chain: Vec<ScanChainElement>) -> (result: Result<
        (),
        DebugProbeError,
    >)
        ensures
            final(self)@ == old(self)@,
            result == Ok::<(), DebugProbeError>(()),
    {
        Ok(())
    }

    /// The answer of the debug module, as it is kept.
    fn dmi_result(result: DmiResult) -> (answer: (u8, u32, u8))
        ensures
            answer == dmi_answer(Response::Dmi(result)),
    {
        (result.addr, result.data, result.op)
    }

    /// The result that reports an answer of the debug module.
    fn report_dmi(answer: (u8, u32, u8)) -> (output: Output)
        ensures
            output@ == dmi_output(answer),
    {
        let (addr, data, op) = answer;
        Output::Register(to_le_bytes(encode_dmi(addr, data, op), 16))
    }

    /// The result that reports the content of `dtmcs`.
    fn report_dtmcs() -> (output: Output)
        ensures
            output@ == dtmcs_output(),
    {
        Output::Register(to_le_bytes(DTMCS as u128, 4))
    }

    /// Whether [`WchLink::read_register`] can be called.
    pub fn can_read_register(address: u32, len: u32) -> (can: bool)
        ensures
            can == can_read(address, len),
    {
        let register: u8 = (address % 0x100) as u8;
        len == 32 && (register == REG_IDCODE_ADDRESS || register == REG_DTMCS_ADDRESS || register
            == REG_BYPASS_ADDRESS)
    }

    /// Reads a JTAG register. The probe is not asked for it.
    pub fn read_register(&self, address: u32, len: u32) -> (result: Result<
        Vec<u8>,
        DebugProbeError,
    >)
        requires
            can_read(address, len),
        ensures
            result matches Ok(bytes) && bytes@ == crate::bytes::le_bytes(
                register_content(address) as nat,
                4,
            ),
    {
        let register: u8 = (address % 0x100) as u8;
        match register {
            REG_IDCODE_ADDRESS => Ok(to_le_bytes(IDCODE as u128, 4)),
            REG_DTMCS_ADDRESS => Ok(to_le_bytes(DTMCS as u128, 4)),
            _ => Ok(to_le_bytes(0, 4)),
        }
    }

    /// Whether [`WchLink::write_register`] can be called.
    pub fn can_write_register(address: u32, data: &[u8], len: u32) -> (can: bool)
        ensures
            can == can_write(address, data@, len),
    {
        let register: u8 = (address % 0x100) as u8;
        if register == REG_DTMCS_ADDRESS {
            data.len() == 4
        } else {
            register == REG_DMI_ADDRESS && len == DMI_LEN && data.len() == 16 && decode_dmi(
                from_le_bytes(data),
            ).op != 3
        }
    }

    /// Whether a write to a JTAG register asks for a hard reset of the debug module interface, which
    /// [`WchLink::write_register`] does not carry out.
    pub fn asks_for_hard_reset(address: u32, data: &[u8]) -> (asks: bool)
        ensures
            asks == (selected_register(address) == REG_DTMCS_ADDRESS && data@.len() == 4
                && asks_for_dmi_hard_reset(crate::bytes::le_value(data@))),
    {
        let register: u8 = (address % 0x100) as u8;
        if register != REG_DTMCS_ADDRESS || data.len() != 4 {
            return false;
        }
        proof {
            crate::bytes::lemma_le_value_u32(data@);
        }
        let val: u32 = from_le_bytes(data) as u32;
        assert((val & 0x1_0000u32 != 0) == (val / 0x1_0000 % 2 == 1)) by (bit_vector);
        assert((val & 0x2_0000u32 != 0) == (val / 0x2_0000 % 2 == 1)) by (bit_vector);
        val & DTMCS_DMIRESET_MASK == 0 && val & DTMCS_DMIHARDRESET_MASK != 0
    }

    /// Writes a JTAG register and reads what the access results in.
    pub fn write_register(&self, address: u32, data: &[u8], len: u32) -> (step: Step)
        requires
            can_write(address, data@, len),
        ensures
            step@ == self@.started(Operation::WriteRegister(address, data@)),
            address % 0x100 == 0x10 ==> (step@ == StepView::Send(
                Command::DmiOp(DmiOp::Write { addr: 0x10, data: 0 }),
                Pending::DmReset,
            ) <==> data@[2] % 2 == 1),
    {
        let register: u8 = (address % 0x100) as u8;
        let register_value: u128 = from_le_bytes(data);
        proof {
            if register == REG_DTMCS_ADDRESS {
                crate::laws::operations::law_reset_bits(data@);
            }
        }
        if register == REG_DTMCS_ADDRESS {
            proof {
                crate::bytes::lemma_le_value_u32(data@);
            }
            let val: u32 = register_value as u32;
            assert((val & 0x1_0000u32 != 0) == (val / 0x1_0000 % 2 == 1)) by (bit_vector);
            if val & DTMCS_DMIRESET_MASK != 0 {
                // dmcontrol.dmactive is checked later
                Step::Send(Self::dmi_op_write(DMCONTROL_ADDRESS, 0), Pending::DmReset)
            } else {
                // A hard reset of the interface is not supported.
                Step::Finished(Self::report_dtmcs())
            }
        } else {
            let access = decode_dmi(register_value);
            match access.op {
                DMI_OP_READ => Step::Send(Self::dmi_op_read(access.addr), Pending::DmiRead),
                DMI_OP_NOP => {
                    // No idea why NOP with zero addr should return the last read value.
                    if access.addr == 0 && access.value == 0 {
                        Step::Send(Self::dmi_op_nop(), Pending::DmiNopLastRead)
                    } else {
                        Step::Send(Self::dmi_op_nop(), Pending::DmiNop)
                    }
                },
                _ => Step::Send(Self::dmi_op_write(access.addr, access.value), Pending::DmiWrite),
            }
        }
    }

    /// Idle cycles are not needed.
    pub fn set_idle_cycles(&mut self, _idle_cycles: u8)
        ensures
            final(self)@ == old(self)@,
    {
    }

    /// The length of the instruction register is not needed.
    pub fn set_ir_len(&mut self, _len: u32)
        ensures
            final(self)@ == old(self)@,
    {
    }

    /// Whether [`WchLink::resume`] can be called.
    pub fn can_resume(
        &self,
        pending: Pending,
        reply: &Result<Response, DebugProbeError>,
    ) -> (can: bool)
        ensures
            can == self@.can_resume(pending, *reply),
    {
        match reply {
            Err(_) => true,
            Ok(response) => match (pending, response) {
                (Pending::ProbeInfo, Response::ProbeInfo(_)) => true,
                (Pending::Attach, Response::Attached(_)) => true,
                (Pending::DmiNopLastRead, Response::Dmi(_)) => self.last_dmi_read.is_some(),
                (
                    Pending::DmReset
                    | Pending::DmActivate
                    | Pending::DmiRead
                    | Pending::DmiNop
                    | Pending::DmiWrite,
                    Response::Dmi(_),
                ) => true,
                (
                    Pending::SetSpeed(_)
                    | Pending::CheckFlashProtection
                    | Pending::UnprotectFlash
                    | Pending::Detach
                    | Pending::TargetReset,
                    Response::Done,
                ) => true,
                _ => false,
            },
        }
    }

    /// Goes on with an operation once the reply to its last command is there.
    pub fn resume(&mut self, pending: Pending, reply: Result<Response, DebugProbeError>) -> (step:
        Step)
        requires
            old(self)@.can_resume(pending, reply),
        ensures
            final(self)@ == old(self)@.after(pending, reply),
            step@ == old(self)@.next(pending, reply),
    {
        let response = match reply {
            Ok(response) => response,
            Err(error) => return Step::Failed(error),
        };
        match (pending, response) {
            (Pending::ProbeInfo, Response::ProbeInfo(info)) => match self.init(info) {
                Ok(()) => Step::Finished(Output::Done),
                Err(error) => Step::Failed(error),
            },
            (Pending::SetSpeed(speed), _) => Step::Finished(Output::SpeedKhz(speed.to_khz())),
            (Pending::Attach, Response::Attached(chip)) => self.attached(chip),
            (Pending::CheckFlashProtection, _) => Step::Send(
                Command::UnprotectFlash,
                Pending::UnprotectFlash,
            ),
            (Pending::DmReset, _) => Step::Send(
                Self::dmi_op_write(DMCONTROL_ADDRESS, 1),
                Pending::DmActivate,
            ),
            (Pending::DmActivate, _) => Step::Finished(Self::report_dtmcs()),
            (Pending::DmiRead, Response::Dmi(result)) => {
                let answer = Self::dmi_result(result);
                self.last_dmi_read = Some(answer);
                Step::Finished(Self::report_dmi(answer))
            },
            (Pending::DmiNopLastRead, _) => {
                Step::Finished(Self::report_dmi(self.last_dmi_read.unwrap()))
            },
            (Pending::DmiNop | Pending::DmiWrite, Response::Dmi(result)) => {
                Step::Finished(Self::report_dmi(Self::dmi_result(result)))
            },
            _ => Step::Finished(Output::Done),
        }
    }
}

} // verus!
