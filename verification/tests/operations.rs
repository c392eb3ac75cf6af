use wlink::chip::RiscvChip;
use wlink::command::{AttachedChip, Command, DmiOp, DmiResult, ProbeInfo, Response, Speed};
use wlink::error::{DebugProbeError, WchLinkError, WireProtocol};
use wlink::link::{ScanChainElement, WchLink};
use wlink::step::{Output, Pending, Step};
use wlink::variant::WchLinkVariant;

const SPEED: Speed = Speed { khz: 6000 };

fn info(major_version: u8, minor_version: u8) -> Response {
    Response::ProbeInfo(ProbeInfo {
        major_version,
        minor_version,
        variant: WchLinkVariant::ECh32v305,
    })
}

fn dmi(addr: u8, data: u32, op: u8) -> Response {
    Response::Dmi(DmiResult { addr, data, op })
}

fn access(addr: u8, value: u32, op: u8) -> Vec<u8> {
    ((addr as u128) << 34 | (value as u128) << 2 | op as u128).to_le_bytes().to_vec()
}

fn register(addr: u8, data: u32, op: u8) -> Step {
    Step::Finished(Output::Register(access(addr, data, op)))
}

fn failure() -> DebugProbeError {
    DebugProbeError::Usb("timeout".to_string())
}

fn reply(link: &mut WchLink, pending: Pending, response: Response) -> Step {
    let reply = Ok(response);
    assert!(link.can_resume(pending, &reply));
    link.resume(pending, reply)
}

fn initialized() -> WchLink {
    let (mut link, step) = WchLink::new(SPEED);
    assert_eq!(step, Step::Send(Command::GetProbeInfo, Pending::ProbeInfo));
    assert_eq!(
        reply(&mut link, Pending::ProbeInfo, info(2, 8)),
        Step::Finished(Output::Done)
    );
    link
}

fn attached(chip_family: RiscvChip) -> (WchLink, Step) {
    let mut link = initialized();
    assert_eq!(link.attach(), Step::Send(Command::AttachChip, Pending::Attach));
    let chip = AttachedChip { chip_family, chip_id: 0x0030_0500 };
    let step = reply(&mut link, Pending::Attach, Response::Attached(chip));
    (link, step)
}

#[test]
fn a_new_probe_asks_for_its_info() {
    let (link, step) = WchLink::new(SPEED);
    assert_eq!(step, Step::Send(Command::GetProbeInfo, Pending::ProbeInfo));
    assert_eq!(link.get_name(), "WCH-Link");
    assert_eq!(link.speed_khz(), 6000);
    assert_eq!(
        format!("{:?}", link),
        "WchLink { name: \"WCH-Link\", variant: Ch549, v_major: 0, v_minor: 0, \
         chip_family: CH32V103, chip_id: 0, last_dmi_read: None, speed: Speed { khz: 6000 } }"
    );
}

#[test]
fn an_initialized_probe_has_a_name() {
    assert_eq!(initialized().get_name(), "WCH-LinkE-CH32V305 v2.8");
    let (mut link, _) = WchLink::new(SPEED);
    assert_eq!(link.init(ProbeInfo {
        major_version: 2,
        minor_version: 31,
        variant: WchLinkVariant::WCh32v208,
    }), Ok(()));
    assert_eq!(link.get_name(), "WCH-LinkW-CH32V208 v2.31");
}

#[test]
fn firmware_versions() {
    for major in 0..=4u8 {
        for minor in 0..=20u8 {
            let (mut link, _) = WchLink::new(SPEED);
            let step = reply(&mut link, Pending::ProbeInfo, info(major, minor));
            if major == 2 || minor == 7 {
                assert_eq!(step, Step::Finished(Output::Done));
                assert_eq!(
                    link.get_name(),
                    format!("WCH-LinkE-CH32V305 v{}.{}", major, minor)
                );
            } else {
                assert_eq!(step, Step::Failed(DebugProbeError::ProbeFirmwareOutdated));
                assert_eq!(link.get_name(), "WCH-Link");
            }
        }
    }
}

#[test]
fn old_firmware_leaves_the_variant() {
    let (mut link, _) = WchLink::new(SPEED);
    let old = ProbeInfo { major_version: 1, minor_version: 6, variant: WchLinkVariant::SCh32v203 };
    assert_eq!(link.get_probe_info(old), Err(DebugProbeError::ProbeFirmwareOutdated));
    assert!(format!("{:?}", link).contains("variant: Ch549, v_major: 1, v_minor: 6"));

    let new = ProbeInfo { major_version: 3, minor_version: 8, variant: WchLinkVariant::SCh32v203 };
    assert_eq!(link.get_probe_info(new), Ok(()));
    assert!(format!("{:?}", link).contains("variant: SCh32v203, v_major: 3, v_minor: 8"));
    assert_eq!(link.init(new), Err(DebugProbeError::ProbeFirmwareOutdated));
}

#[test]
fn attaching_unprotects_the_flash() {
    let (mut link, step) = attached(RiscvChip::CH32V003);
    assert_eq!(
        step,
        Step::Send(Command::CheckFlashProtection, Pending::CheckFlashProtection)
    );
    assert_eq!(
        reply(&mut link, Pending::CheckFlashProtection, Response::Done),
        Step::Send(Command::UnprotectFlash, Pending::UnprotectFlash)
    );
    assert_eq!(
        reply(&mut link, Pending::UnprotectFlash, Response::Done),
        Step::Finished(Output::Done)
    );
}

#[test]
fn attaching_leaves_other_flash_alone() {
    let (_, step) = attached(RiscvChip::CH58X);
    assert_eq!(step, Step::Finished(Output::Done));
}

#[test]
fn the_chip_is_known_though_the_flash_fails() {
    let (mut link, _) = attached(RiscvChip::CH643);
    assert_eq!(
        link.resume(Pending::CheckFlashProtection, Err(failure())),
        Step::Failed(failure())
    );
    assert!(format!("{:?}", link).contains("chip_family: CH643, chip_id: 3147008"));
}

#[test]
fn every_failure_ends_the_operation() {
    let stages = [
        Pending::ProbeInfo,
        Pending::SetSpeed(SPEED),
        Pending::Attach,
        Pending::CheckFlashProtection,
        Pending::UnprotectFlash,
        Pending::Detach,
        Pending::TargetReset,
        Pending::DmReset,
        Pending::DmActivate,
        Pending::DmiRead,
        Pending::DmiNop,
        Pending::DmiNopLastRead,
        Pending::DmiWrite,
    ];
    let mut link = initialized();
    let before = format!("{:?}", link);
    for pending in stages {
        let error = || DebugProbeError::ProbeSpecific(WchLinkError::Protocol(0x55, vec![1]));
        assert!(link.can_resume(pending, &Err(error())));
        assert_eq!(link.resume(pending, Err(error())), Step::Failed(error()));
        assert_eq!(format!("{:?}", link), before);
    }
}

#[test]
fn responses_of_the_wrong_kind_are_not_taken() {
    let link = initialized();
    assert!(!link.can_resume(Pending::ProbeInfo, &Ok(Response::Done)));
    assert!(!link.can_resume(Pending::Attach, &Ok(info(2, 8))));
    assert!(!link.can_resume(Pending::DmiRead, &Ok(Response::Done)));
    assert!(!link.can_resume(Pending::Detach, &Ok(dmi(0, 0, 0))));
    assert!(!link.can_resume(Pending::SetSpeed(SPEED), &Ok(dmi(0, 0, 0))));
    assert!(link.can_resume(Pending::TargetReset, &Ok(Response::Done)));
}

#[test]
fn speeds() {
    let (mut link, _) = attached(RiscvChip::CH57X);
    let speed = Speed { khz: 400 };
    assert_eq!(
        link.set_speed(1000, Some(speed)),
        Step::Send(Command::SetSpeed(RiscvChip::CH57X, speed), Pending::SetSpeed(speed))
    );
    assert_eq!(
        reply(&mut link, Pending::SetSpeed(speed), Response::Done),
        Step::Finished(Output::SpeedKhz(400))
    );
    assert_eq!(link.speed_khz(), 6000);
    assert_eq!(
        link.set_speed(1, None),
        Step::Failed(DebugProbeError::UnsupportedSpeed(1))
    );
}

#[test]
fn detaching_and_resetting() {
    let mut link = initialized();
    assert_eq!(link.detach(), Step::Send(Command::DetachChip, Pending::Detach));
    assert_eq!(reply(&mut link, Pending::Detach, Response::Done), Step::Finished(Output::Done));
    assert_eq!(link.target_reset(), Step::Send(Command::ResetTarget, Pending::TargetReset));
    assert_eq!(
        reply(&mut link, Pending::TargetReset, Response::Done),
        Step::Finished(Output::Done)
    );
    assert_eq!(
        link.target_reset_assert(),
        Err(DebugProbeError::NotImplemented("target_reset_assert"))
    );
    assert_eq!(link.target_reset_deassert(), Ok(()));
}

#[test]
fn only_jtag_is_spoken() {
    let link = initialized();
    assert_eq!(link.select_protocol(WireProtocol::Jtag), Ok(()));
    assert_eq!(
        link.select_protocol(WireProtocol::Swd),
        Err(DebugProbeError::UnsupportedProtocol(WireProtocol::Swd))
    );
    assert_eq!(link.active_protocol(), Some(WireProtocol::Jtag));
    assert!(link.has_riscv_interface());
}

#[test]
fn jtag_settings_change_nothing() {
    let mut link = initialized();
    let before = format!("{:?}", link);
    link.set_idle_cycles(7);
    link.set_ir_len(5);
    let chain = vec![ScanChainElement { name: Some("core".to_string()), ir_len: Some(5) }];
    assert_eq!(link.set_scan_chain(chain), Ok(()));
    assert_eq!(format!("{:?}", link), before);
}

#[test]
fn registers_are_read_without_the_probe() {
    let link = initialized();
    assert_eq!(link.read_register(0x01, 32), Ok(vec![1, 0, 0, 0]));
    assert_eq!(link.read_register(0x10, 32), Ok(vec![0x71, 0, 0, 0]));
    assert_eq!(link.read_register(0x1f, 32), Ok(vec![0, 0, 0, 0]));
    assert_eq!(link.read_register(0x310, 32), Ok(vec![0x71, 0, 0, 0]));
}

#[test]
fn a_dmi_reset_switches_the_debug_module() {
    let mut link = initialized();
    let off = Command::DmiOp(DmiOp::Write { addr: 0x10, data: 0 });
    let on = Command::DmiOp(DmiOp::Write { addr: 0x10, data: 1 });
    assert_eq!(
        link.write_register(0x10, &[0, 0, 1, 0], 32),
        Step::Send(off, Pending::DmReset)
    );
    assert_eq!(
        reply(&mut link, Pending::DmReset, dmi(0x10, 0, 0)),
        Step::Send(on, Pending::DmActivate)
    );
    assert_eq!(
        reply(&mut link, Pending::DmActivate, dmi(0x10, 1, 0)),
        Step::Finished(Output::Register(vec![0x71, 0, 0, 0]))
    );
    // The bit for a hard reset makes no difference.
    assert_eq!(
        link.write_register(0x10, &[0, 0, 3, 0], 32),
        Step::Send(off, Pending::DmReset)
    );
}

#[test]
fn other_writes_to_dtmcs_send_nothing() {
    let link = initialized();
    let content = || Step::Finished(Output::Register(vec![0x71, 0, 0, 0]));
    assert_eq!(link.write_register(0x10, &[0, 0, 0, 0], 32), content());
    assert_eq!(link.write_register(0x10, &[0, 0, 2, 0], 32), content());
    assert_eq!(link.write_register(0x10, &[0xff, 0xff, 0xfe, 0xff], 32), content());
}

#[test]
fn a_read_is_sent_and_reported() {
    let mut link = initialized();
    assert_eq!(
        link.write_register(0x11, &access(0x11, 0, 1), 41),
        Step::Send(Command::DmiOp(DmiOp::Read { addr: 0x11 }), Pending::DmiRead)
    );
    assert_eq!(
        reply(&mut link, Pending::DmiRead, dmi(0x11, 0x0040_0382, 0)),
        register(0x11, 0x0040_0382, 0)
    );
}

#[test]
fn a_write_is_sent_and_reported() {
    let mut link = initialized();
    assert_eq!(
        link.write_register(0x411, &access(0x17, 0x0022_1008, 2), 41),
        Step::Send(
            Command::DmiOp(DmiOp::Write { addr: 0x17, data: 0x0022_1008 }),
            Pending::DmiWrite
        )
    );
    assert_eq!(
        reply(&mut link, Pending::DmiWrite, dmi(0x17, 5, 2)),
        register(0x17, 5, 2)
    );
}

#[test]
fn the_highest_address_bit_is_kept() {
    let mut link = initialized();
    let data = [1, 0, 0, 0, 0, 1, 0, 0, 0, 0, 0, 0, 0, 0, 0, 0];
    assert_eq!(
        link.write_register(0x11, &data, 41),
        Step::Send(Command::DmiOp(DmiOp::Read { addr: 0x40 }), Pending::DmiRead)
    );
    assert_eq!(
        reply(&mut link, Pending::DmiRead, dmi(0x40, 1, 0)),
        register(0x40, 1, 0)
    );
    assert_eq!(
        link.write_register(0x11, &access(0x40, 9, 2), 41),
        Step::Send(Command::DmiOp(DmiOp::Write { addr: 0x40, data: 9 }), Pending::DmiWrite)
    );
    assert_eq!(
        link.write_register(0x11, &access(0x40, 0, 0), 41),
        Step::Send(Command::DmiOp(DmiOp::Nop), Pending::DmiNop)
    );
}

#[test]
fn a_nop_repeats_the_last_read() {
    let mut link = initialized();
    let nop = Command::DmiOp(DmiOp::Nop);
    assert_eq!(
        link.write_register(0x11, &access(0, 0, 0), 41),
        Step::Send(nop, Pending::DmiNopLastRead)
    );
    // Nothing has been read yet.
    assert!(!link.can_resume(Pending::DmiNopLastRead, &Ok(dmi(1, 2, 3))));

    let read = reply(&mut link, Pending::DmiRead, dmi(0x04, 0x1234_5678, 0));
    reply(&mut link, Pending::DmiWrite, dmi(0x17, 1, 0));
    reply(&mut link, Pending::DmiNop, dmi(0x18, 2, 0));
    link.resume(Pending::DmiRead, Err(failure()));
    reply(&mut link, Pending::TargetReset, Response::Done);
    assert_eq!(reply(&mut link, Pending::DmiNopLastRead, dmi(9, 9, 1)), read);
    assert_eq!(read, register(0x04, 0x1234_5678, 0));

    let newer = reply(&mut link, Pending::DmiRead, dmi(0x05, 7, 0));
    assert_eq!(reply(&mut link, Pending::DmiNopLastRead, dmi(9, 9, 1)), newer);
}

#[test]
fn another_nop_reports_its_own_answer() {
    let mut link = initialized();
    let nop = Command::DmiOp(DmiOp::Nop);
    assert_eq!(
        link.write_register(0x11, &access(1, 0, 0), 41),
        Step::Send(nop, Pending::DmiNop)
    );
    assert_eq!(
        link.write_register(0x11, &access(0, 1, 0), 41),
        Step::Send(nop, Pending::DmiNop)
    );
    assert_eq!(reply(&mut link, Pending::DmiNop, dmi(3, 4, 1)), register(3, 4, 1));
}

#[test]
fn commands_to_the_debug_module() {
    assert_eq!(WchLink::dmi_op_nop(), Command::DmiOp(DmiOp::Nop));
    assert_eq!(WchLink::dmi_op_read(4), Command::DmiOp(DmiOp::Read { addr: 4 }));
    assert_eq!(
        WchLink::dmi_op_write(4, 5),
        Command::DmiOp(DmiOp::Write { addr: 4, data: 5 })
    );
}
