//! What the operations of the probe send, keep and report.

use crate::chip::RiscvChip;
use crate::command::{AttachedChip, Command, DmiOp, DmiResult, ProbeInfo, Response, Speed};
use crate::dmi::DmiAccess;
use crate::error::{DebugProbeError, WireProtocol};
use crate::laws::{Dialogue, Reply};
use crate::link::{LinkState, WchLink};
use crate::step::{Operation, Output, OutputView, Pending, Step, StepView};
use crate::variant::WchLinkVariant;
use vstd::prelude::*;

verus! {

/// What is stated of a step is stated of the step itself, of its bytes in their order.
pub proof fn law_step_view(
    command: Command,
    pending: Pending,
    khz: u32,
    bytes: Vec<u8>,
    error: DebugProbeError,
)
    ensures
        Step::Send(command, pending)@ == StepView::Send(command, pending),
        Step::Finished(Output::Done)@ == StepView::Finished(OutputView::Done),
        Step::Finished(Output::SpeedKhz(khz))@ == StepView::Finished(OutputView::SpeedKhz(khz)),
        Step::Finished(Output::Register(bytes))@ == StepView::Finished(
            OutputView::Register(bytes@),
        ),
        Step::Failed(error)@ == StepView::Failed(error),
{
}

/// A dialogue that has not been answered sends the command of its step. The first reply decides
/// how it goes on.
pub proof fn law_dialogue(state: LinkState, step: StepView, reply: Reply, replies: Seq<Reply>)
    ensures
        step matches StepView::Send(command, pending) ==> {
            let waiting = crate::laws::dialogue(state, step, Seq::empty());
            let whole = crate::laws::dialogue(state, step, seq![reply] + replies);
            let rest = crate::laws::dialogue(
                state.after(pending, reply),
                state.next(pending, reply),
                replies,
            );
            &&& waiting.sent == seq![command] && waiting.state == state && waiting.step == step
            &&& whole.sent == seq![command] + rest.sent
            &&& whole.state == rest.state
            &&& whole.step == rest.step
        },
        !(step is Send) ==> crate::laws::dialogue(state, step, replies) == (Dialogue {
            sent: Seq::empty(),
            state,
            step,
        }),
{
    assert((seq![reply] + replies).drop_first() =~= replies);
}

/// A probe that has not been talked to is a WCH-Link of the plain variant without a version, with
/// the speed that it was given, and nothing has been read through it.
pub proof fn law_new_probe(speed: Speed)
    ensures
        ({
            let state = crate::link::initial_state(speed);
            &&& state.name == "WCH-Link"@
            &&& state.variant == WchLinkVariant::Ch549
            &&& state.v_major == 0 && state.v_minor == 0
            &&& state.chip_family == RiscvChip::CH32V103 && state.chip_id == 0
            &&& state.last_dmi_read is None
            &&& state.speed == speed
        }),
{
}

/// Whether the name is that of a probe of the variant and with the version: the name of the
/// variant, then the version in decimal.
pub open spec fn is_name_of(name: Seq<char>, variant: WchLinkVariant, major: u8, minor: u8) -> bool {
    let start = match variant {
        WchLinkVariant::Ch549 => "WCH-Link-CH549"@,
        WchLinkVariant::ECh32v305 => "WCH-LinkE-CH32V305"@,
        WchLinkVariant::SCh32v203 => "WCH-LinkS-CH32V203"@,
        WchLinkVariant::WCh32v208 => "WCH-LinkW-CH32V208"@,
    };
    exists|major_text: Seq<char>, minor_text: Seq<char>|
        #![trigger is_decimal_of(major_text, major), is_decimal_of(minor_text, minor)]
        is_decimal_of(major_text, major) && is_decimal_of(minor_text, minor) && name == start
            + " v"@ + major_text + "."@ + minor_text
}

/// Whether the text is the number in decimal digits, without leading zeros.
pub open spec fn is_decimal_of(text: Seq<char>, number: u8) -> bool {
    &&& text.len() > 0
    &&& forall|i: int| 0 <= i < text.len() ==> '0' <= #[trigger] text[i] <= '9'
    &&& text[0] == '0' ==> text.len() == 1
    &&& crate::laws::encoding::parsed(text) == number
}

/// Initialization asks the probe for its info. With supported firmware the probe gets the name of
/// its variant and version, and the variant and the version are known.
pub proof fn law_init(state: LinkState, info: ProbeInfo)
    requires
        info.major_version == 2 || info.minor_version == 7,
    ensures
        ({
            let whole = crate::laws::performed(
                state,
                Operation::Init,
                seq![Ok(Response::ProbeInfo(info))],
            );
            &&& whole.sent == seq![Command::GetProbeInfo]
            &&& whole.step == StepView::Finished(OutputView::Done)
            &&& is_name_of(
                whole.state.name,
                info.variant,
                info.major_version,
                info.minor_version,
            )
            &&& whole.state == state.initialized(info)
            &&& whole.state == (LinkState {
                name: whole.state.name,
                variant: info.variant,
                v_major: info.major_version,
                v_minor: info.minor_version,
                ..state
            })
        }),
{
    crate::laws::lemma_one_reply(
        state,
        state.started(Operation::Init),
        Ok(Response::ProbeInfo(info)),
    );
    crate::laws::encoding::law_decimal(info.major_version as nat);
    crate::laws::encoding::law_decimal(info.minor_version as nat);
    assert(is_decimal_of(
        crate::text::decimal(info.major_version as nat),
        info.major_version,
    ));
    assert(is_decimal_of(
        crate::text::decimal(info.minor_version as nat),
        info.minor_version,
    ));
}

/// With other firmware initialization fails, as outdated. The version is known all the same, the
/// variant only if the firmware is newer, and the name stays.
pub proof fn law_init_refused(state: LinkState, info: ProbeInfo)
    requires
        info.major_version != 2,
        info.minor_version != 7,
    ensures
        ({
            let whole = crate::laws::performed(
                state,
                Operation::Init,
                seq![Ok(Response::ProbeInfo(info))],
            );
            &&& whole.sent == seq![Command::GetProbeInfo]
            &&& whole.step == StepView::Failed(DebugProbeError::ProbeFirmwareOutdated)
            &&& whole.state == state.initialized(info)
            &&& whole.state == (LinkState {
                variant: if info.minor_version > 7 {
                    info.variant
                } else {
                    state.variant
                },
                v_major: info.major_version,
                v_minor: info.minor_version,
                ..state
            })
        }),
{
    crate::laws::lemma_one_reply(
        state,
        state.started(Operation::Init),
        Ok(Response::ProbeInfo(info)),
    );
}

/// What the probe tells about itself is taken over: the version always, the variant unless the
/// firmware is refused for being older than minor version 7.
pub proof fn law_probe_info(state: LinkState, info: ProbeInfo)
    ensures
        crate::link::firmware_too_old(info.major_version, info.minor_version) <==> info.major_version
            != 2 && info.minor_version < 7,
        crate::link::firmware_too_new(info.major_version, info.minor_version) <==> info.major_version
            != 2 && info.minor_version > 7,
        state.with_probe_info(info) == (LinkState {
            variant: if info.major_version == 2 || info.minor_version >= 7 {
                info.variant
            } else {
                state.variant
            },
            v_major: info.major_version,
            v_minor: info.minor_version,
            ..state
        }),
{
}

/// Detaching sends the command for it, whatever chip is attached, and changes nothing that is
/// known of the probe.
pub proof fn law_detach(state: LinkState)
    ensures
        ({
            let whole = crate::laws::performed(
                state,
                Operation::Detach,
                seq![Ok(Response::Done)],
            );
            &&& whole.sent == seq![Command::DetachChip]
            &&& whole.step == StepView::Finished(OutputView::Done)
            &&& whole.state == state
        }),
{
    crate::laws::lemma_one_reply(state, state.started(Operation::Detach), Ok(Response::Done));
}

/// Resetting the target sends the command for it, whatever chip is attached, and changes nothing
/// that is known of the probe.
pub proof fn law_target_reset(state: LinkState)
    ensures
        ({
            let whole = crate::laws::performed(
                state,
                Operation::TargetReset,
                seq![Ok(Response::Done)],
            );
            &&& whole.sent == seq![Command::ResetTarget]
            &&& whole.step == StepView::Finished(OutputView::Done)
            &&& whole.state == state
        }),
{
    crate::laws::lemma_one_reply(state, state.started(Operation::TargetReset), Ok(Response::Done));
}

/// The first command of an operation, if it fails, is all that was sent. The operation fails with
/// the same failure, and nothing has changed.
pub proof fn law_first_command_fails(
    state: LinkState,
    operation: Operation,
    error: DebugProbeError,
)
    ensures
        ({
            let whole = crate::laws::performed(state, operation, seq![Err(error)]);
            &&& whole.state == state
            &&& operation is Init ==> whole.sent == seq![Command::GetProbeInfo]
            &&& operation is Attach ==> whole.sent == seq![Command::AttachChip]
            &&& operation is Detach ==> whole.sent == seq![Command::DetachChip]
            &&& operation is TargetReset ==> whole.sent == seq![Command::ResetTarget]
            &&& operation matches Operation::SetSpeed(_, Some(speed)) ==> whole.sent == seq![
                Command::SetSpeed(state.chip_family, speed),
            ]
            &&& whole.sent.len() > 0 ==> whole.step == StepView::Failed(error)
            &&& whole.sent.len() <= 1
        }),
{
    crate::laws::lemma_one_reply(state, state.started(operation), Err(error));
}

/// The commands of attaching to a chip whose flash can be protected, up to the one that fails: the
/// check, or, after it, lifting the protection. The chip is known then.
pub proof fn law_attach_flash_fails(state: LinkState, chip: AttachedChip, error: DebugProbeError)
    requires
        chip.chip_family.flash_protect(),
    ensures
        ({
            let attached = LinkState {
                chip_family: chip.chip_family,
                chip_id: chip.chip_id,
                ..state
            };
            let check = crate::laws::performed(
                state,
                Operation::Attach,
                seq![Ok(Response::Attached(chip)), Err(error)],
            );
            let lift = crate::laws::performed(
                state,
                Operation::Attach,
                seq![Ok(Response::Attached(chip)), Ok(Response::Done), Err(error)],
            );
            &&& check.sent == seq![Command::AttachChip, Command::CheckFlashProtection]
            &&& check.step == StepView::Failed(error)
            &&& check.state == attached
            &&& lift.sent == seq![
                Command::AttachChip,
                Command::CheckFlashProtection,
                Command::UnprotectFlash,
            ]
            &&& lift.step == StepView::Failed(error)
            &&& lift.state == attached
        }),
{
    reveal_with_fuel(crate::laws::dialogue, 4);
    let first: Seq<Reply> = seq![Ok(Response::Attached(chip)), Err(error)];
    assert(first.drop_first()[0] == Err::<Response, DebugProbeError>(error));
    let check = crate::laws::performed(state, Operation::Attach, first);
    assert(check.sent =~= seq![Command::AttachChip, Command::CheckFlashProtection]);
    let second: Seq<Reply> = seq![Ok(Response::Attached(chip)), Ok(Response::Done), Err(error)];
    assert(second.drop_first()[0] == Ok::<Response, DebugProbeError>(Response::Done));
    assert(second.drop_first().drop_first()[0] == Err::<Response, DebugProbeError>(error));
    let lift = crate::laws::performed(state, Operation::Attach, second);
    assert(lift.sent =~= seq![
        Command::AttachChip,
        Command::CheckFlashProtection,
        Command::UnprotectFlash,
    ]);
}

/// The registers that can be read, and their contents as bytes: the id of the target, `dtmcs` with
/// 7 address bits and version 1.0, and the bypass register.
pub proof fn law_read_register(address: u32, len: u32)
    ensures
        crate::link::can_read(address, len) <==> len == 32 && (address % 0x100 == 0x01 || address
            % 0x100 == 0x10 || address % 0x100 == 0x1f),
        crate::link::can_read(address, len) ==> ({
            let bytes = crate::bytes::le_bytes(crate::link::register_content(address) as nat, 4);
            &&& bytes.len() == 4
            &&& address % 0x100 == 0x01 ==> bytes[0] == 0x01
            &&& address % 0x100 == 0x10 ==> bytes[0] == 0x71
            &&& address % 0x100 == 0x1f ==> bytes[0] == 0
            &&& bytes[1] == 0 && bytes[2] == 0 && bytes[3] == 0
        }),
        crate::link::selected_register(address) == address % 0x100,
{
    reveal_with_fuel(crate::bytes::le_bytes, 5);
}

/// What can be written: four bytes to `dtmcs`, and to `dmi`, as 41 bits in sixteen bytes, every
/// access but one with the reserved operation.
pub proof fn law_can_write(address: u32, data: Seq<u8>, len: u32)
    ensures
        crate::link::can_write(address, data, len) <==> (address % 0x100 == 0x10 && data.len() == 4)
            || (address % 0x100 == 0x11 && data.len() == 16 && len == 41 && data[0] % 4 != 3),
{
    if data.len() == 16 {
        crate::laws::encoding::law_access_in_bytes(data);
    }
}

/// Which bits of `dtmcs` ask for a reset of the interface: bit 16, whatever the others are. Bit 17
/// alone asks for a hard reset.
pub proof fn law_reset_bits(data: Seq<u8>)
    requires
        data.len() == 4,
    ensures
        crate::link::asks_for_dmi_reset(crate::bytes::le_value(data)) <==> data[2] % 2 == 1,
        crate::link::asks_for_dmi_hard_reset(crate::bytes::le_value(data)) <==> data[2] % 4 == 2,
{
    let d1 = data.drop_first();
    let d2 = d1.drop_first();
    let d3 = d2.drop_first();
    assert(d1[0] == data[1] && d2[0] == data[2] && d3[0] == data[3]);
    assert(d3.drop_first() =~= Seq::empty());
    assert(crate::bytes::le_value(d3.drop_first()) == 0);
    assert(crate::bytes::le_value(d3) == data[3]);
    assert(crate::bytes::le_value(d2) == data[2] + 0x100 * data[3]);
    assert(crate::bytes::le_value(d1) == data[1] + 0x100 * data[2] + 0x1_0000 * data[3]);
    let word = crate::bytes::le_value(data);
    assert(word == data[0] + 0x100 * data[1] + 0x1_0000 * data[2] + 0x100_0000 * data[3]);
    assert(word / 0x1_0000 == data[2] + 0x100 * data[3]);
    assert(word / 0x2_0000 == data[2] as int / 2 + 0x80 * data[3]);
}

/// A write to `dtmcs` resets the debug module if and only if bit 16 is set, whatever the other bits
/// are: it is switched off, then on. Otherwise nothing is sent. Either way the write results in the
/// content of `dtmcs`.
pub proof fn law_write_dtmcs(
    state: LinkState,
    address: u32,
    data: Seq<u8>,
    off: DmiResult,
    on: DmiResult,
)
    requires
        address % 0x100 == 0x10,
        data.len() == 4,
    ensures
        state.started(Operation::WriteRegister(address, data)) is Send <==> data[2] % 2 == 1,
        ({
            let whole = crate::laws::performed(
                state,
                Operation::WriteRegister(address, data),
                seq![Ok(Response::Dmi(off)), Ok(Response::Dmi(on))],
            );
            &&& whole.sent == (if data[2] % 2 == 1 {
                seq![
                    Command::DmiOp(DmiOp::Write { addr: 0x10, data: 0 }),
                    Command::DmiOp(DmiOp::Write { addr: 0x10, data: 1 }),
                ]
            } else {
                Seq::empty()
            })
            &&& whole.step == StepView::Finished(OutputView::Register(seq![0x71u8, 0, 0, 0]))
            &&& whole.state == state
        }),
{
    law_reset_bits(data);
    reveal_with_fuel(crate::bytes::le_bytes, 5);
    assert(crate::laws::dtmcs_bytes() =~= seq![0x71u8, 0, 0, 0]);
    let replies: Seq<Reply> = seq![Ok(Response::Dmi(off)), Ok(Response::Dmi(on))];
    if data[2] % 2 == 1 {
        crate::laws::law_dmi_reset(state, address, data, off, on);
    } else {
        crate::laws::law_dtmcs_without_reset(state, address, data, replies);
    }
}

/// If the debug module cannot be switched off, it is not switched on either.
pub proof fn law_dmi_reset_fails(
    state: LinkState,
    address: u32,
    data: Seq<u8>,
    off: DmiResult,
    error: DebugProbeError,
)
    requires
        address % 0x100 == 0x10,
        data.len() == 4,
        data[2] % 2 == 1,
    ensures
        ({
            let operation = Operation::WriteRegister(address, data);
            let first = crate::laws::performed(state, operation, seq![Err(error)]);
            let second = crate::laws::performed(
                state,
                operation,
                seq![Ok(Response::Dmi(off)), Err(error)],
            );
            &&& first.sent == seq![Command::DmiOp(DmiOp::Write { addr: 0x10, data: 0 })]
            &&& first.step == StepView::Failed(error)
            &&& second.sent == seq![
                Command::DmiOp(DmiOp::Write { addr: 0x10, data: 0 }),
                Command::DmiOp(DmiOp::Write { addr: 0x10, data: 1 }),
            ]
            &&& second.step == StepView::Failed(error)
            &&& first.state == state && second.state == state
        }),
{
    law_reset_bits(data);
    let operation = Operation::WriteRegister(address, data);
    crate::laws::lemma_one_reply(state, state.started(operation), Err(error));
    reveal_with_fuel(crate::laws::dialogue, 3);
    let replies: Seq<Reply> = seq![Ok(Response::Dmi(off)), Err(error)];
    assert(replies.drop_first()[0] == Err::<Response, DebugProbeError>(error));
    let second = crate::laws::performed(state, operation, replies);
    assert(second.sent =~= seq![
        Command::DmiOp(DmiOp::Write { addr: 0x10, data: 0 }),
        Command::DmiOp(DmiOp::Write { addr: 0x10, data: 1 }),
    ]);
}

/// The result that reports an answer of the debug module.
pub open spec fn reported(step: StepView, answer: DmiResult) -> bool {
    step matches StepView::Finished(OutputView::Register(bytes))
        && crate::laws::encoding::reports(bytes, answer.addr, answer.data, answer.op)
}

/// A read of the debug module, by the bytes that are written to `dmi`: the addressed register is
/// read, the answer is reported, and it is kept for a no-op to repeat.
pub proof fn law_dmi_read(
    state: LinkState,
    address: u32,
    data: Seq<u8>,
    access: DmiAccess,
    answer: DmiResult,
)
    requires
        address % 0x100 == 0x11,
        data.len() == 16,
        crate::laws::encoding::asks_for(data, access),
        access.op == 1,
    ensures
        ({
            let whole = crate::laws::performed(
                state,
                Operation::WriteRegister(address, data),
                seq![Ok(Response::Dmi(answer))],
            );
            &&& whole.sent == seq![Command::DmiOp(DmiOp::Read { addr: access.addr })]
            &&& reported(whole.step, answer)
            &&& whole.state == (LinkState {
                last_dmi_read: Some((answer.addr, answer.data, answer.op)),
                ..state
            })
        }),
{
    lemma_dmi_access(state, address, data, access, Ok(Response::Dmi(answer)));
    crate::laws::encoding::law_answer_in_bytes(answer.addr, answer.data, answer.op);
}

/// A write to the debug module, by the bytes that are written to `dmi`: the data goes to the
/// addressed register, the answer is reported, and nothing else changes.
pub proof fn law_dmi_write(
    state: LinkState,
    address: u32,
    data: Seq<u8>,
    access: DmiAccess,
    answer: DmiResult,
)
    requires
        address % 0x100 == 0x11,
        data.len() == 16,
        crate::laws::encoding::asks_for(data, access),
        access.op == 2,
    ensures
        ({
            let whole = crate::laws::performed(
                state,
                Operation::WriteRegister(address, data),
                seq![Ok(Response::Dmi(answer))],
            );
            &&& whole.sent == seq![
                Command::DmiOp(DmiOp::Write { addr: access.addr, data: access.value }),
            ]
            &&& reported(whole.step, answer)
            &&& whole.state == state
        }),
{
    lemma_dmi_access(state, address, data, access, Ok(Response::Dmi(answer)));
    crate::laws::encoding::law_answer_in_bytes(answer.addr, answer.data, answer.op);
}

/// A no-op, by the bytes that are written to `dmi`: it is sent, and nothing changes. With a zero
/// address and zero data it can be answered once something was read, and repeats that. Otherwise
/// it reports its own answer.
pub proof fn law_dmi_nop(
    state: LinkState,
    address: u32,
    data: Seq<u8>,
    access: DmiAccess,
    answer: DmiResult,
)
    requires
        address % 0x100 == 0x11,
        data.len() == 16,
        crate::laws::encoding::asks_for(data, access),
        access.op == 0,
    ensures
        ({
            let repeats = access.addr == 0 && access.value == 0;
            let whole = crate::laws::performed(
                state,
                Operation::WriteRegister(address, data),
                seq![Ok(Response::Dmi(answer))],
            );
            &&& whole.sent == seq![Command::DmiOp(DmiOp::Nop)]
            &&& whole.state == state
            &&& !repeats ==> reported(whole.step, answer)
            &&& repeats ==> (state.last_dmi_read matches Some((addr, data, op)) ==> reported(
                whole.step,
                DmiResult { addr, data, op },
            ))
            &&& state.started(
                Operation::WriteRegister(address, data),
            ) matches StepView::Send(_, pending) && (state.can_resume(
                pending,
                Ok(Response::Dmi(answer)),
            ) <==> !repeats || state.last_dmi_read is Some)
        }),
{
    lemma_dmi_access(state, address, data, access, Ok(Response::Dmi(answer)));
    crate::laws::encoding::law_answer_in_bytes(answer.addr, answer.data, answer.op);
    if let Some((addr, data, op)) = state.last_dmi_read {
        crate::laws::encoding::law_answer_in_bytes(addr, data, op);
    }
}

/// An access that is not answered fails like its command, keeps nothing, and sends nothing else.
pub proof fn law_dmi_access_fails(
    state: LinkState,
    address: u32,
    data: Seq<u8>,
    access: DmiAccess,
    error: DebugProbeError,
)
    requires
        address % 0x100 == 0x11,
        data.len() == 16,
        crate::laws::encoding::asks_for(data, access),
        access.op < 3,
    ensures
        ({
            let whole = crate::laws::performed(
                state,
                Operation::WriteRegister(address, data),
                seq![Err(error)],
            );
            &&& access.op == 0 ==> whole.sent == seq![Command::DmiOp(DmiOp::Nop)]
            &&& access.op == 1 ==> whole.sent == seq![
                Command::DmiOp(DmiOp::Read { addr: access.addr }),
            ]
            &&& access.op == 2 ==> whole.sent == seq![
                Command::DmiOp(DmiOp::Write { addr: access.addr, data: access.value }),
            ]
            &&& whole.step == StepView::Failed(error)
            &&& whole.state == state
        }),
{
    lemma_dmi_access(state, address, data, access, Err(error));
}

/// The dialogue of an access to the debug module has one reply.
proof fn lemma_dmi_access(
    state: LinkState,
    address: u32,
    data: Seq<u8>,
    access: DmiAccess,
    reply: Reply,
)
    requires
        address % 0x100 == 0x11,
        data.len() == 16,
        crate::laws::encoding::asks_for(data, access),
    ensures
        crate::dmi::dmi_access(crate::bytes::le_value(data)) == access,
        ({
            let started = state.started(Operation::WriteRegister(address, data));
            let whole = crate::laws::performed(
                state,
                Operation::WriteRegister(address, data),
                seq![reply],
            );
            started matches StepView::Send(command, pending) && {
                &&& whole.state == state.after(pending, reply)
                &&& whole.step == state.next(pending, reply)
                &&& !(whole.step is Send) ==> whole.sent == seq![command]
            }
        }),
{
    crate::laws::encoding::law_access_in_bytes(data);
    crate::laws::lemma_one_reply(
        state,
        state.started(Operation::WriteRegister(address, data)),
        reply,
    );
}

/// The kind of response that each command is answered with.
pub proof fn law_answers(command: Command, response: Response)
    ensures
        response.is_answer_to(command) <==> match response {
            Response::ProbeInfo(_) => command == Command::GetProbeInfo,
            Response::Attached(_) => command == Command::AttachChip,
            Response::Dmi(_) => command is DmiOp,
            Response::Done => command == Command::DetachChip || command == Command::ResetTarget
                || command == Command::CheckFlashProtection || command == Command::UnprotectFlash
                || command is SetSpeed,
        },
{
}

/// An operation goes on with every failure, and with every answer to the command that it asked
/// for, unless that is a no-op that repeats a read and nothing has been read.
pub proof fn law_can_go_on(
    state: LinkState,
    operation: Operation,
    pending: Pending,
    reply: Reply,
    response: Response,
    error: DebugProbeError,
)
    ensures
        state.can_resume(pending, Err(error)),
        state.started(operation) matches StepView::Send(command, awaited) ==> (state.can_resume(
            awaited,
            Ok(response),
        ) <==> response.is_answer_to(command) && (awaited is DmiNopLastRead ==> state.last_dmi_read
            is Some)),
        state.next(pending, reply) matches StepView::Send(command, awaited) ==> (state.can_resume(
            awaited,
            Ok(response),
        ) <==> response.is_answer_to(command)),
{
}

/// What a reply changes: only the answers to initialization, to attaching and to a read of the
/// debug module change anything.
pub proof fn law_what_replies_change(state: LinkState, pending: Pending, reply: Reply)
    ensures
        ({
            let after = state.after(pending, reply);
            &&& after.speed == state.speed
            &&& !(pending is ProbeInfo) || reply is Err ==> after.name == state.name && after.variant
                == state.variant && after.v_major == state.v_major && after.v_minor
                == state.v_minor
            &&& !(pending is Attach) || reply is Err ==> after.chip_family == state.chip_family
                && after.chip_id == state.chip_id
            &&& !(pending is DmiRead) || reply is Err ==> after.last_dmi_read
                == state.last_dmi_read
        }),
{
}

/// How an operation goes on after its first command, in every state of the probe.
pub proof fn law_later_steps(
    state: LinkState,
    chip: AttachedChip,
    speed: Speed,
    answer: DmiResult,
)
    ensures
        state.next(Pending::Attach, Ok(Response::Attached(chip))) is Send
            <==> chip.chip_family.flash_protect(),
        state.next(Pending::CheckFlashProtection, Ok(Response::Done)) == StepView::Send(
            Command::UnprotectFlash,
            Pending::UnprotectFlash,
        ),
        state.next(Pending::UnprotectFlash, Ok(Response::Done)) == StepView::Finished(
            OutputView::Done,
        ),
        state.next(Pending::SetSpeed(speed), Ok(Response::Done)) == StepView::Finished(
            OutputView::SpeedKhz(speed.khz),
        ),
        state.next(Pending::Detach, Ok(Response::Done)) == StepView::Finished(OutputView::Done),
        state.next(Pending::TargetReset, Ok(Response::Done)) == StepView::Finished(
            OutputView::Done,
        ),
        state.next(Pending::DmReset, Ok(Response::Dmi(answer))) == StepView::Send(
            Command::DmiOp(DmiOp::Write { addr: 0x10, data: 1 }),
            Pending::DmActivate,
        ),
        state.next(Pending::DmActivate, Ok(Response::Dmi(answer))) == StepView::Finished(
            OutputView::Register(seq![0x71u8, 0, 0, 0]),
        ),
        reported(state.next(Pending::DmiRead, Ok(Response::Dmi(answer))), answer),
        reported(state.next(Pending::DmiWrite, Ok(Response::Dmi(answer))), answer),
        reported(state.next(Pending::DmiNop, Ok(Response::Dmi(answer))), answer),
        state.last_dmi_read matches Some((addr, data, op)) ==> reported(
            state.next(Pending::DmiNopLastRead, Ok(Response::Dmi(answer))),
            DmiResult { addr, data, op },
        ),
{
    reveal_with_fuel(crate::bytes::le_bytes, 5);
    assert(crate::laws::dtmcs_bytes() =~= seq![0x71u8, 0, 0, 0]);
    crate::laws::encoding::law_answer_in_bytes(answer.addr, answer.data, answer.op);
    if let Some((addr, data, op)) = state.last_dmi_read {
        crate::laws::encoding::law_answer_in_bytes(addr, data, op);
    }
}

/// The protocol that can be selected is the one that the probe speaks, which is JTAG. Every other
/// is refused, and the refusal names it.
pub proof fn law_protocols(link: WchLink, protocol: WireProtocol)
    ensures
        link.active_protocol() == Some(WireProtocol::Jtag),
        link.select_protocol(protocol) is Ok <==> link.active_protocol() == Some(protocol),
        link.select_protocol(protocol) matches Err(error) ==> error
            == DebugProbeError::UnsupportedProtocol(protocol),
{
}

/// The speed that a probe reports is the same before and after every operation, and a new probe
/// reports the one that it was given.
pub proof fn law_reported_speed(
    before: WchLink,
    after: WchLink,
    operation: Operation,
    replies: Seq<Reply>,
    speed: Speed,
)
    requires
        after@ == crate::laws::performed(before@, operation, replies).state,
    ensures
        after.speed_khz() == before.speed_khz(),
        before@ == crate::link::initial_state(speed) ==> after.speed_khz() == speed.khz,
{
    crate::laws::law_what_operations_change(before@, operation, replies);
}

} // verus!
