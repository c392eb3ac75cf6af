//! What holds of the probe as a whole.

pub mod discovery;
pub mod encoding;
pub mod identity;
pub mod operations;

use crate::chip::RiscvChip;
use crate::command::{AttachedChip, Command, DmiOp, DmiResult, ProbeInfo, Response, Speed};
use crate::discovery::{DebugProbeInfoView, DebugProbeType, UsbDevice};
use crate::error::DebugProbeError;
use crate::link::LinkState;
use crate::step::{Operation, OutputView, Pending, StepView};
use crate::variant::WchLinkVariant;
use vstd::prelude::*;

verus! {

/// A reply to a command: the response, or why there is none.
pub type Reply = Result<Response, DebugProbeError>;

/// How far a dialogue got.
pub struct Dialogue {
    /// The commands that were asked for, in order.
    pub sent: Seq<Command>,
    /// The state of the probe.
    pub state: LinkState,
    /// The last step of the operation.
    pub step: StepView,
}

/// The dialogue that goes on from a state and a step with the replies that come back, one for each
/// command. It ends where the operation does, or where it waits for a reply that has not come.
pub open spec fn dialogue(state: LinkState, step: StepView, replies: Seq<Reply>) -> Dialogue
    decreases replies.len(),
{
    match step {
        StepView::Send(command, pending) => if replies.len() == 0 {
            Dialogue { sent: seq![command], state, step }
        } else {
            let rest = dialogue(
                state.after(pending, replies[0]),
                state.next(pending, replies[0]),
                replies.drop_first(),
            );
            Dialogue { sent: seq![command] + rest.sent, ..rest }
        },
        _ => Dialogue { sent: Seq::empty(), state, step },
    }
}

/// The dialogue of an operation.
pub open spec fn performed(
    state: LinkState,
    operation: Operation,
    replies: Seq<Reply>,
) -> Dialogue {
    dialogue(state, state.started(operation), replies)
}

/// The variant of a probe is found from its number, and 0x12 is the only other number that stands
/// for a variant.
pub proof fn law_variant_numbers(value: u8, variant: WchLinkVariant)
    ensures
        WchLinkVariant::from_code(value) == Some(variant) <==> (value == variant.code() || (value
            == 0x12 && variant == WchLinkVariant::ECh32v305)),
{
}

/// The chip family is found from its number, and from no other.
pub proof fn law_chip_numbers(value: u8, chip: RiscvChip)
    ensures
        RiscvChip::from_code(value) == Some(chip) <==> value == chip.code(),
{
}

/// A chip family that falls back on another, or is the same as another, is treated like it when
/// it comes to the protection of the flash.
pub proof fn law_fallback_families()
    ensures
        RiscvChip::CH32V30X.flash_protect() == RiscvChip::CH32V20X.flash_protect(),
        RiscvChip::CH59X.flash_protect() == RiscvChip::CH58X.flash_protect(),
        RiscvChip::CH32X035.flash_protect() == RiscvChip::CH643.flash_protect(),
        RiscvChip::CH641.flash_protect() == RiscvChip::CH32V003.flash_protect(),
{
}

/// Whoever answers the command that an operation asks for hands it a response of the kind that it
/// waits for.
pub proof fn law_answers_are_expected(
    state: LinkState,
    operation: Operation,
    pending: Pending,
    reply: Reply,
    response: Response,
)
    ensures
        state.started(operation) matches StepView::Send(command, awaited) ==> (
        response.is_answer_to(command) <==> awaited.expects(response)),
        state.next(pending, reply) matches StepView::Send(command, awaited) ==> (
        response.is_answer_to(command) <==> awaited.expects(response)),
{
}

/// A failed command ends the operation with the same failure, and leaves the probe as it was
/// before the command.
pub proof fn law_failure_ends_operation(state: LinkState, pending: Pending, error: DebugProbeError)
    ensures
        state.after(pending, Err(error)) == state,
        state.next(pending, Err(error)) == StepView::Failed(error),
{
}

proof fn lemma_failed_dialogue(state: LinkState, step: StepView, replies: Seq<Reply>, k: int)
    requires
        0 <= k < replies.len(),
        replies[k] is Err,
    ensures
        dialogue(state, step, replies).sent.len() <= k + 1,
        !(dialogue(state, step, replies).step is Send),
    decreases replies.len(),
{
    if let StepView::Send(command, pending) = step {
        let after = state.after(pending, replies[0]);
        let next = state.next(pending, replies[0]);
        if k > 0 {
            lemma_failed_dialogue(after, next, replies.drop_first(), k - 1);
        } else {
            assert(dialogue(after, next, replies.drop_first()).sent.len() == 0);
        }
    }
}

/// Once a command has failed, no further command is sent.
pub proof fn law_nothing_sent_after_failure(
    state: LinkState,
    operation: Operation,
    replies: Seq<Reply>,
    k: int,
)
    requires
        0 <= k < replies.len(),
        replies[k] is Err,
    ensures
        performed(state, operation, replies).sent.len() <= k + 1,
        !(performed(state, operation, replies).step is Send),
{
    lemma_failed_dialogue(state, state.started(operation), replies, k);
}

/// How many commands a step can lead to, its own included.
spec fn commands_left(step: StepView) -> nat {
    match step {
        StepView::Send(_, Pending::Attach) => 3,
        StepView::Send(_, Pending::CheckFlashProtection) => 2,
        StepView::Send(_, Pending::DmReset) => 2,
        StepView::Send(_, _) => 1,
        _ => 0,
    }
}

proof fn lemma_commands_left(state: LinkState, step: StepView, replies: Seq<Reply>)
    ensures
        dialogue(state, step, replies).sent.len() <= commands_left(step),
        replies.len() >= commands_left(step) ==> !(dialogue(state, step, replies).step is Send),
    decreases replies.len(),
{
    if let StepView::Send(command, pending) = step {
        if replies.len() > 0 {
            lemma_commands_left(
                state.after(pending, replies[0]),
                state.next(pending, replies[0]),
                replies.drop_first(),
            );
        }
    }
}

/// Every operation ends after at most three commands.
pub proof fn law_operations_end(state: LinkState, operation: Operation, replies: Seq<Reply>)
    ensures
        performed(state, operation, replies).sent.len() <= 3,
        replies.len() >= 3 ==> !(performed(state, operation, replies).step is Send),
{
    lemma_commands_left(state, state.started(operation), replies);
}

/// The kind of output that an operation can have.
pub open spec fn output_kind(operation: Operation, output: OutputView) -> bool {
    match operation {
        Operation::SetSpeed(_, _) => output is SpeedKhz,
        Operation::WriteRegister(_, _) => output is Register,
        _ => output is Done,
    }
}

/// Whether what is pending belongs to the operation.
spec fn part_of(operation: Operation, pending: Pending) -> bool {
    match pending {
        Pending::ProbeInfo => operation is Init,
        Pending::SetSpeed(_) => operation is SetSpeed,
        Pending::Attach | Pending::CheckFlashProtection
        | Pending::UnprotectFlash => operation is Attach,
        Pending::Detach => operation is Detach,
        Pending::TargetReset => operation is TargetReset,
        _ => operation is WriteRegister,
    }
}

proof fn lemma_output_kind(
    state: LinkState,
    operation: Operation,
    step: StepView,
    replies: Seq<Reply>,
)
    requires
        step matches StepView::Send(_, pending) ==> part_of(operation, pending),
        step matches StepView::Finished(output) ==> output_kind(operation, output),
    ensures
        dialogue(state, step, replies).step matches StepView::Finished(output) ==> output_kind(
            operation,
            output,
        ),
    decreases replies.len(),
{
    if let StepView::Send(command, pending) = step {
        if replies.len() > 0 {
            lemma_output_kind(
                state.after(pending, replies[0]),
                operation,
                state.next(pending, replies[0]),
                replies.drop_first(),
            );
        }
    }
}

/// Setting the speed outputs a speed, writing a register outputs its content, and the other
/// operations output nothing.
pub proof fn law_output_kind(state: LinkState, operation: Operation, replies: Seq<Reply>)
    ensures
        performed(state, operation, replies).step matches StepView::Finished(output)
            ==> output_kind(operation, output),
{
    lemma_output_kind(state, operation, state.started(operation), replies);
}

/// Encoding a number that fits and decoding it again gives the number back.
pub proof fn law_bytes_decode_encode(value: nat, count: nat)
    requires
        value < vstd::arithmetic::power::pow(256, count),
    ensures
        crate::bytes::le_bytes(value, count).len() == count,
        crate::bytes::le_value(crate::bytes::le_bytes(value, count)) == value,
    decreases count,
{
    reveal(vstd::arithmetic::power::pow);
    if count > 0 {
        law_bytes_decode_encode(value / 256, (count - 1) as nat);
        let bytes = crate::bytes::le_bytes(value, count);
        assert(bytes.drop_first() =~= crate::bytes::le_bytes(value / 256, (count - 1) as nat));
    }
}

/// Decoding a byte string and encoding it again gives the byte string back.
pub proof fn law_bytes_encode_decode(bytes: Seq<u8>)
    ensures
        crate::bytes::le_bytes(crate::bytes::le_value(bytes), bytes.len()) == bytes,
    decreases bytes.len(),
{
    if bytes.len() > 0 {
        law_bytes_encode_decode(bytes.drop_first());
        assert(bytes =~= seq![bytes[0]] + bytes.drop_first());
    } else {
        assert(bytes =~= Seq::empty());
    }
}

/// Unless the status has more than two bits, the `dmi` register holds the address, the data and
/// the status of an answer side by side.
pub proof fn law_dmi_word_value(addr: u8, data: u32, op: u8)
    requires
        op < 4,
    ensures
        crate::dmi::dmi_word(addr, data, op) == addr * 0x4_0000_0000 + data * 4 + op,
{
    assert((((addr as u128) << 34) | ((data as u128) << 2) | (op as u128)) == (addr as u128)
        * 0x4_0000_0000 + (data as u128) * 4 + (op as u128)) by (bit_vector)
        requires
            op < 4,
    ;
}

/// An answer that fits into the fields of an access is found again in the `dmi` register.
pub proof fn law_dmi_round_trip(addr: u8, data: u32, op: u8)
    requires
        addr < 0x80,
        op < 4,
    ensures
        crate::dmi::dmi_access(crate::dmi::dmi_word(addr, data, op) as nat)
            == (crate::dmi::DmiAccess { addr, value: data, op }),
{
    law_dmi_word_value(addr, data, op);
}

/// Only the lowest 41 bits of the `dmi` register count.
pub proof fn law_dmi_access_bits(word: nat)
    ensures
        crate::dmi::dmi_access(word) == crate::dmi::dmi_access(word % 0x200_0000_0000),
{
    let high: int = (word / 0x200_0000_0000) as int;
    let low: int = (word % 0x200_0000_0000) as int;
    assert(word / 0x4_0000_0000 == 0x80 * high + low / 0x4_0000_0000);
    vstd::arithmetic::div_mod::lemma_mod_multiples_vanish(high, low / 0x4_0000_0000, 0x80);
    assert(word / 4 == 0x1_0000_0000 * (0x80 * high) + low / 4);
    vstd::arithmetic::div_mod::lemma_mod_multiples_vanish(0x80 * high, low / 4, 0x1_0000_0000);
    assert(word % 4 == low % 4);
}

/// None of the 41 bits of the `dmi` register is lost: the operation, the data and as many address
/// bits as `dtmcs` announces make up its content.
pub proof fn law_dmi_access_is_whole(word: nat)
    requires
        word < 0x200_0000_0000,
    ensures
        ({
            let access = crate::dmi::dmi_access(word);
            &&& word == access.addr * 0x4_0000_0000 + access.value * 4 + access.op
            &&& access.addr < 0x80
            &&& access.op < 4
        }),
        crate::link::DTMCS as nat / 0x10 % 0x40 == 7,
        crate::link::DMI_LEN == 7 + 32 + 2,
{
    assert(word / 0x4_0000_0000 < 0x80);
    assert(word / 4 == 0x1_0000_0000 * (word / 0x4_0000_0000) + word / 4 % 0x1_0000_0000);
}

/// Only the lowest 8 bits of the address select a JTAG register.
pub proof fn law_register_selection(state: LinkState, address: u32, data: Seq<u8>, len: u32)
    ensures
        crate::link::can_read(address, len) == crate::link::can_read((address % 0x100) as u32, len),
        crate::link::register_content(address) == crate::link::register_content(
            (address % 0x100) as u32,
        ),
        crate::link::can_write(address, data, len) == crate::link::can_write(
            (address % 0x100) as u32,
            data,
            len,
        ),
        state.started(Operation::WriteRegister(address, data)) == state.started(
            Operation::WriteRegister((address % 0x100) as u32, data),
        ),
{
}

/// Initialization succeeds exactly with firmware of major version 2 or minor version 7. All other
/// firmware is reported as outdated.
pub proof fn law_supported_firmware(state: LinkState, info: ProbeInfo)
    ensures
        performed(state, Operation::Init, seq![Ok(Response::ProbeInfo(info))]).step == (if
        info.major_version == 2 || info.minor_version == 7 {
            StepView::Finished(OutputView::Done)
        } else {
            StepView::Failed(DebugProbeError::ProbeFirmwareOutdated)
        }),
{
    lemma_one_reply(
        state,
        state.started(Operation::Init),
        Ok(Response::ProbeInfo(info)),
    );
}

/// A probe that was initialized is named after its variant and its firmware version. Nothing but
/// that changes.
pub proof fn law_initialized_probe(state: LinkState, info: ProbeInfo)
    requires
        info.major_version == 2 || info.minor_version == 7,
    ensures
        performed(state, Operation::Init, seq![Ok(Response::ProbeInfo(info))]).state == (
        LinkState {
            name: crate::link::probe_name(info),
            variant: info.variant,
            v_major: info.major_version,
            v_minor: info.minor_version,
            ..state
        }),
{
    lemma_one_reply(
        state,
        state.started(Operation::Init),
        Ok(Response::ProbeInfo(info)),
    );
}

/// A dialogue of one reply.
proof fn lemma_one_reply(state: LinkState, step: StepView, reply: Reply)
    ensures
        step matches StepView::Send(command, pending) ==> {
            let whole = dialogue(state, step, seq![reply]);
            let next = state.next(pending, reply);
            &&& whole.state == state.after(pending, reply)
            &&& whole.step == next
            &&& whole.sent == (if let StepView::Send(following, _) = next {
                seq![command, following]
            } else {
                seq![command]
            })
        },
{
    if let StepView::Send(command, pending) = step {
        let after = state.after(pending, reply);
        let next = state.next(pending, reply);
        assert(seq![reply].drop_first() =~= Seq::<Reply>::empty());
        let rest = dialogue(after, next, Seq::<Reply>::empty());
        assert(dialogue(state, step, seq![reply]).sent == seq![command] + rest.sent);
        if let StepView::Send(following, _) = next {
            assert(seq![command] + rest.sent =~= seq![command, following]);
        } else {
            assert(seq![command] + rest.sent =~= seq![command]);
        }
    }
}

/// Attaching asks for the chip, and, exactly if its flash can be protected, checks and lifts the
/// protection.
pub proof fn law_attach_commands(state: LinkState, chip: AttachedChip)
    ensures
        ({
            let replies: Seq<Reply> = seq![
                Ok(Response::Attached(chip)),
                Ok(Response::Done),
                Ok(Response::Done),
            ];
            let whole = performed(state, Operation::Attach, replies);
            &&& whole.sent == (if chip.chip_family.flash_protect() {
                seq![Command::AttachChip, Command::CheckFlashProtection, Command::UnprotectFlash]
            } else {
                seq![Command::AttachChip]
            })
            &&& whole.step == StepView::Finished(OutputView::Done)
            &&& whole.state == (LinkState {
                chip_family: chip.chip_family,
                chip_id: chip.chip_id,
                ..state
            })
        }),
{
    let replies: Seq<Reply> = seq![
        Ok(Response::Attached(chip)),
        Ok(Response::Done),
        Ok(Response::Done),
    ];
    reveal_with_fuel(dialogue, 4);
    let whole = performed(state, Operation::Attach, replies);
    assert(replies.drop_first()[0] == Ok::<Response, DebugProbeError>(Response::Done));
    assert(replies.drop_first().drop_first()[0] == Ok::<Response, DebugProbeError>(Response::Done));
    if chip.chip_family.flash_protect() {
        assert(whole.sent =~= seq![
            Command::AttachChip,
            Command::CheckFlashProtection,
            Command::UnprotectFlash,
        ]);
    } else {
        assert(whole.sent =~= seq![Command::AttachChip]);
    }
}

/// Once the probe has told about the chip, the chip is known, whatever becomes of the flash.
pub proof fn law_attach_keeps_chip(state: LinkState, chip: AttachedChip, replies: Seq<Reply>)
    ensures
        performed(state, Operation::Attach, seq![Ok(Response::Attached(chip))] + replies).state == (
        LinkState { chip_family: chip.chip_family, chip_id: chip.chip_id, ..state }),
{
    let attached = LinkState { chip_family: chip.chip_family, chip_id: chip.chip_id, ..state };
    let all: Seq<Reply> = seq![Ok(Response::Attached(chip))] + replies;
    assert(all[0] == Ok::<Response, DebugProbeError>(Response::Attached(chip)));
    assert(all.drop_first() =~= replies);
    lemma_flash_commands(
        attached,
        state.next(Pending::Attach, Ok(Response::Attached(chip))),
        replies,
    );
}

/// The commands about the flash change nothing.
proof fn lemma_flash_commands(state: LinkState, step: StepView, replies: Seq<Reply>)
    requires
        step matches StepView::Send(_, pending) ==> pending is CheckFlashProtection
            || pending is UnprotectFlash,
    ensures
        dialogue(state, step, replies).state == state,
    decreases replies.len(),
{
    if let StepView::Send(_, pending) = step {
        if replies.len() > 0 {
            lemma_flash_commands(
                state,
                state.next(pending, replies[0]),
                replies.drop_first(),
            );
        }
    }
}

/// The content of `dtmcs`, as 4 bytes.
pub open spec fn dtmcs_bytes() -> Seq<u8> {
    crate::bytes::le_bytes(
        crate::link::register_content(crate::link::REG_DTMCS_ADDRESS as u32) as nat,
        4,
    )
}

/// Writing `dtmcs` with the reset bit switches the debug module off and on again, in this order.
/// The write then results in what reading `dtmcs` gives.
pub proof fn law_dmi_reset(
    state: LinkState,
    address: u32,
    data: Seq<u8>,
    off: DmiResult,
    on: DmiResult,
)
    requires
        crate::link::selected_register(address) == crate::link::REG_DTMCS_ADDRESS,
        crate::link::asks_for_dmi_reset(crate::bytes::le_value(data)),
    ensures
        ({
            let replies: Seq<Reply> = seq![Ok(Response::Dmi(off)), Ok(Response::Dmi(on))];
            let whole = performed(state, Operation::WriteRegister(address, data), replies);
            &&& whole.sent == seq![
                Command::DmiOp(DmiOp::Write { addr: 0x10, data: 0 }),
                Command::DmiOp(DmiOp::Write { addr: 0x10, data: 1 }),
            ]
            &&& whole.step == StepView::Finished(OutputView::Register(dtmcs_bytes()))
            &&& whole.state == state
        }),
{
    let replies: Seq<Reply> = seq![Ok(Response::Dmi(off)), Ok(Response::Dmi(on))];
    reveal_with_fuel(dialogue, 3);
    let whole = performed(state, Operation::WriteRegister(address, data), replies);
    assert(replies.drop_first()[0] == Ok::<Response, DebugProbeError>(Response::Dmi(on)));
    assert(whole.sent =~= seq![
        Command::DmiOp(DmiOp::Write { addr: 0x10, data: 0 }),
        Command::DmiOp(DmiOp::Write { addr: 0x10, data: 1 }),
    ]);
}

/// Writing `dtmcs` without the reset bit sends nothing, and results in what reading `dtmcs` gives.
/// This holds of the bit for a hard reset too.
pub proof fn law_dtmcs_without_reset(
    state: LinkState,
    address: u32,
    data: Seq<u8>,
    replies: Seq<Reply>,
)
    requires
        crate::link::selected_register(address) == crate::link::REG_DTMCS_ADDRESS,
        !crate::link::asks_for_dmi_reset(crate::bytes::le_value(data)),
    ensures
        ({
            let whole = performed(state, Operation::WriteRegister(address, data), replies);
            &&& whole.sent == Seq::<Command>::empty()
            &&& whole.step == StepView::Finished(OutputView::Register(dtmcs_bytes()))
            &&& whole.state == state
        }),
{
}

/// Setting a speed that the probe offers sends it to the probe, for the family of the chip that is
/// attached, and results in it.
pub proof fn law_set_speed(state: LinkState, speed_khz: u32, speed: Speed)
    ensures
        ({
            let whole = performed(
                state,
                Operation::SetSpeed(speed_khz, Some(speed)),
                seq![Ok(Response::Done)],
            );
            &&& whole.sent == seq![Command::SetSpeed(state.chip_family, speed)]
            &&& whole.step == StepView::Finished(OutputView::SpeedKhz(speed.khz))
            &&& whole.state == state
        }),
{
    let operation = Operation::SetSpeed(speed_khz, Some(speed));
    lemma_one_reply(state, state.started(operation), Ok(Response::Done));
}

/// A speed that the probe does not offer is refused, and nothing is sent.
pub proof fn law_unsupported_speed(state: LinkState, speed_khz: u32, replies: Seq<Reply>)
    ensures
        ({
            let whole = performed(state, Operation::SetSpeed(speed_khz, None), replies);
            &&& whole.sent == Seq::<Command>::empty()
            &&& whole.step == StepView::Failed(DebugProbeError::UnsupportedSpeed(speed_khz))
            &&& whole.state == state
        }),
{
}

/// Whether the operation reads a register of the debug module.
pub open spec fn is_dmi_read(operation: Operation) -> bool {
    operation matches Operation::WriteRegister(address, data)
        && crate::link::selected_register(address) != crate::link::REG_DTMCS_ADDRESS
        && crate::dmi::dmi_access(crate::bytes::le_value(data)).op == crate::dmi::DMI_OP_READ
}

/// Whether the operation reads a register of the debug module, and is answered.
pub open spec fn reads_register(operation: Operation, replies: Seq<Reply>) -> bool {
    is_dmi_read(operation) && replies.len() > 0 && replies[0] is Ok
}

/// Whether at most that changed which the operation may change: initialization the name, the
/// variant and the version, attaching the chip, and any operation what a no-op repeats.
pub open spec fn changes_only(operation: Operation, before: LinkState, after: LinkState) -> bool {
    &&& after.speed == before.speed
    &&& !(operation is Init) ==> after.name == before.name && after.variant == before.variant
        && after.v_major == before.v_major && after.v_minor == before.v_minor
    &&& !(operation is Attach) ==> after.chip_family == before.chip_family && after.chip_id
        == before.chip_id
}

proof fn lemma_dialogue_changes(
    state: LinkState,
    operation: Operation,
    step: StepView,
    replies: Seq<Reply>,
)
    requires
        step matches StepView::Send(_, pending) ==> part_of(operation, pending),
    ensures
        changes_only(operation, state, dialogue(state, step, replies).state),
        (step matches StepView::Send(_, pending) ==> !(pending is DmiRead)) ==> dialogue(
            state,
            step,
            replies,
        ).state.last_dmi_read == state.last_dmi_read,
    decreases replies.len(),
{
    if let StepView::Send(command, pending) = step {
        if replies.len() > 0 {
            lemma_dialogue_changes(
                state.after(pending, replies[0]),
                operation,
                state.next(pending, replies[0]),
                replies.drop_first(),
            );
        }
    }
}

/// No operation changes the speed that the probe reports. Only initialization changes the name,
/// the variant and the version, only attaching changes the chip, and only an answered read of the
/// debug module changes what a no-op repeats.
pub proof fn law_what_operations_change(
    state: LinkState,
    operation: Operation,
    replies: Seq<Reply>,
)
    ensures
        ({
            let after = performed(state, operation, replies).state;
            &&& changes_only(operation, state, after)
            &&& !reads_register(operation, replies) ==> after.last_dmi_read == state.last_dmi_read
        }),
{
    lemma_dialogue_changes(state, operation, state.started(operation), replies);
    if is_dmi_read(operation) && !reads_register(operation, replies) {
        reveal_with_fuel(dialogue, 2);
    }
}

/// The state of a probe after operations, each with its replies.
pub open spec fn session(state: LinkState, operations: Seq<(Operation, Seq<Reply>)>) -> LinkState
    decreases operations.len(),
{
    if operations.len() == 0 {
        state
    } else {
        let last = operations.last();
        performed(session(state, operations.drop_last()), last.0, last.1).state
    }
}

/// What a no-op repeats stays the same for as long as no read of the debug module is answered.
pub proof fn law_last_read_is_kept(
    state: LinkState,
    operations: Seq<(Operation, Seq<Reply>)>,
)
    requires
        forall|i: int|
            0 <= i < operations.len() ==> !reads_register(
                (#[trigger] operations[i]).0,
                operations[i].1,
            ),
    ensures
        session(state, operations).last_dmi_read == state.last_dmi_read,
    decreases operations.len(),
{
    if operations.len() > 0 {
        let earlier = operations.drop_last();
        assert forall|i: int| 0 <= i < earlier.len() implies !reads_register(
            (#[trigger] earlier[i]).0,
            earlier[i].1,
        ) by {
            assert(earlier[i] == operations[i]);
        }
        law_last_read_is_kept(state, earlier);
        assert(operations.last() == operations[operations.len() - 1]);
        law_what_operations_change(
            session(state, earlier),
            operations.last().0,
            operations.last().1,
        );
    }
}

/// A no-op with a zero address and zero data results in what the last answered read of the debug
/// module resulted in, whatever else was done in between.
pub proof fn law_nop_repeats_last_read(
    state: LinkState,
    read: Operation,
    answer: DmiResult,
    between: Seq<(Operation, Seq<Reply>)>,
    address: u32,
    data: Seq<u8>,
    nop_answer: DmiResult,
)
    requires
        is_dmi_read(read),
        forall|i: int|
            0 <= i < between.len() ==> !reads_register((#[trigger] between[i]).0, between[i].1),
        crate::link::selected_register(address) == crate::link::REG_DMI_ADDRESS,
        crate::dmi::dmi_access(crate::bytes::le_value(data)) == (crate::dmi::DmiAccess {
            addr: 0,
            value: 0,
            op: crate::dmi::DMI_OP_NOP,
        }),
    ensures
        ({
            let first = performed(state, read, seq![Ok(Response::Dmi(answer))]);
            let later = session(first.state, between);
            let nop = performed(
                later,
                Operation::WriteRegister(address, data),
                seq![Ok(Response::Dmi(nop_answer))],
            );
            &&& later.can_resume(Pending::DmiNopLastRead, Ok(Response::Dmi(nop_answer)))
            &&& nop.sent == seq![Command::DmiOp(DmiOp::Nop)]
            &&& nop.step == first.step
            &&& nop.step == StepView::Finished(
                crate::link::dmi_output((answer.addr, answer.data, answer.op)),
            )
        }),
{
    let reply: Reply = Ok(Response::Dmi(answer));
    lemma_one_reply(state, state.started(read), reply);
    let first = performed(state, read, seq![reply]);
    law_last_read_is_kept(first.state, between);
    let later = session(first.state, between);
    lemma_one_reply(
        later,
        later.started(Operation::WriteRegister(address, data)),
        Ok(Response::Dmi(nop_answer)),
    );
}

/// Every other access to the debug module is sent to the probe as it was asked for, and results in
/// a `dmi` register that holds the answer. Unless the status has more than two bits, the bytes hold
/// the address, the data and the status side by side. An answer that fits into the fields of an
/// access is found again in the bytes.
pub proof fn law_dmi_access_reports_answer(
    state: LinkState,
    address: u32,
    data: Seq<u8>,
    answer: DmiResult,
)
    requires
        crate::link::selected_register(address) == crate::link::REG_DMI_ADDRESS,
        crate::link::can_write(address, data, crate::link::DMI_LEN),
        crate::dmi::dmi_access(crate::bytes::le_value(data)) != (crate::dmi::DmiAccess {
            addr: 0,
            value: 0,
            op: crate::dmi::DMI_OP_NOP,
        }),
    ensures
        ({
            let access = crate::dmi::dmi_access(crate::bytes::le_value(data));
            let whole = performed(
                state,
                Operation::WriteRegister(address, data),
                seq![Ok(Response::Dmi(answer))],
            );
            &&& whole.sent == seq![
                Command::DmiOp(
                    if access.op == crate::dmi::DMI_OP_READ {
                        DmiOp::Read { addr: access.addr }
                    } else if access.op == crate::dmi::DMI_OP_WRITE {
                        DmiOp::Write { addr: access.addr, data: access.value }
                    } else {
                        DmiOp::Nop
                    },
                ),
            ]
            &&& whole.step matches StepView::Finished(OutputView::Register(bytes))
            &&& bytes.len() == 16
            &&& answer.op < 4 ==> crate::bytes::le_value(bytes) == answer.addr * 0x4_0000_0000
                + answer.data * 4 + answer.op
            &&& answer.addr < 0x80 && answer.op < 4 ==> crate::dmi::dmi_access(
                crate::bytes::le_value(bytes),
            ) == (crate::dmi::DmiAccess {
                addr: answer.addr,
                value: answer.data,
                op: answer.op,
            })
        }),
{
    let operation = Operation::WriteRegister(address, data);
    lemma_one_reply(state, state.started(operation), Ok(Response::Dmi(answer)));
    let word = crate::dmi::dmi_word(answer.addr, answer.data, answer.op);
    crate::bytes::lemma_pow_bytes();
    law_bytes_decode_encode(word as nat, 16);
    if answer.op < 4 {
        law_dmi_word_value(answer.addr, answer.data, answer.op);
    }
    if answer.addr < 0x80 && answer.op < 4 {
        law_dmi_round_trip(answer.addr, answer.data, answer.op);
    }
}

/// The probes among two groups of devices are those of the first, then those of the second.
pub proof fn law_listing_in_order(
    first: Seq<UsbDevice>,
    second: Seq<UsbDevice>,
)
    ensures
        crate::discovery::wlink_listing(first + second) == crate::discovery::wlink_listing(first)
            + crate::discovery::wlink_listing(second),
    decreases second.len(),
{
    if second.len() == 0 {
        assert(first + second =~= first);
        assert(crate::discovery::wlink_listing(first) + crate::discovery::wlink_listing(second)
            =~= crate::discovery::wlink_listing(first));
    } else {
        law_listing_in_order(first, second.drop_last());
        assert((first + second).drop_last() =~= first + second.drop_last());
        assert((first + second).last() == second.last());
        assert(crate::discovery::wlink_listing(first + second) =~= crate::discovery::wlink_listing(
            first,
        ) + crate::discovery::wlink_listing(second));
    }
}

/// A device on its own is listed exactly if it has the ids and the product string of the probes,
/// and it is listed with its serial number.
pub proof fn law_listed_device(device: UsbDevice)
    ensures
        crate::discovery::wlink_listing(seq![device]) == (if device.ids == Some(
            (0x1a86u16, 0x8010u16),
        ) && crate::discovery::text_view(device.product) == Some("WCH-Link"@) {
            seq![
                DebugProbeInfoView {
                    identifier: "WCH-Link"@,
                    vendor_id: 0x1a86,
                    product_id: 0x8010,
                    serial_number: crate::discovery::text_view(device.serial_number),
                    probe_type: DebugProbeType::WchLink,
                    hid_interface: None,
                },
            ]
        } else {
            Seq::empty()
        }),
{
    reveal_with_fuel(crate::discovery::wlink_listing, 2);
    assert(seq![device].drop_last() =~= Seq::empty());
    assert(forall|info: DebugProbeInfoView| Seq::empty().push(info) =~= #[trigger] seq![info]);
}

/// Every probe that is listed has the ids of the probes.
pub proof fn law_listed_probes(devices: Seq<UsbDevice>, i: int)
    requires
        0 <= i < crate::discovery::wlink_listing(devices).len(),
    ensures
        crate::discovery::wlink_listing(devices)[i].identifier == "WCH-Link"@,
        crate::discovery::wlink_listing(devices)[i].vendor_id == 0x1a86,
        crate::discovery::wlink_listing(devices)[i].product_id == 0x8010,
        crate::discovery::wlink_listing(devices)[i].hid_interface is None,
    decreases devices.len(),
{
    if i < crate::discovery::wlink_listing(devices.drop_last()).len() {
        law_listed_probes(devices.drop_last(), i);
    }
}

} // verus!
