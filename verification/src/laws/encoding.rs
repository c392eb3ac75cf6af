//! What bytes, register contents and numbers in text mean.

use crate::command::DmiResult;
use crate::dmi::DmiAccess;
use crate::step::OutputView;
use vstd::arithmetic::div_mod::lemma_div_denominator;
use vstd::arithmetic::power::{lemma_pow_increases, lemma_pow_positive, pow};
use vstd::prelude::*;

verus! {

/// Byte `i` of a byte string weighs 256 to the power of `i` in the number that the string stands
/// for, and nothing else does.
pub proof fn law_byte_weights(bytes: Seq<u8>, i: int)
    requires
        0 <= i < bytes.len(),
    ensures
        crate::bytes::le_value(bytes) < pow(256, bytes.len()),
        crate::bytes::le_value(bytes) as int / pow(256, i as nat) % 256 == bytes[i],
    decreases bytes.len(),
{
    crate::bytes::lemma_le_value_bound(bytes);
    reveal(pow);
    let value = crate::bytes::le_value(bytes) as int;
    let rest = crate::bytes::le_value(bytes.drop_first()) as int;
    if i > 0 {
        law_byte_weights(bytes.drop_first(), i - 1);
        lemma_pow_positive(256, (i - 1) as nat);
        lemma_div_denominator(value, 256, pow(256, (i - 1) as nat));
        assert(value / 256 == rest);
    } else {
        assert(value / 1 == value);
    }
}

/// Encoding gives as many bytes as asked for, of which byte `i` is the one that weighs 256 to the
/// power of `i` in the number.
pub proof fn law_encoded_byte(value: nat, count: nat, i: int)
    requires
        0 <= i < count,
    ensures
        crate::bytes::le_bytes(value, count).len() == count,
        crate::bytes::le_bytes(value, count)[i] == value as int / pow(256, i as nat) % 256,
    decreases count,
{
    reveal(pow);
    lemma_encoded_len(value, count);
    let rest = crate::bytes::le_bytes(value / 256, (count - 1) as nat);
    lemma_encoded_len(value / 256, (count - 1) as nat);
    if i > 0 {
        law_encoded_byte(value / 256, (count - 1) as nat, i - 1);
        lemma_pow_positive(256, (i - 1) as nat);
        lemma_div_denominator(value as int, 256, pow(256, (i - 1) as nat));
        assert(crate::bytes::le_bytes(value, count)[i] == rest[i - 1]);
    } else {
        assert(value as int / 1 == value);
    }
}

proof fn lemma_encoded_len(value: nat, count: nat)
    ensures
        crate::bytes::le_bytes(value, count).len() == count,
    decreases count,
{
    if count > 0 {
        lemma_encoded_len(value / 256, (count - 1) as nat);
    }
}

/// The access whose fields stand in the bytes that are written to `dmi`: the operation in the two
/// lowest bits, the data in the next 32, the address in the 7 after them.
pub open spec fn asks_for(data: Seq<u8>, access: DmiAccess) -> bool {
    &&& access.op == data[0] % 4
    &&& access.value == data[0] / 4 + data[1] * 0x40 + data[2] * 0x4000 + data[3] * 0x40_0000 + (
    data[4] % 4) * 0x4000_0000
    &&& access.addr == data[4] / 4 + (data[5] % 2) * 0x40
}

/// The bytes of the `dmi` register that report an answer: its status in the lowest bits, its data
/// from the third bit on, its address after that. A status of more than two bits is merged into
/// the lowest bits of the data.
pub open spec fn reports(bytes: Seq<u8>, addr: u8, data: u32, op: u8) -> bool {
    &&& bytes.len() == 16
    &&& bytes[0] == (((data % 0x40) * 4) as u8) | op
    &&& bytes[1] == data / 0x40 % 0x100
    &&& bytes[2] == data / 0x4000 % 0x100
    &&& bytes[3] == data / 0x40_0000 % 0x100
    &&& bytes[4] == data / 0x4000_0000 + (addr % 0x40) * 4
    &&& bytes[5] == addr / 0x40
    &&& forall|i: int| 6 <= i < 16 ==> bytes[i] == 0
}

/// The fields of an access are where the bytes of `dmi` hold them.
pub proof fn law_access_in_bytes(data: Seq<u8>)
    requires
        data.len() == 16,
    ensures
        asks_for(data, crate::dmi::dmi_access(crate::bytes::le_value(data))),
{
    let word = crate::bytes::le_value(data);
    let d1 = data.drop_first();
    let d2 = d1.drop_first();
    let d3 = d2.drop_first();
    let d4 = d3.drop_first();
    let d5 = d4.drop_first();
    let d6 = d5.drop_first();
    let high = crate::bytes::le_value(d6);
    assert(d1[0] == data[1] && d2[0] == data[2] && d3[0] == data[3] && d4[0] == data[4] && d5[0]
        == data[5]);
    assert(crate::bytes::le_value(d5) == data[5] + 0x100 * high);
    assert(crate::bytes::le_value(d4) == data[4] + 0x100 * crate::bytes::le_value(d5));
    assert(crate::bytes::le_value(d3) == data[3] + 0x100 * crate::bytes::le_value(d4));
    assert(crate::bytes::le_value(d2) == data[2] + 0x100 * crate::bytes::le_value(d3));
    assert(crate::bytes::le_value(d1) == data[1] + 0x100 * crate::bytes::le_value(d2));
    assert(word == data[0] + 0x100 * crate::bytes::le_value(d1));
    let op: int = data[0] as int % 4;
    let value: int = data[0] as int / 4 + data[1] * 0x40 + data[2] * 0x4000 + data[3] * 0x40_0000
        + (data[4] as int % 4) * 0x4000_0000;
    let addr: int = data[4] as int / 4 + (data[5] as int % 2) * 0x40;
    let beyond: int = data[5] as int / 2 + 0x80 * high;
    assert(word == 0x200_0000_0000 * beyond + addr * 0x4_0000_0000 + value * 4 + op);
    lemma_access_fields(word, beyond, addr, value, op);
}

/// The fields of an access from the parts of the word.
proof fn lemma_access_fields(word: nat, beyond: int, addr: int, value: int, op: int)
    requires
        0 <= beyond,
        0 <= addr < 0x80,
        0 <= value < 0x1_0000_0000,
        0 <= op < 4,
        word == 0x200_0000_0000 * beyond + addr * 0x4_0000_0000 + value * 4 + op,
    ensures
        crate::dmi::dmi_access(word) == (DmiAccess {
            addr: addr as u8,
            value: value as u32,
            op: op as u8,
        }),
{
    let low: int = addr * 0x4_0000_0000 + value * 4 + op;
    assert(word % 0x200_0000_0000 == low);
    crate::laws::law_dmi_access_bits(word);
    assert(low / 0x4_0000_0000 == addr);
    assert(low / 4 == addr * 0x1_0000_0000 + value);
}

/// An answer of the debug module is reported in the bytes of `dmi`, whatever its status is.
pub proof fn law_answer_in_bytes(addr: u8, data: u32, op: u8)
    ensures
        crate::link::dmi_output((addr, data, op)) matches OutputView::Register(bytes) && reports(
            bytes,
            addr,
            data,
            op,
        ),
{
    let word = crate::dmi::dmi_word(addr, data, op) as int;
    let bytes = crate::bytes::le_bytes(word as nat, 16);
    let low: u8 = (((data % 0x40) * 4) as u8) | op;
    law_dmi_word(addr, data, op);
    lemma_pow_values();
    assert forall|i: int| 0 <= i < 16 implies bytes[i] == word / pow(256, i as nat) % 256 by {
        law_encoded_byte(word as nat, 16, i);
    }
    law_encoded_byte(word as nat, 16, 0);
    let upper: int = data as int / 0x40;
    assert(word == addr * 0x4_0000_0000 + upper * 0x100 + low);
    assert(bytes[0] == word / pow(256, 0) % 256);
    assert(bytes[1] == word / pow(256, 1) % 256);
    assert(bytes[2] == word / pow(256, 2) % 256);
    assert(bytes[3] == word / pow(256, 3) % 256);
    assert(bytes[4] == word / pow(256, 4) % 256);
    assert(bytes[5] == word / pow(256, 5) % 256);
    assert(word / 0x100 == addr * 0x400_0000 + upper);
    assert(word / 0x1_0000 == addr * 0x4_0000 + upper / 0x100);
    assert(word / 0x100_0000 == addr * 0x400 + upper / 0x1_0000);
    assert(word / 0x1_0000_0000 == addr * 4 + upper / 0x100_0000);
    assert(word / 0x100_0000_0000 == addr as int / 0x40);
    assert forall|i: int| 6 <= i < 16 implies bytes[i] == 0 by {
        lemma_pow_increases(256, 6, i as nat);
        assert(0 <= word < pow(256, i as nat));
        vstd::arithmetic::div_mod::lemma_basic_div(word, pow(256, i as nat));
        assert(word / pow(256, i as nat) == 0);
    }
}

proof fn lemma_pow_values()
    ensures
        pow(256, 0) == 1,
        pow(256, 1) == 0x100,
        pow(256, 2) == 0x1_0000,
        pow(256, 3) == 0x100_0000,
        pow(256, 4) == 0x1_0000_0000,
        pow(256, 5) == 0x100_0000_0000,
        pow(256, 6) == 0x1_0000_0000_0000,
{
    reveal(pow);
    reveal_with_fuel(pow, 7);
}

/// The content of `dmi` that reports an answer, for every status: the address and the data from
/// bit 8 on stand for themselves, and the status is merged into the lowest 8 bits.
pub proof fn law_dmi_word(addr: u8, data: u32, op: u8)
    ensures
        crate::dmi::dmi_word(addr, data, op) == addr * 0x4_0000_0000 + (data / 0x40) * 0x100 + (((
        (data % 0x40) * 4) as u8) | op),
{
    assert((((addr as u128) << 34) | ((data as u128) << 2) | (op as u128)) == (addr as u128)
        * 0x4_0000_0000 + ((data / 0x40) as u128) * 0x100 + ((((((data % 0x40) * 4) as u8) | op))
        as u128)) by (bit_vector);
}

/// What the probe reads as content of an answer is what the debug module answered.
pub proof fn law_kept_answer(answer: DmiResult)
    ensures
        crate::link::dmi_answer(crate::command::Response::Dmi(answer)) == (
            answer.addr,
            answer.data,
            answer.op,
        ),
{
}

/// The number that decimal digits stand for.
pub open spec fn parsed(digits: Seq<char>) -> nat
    decreases digits.len(),
{
    if digits.len() == 0 {
        0
    } else {
        10 * parsed(digits.drop_last()) + (digits.last() as nat - '0' as nat) as nat
    }
}

/// A number is written in decimal digits that stand for it, and without leading zeros.
pub proof fn law_decimal(number: nat)
    ensures
        crate::text::decimal(number).len() > 0,
        forall|i: int|
            0 <= i < crate::text::decimal(number).len() ==> '0' <= #[trigger] crate::text::decimal(
                number,
            )[i] <= '9',
        parsed(crate::text::decimal(number)) == number,
        crate::text::decimal(number)[0] == '0' ==> number == 0 && crate::text::decimal(number).len()
            == 1,
    decreases number,
{
    reveal_strlit("0123456789abcdef");
    let text = crate::text::decimal(number);
    if number < 10 {
        assert(text.drop_last() =~= Seq::empty());
        assert(parsed(text.drop_last()) == 0);
        assert(text.last() as nat == '0' as nat + number);
    } else {
        law_decimal(number / 10);
        assert(text.drop_last() =~= crate::text::decimal(number / 10));
        assert(text.last() as nat == '0' as nat + number % 10);
    }
}

/// The number that a hexadecimal digit in lower case stands for.
pub open spec fn hex_value(digit: char) -> int {
    if '0' <= digit <= '9' {
        digit as int - '0' as int
    } else {
        digit as int - 'a' as int + 10
    }
}

/// A byte is written in two hexadecimal digits in lower case, the higher one first.
pub proof fn law_hex_byte(byte: u8)
    ensures
        crate::text::hex_byte(byte).len() == 2,
        forall|i: int|
            0 <= i < 2 ==> ('0' <= #[trigger] crate::text::hex_byte(byte)[i] <= '9' || 'a'
                <= crate::text::hex_byte(byte)[i] <= 'f'),
        16 * hex_value(crate::text::hex_byte(byte)[0]) + hex_value(crate::text::hex_byte(byte)[1])
            == byte,
{
    reveal_strlit("0123456789abcdef");
}

} // verus!
