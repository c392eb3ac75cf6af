//! Little-endian byte strings of the JTAG registers.

use vstd::arithmetic::power::pow;
use vstd::prelude::*;

verus! {

/// The number that a little-endian byte string stands for.
pub open spec fn le_value(bytes: Seq<u8>) -> nat
    decreases bytes.len(),
{
    if bytes.len() == 0 {
        0
    } else {
        bytes[0] as nat + 256 * le_value(bytes.drop_first())
    }
}

/// The lowest `count` bytes of `value`, least significant byte first.
pub open spec fn le_bytes(value: nat, count: nat) -> Seq<u8>
    decreases count,
{
    if count == 0 {
        Seq::empty()
    } else {
        seq![(value % 256) as u8] + le_bytes(value / 256, (count - 1) as nat)
    }
}

/// A string of `n` bytes stands for a number below 256 to the power of `n`.
pub proof fn lemma_le_value_bound(bytes: Seq<u8>)
    ensures
        le_value(bytes) < pow(256, bytes.len()),
    decreases bytes.len(),
{
    reveal(pow);
    if bytes.len() > 0 {
        lemma_le_value_bound(bytes.drop_first());
    }
}

/// Four bytes stand for a number of 32 bits.
pub proof fn lemma_le_value_u32(bytes: Seq<u8>)
    requires
        bytes.len() == 4,
    ensures
        le_value(bytes) <= u32::MAX,
{
    lemma_le_value_bound(bytes);
    lemma_pow_bytes();
}

/// The values of the powers of 256 that bound a 32 bit and a 128 bit number.
pub proof fn lemma_pow_bytes()
    ensures
        pow(256, 4) == 0x1_0000_0000,
        pow(256, 16) == 0x1_0000_0000_0000_0000_0000_0000_0000_0000,
{
    reveal(pow);
    reveal_with_fuel(pow, 17);
}

/// Encodes the lowest `count` bytes of `value`, least significant byte first.
pub fn to_le_bytes(value: u128, count: usize) -> (bytes: Vec<u8>)
    ensures
        bytes@ == le_bytes(value as nat, count as nat),
{
    let mut bytes: Vec<u8> = Vec::new();
    let mut rest: u128 = value;
    let mut i: usize = 0;
    while i < count
        invariant
            i <= count,
            bytes@ + le_bytes(rest as nat, (count - i) as nat) == le_bytes(
                value as nat,
                count as nat,
            ),
        decreases count - i,
    {
        let ghost before = bytes@;
        let ghost tail = le_bytes((rest / 256) as nat, (count - i - 1) as nat);
        let low: u8 = (rest % 256) as u8;
        bytes.push(low);
        assert(le_bytes(rest as nat, (count - i) as nat) == seq![low] + tail);
        assert(before + (seq![low] + tail) =~= bytes@ + tail);
        rest = rest / 256;
        i = i + 1;
    }
    assert(bytes@ + le_bytes(rest as nat, 0) =~= bytes@);
    bytes
}

/// Decodes a little-endian byte string of at most 128 bits.
pub fn from_le_bytes(bytes: &[u8]) -> (value: u128)
    requires
        bytes@.len() <= 16,
    ensures
        value == le_value(bytes@),
{
    let mut value: u128 = 0;
    let mut i: usize = bytes.len();
    assert(bytes@.skip(i as int) =~= Seq::<u8>::empty());
    while i > 0
        invariant
            i <= bytes@.len() <= 16,
            value == le_value(bytes@.skip(i as int)),
        decreases i,
    {
        i = i - 1;
        let ghost rest = bytes@.skip(i as int);
        assert(rest.drop_first() =~= bytes@.skip(i + 1));
        assert(le_value(rest) == bytes@[i as int] as nat + 256 * value);
        assert(le_value(rest) <= u128::MAX) by {
            lemma_le_value_bound(rest);
            lemma_pow_bytes();
            vstd::arithmetic::power::lemma_pow_increases(256, rest.len(), 16);
        }
        value = value * 256 + bytes[i] as u128;
    }
    assert(bytes@.skip(0) =~= bytes@);
    value
}

} // verus!
