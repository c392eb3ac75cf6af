//! The JTAG `dmi` register of a RISC-V target, which carries accesses to the debug module.
//!
//! From the least significant bit on, the register holds the operation, the data and the address.

use vstd::prelude::*;

verus! {

/// Bit at which the data of an access starts.
pub const DMI_VALUE_BIT_OFFSET: u32 = 2;

/// Bit at which the address of an access starts.
pub const DMI_ADDRESS_BIT_OFFSET: u32 = 34;

/// The bits of the operation.
pub const DMI_OP_MASK: u128 = 0b11;

/// Operation that accesses nothing.
pub const DMI_OP_NOP: u8 = 0;

/// Operation that reads the addressed debug module register.
pub const DMI_OP_READ: u8 = 1;

/// Operation that writes the addressed debug module register.
pub const DMI_OP_WRITE: u8 = 2;

/// An access that was written to the `dmi` register.
#[derive(Clone, Copy, Debug, PartialEq, Eq, Structural)]
pub struct DmiAccess {
    /// Address of the debug module register, 7 bits.
    pub addr: u8,
    /// Data to write.
    pub value: u32,
    /// Operation, 2 bits.
    pub op: u8,
}

/// The access that the content of the `dmi` register asks for: 2 bits of operation, then 32 bits
/// of data, then 7 bits of address.
pub open spec fn dmi_access(word: nat) -> DmiAccess {
    DmiAccess {
        addr: (word / 0x4_0000_0000 % 0x80) as u8,
        value: (word / 4 % 0x1_0000_0000) as u32,
        op: (word % 4) as u8,
    }
}

/// The content of the `dmi` register that reports an answer of the debug module.
///
/// The address and the data do not overlap. The probe reports the operation in 8 bits: all of
/// them are merged in, so that bits beyond the lowest two fall onto the data.
pub open spec fn dmi_word(addr: u8, data: u32, op: u8) -> u128 {
    ((addr as u128) << 34) | ((data as u128) << 2) | (op as u128)
}

/// Splits the content of the `dmi` register into the access that it asks for.
pub fn decode_dmi(register_value: u128) -> (access: DmiAccess)
    ensures
        access == dmi_access(register_value as nat),
{
    let addr: u128 = (register_value >> DMI_ADDRESS_BIT_OFFSET) & 0x7f;
    let value: u128 = (register_value >> DMI_VALUE_BIT_OFFSET) & 0xffff_ffff;
    let op: u128 = register_value & DMI_OP_MASK;
    assert((register_value >> 34u32) & 0x7f == register_value / 0x4_0000_0000 % 0x80)
        by (bit_vector);
    assert((register_value >> 2u32) & 0xffff_ffff == register_value / 4 % 0x1_0000_0000)
        by (bit_vector);
    assert(register_value & 3 == register_value % 4) by (bit_vector);
    DmiAccess { addr: addr as u8, value: value as u32, op: op as u8 }
}

/// Merges an answer of the debug module into the content of the `dmi` register.
pub fn encode_dmi(addr: u8, data: u32, op: u8) -> (word: u128)
    ensures
        word == dmi_word(addr, data, op),
{
    (addr as u128) << DMI_ADDRESS_BIT_OFFSET | (data as u128) << DMI_VALUE_BIT_OFFSET | (op
        as u128)
}

} // verus!
