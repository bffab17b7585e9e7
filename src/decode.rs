//! Fields of a 16-bit instruction word.
//!
//! An instruction word is read as four nibbles `G X Y N`; `KK` is its low
//! byte and `NNN` its low twelve bits.

use vstd::prelude::*;

verus! {

/// The top nibble, which selects the primary handler.
pub open spec fn group_of(op: u16) -> int {
    op as int / 4096
}

/// The second nibble: the first register operand.
pub open spec fn x_of(op: u16) -> int {
    (op as int / 256) % 16
}

/// The third nibble: the second register operand.
pub open spec fn y_of(op: u16) -> int {
    (op as int / 16) % 16
}

/// The low nibble.
pub open spec fn n_of(op: u16) -> int {
    op as int % 16
}

/// The low byte.
pub open spec fn kk_of(op: u16) -> u8 {
    (op as int % 256) as u8
}

/// The low twelve bits: an address.
pub open spec fn nnn_of(op: u16) -> u16 {
    (op as int % 4096) as u16
}

/// Returns the top nibble of `opcode`.
pub fn field_group(opcode: u16) -> (r: usize)
    ensures
        r == group_of(opcode),
        r < 16,
{
    let r = ((opcode & 0xF000) >> 12) as usize;
    proof {
        assert((opcode & 0xF000u16) >> 12u16 == opcode / 4096u16) by (bit_vector);
    }
    r
}

/// Returns the register named by the second nibble of `opcode`.
pub fn field_x(opcode: u16) -> (r: usize)
    ensures
        r == x_of(opcode),
        r < 16,
{
    let r = ((opcode & 0x0F00) >> 8) as usize;
    proof {
        assert((opcode & 0x0F00u16) >> 8u16 == (opcode / 256u16) % 16u16) by (bit_vector);
    }
    r
}

/// Returns the register named by the third nibble of `opcode`.
pub fn field_y(opcode: u16) -> (r: usize)
    ensures
        r == y_of(opcode),
        r < 16,
{
    let r = ((opcode & 0x00F0) >> 4) as usize;
    proof {
        assert((opcode & 0x00F0u16) >> 4u16 == (opcode / 16u16) % 16u16) by (bit_vector);
    }
    r
}

/// Returns the low nibble of `opcode`.
pub fn field_n(opcode: u16) -> (r: usize)
    ensures
        r == n_of(opcode),
        r < 16,
{
    let r = (opcode & 0x000F) as usize;
    proof {
        assert(opcode & 0x000Fu16 == opcode % 16u16) by (bit_vector);
    }
    r
}

/// Returns the low byte of `opcode`.
pub fn field_kk(opcode: u16) -> (r: u8)
    ensures
        r == kk_of(opcode),
{
    let r = (opcode & 0x00FF) as u8;
    proof {
        assert(opcode & 0x00FFu16 == opcode % 256u16) by (bit_vector);
    }
    r
}

/// Returns the address held in the low twelve bits of `opcode`.
pub fn field_nnn(opcode: u16) -> (r: u16)
    ensures
        r == nnn_of(opcode),
        r < 4096,
{
    let r = opcode & 0x0FFF;
    proof {
        assert(opcode & 0x0FFFu16 == opcode % 4096u16) by (bit_vector);
    }
    r
}

} // verus!
