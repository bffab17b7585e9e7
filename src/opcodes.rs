//! One handler per instruction. Each runs after the fetch has moved the
//! program counter past the instruction, and its contract is the matching
//! case of [`exec_spec`].

#![allow(non_snake_case)]

use vstd::prelude::*;
use crate::decode::{field_x, field_y, field_n, field_kk, field_nnn, x_of, n_of, kk_of, nnn_of};
use crate::semantics::{
    cls_spec, set_reg, sprite_word, draw_spec, drawn_row, collides, sprite_row_at, draw_word,
    draw_col, draw_row, bit, bcd_spec, wait_key_spec, first_pressed, first_pressed_from,
    prev_pc, store_regs_spec, load_regs_spec, vx, vy, ret_spec, jump_spec, call_spec, skip_if,
    add8, sub8, shl8, set_flag_then_reg, wrap_addr, FONT_BASE,
};
use crate::state::Machine;
use crate::state::State;

verus! {

/// `00E0`: clear the screen.
pub fn op_00E0(state: &mut State, opcode: u16)
    ensures
        final(state)@ == cls_spec(old(state)@),
{
    let mut i: usize = 0;
    while i < 32
        invariant
            i <= 32,
            forall|r: int| 0 <= r < i ==> state.video[r] == 0,
            state.registers == old(state).registers,
            state.memory == old(state).memory,
            state.stack == old(state).stack,
            state.keypad == old(state).keypad,
            state.index == old(state).index,
            state.pc == old(state).pc,
            state.sp == old(state).sp,
            state.delay_timer == old(state).delay_timer,
            state.sound_timer == old(state).sound_timer,
        decreases 32 - i,
    {
        state.video[i] = 0;
        i = i + 1;
    }
    assert(state@ =~= cls_spec(old(state)@));
}

/// `00EE`: return from a subroutine: step the stack pointer back (modulo
/// 16) and resume at the address saved there.
pub fn op_00EE(state: &mut State, opcode: u16)
    ensures
        final(state)@ == ret_spec(old(state)@),
{
    state.sp = ((state.sp as u16 + 15) % 16) as u8;
    state.pc = state.stack[state.sp as usize];
}

/// `1NNN`: jump to `NNN`.
pub fn op_1XXX(state: &mut State, opcode: u16)
    ensures
        final(state)@ == jump_spec(old(state)@, opcode),
{
    let address = field_nnn(opcode);
    state.pc = address;
}

/// `2NNN`: call the subroutine at `NNN`: save the program counter in the
/// stack slot at `sp` (modulo 16), advance `sp` and jump.
pub fn op_2XXX(state: &mut State, opcode: u16)
    ensures
        final(state)@ == call_spec(old(state)@, opcode),
{
    let address = field_nnn(opcode);
    state.stack[(state.sp % 16) as usize] = state.pc;
    state.sp = ((state.sp as u16 + 1) % 16) as u8;
    state.pc = address;
}

/// Moves the program counter past the next instruction.
fn skip_next(state: &mut State)
    ensures
        final(state)@ == skip_if(old(state)@, true),
{
    state.pc = ((state.pc as u32 + 2) % 4096) as u16;
}

/// `3XKK`: skip the next instruction when `VX == KK`.
pub fn op_3XYY(state: &mut State, opcode: u16)
    ensures
        final(state)@ == skip_if(old(state)@, vx(old(state)@, opcode) == kk_of(opcode)),
{
    let register = field_x(opcode);
    let byte = field_kk(opcode);
    if state.registers[register] == byte {
        skip_next(state);
    }
}

/// `4XKK`: skip the next instruction when `VX != KK`.
pub fn op_4XYY(state: &mut State, opcode: u16)
    ensures
        final(state)@ == skip_if(old(state)@, vx(old(state)@, opcode) != kk_of(opcode)),
{
    let register = field_x(opcode);
    let byte = field_kk(opcode);
    if state.registers[register] != byte {
        skip_next(state);
    }
}

/// `5XY0`: skip the next instruction when `VX == VY`.
pub fn op_5XY0(state: &mut State, opcode: u16)
    ensures
        final(state)@ == skip_if(old(state)@, vx(old(state)@, opcode) == vy(old(state)@, opcode)),
{
    let register1 = field_x(opcode);
    let register2 = field_y(opcode);
    if state.registers[register1] == state.registers[register2] {
        skip_next(state);
    }
}

/// `6XKK`: load the literal `KK` into register `X`.
pub fn op_6XYY(state: &mut State, opcode: u16)
    ensures
        final(state)@ == set_reg(old(state)@, x_of(opcode), kk_of(opcode)),
{
    let register = field_x(opcode);
    let byte = field_kk(opcode);
    state.registers[register] = byte;
}

/// `7XKK`: add the literal `KK` to register `X`, modulo 256.
pub fn op_7XYY(state: &mut State, opcode: u16)
    ensures
        final(state)@ == set_reg(old(state)@, x_of(opcode), add8(vx(old(state)@, opcode), kk_of(opcode))),
{
    let register = field_x(opcode);
    let byte = field_kk(opcode);
    state.registers[register] = ((state.registers[register] as u16 + byte as u16) % 256) as u8;
}

/// `8XY0`: `VX = VY`.
pub fn op_8XY0(state: &mut State, opcode: u16)
    ensures
        final(state)@ == set_reg(old(state)@, x_of(opcode), vy(old(state)@, opcode)),
{
    let register1 = field_x(opcode);
    let register2 = field_y(opcode);
    state.registers[register1] = state.registers[register2];
}

/// `8XY1`: `VX = VX | VY`.
pub fn op_8XY1(state: &mut State, opcode: u16)
    ensures
        final(state)@ == set_reg(old(state)@, x_of(opcode), vx(old(state)@, opcode) | vy(old(state)@, opcode)),
{
    let register1 = field_x(opcode);
    let register2 = field_y(opcode);
    state.registers[register1] = state.registers[register1] | state.registers[register2];
}

/// `8XY2`: `VX = VX & VY`.
pub fn op_8XY2(state: &mut State, opcode: u16)
    ensures
        final(state)@ == set_reg(old(state)@, x_of(opcode), vx(old(state)@, opcode) & vy(old(state)@, opcode)),
{
    let register1 = field_x(opcode);
    let register2 = field_y(opcode);
    state.registers[register1] = state.registers[register1] & state.registers[register2];
}

/// `8XY3`: `VX = VX ^ VY`.
pub fn op_8XY3(state: &mut State, opcode: u16)
    ensures
        final(state)@ == set_reg(old(state)@, x_of(opcode), vx(old(state)@, opcode) ^ vy(old(state)@, opcode)),
{
    let register1 = field_x(opcode);
    let register2 = field_y(opcode);
    state.registers[register1] = state.registers[register1] ^ state.registers[register2];
}

/// `8XY4`: `VX = VX + VY` modulo 256, with the carry in the flag register.
pub fn op_8XY4(state: &mut State, opcode: u16)
    ensures
        final(state)@ == set_flag_then_reg(
            old(state)@,
            bit(vx(old(state)@, opcode) + vy(old(state)@, opcode) > 255),
            x_of(opcode),
            add8(vx(old(state)@, opcode), vy(old(state)@, opcode)),
        ),
{
    let register1 = field_x(opcode);
    let register2 = field_y(opcode);
    let sum = state.registers[register1] as u16 + state.registers[register2] as u16;
    state.registers[15] = if sum > 255 { 1 } else { 0 };
    state.registers[register1] = (sum % 256) as u8;
}

/// `8XY5`: `VX = VX - VY` modulo 256; the flag register is 1 when `VX > VY`.
pub fn op_8XY5(state: &mut State, opcode: u16)
    ensures
        final(state)@ == set_flag_then_reg(
            old(state)@,
            bit(vx(old(state)@, opcode) > vy(old(state)@, opcode)),
            x_of(opcode),
            sub8(vx(old(state)@, opcode), vy(old(state)@, opcode)),
        ),
{
    let register1 = field_x(opcode);
    let register2 = field_y(opcode);
    let a = state.registers[register1];
    let b = state.registers[register2];
    state.registers[15] = if a > b { 1 } else { 0 };
    state.registers[register1] = ((a as u16 + 256 - b as u16) % 256) as u8;
}

/// `8XY6`: shift `VX` right by one; the flag register takes the bit shifted
/// out.
pub fn op_8XY6(state: &mut State, opcode: u16)
    ensures
        final(state)@ == set_flag_then_reg(
            old(state)@,
            vx(old(state)@, opcode) % 2,
            x_of(opcode),
            vx(old(state)@, opcode) / 2,
        ),
{
    let register1 = field_x(opcode);
    let a = state.registers[register1];
    state.registers[15] = a % 2;
    state.registers[register1] = a / 2;
}

/// `8XY7`: `VX = VY - VX` modulo 256; the flag register is 1 when `VY > VX`.
pub fn op_8XY7(state: &mut State, opcode: u16)
    ensures
        final(state)@ == set_flag_then_reg(
            old(state)@,
            bit(vy(old(state)@, opcode) > vx(old(state)@, opcode)),
            x_of(opcode),
            sub8(vy(old(state)@, opcode), vx(old(state)@, opcode)),
        ),
{
    let register1 = field_x(opcode);
    let register2 = field_y(opcode);
    let a = state.registers[register1];
    let b = state.registers[register2];
    state.registers[15] = if b > a { 1 } else { 0 };
    state.registers[register1] = ((b as u16 + 256 - a as u16) % 256) as u8;
}

/// `8XYE`: shift `VX` left by one, modulo 256; the flag register takes the
/// bit shifted out.
pub fn op_8XYE(state: &mut State, opcode: u16)
    ensures
        final(state)@ == set_flag_then_reg(
            old(state)@,
            vx(old(state)@, opcode) / 128,
            x_of(opcode),
            shl8(vx(old(state)@, opcode)),
        ),
{
    let register1 = field_x(opcode);
    let a = state.registers[register1];
    state.registers[15] = a / 128;
    state.registers[register1] = ((a as u16 * 2) % 256) as u8;
}

/// `9XY0`: skip the next instruction when `VX != VY`.
pub fn op_9XY0(state: &mut State, opcode: u16)
    ensures
        final(state)@ == skip_if(old(state)@, vx(old(state)@, opcode) != vy(old(state)@, opcode)),
{
    let register1 = field_x(opcode);
    let register2 = field_y(opcode);
    if state.registers[register1] != state.registers[register2] {
        skip_next(state);
    }
}

/// `ANNN`: `index = NNN`.
pub fn op_AXXX(state: &mut State, opcode: u16)
    ensures
        final(state)@ == (Machine { index: nnn_of(opcode), ..old(state)@ }),
{
    let address = field_nnn(opcode);
    state.index = address;
}

/// `BNNN`: jump to `V0 + NNN`, modulo 4096.
pub fn op_BXXX(state: &mut State, opcode: u16)
    ensures
        final(state)@ == (Machine { pc: wrap_addr(old(state).registers[0] + nnn_of(opcode)), ..old(state)@ }),
{
    let address = field_nnn(opcode);
    state.pc = ((state.registers[0] as u16 + address) % 4096) as u16;
}

/// `CXKK`: `VX = KK & random_byte`, where `random_byte` is a byte drawn
/// from the caller's random source.
pub fn op_CXYY(state: &mut State, opcode: u16, random_byte: u8)
    ensures
        final(state)@ == set_reg(old(state)@, x_of(opcode), kk_of(opcode) & random_byte),
{
    let register = field_x(opcode);
    let byte = field_kk(opcode);
    state.registers[register] = byte & random_byte;
}

/// The row word of sprite byte `b` with its leftmost pixel at column `col`:
/// the byte rotated right by `col + 8`, so that pixels past the right edge
/// wrap around to the left edge.
pub fn place_sprite_byte(b: u8, col: u64) -> (r: u64)
    requires
        col < 64,
    ensures
        r == sprite_word(b, col as nat),
{
    let v = b as u64;
    let s: u64 = (col + 8) % 64;
    if s == 0 {
        v
    } else {
        (v >> s) | (v << (64 - s))
    }
}

/// XOR followed by a test of the XORed bits detects exactly the bits that
/// were set before.
proof fn lemma_xor_collision(old_row: u64, bits: u64)
    ensures
        ((old_row ^ bits) & bits != bits) == (old_row & bits != 0),
{
    assert(((old_row ^ bits) & bits != bits) == (old_row & bits != 0)) by (bit_vector);
}

/// `DXYN`: draw the `N`-row sprite at `index` with its top left corner at
/// `(VX mod 64, VY mod 32)`, XORing it into the screen; the flag register
/// reports whether any pixel was turned off.
pub fn op_DXYZ(state: &mut State, opcode: u16)
    ensures
        final(state)@ == draw_spec(old(state)@, opcode),
{
    let ghost m0: Machine = state@;
    let register1 = field_x(opcode);
    let register2 = field_y(opcode);
    let height = field_n(opcode);
    let x_pos = (state.registers[register1] % 64) as u64;
    let y_pos = (state.registers[register2] % 32) as usize;
    let index = state.index as usize;
    assert(x_pos == draw_col(m0, opcode));
    assert(y_pos == draw_row(m0, opcode));

    state.registers[15] = 0;

    let mut row: usize = 0;
    while row < height
        invariant
            row <= height,
            height == n_of(opcode),
            height < 16,
            x_pos == draw_col(m0, opcode),
            y_pos == draw_row(m0, opcode),
            index == m0.index,
            state.memory@ == m0.memory,
            state.stack@ == m0.stack,
            state.keypad@ == m0.keypad,
            state.index == m0.index,
            state.pc == m0.pc,
            state.sp == m0.sp,
            state.delay_timer == m0.delay_timer,
            state.sound_timer == m0.sound_timer,
            m0.wf(),
            state.registers@ == m0.registers.update(
                15,
                bit(exists|j: int| 0 <= j < row && #[trigger] collides(m0, opcode, j)),
            ),
            forall|r: int|
                0 <= r < 32 ==> #[trigger] state.video@[r] == if sprite_row_at(m0, opcode, r) < row {
                    drawn_row(m0, opcode, r)
                } else {
                    m0.video[r]
                },
        decreases height - row,
    {
        let sprite_row = state.memory[(index + row) % 4096];
        let bits_to_flip = place_sprite_byte(sprite_row, x_pos);
        let row_index = (row + y_pos) % 32;
        assert(sprite_row_at(m0, opcode, row_index as int) == row as int);
        assert(bits_to_flip == draw_word(m0, opcode, row as int));
        let old_row = state.video[row_index];
        assert(old_row == m0.video[row_index as int]);
        let new_row = old_row ^ bits_to_flip;
        state.video[row_index] = new_row;
        proof {
            lemma_xor_collision(old_row, bits_to_flip);
        }
        let ghost was = exists|j: int| 0 <= j < row && #[trigger] collides(m0, opcode, j);
        if new_row & bits_to_flip != bits_to_flip {
            state.registers[15] = 1;
            assert(collides(m0, opcode, row as int));
        }
        assert((exists|j: int| 0 <= j < row + 1 && #[trigger] collides(m0, opcode, j)) == (was || collides(m0, opcode, row as int)));
        assert forall|r: int| 0 <= r < 32 implies #[trigger] state.video@[r] == if sprite_row_at(m0, opcode, r) < row + 1 {
            drawn_row(m0, opcode, r)
        } else {
            m0.video[r]
        } by {
            if r == row_index {
            } else {
                assert(sprite_row_at(m0, opcode, r) != row);
            }
        }
        row = row + 1;
    }
    assert forall|r: int| 0 <= r < 32 implies sprite_row_at(m0, opcode, r) < row || drawn_row(m0, opcode, r) == m0.video[r] by {}
    assert(state@ =~= draw_spec(m0, opcode));
}

/// `EX9E`: skip the next instruction when key `VX` (modulo 16) is pressed.
pub fn op_EX9E(state: &mut State, opcode: u16)
    ensures
        final(state)@ == skip_if(old(state)@, old(state).keypad[vx(old(state)@, opcode) as int % 16]),
{
    let register1 = field_x(opcode);
    if state.keypad[(state.registers[register1] % 16) as usize] {
        skip_next(state);
    }
}

/// `EXA1`: skip the next instruction when key `VX` (modulo 16) is not
/// pressed.
pub fn op_EXA1(state: &mut State, opcode: u16)
    ensures
        final(state)@ == skip_if(old(state)@, !old(state).keypad[vx(old(state)@, opcode) as int % 16]),
{
    let register1 = field_x(opcode);
    if !state.keypad[(state.registers[register1] % 16) as usize] {
        skip_next(state);
    }
}

/// `FX07`: `VX = delay_timer`.
pub fn op_FX07(state: &mut State, opcode: u16)
    ensures
        final(state)@ == set_reg(old(state)@, x_of(opcode), old(state).delay_timer),
{
    let register1 = field_x(opcode);
    state.registers[register1] = state.delay_timer;
}

/// `FX15`: `delay_timer = VX`.
pub fn op_FX15(state: &mut State, opcode: u16)
    ensures
        final(state)@ == (Machine { delay_timer: vx(old(state)@, opcode), ..old(state)@ }),
{
    let register1 = field_x(opcode);
    state.delay_timer = state.registers[register1];
}

/// `FX18`: `sound_timer = VX`.
pub fn op_FX18(state: &mut State, opcode: u16)
    ensures
        final(state)@ == (Machine { sound_timer: vx(old(state)@, opcode), ..old(state)@ }),
{
    let register1 = field_x(opcode);
    state.sound_timer = state.registers[register1];
}

/// `FX1E`: `index = index + VX`, modulo 4096.
pub fn op_FX1E(state: &mut State, opcode: u16)
    ensures
        final(state)@ == (Machine { index: wrap_addr(old(state).index + vx(old(state)@, opcode)), ..old(state)@ }),
{
    let register1 = field_x(opcode);
    state.index = ((state.index as u32 + state.registers[register1] as u32) % 4096) as u16;
}

/// `FX29`: point `index` at the font glyph of digit `VX`:
/// `FONT_BASE + 5 * VX`, modulo 4096.
pub fn op_FX29(state: &mut State, opcode: u16)
    ensures
        final(state)@ == (Machine { index: wrap_addr(FONT_BASE + 5 * vx(old(state)@, opcode)), ..old(state)@ }),
{
    let register1 = field_x(opcode);
    state.index = ((FONT_BASE as u32 + 5 * state.registers[register1] as u32) % 4096) as u16;
}

/// `FX33`: store the hundreds, tens and ones digits of `VX` at `index`,
/// `index + 1` and `index + 2` (each address taken modulo 4096).
pub fn op_FX33(state: &mut State, opcode: u16)
    ensures
        final(state)@ == bcd_spec(old(state)@, vx(old(state)@, opcode)),
{
    let register1 = field_x(opcode);
    let num = state.registers[register1];
    let index = state.index as usize;
    state.memory[index % 4096] = num / 100;
    state.memory[(index + 1) % 4096] = (num / 10) % 10;
    state.memory[(index + 2) % 4096] = num % 10;
}

/// `FX0A`: wait for a key. The lowest pressed key goes into `VX`; with no
/// key pressed the program counter moves back onto this instruction, so that
/// it runs again on the next step.
pub fn op_FX0A(state: &mut State, opcode: u16)
    ensures
        final(state)@ == wait_key_spec(old(state)@, opcode),
{
    let register1 = field_x(opcode);
    let mut key: usize = 0;
    while key < 16 && !state.keypad[key]
        invariant
            key <= 16,
            state@ == old(state)@,
            first_pressed(state.keypad@) == first_pressed_from(state.keypad@, key as int),
        decreases 16 - key,
    {
        key = key + 1;
    }
    if key < 16 {
        state.registers[register1] = key as u8;
    } else {
        state.pc = ((state.pc as u32 + 4094) % 4096) as u16;
        assert(state.pc == prev_pc(old(state).pc));
    }
}

/// `FX55`: copy registers `0..=X` to memory from `index` on.
pub fn op_FX55(state: &mut State, opcode: u16)
    ensures
        final(state)@ == store_regs_spec(old(state)@, x_of(opcode)),
{
    let ghost m0: Machine = state@;
    let register1 = field_x(opcode);
    let index = state.index as usize;
    let mut i: usize = 0;
    while i <= register1
        invariant
            i <= register1 + 1,
            register1 == x_of(opcode),
            register1 < 16,
            index == m0.index,
            m0.wf(),
            state.registers@ == m0.registers,
            state.stack@ == m0.stack,
            state.keypad@ == m0.keypad,
            state.video@ == m0.video,
            state.index == m0.index,
            state.pc == m0.pc,
            state.sp == m0.sp,
            state.delay_timer == m0.delay_timer,
            state.sound_timer == m0.sound_timer,
            forall|a: int|
                0 <= a < 4096 ==> #[trigger] state.memory@[a] == if (a - m0.index) % 4096 < i {
                    m0.registers[(a - m0.index) % 4096]
                } else {
                    m0.memory[a]
                },
        decreases register1 + 1 - i,
    {
        let a = (index + i) % 4096;
        state.memory[a] = state.registers[i];
        assert((a - m0.index) % 4096 == i as int);
        i = i + 1;
    }
    assert(state@ =~= store_regs_spec(m0, x_of(opcode)));
}

/// `FX65`: load registers `0..=X` from memory from `index` on.
pub fn op_FX65(state: &mut State, opcode: u16)
    ensures
        final(state)@ == load_regs_spec(old(state)@, x_of(opcode)),
{
    let ghost m0: Machine = state@;
    let register1 = field_x(opcode);
    let index = state.index as usize;
    let mut i: usize = 0;
    while i <= register1
        invariant
            i <= register1 + 1,
            register1 == x_of(opcode),
            register1 < 16,
            index == m0.index,
            m0.wf(),
            state.memory@ == m0.memory,
            state.stack@ == m0.stack,
            state.keypad@ == m0.keypad,
            state.video@ == m0.video,
            state.index == m0.index,
            state.pc == m0.pc,
            state.sp == m0.sp,
            state.delay_timer == m0.delay_timer,
            state.sound_timer == m0.sound_timer,
            forall|k: int|
                0 <= k < 16 ==> #[trigger] state.registers@[k] == if k < i {
                    m0.memory[(m0.index + k) % 4096]
                } else {
                    m0.registers[k]
                },
        decreases register1 + 1 - i,
    {
        state.registers[i] = state.memory[(index + i) % 4096];
        i = i + 1;
    }
    assert(state@ =~= load_regs_spec(m0, x_of(opcode)));
}

} // verus!
