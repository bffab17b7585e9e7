//! What each instruction does, stated over [`Machine`].

use vstd::prelude::*;
use crate::decode::{group_of, x_of, y_of, n_of, kk_of, nnn_of};
use crate::state::Machine;

verus! {

/// Address at which the font glyphs are loaded.
pub const FONT_BASE: u16 = 0x50;

/// `a mod 4096`, as an address.
pub open spec fn wrap_addr(a: int) -> u16 {
    (a % 4096) as u16
}

/// The program counter one instruction further on.
pub open spec fn next_pc(pc: u16) -> u16 {
    wrap_addr(pc + 2)
}

/// The program counter one instruction back.
pub open spec fn prev_pc(pc: u16) -> u16 {
    wrap_addr(pc - 2)
}

/// The value of register `X` of `op`.
pub open spec fn vx(m: Machine, op: u16) -> u8 {
    m.registers[x_of(op)]
}

/// The value of register `Y` of `op`.
pub open spec fn vy(m: Machine, op: u16) -> u8 {
    m.registers[y_of(op)]
}

/// `m` with register `i` set to `v`.
pub open spec fn set_reg(m: Machine, i: int, v: u8) -> Machine {
    Machine { registers: m.registers.update(i, v), ..m }
}

/// `m` with the flag register set to `f`, then register `i` set to `v`.
pub open spec fn set_flag_then_reg(m: Machine, f: u8, i: int, v: u8) -> Machine {
    Machine { registers: m.registers.update(15, f).update(i, v), ..m }
}

/// `m` with the next instruction skipped when `cond` holds.
pub open spec fn skip_if(m: Machine, cond: bool) -> Machine {
    if cond {
        Machine { pc: next_pc(m.pc), ..m }
    } else {
        m
    }
}

/// Clear the screen.
pub open spec fn cls_spec(m: Machine) -> Machine {
    Machine { video: Seq::new(32, |i: int| 0u64), ..m }
}

/// Return from a subroutine.
pub open spec fn ret_spec(m: Machine) -> Machine {
    let sp = ((m.sp + 15) % 16) as u8;
    Machine { sp, pc: m.stack[sp as int], ..m }
}

/// Jump to the address of `op`.
pub open spec fn jump_spec(m: Machine, op: u16) -> Machine {
    Machine { pc: nnn_of(op), ..m }
}

/// Call the subroutine at the address of `op`.
pub open spec fn call_spec(m: Machine, op: u16) -> Machine {
    Machine {
        stack: m.stack.update(m.sp as int % 16, m.pc),
        sp: ((m.sp + 1) % 16) as u8,
        pc: nnn_of(op),
        ..m
    }
}

/// `(a + b) mod 256`.
pub open spec fn add8(a: u8, b: u8) -> u8 {
    ((a + b) % 256) as u8
}

/// `(a - b) mod 256`.
pub open spec fn sub8(a: u8, b: u8) -> u8 {
    ((a - b) % 256) as u8
}

/// 1 when `c` holds, else 0.
pub open spec fn bit(c: bool) -> u8 {
    if c { 1 } else { 0 }
}

/// Effect of one arithmetic or logic instruction of the `8XYN` group. The
/// flag is written first, so when `X` is the flag register it ends up
/// holding the result.
pub open spec fn alu_spec(m: Machine, op: u16) -> Option<Machine> {
    let x = x_of(op);
    let a = vx(m, op);
    let b = vy(m, op);
    let n = n_of(op);
    if n == 0 {
        Some(set_reg(m, x, b))
    } else if n == 1 {
        Some(set_reg(m, x, a | b))
    } else if n == 2 {
        Some(set_reg(m, x, a & b))
    } else if n == 3 {
        Some(set_reg(m, x, a ^ b))
    } else if n == 4 {
        Some(set_flag_then_reg(m, bit(a + b > 255), x, add8(a, b)))
    } else if n == 5 {
        Some(set_flag_then_reg(m, bit(a > b), x, sub8(a, b)))
    } else if n == 6 {
        Some(set_flag_then_reg(m, a % 2, x, a / 2))
    } else if n == 7 {
        Some(set_flag_then_reg(m, bit(b > a), x, sub8(b, a)))
    } else if n == 14 {
        Some(set_flag_then_reg(m, a / 128, x, shl8(a)))
    } else {
        None
    }
}

/// `(a * 2) mod 256`.
pub open spec fn shl8(a: u8) -> u8 {
    ((a * 2) % 256) as u8
}

/// `v` rotated right by `r` bit positions.
pub open spec fn rotr(v: u64, r: nat) -> u64 {
    let s = r % 64;
    if s == 0 {
        v
    } else {
        (v >> s) | (v << (64 - s) as u64)
    }
}

/// The 64-bit row word of sprite byte `b` drawn with its leftmost pixel at
/// column `col`: pixel column `k` is bit `63 - k`.
pub open spec fn sprite_word(b: u8, col: nat) -> u64 {
    rotr(b as u64, col + 8)
}

/// The anchor column of a draw.
pub open spec fn draw_col(m: Machine, op: u16) -> nat {
    (m.registers[x_of(op)] % 64) as nat
}

/// The anchor row of a draw.
pub open spec fn draw_row(m: Machine, op: u16) -> int {
    m.registers[y_of(op)] as int % 32
}

/// The word that sprite row `j` of a draw XORs into the screen.
pub open spec fn draw_word(m: Machine, op: u16, j: int) -> u64 {
    sprite_word(m.memory[(m.index + j) % 4096], draw_col(m, op))
}

/// Which sprite row, if any, lands on screen row `r`.
pub open spec fn sprite_row_at(m: Machine, op: u16, r: int) -> int {
    (r - draw_row(m, op)) % 32
}

/// Screen row `r` after a draw.
pub open spec fn drawn_row(m: Machine, op: u16, r: int) -> u64 {
    let j = sprite_row_at(m, op, r);
    if j < n_of(op) {
        m.video[r] ^ draw_word(m, op, j)
    } else {
        m.video[r]
    }
}

/// Whether sprite row `j` turns off a pixel that was on.
pub open spec fn collides(m: Machine, op: u16, j: int) -> bool {
    m.video[(draw_row(m, op) + j) % 32] & draw_word(m, op, j) != 0
}

/// Draw the sprite of `op`: XOR its rows into the screen and report in the
/// flag register whether any pixel was turned off.
pub open spec fn draw_spec(m: Machine, op: u16) -> Machine {
    Machine {
        video: Seq::new(32, |r: int| drawn_row(m, op, r)),
        registers: m.registers.update(
            15,
            bit(exists|j: int| 0 <= j < n_of(op) && #[trigger] collides(m, op, j)),
        ),
        ..m
    }
}

/// The index of the first pressed key at or after `i`, or 16 if none.
pub open spec fn first_pressed_from(keys: Seq<bool>, i: int) -> int
    decreases 16 - i,
{
    if i >= 16 {
        16
    } else if keys[i] {
        i
    } else {
        first_pressed_from(keys, i + 1)
    }
}

/// The index of the lowest pressed key, or 16 if none.
pub open spec fn first_pressed(keys: Seq<bool>) -> int {
    first_pressed_from(keys, 0)
}

/// Wait for a key: store the lowest pressed key, or go back to this
/// instruction when none is pressed.
pub open spec fn wait_key_spec(m: Machine, op: u16) -> Machine {
    let k = first_pressed(m.keypad);
    if k < 16 {
        set_reg(m, x_of(op), k as u8)
    } else {
        Machine { pc: prev_pc(m.pc), ..m }
    }
}

/// Store the decimal digits of `v` at `index`, `index + 1`, `index + 2`.
pub open spec fn bcd_spec(m: Machine, v: u8) -> Machine {
    Machine {
        memory: m.memory
            .update(m.index as int % 4096, v / 100)
            .update((m.index + 1) % 4096, (v / 10) % 10)
            .update((m.index + 2) % 4096, v % 10),
        ..m
    }
}

/// Store registers `0..=x` at consecutive addresses from `index`.
pub open spec fn store_regs_spec(m: Machine, x: int) -> Machine {
    Machine {
        memory: Seq::new(
            4096,
            |a: int|
                if (a - m.index) % 4096 <= x {
                    m.registers[(a - m.index) % 4096]
                } else {
                    m.memory[a]
                },
        ),
        ..m
    }
}

/// Load registers `0..=x` from consecutive addresses from `index`.
pub open spec fn load_regs_spec(m: Machine, x: int) -> Machine {
    Machine {
        registers: Seq::new(
            16,
            |i: int| if i <= x { m.memory[(m.index + i) % 4096] } else { m.registers[i] },
        ),
        ..m
    }
}

/// Effect of one instruction of the `FXKK` group.
pub open spec fn misc_spec(m: Machine, op: u16) -> Option<Machine> {
    let x = x_of(op);
    let a = vx(m, op);
    let kk = kk_of(op);
    if kk == 0x07 {
        Some(set_reg(m, x, m.delay_timer))
    } else if kk == 0x0A {
        Some(wait_key_spec(m, op))
    } else if kk == 0x15 {
        Some(Machine { delay_timer: a, ..m })
    } else if kk == 0x18 {
        Some(Machine { sound_timer: a, ..m })
    } else if kk == 0x1E {
        Some(Machine { index: wrap_addr(m.index + a), ..m })
    } else if kk == 0x29 {
        Some(Machine { index: wrap_addr(FONT_BASE + 5 * a), ..m })
    } else if kk == 0x33 {
        Some(bcd_spec(m, a))
    } else if kk == 0x55 {
        Some(store_regs_spec(m, x))
    } else if kk == 0x65 {
        Some(load_regs_spec(m, x))
    } else {
        None
    }
}

/// Effect of executing instruction `op` on `m` (whose program counter has
/// already moved past it); `rnd` is the random byte that `CXKK` uses.
/// `None` when `op` is not an instruction.
pub open spec fn exec_spec(m: Machine, op: u16, rnd: u8) -> Option<Machine> {
    let g = group_of(op);
    let x = x_of(op);
    let a = vx(m, op);
    let b = vy(m, op);
    let kk = kk_of(op);
    if g == 0 {
        if n_of(op) == 0 {
            Some(cls_spec(m))
        } else if n_of(op) == 14 {
            Some(ret_spec(m))
        } else {
            None
        }
    } else if g == 1 {
        Some(jump_spec(m, op))
    } else if g == 2 {
        Some(call_spec(m, op))
    } else if g == 3 {
        Some(skip_if(m, a == kk))
    } else if g == 4 {
        Some(skip_if(m, a != kk))
    } else if g == 5 {
        Some(skip_if(m, a == b))
    } else if g == 6 {
        Some(set_reg(m, x, kk))
    } else if g == 7 {
        Some(set_reg(m, x, add8(a, kk)))
    } else if g == 8 {
        alu_spec(m, op)
    } else if g == 9 {
        Some(skip_if(m, a != b))
    } else if g == 10 {
        Some(Machine { index: nnn_of(op), ..m })
    } else if g == 11 {
        Some(Machine { pc: wrap_addr(m.registers[0] + nnn_of(op)), ..m })
    } else if g == 12 {
        Some(set_reg(m, x, kk & rnd))
    } else if g == 13 {
        Some(draw_spec(m, op))
    } else if g == 14 {
        if n_of(op) == 14 {
            Some(skip_if(m, m.keypad[a as int % 16]))
        } else if n_of(op) == 1 {
            Some(skip_if(m, !m.keypad[a as int % 16]))
        } else {
            None
        }
    } else {
        misc_spec(m, op)
    }
}

/// The instruction word at the program counter: two bytes, big-endian,
/// each address taken modulo 4096.
pub open spec fn fetch_spec(m: Machine) -> u16 {
    (m.memory[m.pc as int % 4096] * 256 + m.memory[(m.pc + 1) % 4096]) as u16
}

/// `m` after the fetch has moved the program counter past the instruction.
pub open spec fn fetched(m: Machine) -> Machine {
    Machine { pc: next_pc(m.pc), ..m }
}

/// One fetch-decode-execute step; `None` when the fetched word is not an
/// instruction.
#[verifier::opaque]
pub open spec fn step_spec(m: Machine, rnd: u8) -> Option<Machine> {
    exec_spec(fetched(m), fetch_spec(m), rnd)
}

/// One step per byte of `rnds` (the byte is the random source's draw for
/// that step). Stops at the first invalid instruction, with the state after
/// its fetch and the instruction word.
pub open spec fn run_steps(m: Machine, rnds: Seq<u8>) -> Result<Machine, (Machine, u16)>
    decreases rnds.len(),
{
    if rnds.len() == 0 {
        Ok(m)
    } else {
        match run_steps(m, rnds.drop_last()) {
            Ok(m1) => match step_spec(m1, rnds.last()) {
                Some(m2) => Ok(m2),
                None => Err((fetched(m1), fetch_spec(m1))),
            },
            Err(e) => Err(e),
        }
    }
}

/// A timer one tick later: one less, but never below zero.
pub open spec fn tick(t: u8) -> u8 {
    if t > 0 {
        (t - 1) as u8
    } else {
        0
    }
}

/// Both timers one tick later.
pub open spec fn decay_spec(m: Machine) -> Machine {
    Machine { delay_timer: tick(m.delay_timer), sound_timer: tick(m.sound_timer), ..m }
}

} // verus!
