//! Two-level instruction dispatch and the cycle runner.

use vstd::prelude::*;
use rand::Rng;
use rand::rngs::StdRng;
use crate::decode::{field_group, field_n, field_kk, group_of};
use crate::opcodes;
use crate::semantics::{
    exec_spec, misc_spec, alu_spec, fetch_spec, fetched, step_spec, run_steps, decay_spec,
};
use crate::state::{Machine, State};

verus! {

/// The fetched word selects no instruction. This ends the run of the
/// current program: going on would execute data as code.
#[derive(Clone, Copy, Debug, PartialEq, Eq, Structural)]
pub struct InvalidOpcode {
    pub opcode: u16,
}

/// Whether a dispatch from `before` to `after` with result `r` is the
/// outcome `expected` of instruction `opcode`: on `Some` the instruction
/// ran, on `None` the state is unchanged and the error names the word.
pub open spec fn outcome(
    before: Machine,
    after: Machine,
    r: Result<(), InvalidOpcode>,
    expected: Option<Machine>,
    opcode: u16,
) -> bool {
    match expected {
        Some(m) => r is Ok && after == m,
        None => r == Err::<(), InvalidOpcode>(InvalidOpcode { opcode }) && after == before,
    }
}

/// The state and result of one call of the cycle runner whose steps drew
/// the bytes `rnds`: on success the timers decay once at the end.
pub open spec fn cycle_spec(m: Machine, rnds: Seq<u8>) -> (Machine, Result<(), InvalidOpcode>) {
    match run_steps(m, rnds) {
        Ok(m1) => (decay_spec(m1), Ok(())),
        Err((m1, op)) => (m1, Err(InvalidOpcode { opcode: op })),
    }
}

/// rand's seeded generator, the random source that `CXKK` draws from. It is
/// carried through unopened.
#[verifier::external_type_specification]
#[verifier::external_body]
pub struct ExStdRng(StdRng);

/// Relies on `rand::Rng::gen::<u8>` on `StdRng`: draws one byte and
/// advances the generator. Nothing is promised of the byte.
#[verifier::external_body]
fn draw_byte(rng: &mut StdRng) -> (r: u8) {
    rng.gen::<u8>()
}

/// The handler of every unassigned slot: reports the word as invalid.
fn op_none(opcode: u16) -> (r: Result<(), InvalidOpcode>)
    ensures
        r == Err::<(), InvalidOpcode>(InvalidOpcode { opcode }),
{
    Err(InvalidOpcode { opcode })
}

/// Second-level dispatch of the `0` group on the low nibble.
fn op_table_0(state: &mut State, opcode: u16) -> (r: Result<(), InvalidOpcode>)
    requires
        group_of(opcode) == 0,
    ensures
        outcome(old(state)@, final(state)@, r, exec_spec(old(state)@, opcode, 0), opcode),
{
    let index = field_n(opcode);
    match index {
        0 => {
            opcodes::op_00E0(state, opcode);
            Ok(())
        },
        14 => {
            opcodes::op_00EE(state, opcode);
            Ok(())
        },
        _ => op_none(opcode),
    }
}

/// Second-level dispatch of the `8` group on the low nibble.
fn op_table_8(state: &mut State, opcode: u16) -> (r: Result<(), InvalidOpcode>)
    ensures
        outcome(old(state)@, final(state)@, r, alu_spec(old(state)@, opcode), opcode),
{
    let index = field_n(opcode);
    match index {
        0 => opcodes::op_8XY0(state, opcode),
        1 => opcodes::op_8XY1(state, opcode),
        2 => opcodes::op_8XY2(state, opcode),
        3 => opcodes::op_8XY3(state, opcode),
        4 => opcodes::op_8XY4(state, opcode),
        5 => opcodes::op_8XY5(state, opcode),
        6 => opcodes::op_8XY6(state, opcode),
        7 => opcodes::op_8XY7(state, opcode),
        14 => opcodes::op_8XYE(state, opcode),
        _ => {
            return op_none(opcode);
        },
    }
    Ok(())
}

/// Second-level dispatch of the `E` group on the low nibble.
fn op_table_e(state: &mut State, opcode: u16) -> (r: Result<(), InvalidOpcode>)
    requires
        group_of(opcode) == 14,
    ensures
        outcome(old(state)@, final(state)@, r, exec_spec(old(state)@, opcode, 0), opcode),
{
    let index = field_n(opcode);
    match index {
        1 => opcodes::op_EXA1(state, opcode),
        14 => opcodes::op_EX9E(state, opcode),
        _ => {
            return op_none(opcode);
        },
    }
    Ok(())
}

/// Second-level dispatch of the `F` group on the whole low byte.
fn op_table_f(state: &mut State, opcode: u16) -> (r: Result<(), InvalidOpcode>)
    ensures
        outcome(old(state)@, final(state)@, r, misc_spec(old(state)@, opcode), opcode),
{
    let index = field_kk(opcode);
    match index {
        0x07 => opcodes::op_FX07(state, opcode),
        0x0A => opcodes::op_FX0A(state, opcode),
        0x15 => opcodes::op_FX15(state, opcode),
        0x18 => opcodes::op_FX18(state, opcode),
        0x1E => opcodes::op_FX1E(state, opcode),
        0x29 => opcodes::op_FX29(state, opcode),
        0x33 => opcodes::op_FX33(state, opcode),
        0x55 => opcodes::op_FX55(state, opcode),
        0x65 => opcodes::op_FX65(state, opcode),
        _ => {
            return op_none(opcode);
        },
    }
    Ok(())
}

/// Executes instruction `opcode` on `state`, whose program counter has
/// already moved past it. `random_byte` is what `CXKK` ANDs with its
/// literal; the other instructions ignore it.
pub fn run_opcode(state: &mut State, opcode: u16, random_byte: u8) -> (r: Result<(), InvalidOpcode>)
    ensures
        outcome(old(state)@, final(state)@, r, exec_spec(old(state)@, opcode, random_byte), opcode),
{
    let index = field_group(opcode);
    match index {
        0 => {
            return op_table_0(state, opcode);
        },
        1 => opcodes::op_1XXX(state, opcode),
        2 => opcodes::op_2XXX(state, opcode),
        3 => opcodes::op_3XYY(state, opcode),
        4 => opcodes::op_4XYY(state, opcode),
        5 => opcodes::op_5XY0(state, opcode),
        6 => opcodes::op_6XYY(state, opcode),
        7 => opcodes::op_7XYY(state, opcode),
        8 => {
            return op_table_8(state, opcode);
        },
        9 => opcodes::op_9XY0(state, opcode),
        10 => opcodes::op_AXXX(state, opcode),
        11 => opcodes::op_BXXX(state, opcode),
        12 => opcodes::op_CXYY(state, opcode, random_byte),
        13 => opcodes::op_DXYZ(state, opcode),
        14 => {
            return op_table_e(state, opcode);
        },
        _ => {
            return op_table_f(state, opcode);
        },
    }
    Ok(())
}

/// One fetch-decode-execute step: reads the big-endian word at `pc`, moves
/// `pc` on by two (modulo 4096) and executes the word. Returns the result
/// and the byte that the step drew from `rng` (0 when it drew none).
fn run_step(state: &mut State, rng: &mut StdRng) -> (res: (Result<(), InvalidOpcode>, Ghost<u8>))
    ensures
        outcome(
            fetched(old(state)@),
            final(state)@,
            res.0,
            step_spec(old(state)@, res.1@),
            fetch_spec(old(state)@),
        ),
{
    let ghost before: Machine = state@;
    let pc = state.pc as usize;
    let opcode = state.memory[pc % 4096] as u16 * 256 + state.memory[(pc + 1) % 4096] as u16;
    state.pc = ((pc + 2) % 4096) as u16;
    assert(state@ == fetched(before));
    let random_byte = if field_group(opcode) == 12 {
        draw_byte(rng)
    } else {
        0
    };
    let result = run_opcode(state, opcode, random_byte);
    proof {
        reveal(step_spec);
    }
    (result, Ghost(random_byte))
}

/// Runs `cycles_per_clock` fetch-decode-execute steps on `state`, then
/// decays both timers once. Each step reads the big-endian word at `pc`,
/// moves `pc` on by two (modulo 4096) and executes the word; `CXKK` draws
/// its byte from `rng`. An invalid word stops the run at once and is
/// returned, with `pc` already past it and the timers untouched.
///
/// The contract fixes the outcome up to the bytes drawn: there is one byte
/// per step that ran, and every step but `CXKK` ignores its byte.
pub fn run_cycle(state: &mut State, cycles_per_clock: u8, rng: &mut StdRng) -> (r: Result<(), InvalidOpcode>)
    ensures
        exists|rnds: Seq<u8>|
            rnds.len() <= cycles_per_clock && (r is Ok ==> rnds.len() == cycles_per_clock)
                && #[trigger] cycle_spec(old(state)@, rnds) == (final(state)@, r),
{
    let ghost m0: Machine = state@;
    let ghost rnds: Seq<u8> = Seq::empty();
    let mut i: u8 = 0;
    while i < cycles_per_clock
        invariant
            m0 == old(state)@,
            i <= cycles_per_clock,
            rnds.len() == i,
            run_steps(m0, rnds) == Ok::<Machine, (Machine, u16)>(state@),
        decreases cycles_per_clock - i,
    {
        let ghost before: Machine = state@;
        let (result, random_byte) = run_step(state, rng);
        proof {
            let next = rnds.push(random_byte@);
            assert(next.drop_last() == rnds);
            rnds = next;
        }
        if result.is_err() {
            assert(step_spec(before, rnds.last()) is None);
            assert(run_steps(m0, rnds) == Err::<Machine, (Machine, u16)>((fetched(before), fetch_spec(before))));
            assert(cycle_spec(m0, rnds) == (state@, result));
            return result;
        }
        i = i + 1;
    }
    if state.delay_timer > 0 {
        state.delay_timer = state.delay_timer - 1;
    }
    if state.sound_timer > 0 {
        state.sound_timer = state.sound_timer - 1;
    }
    assert(cycle_spec(m0, rnds) == (state@, Ok::<(), InvalidOpcode>(())));
    Ok(())
}

} // verus!
