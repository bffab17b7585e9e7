//! Properties of the instruction set that relate several steps or hold of
//! every state.

use vstd::prelude::*;
use crate::cpu::cycle_spec;
use crate::decode::{group_of, x_of, y_of, n_of, kk_of, nnn_of};
use crate::semantics::{
    exec_spec, step_spec, fetch_spec, fetched, next_pc, draw_spec, draw_word, rotr, collides,
    call_spec, ret_spec, sprite_row_at, draw_row, first_pressed, first_pressed_from, tick,
    run_steps,
};
use crate::state::Machine;

verus! {

/// A jump sets the program counter to exactly its twelve-bit address and
/// changes nothing else.
pub proof fn jump_sets_pc(m: Machine, op: u16, rnd: u8)
    requires
        group_of(op) == 1,
    ensures
        exec_spec(m, op, rnd) == Some(Machine { pc: nnn_of(op), ..m }),
{
}

/// Loading the literal `a` into a register and then adding the literal `b`
/// to it leaves `(a + b) mod 256` there.
pub proof fn load_then_add(m: Machine, x: u16, a: u8, b: u8, rnd: u8)
    requires
        m.wf(),
        x < 16,
    ensures
        exec_spec(m, (0x6000 + x * 256 + a) as u16, rnd) is Some,
        exec_spec(
            exec_spec(m, (0x6000 + x * 256 + a) as u16, rnd)->Some_0,
            (0x7000 + x * 256 + b) as u16,
            rnd,
        ) is Some,
        exec_spec(
            exec_spec(m, (0x6000 + x * 256 + a) as u16, rnd)->Some_0,
            (0x7000 + x * 256 + b) as u16,
            rnd,
        )->Some_0.registers[x as int] == (a + b) % 256,
{
    let op1 = (0x6000 + x * 256 + a) as u16;
    let op2 = (0x7000 + x * 256 + b) as u16;
    assert(group_of(op1) == 6 && x_of(op1) == x && kk_of(op1) == a);
    assert(group_of(op2) == 7 && x_of(op2) == x && kk_of(op2) == b);
}

/// One step executes the fetched word on the state after the fetch.
proof fn lemma_step(m: Machine, rnd: u8)
    ensures
        step_spec(m, rnd) == exec_spec(fetched(m), fetch_spec(m), rnd),
{
    reveal(step_spec);
}

/// A call followed at its target by a return resumes at the instruction
/// after the call, with the stack pointer back where it was.
pub proof fn call_then_return(m: Machine, rnd1: u8, rnd2: u8)
    requires
        m.wf(),
        m.sp < 16,
        group_of(fetch_spec(m)) == 2,
        m.memory[nnn_of(fetch_spec(m)) as int] == 0x00,
        m.memory[(nnn_of(fetch_spec(m)) + 1) % 4096] == 0xEE,
    ensures
        step_spec(m, rnd1) is Some,
        step_spec(step_spec(m, rnd1)->Some_0, rnd2) is Some,
        step_spec(step_spec(m, rnd1)->Some_0, rnd2)->Some_0.pc == next_pc(m.pc),
        step_spec(step_spec(m, rnd1)->Some_0, rnd2)->Some_0.sp == m.sp,
{
    let op = fetch_spec(m);
    let m1 = call_spec(fetched(m), op);
    lemma_step(m, rnd1);
    assert(exec_spec(fetched(m), op, rnd1) == Some(m1));
    assert(m1.memory == m.memory && m1.pc == nnn_of(op));
    assert(fetch_spec(m1) == 0x00EE);
    lemma_step(m1, rnd2);
    assert(group_of(0x00EEu16) == 0 && n_of(0x00EEu16) == 14);
    assert(exec_spec(fetched(m1), 0x00EE, rnd2) == Some(ret_spec(fetched(m1))));
}

/// A rotated nonzero word is nonzero.
proof fn lemma_rotr_nonzero(v: u64, r: nat)
    requires
        v != 0,
    ensures
        rotr(v, r) != 0,
{
    let s = (r % 64) as u64;
    if s != 0 {
        assert(v != 0 && 0 < s < 64 ==> (v >> s) | (v << (64 - s) as u64) != 0) by (bit_vector);
    }
}

/// XORing the same word twice gives back the original.
proof fn lemma_xor_twice(a: u64, w: u64)
    ensures
        (a ^ w) ^ w == a,
        (0u64 ^ w) & w == w,
{
    assert((a ^ w) ^ w == a) by (bit_vector);
    assert((0u64 ^ w) & w == w) by (bit_vector);
}

/// Drawing the same sprite twice at the same anchor restores the screen.
/// When its pixels were all off before, and the sprite has a nonzero row,
/// the second draw reports a collision.
pub proof fn draw_twice(m: Machine, op: u16)
    requires
        m.wf(),
        x_of(op) != 15,
        y_of(op) != 15,
    ensures
        draw_spec(draw_spec(m, op), op).video == m.video,
        (forall|r: int| 0 <= r < 32 ==> m.video[r] == 0) && (exists|j: int|
            0 <= j < n_of(op) && #[trigger] m.memory[(m.index + j) % 4096] != 0)
            ==> draw_spec(draw_spec(m, op), op).registers[15] == 1,
{
    let m1 = draw_spec(m, op);
    let m2 = draw_spec(m1, op);
    assert(draw_row(m1, op) == draw_row(m, op));
    assert forall|j: int| 0 <= j < n_of(op) implies draw_word(m1, op, j) == #[trigger] draw_word(m, op, j) by {}
    assert forall|r: int| 0 <= r < 32 implies #[trigger] m2.video[r] == m.video[r] by {
        lemma_xor_twice(m.video[r], draw_word(m, op, sprite_row_at(m, op, r)));
    }
    assert(m2.video =~= m.video);
    if (forall|r: int| 0 <= r < 32 ==> m.video[r] == 0) && (exists|j: int|
        0 <= j < n_of(op) && #[trigger] m.memory[(m.index + j) % 4096] != 0) {
        let j = choose|j: int| 0 <= j < n_of(op) && #[trigger] m.memory[(m.index + j) % 4096] != 0;
        let r = (draw_row(m, op) + j) % 32;
        assert(sprite_row_at(m, op, r) == j);
        let w = draw_word(m, op, j);
        lemma_rotr_nonzero(m.memory[(m.index + j) % 4096] as u64, (m.registers[x_of(op)] % 64) as nat + 8);
        lemma_xor_twice(0, w);
        assert(m1.video[r] == 0u64 ^ w);
        assert(collides(m1, op, j));
    }
}

/// `first_pressed_from` finds the lowest pressed key at or after `i`.
proof fn lemma_first_pressed_from(keys: Seq<bool>, i: int)
    requires
        keys.len() == 16,
        0 <= i <= 16,
    ensures
        i <= first_pressed_from(keys, i) <= 16,
        first_pressed_from(keys, i) < 16 ==> keys[first_pressed_from(keys, i)],
        forall|j: int| i <= j < first_pressed_from(keys, i) ==> !#[trigger] keys[j],
    decreases 16 - i,
{
    if i < 16 && !keys[i] {
        lemma_first_pressed_from(keys, i + 1);
    }
}

/// With no key pressed, waiting for a key leaves the whole state as it was
/// before the fetch, so the same instruction runs again on the next step.
pub proof fn wait_without_key_repeats(m: Machine, rnd: u8)
    requires
        m.wf(),
        m.pc < 4096,
        group_of(fetch_spec(m)) == 15,
        kk_of(fetch_spec(m)) == 0x0A,
        forall|k: int| 0 <= k < 16 ==> !#[trigger] m.keypad[k],
    ensures
        step_spec(m, rnd) == Some(m),
{
    reveal(step_spec);
    lemma_first_pressed_from(m.keypad, 0);
    assert(first_pressed(m.keypad) == 16);
}

/// With a key pressed, waiting for a key completes: the lowest pressed key
/// goes into register `X` and execution moves on to the next instruction.
pub proof fn wait_with_key_completes(m: Machine, rnd: u8)
    requires
        m.wf(),
        group_of(fetch_spec(m)) == 15,
        kk_of(fetch_spec(m)) == 0x0A,
        exists|k: int| 0 <= k < 16 && #[trigger] m.keypad[k],
    ensures
        step_spec(m, rnd) is Some,
        step_spec(m, rnd)->Some_0.pc == next_pc(m.pc),
        m.keypad[step_spec(m, rnd)->Some_0.registers[x_of(fetch_spec(m))] as int],
        forall|j: int|
            0 <= j < step_spec(m, rnd)->Some_0.registers[x_of(fetch_spec(m))] ==> !#[trigger] m.keypad[j],
{
    reveal(step_spec);
    lemma_first_pressed_from(m.keypad, 0);
    let k = choose|k: int| 0 <= k < 16 && #[trigger] m.keypad[k];
    assert(first_pressed(m.keypad) < 16);
}

/// The state after `k` calls of the cycle runner that run no instruction.
pub open spec fn idle_cycles(m: Machine, k: nat) -> Machine
    decreases k,
{
    if k == 0 {
        m
    } else {
        cycle_spec(idle_cycles(m, (k - 1) as nat), Seq::empty()).0
    }
}

/// Every call of the cycle runner ticks the delay timer once: from `d` it
/// reaches zero after `d` calls and stays there.
pub proof fn delay_timer_decays(m: Machine, k: nat)
    ensures
        idle_cycles(m, k).delay_timer == if k >= m.delay_timer {
            0
        } else {
            m.delay_timer - k
        },
    decreases k,
{
    if k > 0 {
        delay_timer_decays(m, (k - 1) as nat);
        let prev = idle_cycles(m, (k - 1) as nat);
        assert(run_steps(prev, Seq::empty()) == Ok::<Machine, (Machine, u16)>(prev));
    }
}

/// Each call of the cycle runner that completes ticks the delay timer once,
/// whatever number of instructions it ran, provided they did not set it.
pub proof fn cycle_ticks_delay_timer(m: Machine, rnds: Seq<u8>)
    requires
        run_steps(m, rnds) is Ok,
        run_steps(m, rnds)->Ok_0.delay_timer == m.delay_timer,
    ensures
        cycle_spec(m, rnds).1 is Ok,
        cycle_spec(m, rnds).0.delay_timer == tick(m.delay_timer),
{
}

/// Whether `op` is an instruction that never writes the program counter.
pub open spec fn keeps_pc(op: u16) -> bool {
    let g = group_of(op);
    ||| g == 6 || g == 7 || g == 8 || g == 10 || g == 12 || g == 13
    ||| g == 0 && n_of(op) == 0
    ||| g == 15 && kk_of(op) != 0x0A
}

/// Fetching at the last instruction address wraps the program counter to
/// zero, and an instruction that does not transfer control leaves it there.
pub proof fn fetch_wraps_at_end(m: Machine, rnd: u8)
    requires
        m.wf(),
        m.pc == 4094,
    ensures
        fetched(m).pc == 0,
        keeps_pc(fetch_spec(m)) && step_spec(m, rnd) is Some ==> step_spec(m, rnd)->Some_0.pc == 0,
{
    reveal(step_spec);
}

} // verus!
