//! Machine state and its mathematical model.

use vstd::prelude::*;

verus! {

/// Complete mutable state of the machine.
#[derive(Clone, Copy, Debug)]
pub struct State {
    /// General-purpose registers `V0` to `VF`; `VF` is the flag register.
    pub registers: [u8; 16],
    /// The address space; every address is taken modulo 4096.
    pub memory: [u8; 4096],
    /// Return addresses, a ring of sixteen slots indexed by `sp`.
    pub stack: [u16; 16],
    /// Key states, written by the front end between cycles.
    pub keypad: [bool; 16],
    /// Screen rows; pixel column `k` of a row is bit `63 - k`.
    pub video: [u64; 32],
    /// Address register used by the memory instructions.
    pub index: u16,
    /// Program counter, taken modulo 4096.
    pub pc: u16,
    /// Stack pointer, taken modulo 16.
    pub sp: u8,
    /// Counts down once per cycle-runner call while nonzero.
    pub delay_timer: u8,
    /// Counts down like `delay_timer`; nonzero means a tone plays.
    pub sound_timer: u8,
}

/// Mathematical model of [`State`]: each array is seen as a sequence.
#[verifier::ext_equal]
pub struct Machine {
    pub registers: Seq<u8>,
    pub memory: Seq<u8>,
    pub stack: Seq<u16>,
    pub keypad: Seq<bool>,
    pub video: Seq<u64>,
    pub index: u16,
    pub pc: u16,
    pub sp: u8,
    pub delay_timer: u8,
    pub sound_timer: u8,
}

impl Machine {
    /// The sequences have the lengths of the arrays they model.
    pub open spec fn wf(self) -> bool {
        &&& self.registers.len() == 16
        &&& self.memory.len() == 4096
        &&& self.stack.len() == 16
        &&& self.keypad.len() == 16
        &&& self.video.len() == 32
    }
}

impl View for State {
    type V = Machine;

    open spec fn view(&self) -> Machine {
        Machine {
            registers: self.registers@,
            memory: self.memory@,
            stack: self.stack@,
            keypad: self.keypad@,
            video: self.video@,
            index: self.index,
            pc: self.pc,
            sp: self.sp,
            delay_timer: self.delay_timer,
            sound_timer: self.sound_timer,
        }
    }
}

impl State {
    /// Every state's model is well formed.
    pub proof fn lemma_view_wf(&self)
        ensures
            self@.wf(),
    {
    }
}

} // verus!
