//! The emulator session that a front end drives: one event in, the new
//! session and an action for the front end out.

use vstd::prelude::*;
use rand::rngs::StdRng;
use crate::cpu::{cycle_spec, run_cycle, InvalidOpcode};
use crate::init::{init_state, initial_machine, MAX_PROGRAM_LEN};
use crate::state::State;

verus! {

/// An event from the front end.
#[derive(Clone, Copy, Debug, PartialEq, Eq, Structural)]
pub enum Message {
    /// The frame timer fired.
    GameTick,
    /// Pause or resume execution.
    TogglePause,
    /// Key `k` of the keypad went down.
    KeyDown(u8),
    /// Key `k` of the keypad went up.
    KeyUp(u8),
    /// The user asked to load a program.
    LoadRom,
    /// Set the number of instructions per tick.
    SetCyclesPerTick(u8),
    /// Set the tick rate.
    SetTicksPerSecond(u8),
}

/// What the front end has to do after an event.
#[derive(Clone, Copy, Debug, PartialEq, Eq, Structural)]
pub enum Action {
    /// Nothing.
    Idle,
    /// The screen changed: draw it again.
    Redraw,
    /// Ask the user for a program image, then call `Emulator::load_rom`.
    PickRom,
    /// The program hit an invalid instruction; execution is paused.
    Halted(InvalidOpcode),
}

/// A session: the machine, if a program is loaded, and its pacing.
#[derive(Clone, Copy, Debug)]
pub struct Emulator {
    pub state: Option<State>,
    pub cycles_per_tick: u8,
    pub ticks_per_second: u8,
    pub paused: bool,
}

/// Default number of instructions per tick.
pub const DEFAULT_CYCLES_PER_TICK: u8 = 4;

/// Default tick rate.
pub const DEFAULT_TICKS_PER_SECOND: u8 = 60;

/// Whether a key event names a key of the keypad.
pub open spec fn key_in_range(message: Message) -> bool {
    match message {
        Message::KeyDown(k) => k < 16,
        Message::KeyUp(k) => k < 16,
        _ => true,
    }
}

/// Whether two screens hold the same pixels.
fn same_video(a: &[u64; 32], b: &[u64; 32]) -> (r: bool)
    ensures
        r == (a@ == b@),
{
    let mut i: usize = 0;
    while i < 32
        invariant
            i <= 32,
            forall|j: int| 0 <= j < i ==> a@[j] == b@[j],
        decreases 32 - i,
    {
        if a[i] != b[i] {
            return false;
        }
        i = i + 1;
    }
    assert(a@ =~= b@);
    true
}

impl Emulator {
    /// A paused session with no program loaded.
    pub fn new(cycles_per_tick: u8, ticks_per_second: u8) -> (e: Emulator)
        ensures
            e.state is None,
            e.cycles_per_tick == cycles_per_tick,
            e.ticks_per_second == ticks_per_second,
            e.paused,
    {
        Emulator { state: None, cycles_per_tick, ticks_per_second, paused: true }
    }

    /// Replaces the machine with a fresh one running `rom`, and resumes.
    pub fn load_rom(&mut self, rom: &[u8])
        requires
            rom@.len() <= MAX_PROGRAM_LEN,
        ensures
            final(self).state is Some,
            final(self).state->Some_0@ == initial_machine(rom@),
            !final(self).paused,
            final(self).cycles_per_tick == old(self).cycles_per_tick,
            final(self).ticks_per_second == old(self).ticks_per_second,
    {
        self.state = Some(init_state(rom));
        self.paused = false;
    }

    /// Handles one event. A tick runs `cycles_per_tick` instructions and
    /// one timer tick when a program is loaded and the session is not
    /// paused; an invalid instruction pauses the session. Key events write
    /// the keypad of a loaded machine.
    pub fn update(&mut self, message: Message, rng: &mut StdRng) -> (a: Action)
        requires
            key_in_range(message),
        ensures
            match message {
                Message::GameTick => match old(self).state {
                    Some(s0) if !old(self).paused => {
                        &&& final(self).state is Some
                        &&& final(self).cycles_per_tick == old(self).cycles_per_tick
                        &&& final(self).ticks_per_second == old(self).ticks_per_second
                        &&& exists|rnds: Seq<u8>|
                            rnds.len() <= old(self).cycles_per_tick
                                && #[trigger] cycle_spec(s0@, rnds).0 == final(self).state->Some_0@
                                && match cycle_spec(s0@, rnds).1 {
                                Ok(_) => {
                                    &&& rnds.len() == old(self).cycles_per_tick
                                    &&& !final(self).paused
                                    &&& a == if s0.video@ == final(self).state->Some_0.video@ {
                                        Action::Idle
                                    } else {
                                        Action::Redraw
                                    }
                                },
                                Err(e) => final(self).paused && a == Action::Halted(e),
                            }
                    },
                    _ => *final(self) == *old(self) && a == Action::Idle,
                },
                Message::TogglePause => {
                    &&& final(self).paused == !old(self).paused
                    &&& final(self).state == old(self).state
                    &&& final(self).cycles_per_tick == old(self).cycles_per_tick
                    &&& final(self).ticks_per_second == old(self).ticks_per_second
                    &&& a == Action::Idle
                },
                Message::KeyDown(k) => key_written(*old(self), *final(self), k, true) && a == Action::Idle,
                Message::KeyUp(k) => key_written(*old(self), *final(self), k, false) && a == Action::Idle,
                Message::LoadRom => *final(self) == *old(self) && a == Action::PickRom,
                Message::SetCyclesPerTick(c) => {
                    &&& *final(self) == (Emulator { cycles_per_tick: c, ..*old(self) })
                    &&& a == Action::Idle
                },
                Message::SetTicksPerSecond(t) => {
                    &&& *final(self) == (Emulator { ticks_per_second: t, ..*old(self) })
                    &&& a == Action::Idle
                },
            },
    {
        match message {
            Message::GameTick => {
                if self.paused {
                    return Action::Idle;
                }
                match self.state {
                    Some(s0) => {
                        let mut state = s0;
                        let result = run_cycle(&mut state, self.cycles_per_tick, rng);
                        let ghost rnds = choose|rnds: Seq<u8>|
                            rnds.len() <= self.cycles_per_tick && (result is Ok ==> rnds.len()
                                == self.cycles_per_tick) && #[trigger] cycle_spec(s0@, rnds) == (
                            state@, result);
                        self.state = Some(state);
                        assert(cycle_spec(s0@, rnds).0 == self.state->Some_0@);
                        assert(cycle_spec(s0@, rnds).1 == result);
                        match result {
                            Ok(()) => {
                                if same_video(&s0.video, &state.video) {
                                    Action::Idle
                                } else {
                                    Action::Redraw
                                }
                            },
                            Err(e) => {
                                self.paused = true;
                                Action::Halted(e)
                            },
                        }
                    },
                    None => Action::Idle,
                }
            },
            Message::TogglePause => {
                self.paused = !self.paused;
                Action::Idle
            },
            Message::KeyDown(key_num) => {
                self.set_key(key_num, true);
                Action::Idle
            },
            Message::KeyUp(key_num) => {
                self.set_key(key_num, false);
                Action::Idle
            },
            Message::LoadRom => Action::PickRom,
            Message::SetCyclesPerTick(cycles_per_tick) => {
                self.cycles_per_tick = cycles_per_tick;
                Action::Idle
            },
            Message::SetTicksPerSecond(ticks_per_second) => {
                self.ticks_per_second = ticks_per_second;
                Action::Idle
            },
        }
    }

    /// Writes key `k` of a loaded machine.
    fn set_key(&mut self, k: u8, down: bool)
        requires
            k < 16,
        ensures
            key_written(*old(self), *final(self), k, down),
    {
        match &mut self.state {
            Some(state) => {
                state.keypad[k as usize] = down;
            },
            None => {},
        }
    }
}

/// `after` is `before` with key `k` of a loaded machine set to `down`;
/// without a machine nothing changes.
pub open spec fn key_written(before: Emulator, after: Emulator, k: u8, down: bool) -> bool {
    &&& after.paused == before.paused
    &&& after.cycles_per_tick == before.cycles_per_tick
    &&& after.ticks_per_second == before.ticks_per_second
    &&& match before.state {
        Some(s) => after.state is Some && after.state->Some_0@ == (crate::state::Machine {
            keypad: s@.keypad.update(k as int, down),
            ..s@
        }),
        None => after.state is None,
    }
}

} // verus!
