//! Building the machine state for a program image.

use vstd::prelude::*;
use crate::semantics::FONT_BASE;
use crate::state::{Machine, State};

verus! {

/// Address at which a program image is loaded, and where execution starts.
pub const PROGRAM_START: u16 = 0x200;

/// Largest program image that fits between `PROGRAM_START` and the end of
/// memory.
pub const MAX_PROGRAM_LEN: usize = 3584;

/// The sixteen five-byte glyphs of the hexadecimal digits, in order.
pub open spec fn font_glyphs() -> Seq<u8> {
    seq![
        0xF0u8, 0x90, 0x90, 0x90, 0xF0, 0x20, 0x60, 0x20, 0x20, 0x70,
        0xF0, 0x10, 0xF0, 0x80, 0xF0, 0xF0, 0x10, 0xF0, 0x10, 0xF0,
        0x90, 0x90, 0xF0, 0x10, 0x10, 0xF0, 0x80, 0xF0, 0x10, 0xF0,
        0xF0, 0x80, 0xF0, 0x90, 0xF0, 0xF0, 0x10, 0x20, 0x40, 0x40,
        0xF0, 0x90, 0xF0, 0x90, 0xF0, 0xF0, 0x90, 0xF0, 0x10, 0xF0,
        0xF0, 0x90, 0xF0, 0x90, 0x90, 0xE0, 0x90, 0xE0, 0x90, 0xE0,
        0xF0, 0x80, 0x80, 0x80, 0xF0, 0xE0, 0x90, 0x90, 0x90, 0xE0,
        0xF0, 0x80, 0xF0, 0x80, 0xF0, 0xF0, 0x80, 0xF0, 0x80, 0x80,
    ]
}

/// Returns the font glyphs.
pub fn font_set() -> (r: [u8; 80])
    ensures
        r@ == font_glyphs(),
{
    let r: [u8; 80] = [
        0xF0, 0x90, 0x90, 0x90, 0xF0, 0x20, 0x60, 0x20, 0x20, 0x70,
        0xF0, 0x10, 0xF0, 0x80, 0xF0, 0xF0, 0x10, 0xF0, 0x10, 0xF0,
        0x90, 0x90, 0xF0, 0x10, 0x10, 0xF0, 0x80, 0xF0, 0x10, 0xF0,
        0xF0, 0x80, 0xF0, 0x90, 0xF0, 0xF0, 0x10, 0x20, 0x40, 0x40,
        0xF0, 0x90, 0xF0, 0x90, 0xF0, 0xF0, 0x90, 0xF0, 0x10, 0xF0,
        0xF0, 0x90, 0xF0, 0x90, 0x90, 0xE0, 0x90, 0xE0, 0x90, 0xE0,
        0xF0, 0x80, 0x80, 0x80, 0xF0, 0xE0, 0x90, 0x90, 0x90, 0xE0,
        0xF0, 0x80, 0xF0, 0x80, 0xF0, 0xF0, 0x80, 0xF0, 0x80, 0x80,
    ];
    assert(r@ =~= font_glyphs());
    r
}

/// Memory holding the font at `FONT_BASE` and `rom` at `PROGRAM_START`,
/// zero elsewhere.
pub open spec fn initial_memory(rom: Seq<u8>) -> Seq<u8> {
    Seq::new(
        4096,
        |a: int|
            if FONT_BASE <= a < FONT_BASE + 80 {
                font_glyphs()[a - FONT_BASE]
            } else if PROGRAM_START <= a < PROGRAM_START + rom.len() {
                rom[a - PROGRAM_START]
            } else {
                0
            },
    )
}

/// The machine about to run `rom`: font and program loaded, `pc` at
/// `PROGRAM_START`, everything else zero or released.
pub open spec fn initial_machine(rom: Seq<u8>) -> Machine {
    Machine {
        registers: Seq::new(16, |i: int| 0u8),
        memory: initial_memory(rom),
        stack: Seq::new(16, |i: int| 0u16),
        keypad: Seq::new(16, |i: int| false),
        video: Seq::new(32, |i: int| 0u64),
        index: 0,
        pc: PROGRAM_START,
        sp: 0,
        delay_timer: 0,
        sound_timer: 0,
    }
}

/// Builds the state that runs the program image `rom`.
pub fn init_state(rom: &[u8]) -> (s: State)
    requires
        rom@.len() <= MAX_PROGRAM_LEN,
    ensures
        s@ == initial_machine(rom@),
{
    let font = font_set();
    let mut memory: [u8; 4096] = [0u8; 4096];
    let mut i: usize = 0;
    while i < 80
        invariant
            i <= 80,
            font@ == font_glyphs(),
            forall|a: int|
                0 <= a < 4096 ==> #[trigger] memory@[a] == if FONT_BASE <= a < FONT_BASE + i {
                    font_glyphs()[a - FONT_BASE]
                } else {
                    0
                },
        decreases 80 - i,
    {
        memory[FONT_BASE as usize + i] = font[i];
        i = i + 1;
    }
    let mut j: usize = 0;
    while j < rom.len()
        invariant
            j <= rom@.len(),
            rom@.len() <= MAX_PROGRAM_LEN,
            forall|a: int|
                0 <= a < 4096 ==> #[trigger] memory@[a] == if FONT_BASE <= a < FONT_BASE + 80 {
                    font_glyphs()[a - FONT_BASE]
                } else if PROGRAM_START <= a < PROGRAM_START + j {
                    rom@[a - PROGRAM_START]
                } else {
                    0
                },
        decreases rom@.len() - j,
    {
        memory[PROGRAM_START as usize + j] = rom[j];
        j = j + 1;
    }
    let s = State {
        registers: [0u8; 16],
        memory,
        stack: [0u16; 16],
        keypad: [false; 16],
        video: [0u64; 32],
        index: 0,
        pc: PROGRAM_START,
        sp: 0,
        delay_timer: 0,
        sound_timer: 0,
    };
    assert(s@ =~= initial_machine(rom@));
    s
}

} // verus!
