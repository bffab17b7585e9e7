use chip8::cpu::InvalidOpcode;
use chip8::init::init_state;
use chip8::session::{Action, Emulator, Message};
use rand::rngs::StdRng;
use rand::SeedableRng;

fn rng() -> StdRng {
    StdRng::seed_from_u64(3)
}

#[test]
fn new_session_is_paused_and_empty() {
    let e = Emulator::new(4, 60);
    assert!(e.paused);
    assert!(e.state.is_none());
    assert_eq!(e.cycles_per_tick, 4);
    assert_eq!(e.ticks_per_second, 60);
}

#[test]
fn tick_without_program_does_nothing() {
    let mut e = Emulator::new(4, 60);
    e.paused = false;
    assert_eq!(e.update(Message::GameTick, &mut rng()), Action::Idle);
    assert!(e.state.is_none());
}

#[test]
fn tick_runs_a_batch_and_reports_redraw() {
    let mut e = Emulator::new(2, 60);
    e.load_rom(&[0xF0, 0x29, 0xD0, 0x05]);
    assert!(!e.paused);
    assert_eq!(e.update(Message::GameTick, &mut rng()), Action::Redraw);
    let s = e.state.unwrap();
    assert_eq!(s.pc, 0x204);
    assert_eq!(s.video[0], 0xF0u64 << 56);
}

#[test]
fn tick_without_screen_change_is_idle() {
    let mut e = Emulator::new(1, 60);
    e.load_rom(&[0x60, 0x01]);
    assert_eq!(e.update(Message::GameTick, &mut rng()), Action::Idle);
    assert_eq!(e.state.unwrap().registers[0], 1);
}

#[test]
fn paused_session_ignores_ticks() {
    let mut e = Emulator::new(1, 60);
    e.load_rom(&[0x60, 0x01]);
    assert_eq!(e.update(Message::TogglePause, &mut rng()), Action::Idle);
    assert!(e.paused);
    assert_eq!(e.update(Message::GameTick, &mut rng()), Action::Idle);
    assert_eq!(e.state.unwrap().pc, 0x200);
}

#[test]
fn invalid_instruction_halts_the_session() {
    let mut e = Emulator::new(4, 60);
    e.load_rom(&[0xF0, 0xFF]);
    assert_eq!(
        e.update(Message::GameTick, &mut rng()),
        Action::Halted(InvalidOpcode { opcode: 0xF0FF })
    );
    assert!(e.paused);
}

#[test]
fn key_events_write_the_keypad() {
    let mut e = Emulator::new(4, 60);
    e.load_rom(&[]);
    e.update(Message::KeyDown(7), &mut rng());
    assert!(e.state.unwrap().keypad[7]);
    e.update(Message::KeyUp(7), &mut rng());
    assert!(!e.state.unwrap().keypad[7]);
}

#[test]
fn load_request_and_settings() {
    let mut e = Emulator::new(4, 60);
    assert_eq!(e.update(Message::LoadRom, &mut rng()), Action::PickRom);
    e.update(Message::SetCyclesPerTick(10), &mut rng());
    e.update(Message::SetTicksPerSecond(30), &mut rng());
    assert_eq!(e.cycles_per_tick, 10);
    assert_eq!(e.ticks_per_second, 30);
}

#[test]
fn loading_replaces_the_machine() {
    let mut e = Emulator::new(1, 60);
    e.load_rom(&[0x60, 0x01]);
    e.update(Message::GameTick, &mut rng());
    e.load_rom(&[0x61, 0x02]);
    let s = e.state.unwrap();
    let fresh = init_state(&[0x61, 0x02]);
    assert_eq!(s.pc, fresh.pc);
    assert_eq!(s.registers, fresh.registers);
    assert_eq!(s.memory, fresh.memory);
}
