use chip8::cpu::{run_cycle, run_opcode, InvalidOpcode};
use chip8::init::init_state;
use chip8::opcodes::{op_00E0, op_8XY4, op_8XY5, op_DXYZ, op_FX33, op_FX55, op_FX65, place_sprite_byte};
use chip8::state::State;
use rand::rngs::StdRng;
use rand::SeedableRng;

fn blank() -> State {
    init_state(&[])
}

fn with_program(words: &[u16]) -> State {
    let mut rom = Vec::new();
    for w in words {
        rom.push((w >> 8) as u8);
        rom.push((w & 0xFF) as u8);
    }
    init_state(&rom)
}

fn rng() -> StdRng {
    StdRng::seed_from_u64(7)
}

#[test]
fn jump_sets_pc_to_literal() {
    let mut s = with_program(&[0x1ABC]);
    assert_eq!(run_cycle(&mut s, 1, &mut rng()), Ok(()));
    assert_eq!(s.pc, 0xABC);
}

#[test]
fn load_then_add_wraps_modulo_256() {
    let mut s = with_program(&[0x63F0, 0x7320]);
    assert_eq!(run_cycle(&mut s, 2, &mut rng()), Ok(()));
    assert_eq!(s.registers[3], 0x10);
    assert_eq!(s.pc, 0x204);
}

#[test]
fn add_sets_carry() {
    let mut s = blank();
    s.registers[1] = 0xFF;
    s.registers[2] = 0x01;
    op_8XY4(&mut s, 0x8124);
    assert_eq!(s.registers[1], 0x00);
    assert_eq!(s.registers[15], 1);
}

#[test]
fn add_without_carry_clears_flag() {
    let mut s = blank();
    s.registers[1] = 0x10;
    s.registers[2] = 0x20;
    s.registers[15] = 1;
    op_8XY4(&mut s, 0x8124);
    assert_eq!(s.registers[1], 0x30);
    assert_eq!(s.registers[15], 0);
}

#[test]
fn subtract_with_borrow() {
    let mut s = blank();
    s.registers[1] = 0x01;
    s.registers[2] = 0x02;
    op_8XY5(&mut s, 0x8125);
    assert_eq!(s.registers[1], 0xFF);
    assert_eq!(s.registers[15], 0);
}

#[test]
fn subtract_without_borrow() {
    let mut s = blank();
    s.registers[1] = 0x05;
    s.registers[2] = 0x02;
    op_8XY5(&mut s, 0x8125);
    assert_eq!(s.registers[1], 0x03);
    assert_eq!(s.registers[15], 1);
}

#[test]
fn reverse_subtract() {
    let mut s = blank();
    s.registers[1] = 0x02;
    s.registers[2] = 0x05;
    assert_eq!(run_opcode(&mut s, 0x8127, 0), Ok(()));
    assert_eq!(s.registers[1], 0x03);
    assert_eq!(s.registers[15], 1);
    s.registers[1] = 0x06;
    assert_eq!(run_opcode(&mut s, 0x8127, 0), Ok(()));
    assert_eq!(s.registers[1], 0xFF);
    assert_eq!(s.registers[15], 0);
}

#[test]
fn shifts_report_the_bit_shifted_out() {
    let mut s = blank();
    s.registers[4] = 0x81;
    assert_eq!(run_opcode(&mut s, 0x8406, 0), Ok(()));
    assert_eq!(s.registers[4], 0x40);
    assert_eq!(s.registers[15], 1);
    s.registers[4] = 0x81;
    assert_eq!(run_opcode(&mut s, 0x840E, 0), Ok(()));
    assert_eq!(s.registers[4], 0x02);
    assert_eq!(s.registers[15], 1);
    s.registers[4] = 0x40;
    assert_eq!(run_opcode(&mut s, 0x840E, 0), Ok(()));
    assert_eq!(s.registers[4], 0x80);
    assert_eq!(s.registers[15], 0);
}

#[test]
fn logic_instructions_leave_flag_alone() {
    let mut s = blank();
    s.registers[15] = 7;
    s.registers[0] = 0b1100;
    s.registers[1] = 0b1010;
    assert_eq!(run_opcode(&mut s, 0x8011, 0), Ok(()));
    assert_eq!(s.registers[0], 0b1110);
    s.registers[0] = 0b1100;
    assert_eq!(run_opcode(&mut s, 0x8012, 0), Ok(()));
    assert_eq!(s.registers[0], 0b1000);
    s.registers[0] = 0b1100;
    assert_eq!(run_opcode(&mut s, 0x8013, 0), Ok(()));
    assert_eq!(s.registers[0], 0b0110);
    assert_eq!(run_opcode(&mut s, 0x8010, 0), Ok(()));
    assert_eq!(s.registers[0], 0b1010);
    assert_eq!(s.registers[15], 7);
}

#[test]
fn call_then_return_resumes_after_call() {
    let mut s = with_program(&[0x2206, 0x0000, 0x0000, 0x00EE]);
    assert_eq!(run_cycle(&mut s, 1, &mut rng()), Ok(()));
    assert_eq!(s.pc, 0x206);
    assert_eq!(s.sp, 1);
    assert_eq!(s.stack[0], 0x202);
    assert_eq!(run_cycle(&mut s, 1, &mut rng()), Ok(()));
    assert_eq!(s.pc, 0x202);
    assert_eq!(s.sp, 0);
}

#[test]
fn stack_pointer_wraps_after_sixteen_calls() {
    let mut s = blank();
    for _ in 0..17 {
        assert_eq!(run_opcode(&mut s, 0x2300, 0), Ok(()));
    }
    assert_eq!(s.sp, 1);
    assert_eq!(run_opcode(&mut s, 0x00EE, 0), Ok(()));
    assert_eq!(s.sp, 0);
    assert_eq!(s.pc, 0x300);
    assert_eq!(run_opcode(&mut s, 0x00EE, 0), Ok(()));
    assert_eq!(s.sp, 15);
}

#[test]
fn skip_instructions() {
    let mut s = blank();
    s.pc = 0x300;
    s.registers[2] = 0x42;
    s.registers[3] = 0x42;
    assert_eq!(run_opcode(&mut s, 0x3242, 0), Ok(()));
    assert_eq!(s.pc, 0x302);
    assert_eq!(run_opcode(&mut s, 0x3243, 0), Ok(()));
    assert_eq!(s.pc, 0x302);
    assert_eq!(run_opcode(&mut s, 0x4243, 0), Ok(()));
    assert_eq!(s.pc, 0x304);
    assert_eq!(run_opcode(&mut s, 0x4242, 0), Ok(()));
    assert_eq!(s.pc, 0x304);
    assert_eq!(run_opcode(&mut s, 0x5230, 0), Ok(()));
    assert_eq!(s.pc, 0x306);
    assert_eq!(run_opcode(&mut s, 0x9230, 0), Ok(()));
    assert_eq!(s.pc, 0x306);
    s.registers[3] = 0;
    assert_eq!(run_opcode(&mut s, 0x9230, 0), Ok(()));
    assert_eq!(s.pc, 0x308);
}

#[test]
fn skip_wraps_at_end_of_memory() {
    let mut s = blank();
    s.pc = 4094;
    assert_eq!(run_opcode(&mut s, 0x3000, 0), Ok(()));
    assert_eq!(s.pc, 0);
}

#[test]
fn index_and_offset_jump() {
    let mut s = blank();
    assert_eq!(run_opcode(&mut s, 0xA123, 0), Ok(()));
    assert_eq!(s.index, 0x123);
    s.registers[0] = 0xFF;
    assert_eq!(run_opcode(&mut s, 0xBFFF, 0), Ok(()));
    assert_eq!(s.pc, 0x0FE);
    s.registers[0] = 0x10;
    assert_eq!(run_opcode(&mut s, 0xB200, 0), Ok(()));
    assert_eq!(s.pc, 0x210);
}

#[test]
fn random_and_masks_the_drawn_byte() {
    let mut s = blank();
    assert_eq!(run_opcode(&mut s, 0xC50F, 0xAB), Ok(()));
    assert_eq!(s.registers[5], 0x0B);
    let mut s = with_program(&[0xC50F, 0xC600]);
    let mut r = rng();
    assert_eq!(run_cycle(&mut s, 2, &mut r), Ok(()));
    assert_eq!(s.registers[5] & 0xF0, 0);
    assert_eq!(s.registers[6], 0);
}

#[test]
fn random_source_is_reproducible() {
    let mut a = with_program(&[0xC5FF, 0xC6FF, 0xC7FF]);
    let mut b = a;
    assert_eq!(run_cycle(&mut a, 3, &mut rng()), Ok(()));
    assert_eq!(run_cycle(&mut b, 3, &mut rng()), Ok(()));
    assert_eq!(a.registers, b.registers);
}

#[test]
fn clear_screen_zeroes_every_row() {
    let mut s = blank();
    for r in 0..32 {
        s.video[r] = (r as u64 + 1) * 0x0101;
    }
    op_00E0(&mut s, 0x00E0);
    assert_eq!(s.video, [0u64; 32]);
}

#[test]
fn sprite_byte_placement() {
    assert_eq!(place_sprite_byte(0x80, 0), 0x8000_0000_0000_0000);
    assert_eq!(place_sprite_byte(0xFF, 0), 0xFF00_0000_0000_0000);
    assert_eq!(place_sprite_byte(0xFF, 56), 0x0000_0000_0000_00FF);
    assert_eq!(place_sprite_byte(0xFF, 60), 0xF000_0000_0000_000F);
    assert_eq!(place_sprite_byte(0x01, 63), 0x0200_0000_0000_0000);
    assert_eq!(place_sprite_byte(0x80, 63), 0x0000_0000_0000_0001);
}

#[test]
fn draw_twice_turns_pixels_off_and_collides() {
    let mut s = blank();
    s.registers[0] = 0;
    assert_eq!(run_opcode(&mut s, 0xF029, 0), Ok(()));
    assert_eq!(s.index, 0x50);
    s.registers[1] = 10;
    s.registers[2] = 3;
    op_DXYZ(&mut s, 0xD125);
    assert_eq!(s.registers[15], 0);
    assert_eq!(s.video[3], 0xF0u64 << (56 - 10));
    assert_eq!(s.video[4], 0x90u64 << (56 - 10));
    assert_eq!(s.video[7], 0xF0u64 << (56 - 10));
    op_DXYZ(&mut s, 0xD125);
    assert_eq!(s.registers[15], 1);
    assert_eq!(s.video, [0u64; 32]);
}

#[test]
fn draw_wraps_horizontally_and_vertically() {
    let mut s = blank();
    s.index = 0x300;
    s.memory[0x300] = 0xFF;
    s.memory[0x301] = 0x81;
    s.registers[1] = 60 + 64;
    s.registers[2] = 31 + 32;
    op_DXYZ(&mut s, 0xD122);
    assert_eq!(s.video[31], 0xF000_0000_0000_000F);
    assert_eq!(s.video[0], 0x1000_0000_0000_0008);
    assert_eq!(s.registers[15], 0);
}

#[test]
fn draw_with_no_rows_clears_flag() {
    let mut s = blank();
    s.registers[15] = 1;
    op_DXYZ(&mut s, 0xD120);
    assert_eq!(s.registers[15], 0);
    assert_eq!(s.video, [0u64; 32]);
}

#[test]
fn key_skips() {
    let mut s = blank();
    s.pc = 0x300;
    s.registers[1] = 0x0A;
    assert_eq!(run_opcode(&mut s, 0xE19E, 0), Ok(()));
    assert_eq!(s.pc, 0x300);
    assert_eq!(run_opcode(&mut s, 0xE1A1, 0), Ok(()));
    assert_eq!(s.pc, 0x302);
    s.keypad[0x0A] = true;
    assert_eq!(run_opcode(&mut s, 0xE19E, 0), Ok(()));
    assert_eq!(s.pc, 0x304);
    assert_eq!(run_opcode(&mut s, 0xE1A1, 0), Ok(()));
    assert_eq!(s.pc, 0x304);
}

#[test]
fn key_wait_blocks_until_a_key_is_pressed() {
    let mut s = with_program(&[0xF30A]);
    assert_eq!(run_cycle(&mut s, 1, &mut rng()), Ok(()));
    assert_eq!(s.pc, 0x200);
    assert_eq!(run_cycle(&mut s, 3, &mut rng()), Ok(()));
    assert_eq!(s.pc, 0x200);
    s.keypad[9] = true;
    s.keypad[5] = true;
    assert_eq!(run_cycle(&mut s, 1, &mut rng()), Ok(()));
    assert_eq!(s.registers[3], 5);
    assert_eq!(s.pc, 0x202);
}

#[test]
fn timer_instructions() {
    let mut s = blank();
    s.registers[2] = 9;
    assert_eq!(run_opcode(&mut s, 0xF215, 0), Ok(()));
    assert_eq!(run_opcode(&mut s, 0xF218, 0), Ok(()));
    assert_eq!(s.delay_timer, 9);
    assert_eq!(s.sound_timer, 9);
    s.delay_timer = 4;
    assert_eq!(run_opcode(&mut s, 0xF307, 0), Ok(()));
    assert_eq!(s.registers[3], 4);
}

#[test]
fn delay_timer_decays_to_zero_and_stays() {
    let mut s = with_program(&[0x6000; 8]);
    s.delay_timer = 5;
    s.sound_timer = 2;
    for _ in 0..5 {
        assert_eq!(run_cycle(&mut s, 1, &mut rng()), Ok(()));
    }
    assert_eq!(s.delay_timer, 0);
    assert_eq!(s.sound_timer, 0);
    assert_eq!(run_cycle(&mut s, 0, &mut rng()), Ok(()));
    assert_eq!(run_cycle(&mut s, 2, &mut rng()), Ok(()));
    assert_eq!(s.delay_timer, 0);
}

#[test]
fn timers_decay_once_per_call() {
    let mut s = with_program(&[0x6000; 8]);
    s.delay_timer = 10;
    assert_eq!(run_cycle(&mut s, 8, &mut rng()), Ok(()));
    assert_eq!(s.delay_timer, 9);
    assert_eq!(s.pc, 0x210);
}

#[test]
fn pc_wraps_at_end_of_memory() {
    let mut s = blank();
    s.pc = 4094;
    s.memory[4094] = 0x61;
    s.memory[4095] = 0x07;
    assert_eq!(run_cycle(&mut s, 1, &mut rng()), Ok(()));
    assert_eq!(s.pc, 0);
    assert_eq!(s.registers[1], 7);
}

#[test]
fn index_add_and_font_address() {
    let mut s = blank();
    s.index = 0xFFF;
    s.registers[4] = 2;
    assert_eq!(run_opcode(&mut s, 0xF41E, 0), Ok(()));
    assert_eq!(s.index, 1);
    s.registers[4] = 0xF;
    assert_eq!(run_opcode(&mut s, 0xF429, 0), Ok(()));
    assert_eq!(s.index, 0x50 + 75);
}

#[test]
fn bcd_digits() {
    let mut s = blank();
    s.index = 0x300;
    s.registers[7] = 254;
    op_FX33(&mut s, 0xF733);
    assert_eq!(&s.memory[0x300..0x303], &[2, 5, 4]);
    s.index = 4095;
    s.registers[7] = 9;
    op_FX33(&mut s, 0xF733);
    assert_eq!(s.memory[4095], 0);
    assert_eq!(s.memory[0], 0);
    assert_eq!(s.memory[1], 9);
}

#[test]
fn register_store_includes_last_register() {
    let mut s = blank();
    s.index = 0x400;
    for i in 0..16 {
        s.registers[i] = i as u8 + 1;
    }
    op_FX55(&mut s, 0xF255);
    assert_eq!(&s.memory[0x400..0x404], &[1, 2, 3, 0]);
    assert_eq!(s.index, 0x400);
}

#[test]
fn register_load_includes_last_register() {
    let mut s = blank();
    s.index = 0x400;
    s.memory[0x400] = 9;
    s.memory[0x401] = 8;
    s.memory[0x402] = 7;
    s.memory[0x403] = 6;
    op_FX65(&mut s, 0xF265);
    assert_eq!(&s.registers[0..4], &[9, 8, 7, 0]);
}

#[test]
fn register_store_wraps_addresses() {
    let mut s = blank();
    s.index = 4095;
    s.registers[0] = 0xAA;
    s.registers[1] = 0xBB;
    op_FX55(&mut s, 0xF155);
    assert_eq!(s.memory[4095], 0xAA);
    assert_eq!(s.memory[0], 0xBB);
}

#[test]
fn invalid_opcodes_are_reported() {
    for op in [0x0001u16, 0x00E1, 0x8008, 0x800F, 0xE000, 0xE09F, 0xF000, 0xF066, 0xF0FF] {
        let mut s = blank();
        s.registers[3] = 1;
        let before = s;
        assert_eq!(run_opcode(&mut s, op, 0), Err(InvalidOpcode { opcode: op }));
        assert_eq!(s.registers, before.registers);
        assert_eq!(s.pc, before.pc);
    }
}

#[test]
fn invalid_opcode_stops_the_cycle() {
    let mut s = with_program(&[0x6105, 0xF0FF, 0x6206]);
    s.delay_timer = 3;
    assert_eq!(run_cycle(&mut s, 3, &mut rng()), Err(InvalidOpcode { opcode: 0xF0FF }));
    assert_eq!(s.registers[1], 5);
    assert_eq!(s.registers[2], 0);
    assert_eq!(s.pc, 0x204);
    assert_eq!(s.delay_timer, 3);
}

#[test]
fn init_loads_font_and_program() {
    let s = init_state(&[0x12, 0x34, 0x56]);
    assert_eq!(s.pc, 0x200);
    assert_eq!(&s.memory[0x200..0x204], &[0x12, 0x34, 0x56, 0]);
    assert_eq!(&s.memory[0x50..0x55], &[0xF0, 0x90, 0x90, 0x90, 0xF0]);
    assert_eq!(&s.memory[0x9B..0xA0], &[0xF0, 0x80, 0xF0, 0x80, 0x80]);
    assert_eq!(s.memory[0xA0], 0);
    assert_eq!(s.sp, 0);
    assert_eq!(s.index, 0);
    assert_eq!(s.registers, [0u8; 16]);
    assert_eq!(s.video, [0u64; 32]);
}
