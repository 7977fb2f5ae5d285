use chip8::chip8::Chip8;
use chip8::isa::{EmulationError, FaultKind};
use chip8::command::{AudioCommand, Command, DisplayCommand, KeyCommand, MemoryCommand};
use chip8::constants::N;
use chip8::memory::Memory;

fn engine_with(program: &[u8]) -> Chip8 {
    let mut memory = Memory::new();
    memory.load_font_sprites();
    memory.load_rom(program);
    let mut chip8 = Chip8::new();
    chip8.get_commands().send_inbound(Command::Memory(MemoryCommand::SendRAM(memory.read_ram())));
    chip8.read_commands();
    chip8
}

fn run(chip8: &mut Chip8, cycles: usize) {
    for _ in 0..cycles {
        chip8.emulate_cycle_with(0).unwrap();
    }
}

fn last_pixels(out: &[Command]) -> [bool; N] {
    let mut found = None;
    for c in out {
        if let Command::Display(DisplayCommand::SendPixels(p)) = c {
            found = Some(*p);
        }
    }
    found.expect("a pixel snapshot")
}

fn audio_count(out: &[Command], a: AudioCommand) -> usize {
    out.iter().filter(|c| matches!(c, Command::Audio(b) if *b == a)).count()
}

#[test]
fn add_registers_wraps_and_sets_carry() {
    let mut chip8 = engine_with(&[0x60, 0xff, 0x61, 0x01, 0x80, 0x14]);
    run(&mut chip8, 3);
    assert_eq!(chip8.register(0), 0x00);
    assert_eq!(chip8.register(15), 1);
}

#[test]
fn add_registers_without_carry_clears_flag() {
    let mut chip8 = engine_with(&[0x60, 0x10, 0x61, 0x20, 0x6f, 0x01, 0x80, 0x14]);
    run(&mut chip8, 4);
    assert_eq!(chip8.register(0), 0x30);
    assert_eq!(chip8.register(15), 0);
}

#[test]
fn sub_sets_no_borrow_indicator() {
    let mut chip8 = engine_with(&[0x60, 0x01, 0x61, 0x02, 0x80, 0x15]);
    run(&mut chip8, 3);
    assert_eq!(chip8.register(0), 0xff);
    assert_eq!(chip8.register(15), 0);
}

#[test]
fn sub_of_equal_values_reports_no_borrow() {
    let mut chip8 = engine_with(&[0x60, 0x05, 0x61, 0x05, 0x80, 0x15]);
    run(&mut chip8, 3);
    assert_eq!(chip8.register(0), 0);
    assert_eq!(chip8.register(15), 1);
}

#[test]
fn subn_subtracts_the_other_way() {
    let mut chip8 = engine_with(&[0x60, 0x05, 0x61, 0x03, 0x80, 0x17]);
    run(&mut chip8, 3);
    assert_eq!(chip8.register(0), 0xfe);
    assert_eq!(chip8.register(15), 0);
}

#[test]
fn shifts_report_the_bit_shifted_out() {
    let mut chip8 = engine_with(&[0x60, 0x81, 0x80, 0x06, 0x61, 0x81, 0x81, 0x1e]);
    run(&mut chip8, 2);
    assert_eq!(chip8.register(0), 0x40);
    assert_eq!(chip8.register(15), 1);
    run(&mut chip8, 2);
    assert_eq!(chip8.register(1), 0x02);
    assert_eq!(chip8.register(15), 1);
}

#[test]
fn bitwise_and_immediate_arithmetic() {
    let mut chip8 = engine_with(&[
        0x60, 0x0c, 0x61, 0x0a, 0x82, 0x00, 0x82, 0x11, 0x83, 0x00, 0x83, 0x12, 0x84, 0x00,
        0x84, 0x13, 0x70, 0xff,
    ]);
    run(&mut chip8, 9);
    assert_eq!(chip8.register(2), 0x0e);
    assert_eq!(chip8.register(3), 0x08);
    assert_eq!(chip8.register(4), 0x06);
    assert_eq!(chip8.register(0), 0x0b);
}

#[test]
fn drawing_twice_clears_and_collides() {
    let mut chip8 = engine_with(&[0xa0, 0x50, 0x60, 0x00, 0x61, 0x00, 0xd0, 0x15, 0xd0, 0x15]);
    run(&mut chip8, 4);
    assert_eq!(chip8.register(15), 0);
    let first = last_pixels(&chip8.get_commands().consume_all_outbound());
    assert!(first[0] && first[1] && first[2] && first[3] && !first[4]);
    run(&mut chip8, 1);
    assert_eq!(chip8.register(15), 1);
    let second = last_pixels(&chip8.get_commands().consume_all_outbound());
    assert!(second.iter().all(|p| !*p));
}

#[test]
fn drawing_wraps_at_the_screen_edges() {
    let mut chip8 = engine_with(&[0xa0, 0x50, 0x60, 63, 0x61, 31, 0xd0, 0x12]);
    run(&mut chip8, 4);
    let pixels = last_pixels(&chip8.get_commands().consume_all_outbound());
    let on: Vec<usize> = (0..N).filter(|&i| pixels[i]).collect();
    assert_eq!(on, vec![2, 63, 1984, 1985, 1986, 2047]);
    assert_eq!(chip8.register(15), 0);
}

#[test]
fn draw_requests_a_repaint_and_clear_requests_a_blank_screen() {
    let mut chip8 = engine_with(&[0x00, 0xe0]);
    run(&mut chip8, 1);
    let out = chip8.get_commands().consume_all_outbound();
    assert_eq!(out.len(), 5);
    assert!(matches!(out[0], Command::Display(DisplayCommand::SendClearDisplay)));
    assert!(matches!(out[1], Command::Audio(AudioCommand::Pause)));
    assert!(matches!(out[2], Command::Display(DisplayCommand::SendPixels(_))));
    assert!(matches!(out[3], Command::Memory(MemoryCommand::SendRAM(_))));
    assert!(matches!(out[4], Command::Display(DisplayCommand::SendDraw)));
}

#[test]
fn key_wait_holds_until_a_key_goes_down() {
    let mut chip8 = engine_with(&[0xf0, 0x0a, 0x61, 0x05]);
    run(&mut chip8, 1);
    assert!(chip8.is_waiting_for_key());
    assert_eq!(chip8.program_counter(), 0x202);
    chip8.get_commands().consume_all_outbound();
    run(&mut chip8, 3);
    assert_eq!(chip8.program_counter(), 0x202);
    assert_eq!(chip8.register(1), 0);
    assert!(chip8.get_commands().consume_all_outbound().is_empty());
    chip8.get_commands().send_inbound(Command::Key(KeyCommand::KeyDownUp(3, false)));
    chip8.read_commands();
    assert!(chip8.is_waiting_for_key());
    chip8.get_commands().send_inbound(Command::Key(KeyCommand::KeyDownUp(7, true)));
    chip8.read_commands();
    assert!(!chip8.is_waiting_for_key());
    assert_eq!(chip8.register(0), 7);
    assert_eq!(chip8.program_counter(), 0x202);
    run(&mut chip8, 1);
    assert_eq!(chip8.register(1), 5);
    assert_eq!(chip8.program_counter(), 0x204);
}

#[test]
fn sound_timer_reaching_zero_pauses_once() {
    let mut chip8 = engine_with(&[0x60, 0x02, 0xf0, 0x18, 0x61, 0x00, 0x61, 0x00]);
    run(&mut chip8, 1);
    let out = chip8.get_commands().consume_all_outbound();
    assert_eq!(audio_count(&out, AudioCommand::Pause), 1);
    run(&mut chip8, 1);
    assert_eq!(chip8.sound_timer(), 1);
    let out = chip8.get_commands().consume_all_outbound();
    assert_eq!(audio_count(&out, AudioCommand::Play), 1);
    assert_eq!(audio_count(&out, AudioCommand::Pause), 0);
    run(&mut chip8, 1);
    assert_eq!(chip8.sound_timer(), 0);
    let out = chip8.get_commands().consume_all_outbound();
    assert_eq!(audio_count(&out, AudioCommand::Pause), 1);
    assert_eq!(audio_count(&out, AudioCommand::Play), 0);
}

#[test]
fn delay_timer_counts_down_and_reads_back() {
    let mut chip8 = engine_with(&[0x60, 0x05, 0xf0, 0x15, 0xf1, 0x07]);
    run(&mut chip8, 2);
    assert_eq!(chip8.delay_timer(), 4);
    run(&mut chip8, 1);
    assert_eq!(chip8.register(1), 4);
    assert_eq!(chip8.delay_timer(), 3);
}

#[test]
fn undefined_instruction_is_fatal() {
    let mut chip8 = engine_with(&[0x80, 0x0a]);
    let r = chip8.emulate_cycle_with(0);
    assert_eq!(
        r,
        Err(EmulationError { kind: FaultKind::UndefinedInstruction, instruction: 0x800a, address: 0x200 })
    );
    assert_eq!(chip8.program_counter(), 0x200);
    assert!(chip8.get_commands().consume_all_outbound().is_empty());
}

#[test]
fn machine_code_routine_call_is_fatal() {
    let mut chip8 = engine_with(&[0x01, 0x23]);
    let r = chip8.emulate_cycle_with(0);
    assert_eq!(r.unwrap_err().kind, FaultKind::UndefinedInstruction);
}

#[test]
fn call_beyond_sixteen_levels_is_fatal() {
    let mut chip8 = engine_with(&[0x22, 0x00]);
    run(&mut chip8, 16);
    let r = chip8.emulate_cycle_with(0);
    assert_eq!(
        r,
        Err(EmulationError { kind: FaultKind::StackOverflow, instruction: 0x2200, address: 0x200 })
    );
}

#[test]
fn return_with_empty_stack_is_fatal() {
    let mut chip8 = engine_with(&[0x00, 0xee]);
    let r = chip8.emulate_cycle_with(0);
    assert_eq!(r.unwrap_err().kind, FaultKind::StackUnderflow);
}

#[test]
fn call_and_return() {
    let mut chip8 = engine_with(&[0x22, 0x06, 0x61, 0x09, 0x00, 0x00, 0x60, 0x01, 0x00, 0xee]);
    run(&mut chip8, 1);
    assert_eq!(chip8.program_counter(), 0x206);
    run(&mut chip8, 2);
    assert_eq!(chip8.program_counter(), 0x202);
    run(&mut chip8, 1);
    assert_eq!(chip8.register(0), 1);
    assert_eq!(chip8.register(1), 9);
}

#[test]
fn jumps() {
    let mut chip8 = engine_with(&[0x60, 0x04, 0xb2, 0x00]);
    run(&mut chip8, 2);
    assert_eq!(chip8.program_counter(), 0x204);
    let mut chip8 = engine_with(&[0x13, 0x45]);
    run(&mut chip8, 1);
    assert_eq!(chip8.program_counter(), 0x345);
}

#[test]
fn skips_compare_registers_and_immediates() {
    let mut chip8 = engine_with(&[0x60, 0x05, 0x30, 0x05, 0x00, 0x00, 0x40, 0x05, 0x61, 0x05, 0x50, 0x10]);
    run(&mut chip8, 2);
    assert_eq!(chip8.program_counter(), 0x206);
    run(&mut chip8, 1);
    assert_eq!(chip8.program_counter(), 0x208);
    run(&mut chip8, 2);
    assert_eq!(chip8.program_counter(), 0x20e);
}

#[test]
fn key_skips_follow_the_keypad() {
    let mut chip8 = engine_with(&[0x60, 0x14, 0xe0, 0x9e, 0x00, 0x00, 0xe0, 0xa1]);
    chip8.get_commands().send_inbound(Command::Key(KeyCommand::KeyDownUp(4, true)));
    chip8.read_commands();
    run(&mut chip8, 2);
    assert_eq!(chip8.program_counter(), 0x206);
    run(&mut chip8, 1);
    assert_eq!(chip8.program_counter(), 0x208);
}

#[test]
fn key_index_outside_the_keypad_is_ignored() {
    let mut chip8 = engine_with(&[0xf0, 0x0a]);
    run(&mut chip8, 1);
    chip8.get_commands().send_inbound(Command::Key(KeyCommand::KeyDownUp(16, true)));
    chip8.read_commands();
    assert!(chip8.is_waiting_for_key());
}

#[test]
fn decimal_digits_and_register_blocks() {
    let mut chip8 = engine_with(&[0xa3, 0x00, 0x60, 0xfe, 0xf0, 0x33, 0xf2, 0x65]);
    run(&mut chip8, 4);
    assert_eq!(chip8.register(0), 2);
    assert_eq!(chip8.register(1), 5);
    assert_eq!(chip8.register(2), 4);
    assert_eq!(chip8.index_register(), 0x300);
}

#[test]
fn store_then_load_registers() {
    let mut chip8 = engine_with(&[
        0x60, 0x11, 0x61, 0x22, 0xa4, 0x00, 0xf1, 0x55, 0x60, 0x00, 0x61, 0x00, 0xf1, 0x65,
    ]);
    run(&mut chip8, 7);
    assert_eq!(chip8.register(0), 0x11);
    assert_eq!(chip8.register(1), 0x22);
}

#[test]
fn font_address_and_index_arithmetic() {
    let mut chip8 = engine_with(&[0x60, 0x07, 0xf0, 0x29, 0xf0, 0x1e, 0xaf, 0xff, 0xf0, 0x1e]);
    run(&mut chip8, 2);
    assert_eq!(chip8.index_register(), 0x50 + 35);
    run(&mut chip8, 1);
    assert_eq!(chip8.index_register(), 0x50 + 42);
    run(&mut chip8, 2);
    assert_eq!(chip8.index_register(), 0x006);
}

#[test]
fn random_byte_is_masked() {
    let mut chip8 = engine_with(&[0xc0, 0x0f, 0xc1, 0x00]);
    chip8.emulate_cycle_with(0xab).unwrap();
    assert_eq!(chip8.register(0), 0x0b);
    chip8.emulate_cycle().unwrap();
    assert_eq!(chip8.register(1), 0);
}

#[test]
fn pixel_snapshot_replaces_the_frame_buffer() {
    let mut chip8 = engine_with(&[0x61, 0x00]);
    let mut pixels = [false; N];
    pixels[5] = true;
    chip8.get_commands().send_inbound(Command::Display(DisplayCommand::SendPixels(pixels)));
    chip8.read_commands();
    run(&mut chip8, 1);
    let seen = last_pixels(&chip8.get_commands().consume_all_outbound());
    assert!(seen[5]);
}
