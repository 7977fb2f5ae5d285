use chip8::command::{AudioCommand, Command, DisplayCommand, GameCommand, KeyCommand};
use chip8::emulator::{destination_of, Chip8Emulator, Destination};

fn started(program: &[u8]) -> Chip8Emulator {
    let mut emulator = Chip8Emulator::new();
    emulator.get_memory().load_font_sprites();
    emulator.get_memory().load_rom(program);
    emulator
}

#[test]
fn routing_rule() {
    let exit = Command::GameState(GameCommand::Exit);
    let key = Command::Key(KeyCommand::KeyDownUp(1, true));
    let audio = Command::Audio(AudioCommand::Play);
    let ram = Command::Memory(chip8::command::MemoryCommand::SendRAM([0; 4096]));
    assert_eq!(destination_of(&exit, false), Destination::Stop);
    assert_eq!(destination_of(&exit, true), Destination::Stop);
    assert_eq!(destination_of(&key, false), Destination::Engine);
    assert_eq!(destination_of(&key, true), Destination::Host);
    assert_eq!(destination_of(&audio, true), Destination::Host);
    assert_eq!(destination_of(&ram, true), Destination::MemoryStore);
    assert_eq!(destination_of(&ram, false), Destination::Engine);
}

#[test]
fn frame_runs_the_loaded_program_and_feeds_the_host() {
    let mut emulator = started(&[0x60, 0x2a, 0x00, 0xe0]);
    emulator.simulate_memory();
    emulator.simulate_io();
    emulator.simulate_chip8().unwrap();
    assert_eq!(emulator.chip8().register(0), 0x2a);
    let host = emulator.get_io_commands().consume_all_inbound();
    assert!(matches!(host[0], Command::Audio(AudioCommand::Pause)));
    assert!(matches!(host[1], Command::Display(DisplayCommand::SendPixels(_))));
    assert_eq!(host.len(), 2);
    emulator.simulate_memory();
    emulator.simulate_io();
    emulator.simulate_chip8().unwrap();
    let host = emulator.get_io_commands().consume_all_inbound();
    assert!(matches!(host[0], Command::Display(DisplayCommand::SendClearDisplay)));
    assert!(matches!(host[host.len() - 1], Command::Display(DisplayCommand::SendDraw)));
    assert!(emulator.is_running());
}

#[test]
fn host_exit_request_stops_the_run() {
    let mut emulator = started(&[0x12, 0x00]);
    emulator.simulate_memory();
    emulator.get_io_commands().send_outbound(Command::GameState(GameCommand::Exit));
    emulator.simulate_io();
    assert!(!emulator.is_running());
}

#[test]
fn host_key_events_reach_the_engine() {
    let mut emulator = started(&[0xf5, 0x0a, 0x12, 0x02]);
    emulator.simulate_memory();
    emulator.simulate_io();
    emulator.simulate_chip8().unwrap();
    assert!(emulator.chip8().is_waiting_for_key());
    emulator.get_io_commands().send_outbound(Command::Key(KeyCommand::KeyDownUp(0xc, true)));
    emulator.simulate_memory();
    emulator.simulate_io();
    emulator.simulate_chip8().unwrap();
    assert!(!emulator.chip8().is_waiting_for_key());
    assert_eq!(emulator.chip8().register(5), 0xc);
}
