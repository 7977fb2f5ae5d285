use chip8::command::{Command, MemoryCommand};
use chip8::constants::{FONT_SPRITES, RAM_BYTES};
use chip8::memory::Memory;

#[test]
fn loaded_program_reads_back_unchanged() {
    let rom: Vec<u8> = (0..100u8).map(|b| b.wrapping_mul(7)).collect();
    let mut memory = Memory::new();
    memory.load_font_sprites();
    memory.load_rom(&rom);
    let ram = memory.read_ram();
    assert_eq!(&ram[0x200..0x200 + rom.len()], &rom[..]);
    assert_eq!(&ram[0x50..0xa0], &FONT_SPRITES[..]);
    assert!(ram[0x200 + rom.len()..].iter().all(|b| *b == 0));
}

#[test]
fn memory_publishes_and_accepts_snapshots() {
    let mut memory = Memory::new();
    memory.load_rom(&[0xaa, 0xbb]);
    memory.emulate_cycle();
    let out = memory.get_commands().consume_all_outbound();
    assert_eq!(out.len(), 1);
    match out[0] {
        Command::Memory(MemoryCommand::SendRAM(ram)) => assert_eq!((ram[0x200], ram[0x201]), (0xaa, 0xbb)),
        _ => panic!("expected a memory snapshot"),
    }
    let mut image = [0u8; RAM_BYTES];
    image[7] = 9;
    memory.get_commands().send_inbound(Command::Memory(MemoryCommand::SendRAM(image)));
    memory.process_inbound_commands();
    assert_eq!(memory.read_ram()[7], 9);
    assert_eq!(memory.read_ram()[0x200], 0);
}

#[test]
fn largest_program_fits() {
    let rom = vec![0x5au8; 3584];
    let mut memory = Memory::new();
    memory.load_rom(&rom);
    assert_eq!(memory.read_ram()[RAM_BYTES - 1], 0x5a);
    assert_eq!(memory.read_ram()[0x1ff], 0);
}
