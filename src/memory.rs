//! Memory map:
//! 0x000-0x1FF: reserved for the interpreter, the font table at 0x050-0x09F;
//! 0x200-0xFFF: program and work memory.
use vstd::prelude::*;

use crate::isa::EmulationError;
use crate::command::{is_memory_snapshot, Command, CommandEmulator, MemoryCommand};
use crate::constants::{FONT_ADDR, FONT_SPRITES, MAX_ROM_BYTES, RAM_BYTES, ROM_ADDR};
use crate::router::Router;

verus! {

/// `memory` with `bytes` written from address `start` on.
pub open spec fn written(memory: Seq<u8>, start: int, bytes: Seq<u8>) -> Seq<u8> {
    Seq::new(
        memory.len(),
        |a: int| if start <= a < start + bytes.len() { bytes[a - start] } else { memory[a] },
    )
}

/// The memory image of a program: zero-filled memory with the font table at
/// `FONT_ADDR` and the program at `ROM_ADDR`.
pub open spec fn program_image(rom: Seq<u8>) -> Seq<u8> {
    written(
        written(Seq::new(RAM_BYTES as nat, |a: int| 0u8), FONT_ADDR as int, FONT_SPRITES@),
        ROM_ADDR as int,
        rom,
    )
}

/// Loading a program leaves its bytes unchanged from `ROM_ADDR` on and the
/// font table intact at `FONT_ADDR`, before any cycle runs.
pub proof fn program_image_round_trip(rom: Seq<u8>)
    requires
        rom.len() <= MAX_ROM_BYTES,
    ensures
        program_image(rom).len() == RAM_BYTES,
        program_image(rom).subrange(ROM_ADDR as int, ROM_ADDR + rom.len()) == rom,
        program_image(rom).subrange(FONT_ADDR as int, (FONT_ADDR + 80) as int) == FONT_SPRITES@,
{
    assert(program_image(rom).subrange(ROM_ADDR as int, ROM_ADDR + rom.len()) =~= rom);
    assert(program_image(rom).subrange(FONT_ADDR as int, (FONT_ADDR + 80) as int) =~= FONT_SPRITES@);
}

/// The memory store: owns the 4 KB address space.
pub struct Memory {
    ram: [u8; RAM_BYTES],
    commands: Router<Command>,
}

impl View for Memory {
    type V = Seq<u8>;

    closed spec fn view(&self) -> Seq<u8> {
        self.ram@
    }
}

impl Memory {
    /// The messages waiting for the store, oldest first.
    pub closed spec fn inbound(&self) -> Seq<Command> {
        self.commands.inbound()
    }

    /// The messages the store has published and not yet handed on.
    pub closed spec fn outbound(&self) -> Seq<Command> {
        self.commands.outbound()
    }

    /// Zero-filled memory with empty queues.
    pub fn new() -> (r: Self)
        ensures
            r@ == Seq::new(RAM_BYTES as nat, |a: int| 0u8),
            r.inbound() == Seq::<Command>::empty(),
            r.outbound() == Seq::<Command>::empty(),
    {
        let r = Memory { ram: [0u8; RAM_BYTES], commands: Router::new() };
        assert(r@ =~= Seq::new(RAM_BYTES as nat, |a: int| 0u8));
        r
    }

    /// Writes the font table at `FONT_ADDR`.
    pub fn load_font_sprites(&mut self)
        ensures
            final(self)@ == written(old(self)@, FONT_ADDR as int, FONT_SPRITES@),
            final(self).inbound() == old(self).inbound(),
            final(self).outbound() == old(self).outbound(),
    {
        let font: [u8; 80] = FONT_SPRITES;
        self.load_bytes_from(FONT_ADDR, &font)
    }

    /// Writes the program at `ROM_ADDR`.
    pub fn load_rom(&mut self, rom_bytes: &[u8])
        requires
            rom_bytes@.len() <= MAX_ROM_BYTES,
        ensures
            final(self)@ == written(old(self)@, ROM_ADDR as int, rom_bytes@),
            final(self).inbound() == old(self).inbound(),
            final(self).outbound() == old(self).outbound(),
    {
        self.load_bytes_from(ROM_ADDR, rom_bytes);
    }

    fn load_bytes_from(&mut self, start_addr: usize, bytes: &[u8])
        requires
            start_addr + bytes@.len() <= RAM_BYTES,
        ensures
            final(self)@ == written(old(self)@, start_addr as int, bytes@),
            final(self).inbound() == old(self).inbound(),
            final(self).outbound() == old(self).outbound(),
    {
        let mut k: usize = 0;
        while k < bytes.len()
            invariant
                start_addr + bytes@.len() <= RAM_BYTES,
                k <= bytes@.len(),
                self@ == written(old(self)@, start_addr as int, bytes@.take(k as int)),
                self.commands == old(self).commands,
            decreases bytes@.len() - k,
        {
            self.ram[start_addr + k] = bytes[k];
            k = k + 1;
            assert(self@ =~= written(old(self)@, start_addr as int, bytes@.take(k as int)));
        }
        assert(bytes@.take(k as int) =~= bytes@);
    }

    /// The store's queues.
    pub fn get_commands(&mut self) -> (r: &mut Router<Command>)
        ensures
            r.inbound() == old(self).inbound(),
            r.outbound() == old(self).outbound(),
            final(self).inbound() == final(r).inbound(),
            final(self).outbound() == final(r).outbound(),
            final(self)@ == old(self)@,
    {
        &mut self.commands
    }

    /// A copy of the whole address space.
    pub fn read_ram(&self) -> (r: [u8; RAM_BYTES])
        ensures
            r@ == self@,
    {
        self.ram
    }

    /// Applies one inbound message: a memory snapshot replaces the memory;
    /// other messages change nothing.
    pub fn process_inbound_command(&mut self, command: &Command)
        ensures
            final(self)@ == match *command {
                Command::Memory(MemoryCommand::SendRAM(bytes)) => bytes@,
                _ => old(self)@,
            },
            final(self).inbound() == old(self).inbound(),
            final(self).outbound() == old(self).outbound(),
    {
        match command {
            Command::Memory(MemoryCommand::SendRAM(bytes)) => {
                self.ram = *bytes;
            },
            _ => {},
        }
    }

    /// Drains the inbound queue and applies its messages in order: the
    /// memory becomes the last snapshot among them, if any.
    pub fn process_inbound_commands(&mut self)
        ensures
            final(self)@ == last_snapshot(old(self)@, old(self).inbound()),
            final(self).inbound() == Seq::<Command>::empty(),
            final(self).outbound() == old(self).outbound(),
    {
        let cs = self.commands.consume_all_inbound();
        let ghost start = old(self)@;
        let mut k: usize = 0;
        while k < cs.len()
            invariant
                0 <= k <= cs@.len(),
                cs@ == old(self).inbound(),
                self@ == last_snapshot(start, cs@.take(k as int)),
                start == old(self)@,
                self.inbound() == Seq::<Command>::empty(),
                self.outbound() == old(self).outbound(),
            decreases cs@.len() - k,
        {
            assert(cs@.take(k + 1).drop_last() =~= cs@.take(k as int));
            self.process_inbound_command(&cs[k]);
            k = k + 1;
        }
        assert(cs@.take(k as int) =~= cs@);
    }

    /// Publishes a snapshot of the whole memory.
    pub fn emulate_cycle(&mut self)
        ensures
            final(self)@ == old(self)@,
            final(self).inbound() == old(self).inbound(),
            final(self).outbound().len() == old(self).outbound().len() + 1,
            final(self).outbound().drop_last() == old(self).outbound(),
            is_memory_snapshot(final(self).outbound().last(), old(self)@),
    {
        self.commands.send_outbound(Command::Memory(MemoryCommand::SendRAM(self.ram)));
    }
}

impl CommandEmulator for Memory {
    open spec fn ready(&self) -> bool {
        true
    }

    fn get_commands(&mut self) -> &mut Router<Command> {
        Memory::get_commands(self)
    }

    fn process_inbound_command(&mut self, command: &Command) {
        Memory::process_inbound_command(self, command)
    }

    fn process_inbound_commands(&mut self) {
        Memory::process_inbound_commands(self)
    }

    fn emulate_cycle(&mut self) -> Result<(), EmulationError> {
        Memory::emulate_cycle(self);
        Ok(())
    }
}

/// The memory after applying `cs` to `memory`: the last snapshot in `cs`, or
/// `memory` if there is none.
pub open spec fn last_snapshot(memory: Seq<u8>, cs: Seq<Command>) -> Seq<u8>
    decreases cs.len(),
{
    if cs.len() == 0 {
        memory
    } else {
        match cs.last() {
            Command::Memory(MemoryCommand::SendRAM(bytes)) => bytes@,
            _ => last_snapshot(memory, cs.drop_last()),
        }
    }
}

} // verus!
