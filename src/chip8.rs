//! The execution engine: fetches, decodes and executes one instruction per
//! cycle, counts the timers down, and publishes its side effects as messages.
use vstd::prelude::*;

use crate::command::{
    AudioCommand, Command, CommandEmulator, DisplayCommand, KeyCommand, MemoryCommand,
};
use crate::constants::{FONT_ADDR, KEYS, N, RAM_BYTES, ROM_ADDR, STACK_DEPTH};
use crate::isa::{
    cycle, cycle_output, execute, fetch, handle_all, handle_command, initial_state, lemma_offset,
    loaded_registers, operand_pair, outcome_matches, skip_if, stored_registers, ticked,
    EmulationError, EngineState, FaultKind,
};
use crate::opcode::{operands_fit, read_be_u16, Opcode, OpcodeDisassembler, OpcodeType, Operation};
use crate::router::Router;
use crate::sprite::{
    cell_index, col_of, collides_upto, draw_collides, drawn_before, drawn_pixels, drawn_upto,
    lemma_cell_index, lemma_cell_unique, row_of, sprite_bit, sprite_hits,
};

verus! {

/// A cycle from `before` to `after` that drew the random byte `rnd`: the
/// state and result are those of `cycle`, the inbound queue is untouched,
/// and what the cycle published follows the messages already queued.
pub open spec fn cycle_taken(before: Chip8, after: Chip8, rnd: u8, r: Result<(), EmulationError>) -> bool {
    let n = before.outbound().len();
    &&& match cycle(before@, rnd) {
        Ok(t) => r is Ok && after@ == t,
        Err(e) => r == Err::<(), EmulationError>(e) && after@ == before@,
    }
    &&& after@.wf()
    &&& after.inbound() == before.inbound()
    &&& n <= after.outbound().len()
    &&& after.outbound().take(n as int) == before.outbound()
    &&& cycle_output(before@, rnd, after.outbound().skip(n as int))
}

/// The execution engine: registers, timers, the key-wait latch, and its own
/// copies of the keypad, frame buffer and memory, kept in step with the
/// other components through its message queues.
pub struct Chip8 {
    draw_flag: bool,
    key_wait: bool,
    reg_wait: usize,
    pc: u16,
    index: u16,
    sp: u8,
    stack: [u16; STACK_DEPTH],
    v: [u8; KEYS],
    delay_timer: u8,
    sound_timer: u8,
    commands: Router<Command>,
    key_buf: [bool; KEYS],
    pixel_buf: [bool; N],
    memory_buf: [u8; RAM_BYTES],
}

impl View for Chip8 {
    type V = EngineState;

    closed spec fn view(&self) -> EngineState {
        EngineState {
            v: self.v@,
            i: self.index,
            pc: self.pc,
            sp: self.sp,
            stack: self.stack@,
            delay_timer: self.delay_timer,
            sound_timer: self.sound_timer,
            key_wait: self.key_wait,
            reg_wait: self.reg_wait,
            draw_flag: self.draw_flag,
            keys: self.key_buf@,
            pixels: self.pixel_buf@,
            memory: self.memory_buf@,
        }
    }
}

/// Relies on `rand::random::<u8>`: a byte from the thread-local generator,
/// of which nothing is known.
#[verifier::external_body]
fn random_byte() -> u8 {
    rand::random::<u8>()
}

impl Chip8 {
    /// The messages waiting for the engine, oldest first.
    pub closed spec fn inbound(&self) -> Seq<Command> {
        self.commands.inbound()
    }

    /// The messages the engine has published and not yet handed on.
    pub closed spec fn outbound(&self) -> Seq<Command> {
        self.commands.outbound()
    }

    /// A stopped engine: registers, timers, stack, keypad, frame buffer and
    /// memory all zero, the program counter at the program's load address.
    pub fn new() -> (r: Self)
        ensures
            r@ == initial_state(),
            r@.wf(),
            r.inbound() == Seq::<Command>::empty(),
            r.outbound() == Seq::<Command>::empty(),
    {
        let r = Chip8 {
            draw_flag: false,
            key_wait: false,
            reg_wait: 0,
            pc: ROM_ADDR as u16,
            index: 0,
            sp: 0,
            stack: [0u16; STACK_DEPTH],
            v: [0u8; KEYS],
            delay_timer: 0,
            sound_timer: 0,
            commands: Router::new(),
            key_buf: [false; KEYS],
            pixel_buf: [false; N],
            memory_buf: [0u8; RAM_BYTES],
        };
        assert(r@.v =~= initial_state().v);
        assert(r@.stack =~= initial_state().stack);
        assert(r@.keys =~= initial_state().keys);
        assert(r@.pixels =~= initial_state().pixels);
        assert(r@.memory =~= initial_state().memory);
        r
    }

    /// The engine's queues.
    pub fn get_commands(&mut self) -> (r: &mut Router<Command>)
        ensures
            r.inbound() == old(self).inbound(),
            r.outbound() == old(self).outbound(),
            final(self).inbound() == final(r).inbound(),
            final(self).outbound() == final(r).outbound(),
            final(self)@ == old(self)@,
    {
        &mut self.commands
    }

    /// Register `x`.
    pub fn register(&self, x: usize) -> (r: u8)
        requires
            x < 16,
        ensures
            r == self@.v[x as int],
    {
        self.v[x]
    }

    /// The program counter.
    pub fn program_counter(&self) -> (r: u16)
        ensures
            r == self@.pc,
    {
        self.pc
    }

    /// The index register.
    pub fn index_register(&self) -> (r: u16)
        ensures
            r == self@.i,
    {
        self.index
    }

    /// The delay timer.
    pub fn delay_timer(&self) -> (r: u8)
        ensures
            r == self@.delay_timer,
    {
        self.delay_timer
    }

    /// The sound timer.
    pub fn sound_timer(&self) -> (r: u8)
        ensures
            r == self@.sound_timer,
    {
        self.sound_timer
    }

    /// Whether the engine is waiting for a key press.
    pub fn is_waiting_for_key(&self) -> (r: bool)
        ensures
            r == self@.key_wait,
    {
        self.key_wait
    }

    /// Applies one inbound message (see `handle_command`).
    pub fn process_inbound_command(&mut self, c: &Command)
        requires
            old(self)@.wf(),
        ensures
            final(self)@ == handle_command(old(self)@, *c),
            final(self)@.wf(),
            final(self).inbound() == old(self).inbound(),
            final(self).outbound() == old(self).outbound(),
    {
        match c {
            Command::Display(DisplayCommand::SendPixels(p)) => {
                self.pixel_buf = *p;
            },
            Command::Memory(MemoryCommand::SendRAM(m)) => {
                self.memory_buf = *m;
            },
            Command::Key(KeyCommand::KeyDownUp(k, down)) => {
                let k: usize = *k;
                let down: bool = *down;
                if k < KEYS {
                    self.key_buf[k] = down;
                    if self.key_wait && down {
                        self.key_wait = false;
                        self.v[self.reg_wait] = k as u8;
                    }
                }
            },
            _ => {},
        }
    }

    /// Drains the inbound queue and applies its messages in order.
    pub fn read_commands(&mut self)
        requires
            old(self)@.wf(),
        ensures
            final(self)@ == handle_all(old(self)@, old(self).inbound()),
            final(self)@.wf(),
            final(self).inbound() == Seq::<Command>::empty(),
            final(self).outbound() == old(self).outbound(),
    {
        let cs = self.commands.consume_all_inbound();
        let ghost start = old(self)@;
        let mut k: usize = 0;
        while k < cs.len()
            invariant
                0 <= k <= cs@.len(),
                cs@ == old(self).inbound(),
                self@ == handle_all(start, cs@.take(k as int)),
                self@.wf(),
                self.inbound() == Seq::<Command>::empty(),
                self.outbound() == old(self).outbound(),
            decreases cs@.len() - k,
        {
            assert(cs@.take(k + 1).drop_last() =~= cs@.take(k as int));
            self.process_inbound_command(&cs[k]);
            k = k + 1;
        }
        assert(cs@.take(k as int) =~= cs@);
    }

    /// Records a screen-clear request for the display and a repaint.
    fn clear_display(&mut self)
        requires
            old(self)@.wf(),
        ensures
            final(self)@.wf(),
            final(self)@ == (EngineState { draw_flag: true, ..old(self)@ }),
            final(self).inbound() == old(self).inbound(),
            final(self).outbound() == old(self).outbound().push(
                Command::Display(DisplayCommand::SendClearDisplay),
            ),
    {
        self.commands.send_outbound(Command::Display(DisplayCommand::SendClearDisplay));
        self.draw_flag = true
    }

    /// Pops the return address off the stack.
    fn subroutine_return(&mut self) -> (r: Result<(), FaultKind>)
        requires
            old(self)@.wf(),
        ensures
            outcome_matches(old(self)@, final(self)@, r, execute(old(self)@, Opcode(Operation::RET, OpcodeType::NONE), 0)),
            final(self).commands == old(self).commands,
    {
        if self.sp == 0 {
            return Err(FaultKind::StackUnderflow);
        }
        self.sp = self.sp - 1;
        self.pc = self.stack[self.sp as usize];
        Ok(())
    }

    /// Continues at `location`.
    fn jump(&mut self, location: u16)
        ensures
            final(self)@ == (EngineState { pc: location, ..old(self)@ }),
            final(self).commands == old(self).commands,
    {
        self.pc = location
    }

    /// Pushes the program counter and continues at `location`.
    fn subroutine_call(&mut self, location: u16) -> (r: Result<(), FaultKind>)
        requires
            old(self)@.wf(),
        ensures
            outcome_matches(old(self)@, final(self)@, r, execute(old(self)@, Opcode(Operation::CALL, OpcodeType::NNN(location)), 0)),
            final(self).commands == old(self).commands,
    {
        if self.sp as usize >= STACK_DEPTH {
            return Err(FaultKind::StackOverflow);
        }
        self.stack[self.sp as usize] = self.pc;
        self.sp = self.sp + 1;
        self.jump(location);
        Ok(())
    }

    /// Skips the next instruction when `condition` holds.
    fn skip(&mut self, condition: bool)
        requires
            old(self)@.wf(),
        ensures
            final(self)@ == skip_if(old(self)@, condition),
            final(self).commands == old(self).commands,
    {
        if condition {
            self.pc = (self.pc + 2) % 4096
        }
    }

    /// The two values that `SE` and `SNE` compare.
    fn get_tuple_from_type(&self, op_type: OpcodeType) -> (r: Option<(u16, u16)>)
        requires
            self@.wf(),
            operands_fit(op_type),
        ensures
            r == operand_pair(self@, op_type),
    {
        match op_type {
            OpcodeType::XNN(x, nn) => Some((self.v[x as usize] as u16, nn)),
            OpcodeType::XY(x, y) => Some((self.v[x as usize] as u16, self.v[y as usize] as u16)),
            _ => None,
        }
    }

    /// Skips the next instruction when the compared values are equal.
    fn skip_equal(&mut self, op_type: OpcodeType) -> (r: Result<(), FaultKind>)
        requires
            old(self)@.wf(),
            operands_fit(op_type),
        ensures
            outcome_matches(old(self)@, final(self)@, r, execute(old(self)@, Opcode(Operation::SE, op_type), 0)),
            final(self).commands == old(self).commands,
    {
        if let Some((left, right)) = self.get_tuple_from_type(op_type) {
            self.skip(left == right);
            Ok(())
        } else {
            Err(FaultKind::UndefinedInstruction)
        }
    }

    /// Skips the next instruction when the compared values differ.
    fn skip_not_equal(&mut self, op_type: OpcodeType) -> (r: Result<(), FaultKind>)
        requires
            old(self)@.wf(),
            operands_fit(op_type),
        ensures
            outcome_matches(old(self)@, final(self)@, r, execute(old(self)@, Opcode(Operation::SNE, op_type), 0)),
            final(self).commands == old(self).commands,
    {
        if let Some((left, right)) = self.get_tuple_from_type(op_type) {
            self.skip(left != right);
            Ok(())
        } else {
            Err(FaultKind::UndefinedInstruction)
        }
    }

    /// XORs `val` into the pixel at column `x`, row `y`, and requests a
    /// repaint; returns whether a set pixel was turned off.
    fn update_pixel(&mut self, x: usize, y: usize, val: bool) -> (hit: bool)
        requires
            x < 64,
            y < 32,
        ensures
            hit == (old(self).pixel_buf@[y * 64 + x] && val),
            final(self)@ == (EngineState {
                pixels: old(self)@.pixels.update(y * 64 + x, old(self)@.pixels[y * 64 + x] != val),
                draw_flag: true,
                ..old(self)@
            }),
            final(self).commands == old(self).commands,
    {
        let q: usize = y * 64 + x;
        let hit = self.pixel_buf[q] && val;
        self.pixel_buf[q] = self.pixel_buf[q] != val;
        self.draw_flag = true;
        hit
    }

    /// XOR-draws the `n`-row sprite at the index register onto the frame
    /// buffer at (`x0`, `y0`), wrapping at the screen's edges; returns whether
    /// a set pixel was turned off.
    fn draw_sprite(&mut self, x0: u8, y0: u8, n: u16) -> (collided: bool)
        requires
            old(self)@.wf(),
            n < 16,
        ensures
            final(self)@ == (EngineState {
                pixels: drawn_pixels(old(self)@.pixels, old(self)@.memory, old(self)@.i as int, x0 as int, y0 as int, n as int),
                draw_flag: old(self)@.draw_flag || n > 0,
                ..old(self)@
            }),
            collided == draw_collides(old(self)@.pixels, old(self)@.memory, old(self)@.i as int, x0 as int, y0 as int, n as int),
            final(self).commands == old(self).commands,
    {
        let ghost pix = old(self)@.pixels;
        let ghost mem = old(self)@.memory;
        let ghost base = old(self)@.i as int;
        let ghost gx = x0 as int;
        let ghost gy = y0 as int;
        let ghost gn = n as int;
        let mut collided = false;
        let mut row: u16 = 0;
        assert(self.pixel_buf@ =~= drawn_upto(pix, mem, base, gx, gy, gn, 0, 0));
        while row < n
            invariant
                n < 16,
                row <= n,
                self.pixel_buf@ == drawn_upto(pix, mem, base, gx, gy, gn, row as int, 0),
                collided == collides_upto(pix, mem, base, gx, gy, gn, row as int, 0),
                self@ == (EngineState { pixels: self@.pixels, draw_flag: old(self)@.draw_flag || row > 0, ..old(self)@ }),
                self.commands == old(self).commands,
                pix == old(self)@.pixels,
                mem == old(self)@.memory,
                base == old(self)@.i,
                gx == x0 as int,
                gy == y0 as int,
                gn == n as int,
                old(self)@.wf(),
            decreases n - row,
        {
            let byte: u8 = self.memory_buf[((self.index as usize) + (row as usize)) % RAM_BYTES];
            let py: usize = ((y0 as usize) + (row as usize)) % 32;
            let mut col: u16 = 0;
            while col < 8
                invariant
                    n < 16,
                    row < n,
                    col <= 8,
                    byte == mem[(base + row) % 4096],
                    py == (gy + row) % 32,
                    self.pixel_buf@ == drawn_upto(pix, mem, base, gx, gy, gn, row as int, col as int),
                    collided == collides_upto(pix, mem, base, gx, gy, gn, row as int, col as int),
                    self@ == (EngineState {
                        pixels: self@.pixels,
                        draw_flag: old(self)@.draw_flag || row > 0 || col > 0,
                        ..old(self)@
                    }),
                    self.commands == old(self).commands,
                    pix == old(self)@.pixels,
                    mem == old(self)@.memory,
                    base == old(self)@.i,
                    gx == x0 as int,
                    gy == y0 as int,
                    gn == n as int,
                    old(self)@.wf(),
                decreases 8 - col,
            {
                let px: usize = ((x0 as usize) + (col as usize)) % 64;
                let bit: bool = (byte >> ((7 - col) as u8)) & 1u8 == 1u8;
                let ghost q = cell_index(gx, gy, row as int, col as int);
                proof {
                    lemma_cell_index(gx, gy, row as int, col as int);
                    assert(q == py * 64 + px);
                    assert(bit == sprite_bit(mem, base, row as int, col as int));
                    assert(sprite_hits(mem, base, gx, gy, gn, q) == bit);
                    assert forall|p: int| 0 <= p < 2048 && p != q implies !(row_of(p, gy) == row && col_of(p, gx) == col) by {
                        lemma_cell_unique(gx, gy, p);
                    }
                }
                let hit = self.update_pixel(px, py, bit);
                if hit {
                    collided = true;
                }
                proof {
                    let next = drawn_upto(pix, mem, base, gx, gy, gn, row as int, col + 1);
                    assert(self.pixel_buf@ =~= next);
                    if hit {
                        assert(pix[q] && sprite_hits(mem, base, gx, gy, gn, q) && drawn_before(q, gx, gy, row as int, col + 1));
                    }
                    assert(collided == collides_upto(pix, mem, base, gx, gy, gn, row as int, col + 1));
                }
                col = col + 1;
            }
            proof {
                assert(self.pixel_buf@ =~= drawn_upto(pix, mem, base, gx, gy, gn, row + 1, 0));
                assert(collided == collides_upto(pix, mem, base, gx, gy, gn, row + 1, 0));
            }
            row = row + 1;
        }
        proof {
            assert(self.pixel_buf@ =~= drawn_pixels(pix, mem, base, gx, gy, gn));
            assert(collided == draw_collides(pix, mem, base, gx, gy, gn));
        }
        collided
    }

    /// Stores registers 0..=x in memory from the index register on.
    fn store_registers(&mut self, x: usize)
        requires
            old(self)@.wf(),
            x < 16,
        ensures
            final(self)@ == (EngineState {
                memory: stored_registers(old(self)@.memory, old(self)@.v, old(self)@.i as int, x as int),
                ..old(self)@
            }),
            final(self).commands == old(self).commands,
    {
        let ghost mem = old(self)@.memory;
        let ghost regs = old(self)@.v;
        let ghost base = old(self)@.i as int;
        let mut k: usize = 0;
        while k <= x
            invariant
                x < 16,
                k <= x + 1,
                self.memory_buf@ == Seq::new(
                    4096,
                    |a: int| if (a - base) % 4096 < k { regs[(a - base) % 4096] } else { mem[a] },
                ),
                self@ == (EngineState { memory: self@.memory, ..old(self)@ }),
                self.commands == old(self).commands,
                mem == old(self)@.memory,
                regs == old(self)@.v,
                base == old(self)@.i,
                old(self)@.wf(),
            decreases x + 1 - k,
        {
            let q: usize = ((self.index as usize) + k) % RAM_BYTES;
            proof {
                assert forall|a: int| 0 <= a < 4096 implies (#[trigger] ((a - base) % 4096) == k) == (a == q) by {
                    lemma_offset(base, k as int, a);
                }
            }
            self.memory_buf[q] = self.v[k];
            k = k + 1;
            proof {
                assert(self.memory_buf@ =~= Seq::new(
                    4096,
                    |a: int| if (a - base) % 4096 < k { regs[(a - base) % 4096] } else { mem[a] },
                ));
            }
        }
        assert(self.memory_buf@ =~= stored_registers(mem, regs, base, x as int));
    }

    /// Loads registers 0..=x from memory at the index register on.
    fn load_registers(&mut self, x: usize)
        requires
            old(self)@.wf(),
            x < 16,
        ensures
            final(self)@ == (EngineState {
                v: loaded_registers(old(self)@.memory, old(self)@.v, old(self)@.i as int, x as int),
                ..old(self)@
            }),
            final(self).commands == old(self).commands,
    {
        let ghost mem = old(self)@.memory;
        let ghost regs = old(self)@.v;
        let ghost base = old(self)@.i as int;
        let mut k: usize = 0;
        while k <= x
            invariant
                x < 16,
                k <= x + 1,
                self.v@ == Seq::new(16, |j: int| if j < k { mem[(base + j) % 4096] } else { regs[j] }),
                self@ == (EngineState { v: self@.v, ..old(self)@ }),
                self.commands == old(self).commands,
                mem == old(self)@.memory,
                regs == old(self)@.v,
                base == old(self)@.i,
                old(self)@.wf(),
            decreases x + 1 - k,
        {
            self.v[k] = self.memory_buf[((self.index as usize) + k) % RAM_BYTES];
            k = k + 1;
            assert(self.v@ =~= Seq::new(16, |j: int| if j < k { mem[(base + j) % 4096] } else { regs[j] }));
        }
        assert(self.v@ =~= loaded_registers(mem, regs, base, x as int));
    }

    /// Executes one decoded instruction, with `rnd` as the random byte for
    /// `RND`. An operation with no rule for its operands is a fault, as are
    /// stack overflow and underflow; a fault changes nothing.
    fn execute_opcode(&mut self, opcode: Opcode, rnd: u8) -> (r: Result<(), FaultKind>)
        requires
            old(self)@.wf(),
            operands_fit(opcode.1),
        ensures
            outcome_matches(old(self)@, final(self)@, r, execute(old(self)@, opcode, rnd)),
            final(self)@.wf(),
            final(self).inbound() == old(self).inbound(),
            final(self).outbound() == if opcode == Opcode(Operation::CLS, OpcodeType::NONE) {
                old(self).outbound().push(Command::Display(DisplayCommand::SendClearDisplay))
            } else {
                old(self).outbound()
            },
    {
        match opcode {
            Opcode(Operation::CLS, OpcodeType::NONE) => {
                self.clear_display();
                Ok(())
            },
            Opcode(Operation::RET, OpcodeType::NONE) => self.subroutine_return(),
            Opcode(Operation::JP, OpcodeType::NNN(nnn)) => {
                self.jump(nnn);
                Ok(())
            },
            Opcode(Operation::JP, OpcodeType::V0_NNN(nnn)) => {
                self.jump(((self.v[0] as u16) + nnn) % 4096);
                Ok(())
            },
            Opcode(Operation::CALL, OpcodeType::NNN(nnn)) => self.subroutine_call(nnn),
            Opcode(Operation::SE, op_type) => self.skip_equal(op_type),
            Opcode(Operation::SNE, op_type) => self.skip_not_equal(op_type),
            Opcode(Operation::LD, OpcodeType::XNN(x, nn)) => {
                self.v[x as usize] = nn as u8;
                Ok(())
            },
            Opcode(Operation::LD, OpcodeType::XY(x, y)) => {
                self.v[x as usize] = self.v[y as usize];
                Ok(())
            },
            Opcode(Operation::LD, OpcodeType::I_NNN(nnn)) => {
                self.index = nnn;
                Ok(())
            },
            Opcode(Operation::LD, OpcodeType::X_DT(x)) => {
                self.v[x as usize] = self.delay_timer;
                Ok(())
            },
            Opcode(Operation::LD, OpcodeType::X_K(x)) => {
                self.key_wait = true;
                self.reg_wait = x as usize;
                Ok(())
            },
            Opcode(Operation::LD, OpcodeType::DT_X(x)) => {
                self.delay_timer = self.v[x as usize];
                Ok(())
            },
            Opcode(Operation::LD, OpcodeType::ST_X(x)) => {
                self.sound_timer = self.v[x as usize];
                Ok(())
            },
            Opcode(Operation::LD, OpcodeType::F_X(x)) => {
                self.index = (FONT_ADDR as u16) + 5 * (self.v[x as usize] as u16);
                Ok(())
            },
            Opcode(Operation::LD, OpcodeType::B_X(x)) => {
                let value: u8 = self.v[x as usize];
                let i: usize = self.index as usize;
                self.memory_buf[i] = value / 100;
                self.memory_buf[(i + 1) % RAM_BYTES] = (value / 10) % 10;
                self.memory_buf[(i + 2) % RAM_BYTES] = value % 10;
                Ok(())
            },
            Opcode(Operation::LD, OpcodeType::RI_X(x)) => {
                self.store_registers(x as usize);
                Ok(())
            },
            Opcode(Operation::LD, OpcodeType::X_RI(x)) => {
                self.load_registers(x as usize);
                Ok(())
            },
            Opcode(Operation::ADD, OpcodeType::XNN(x, nn)) => {
                self.v[x as usize] = (((self.v[x as usize] as u16) + nn) % 256) as u8;
                Ok(())
            },
            Opcode(Operation::ADD, OpcodeType::I_X(x)) => {
                self.index = (self.index + (self.v[x as usize] as u16)) % 4096;
                Ok(())
            },
            Opcode(Operation::ADD, OpcodeType::XY(x, y)) => {
                let sum: u16 = (self.v[x as usize] as u16) + (self.v[y as usize] as u16);
                self.v[x as usize] = (sum % 256) as u8;
                self.v[15] = if sum >= 256 { 1 } else { 0 };
                Ok(())
            },
            Opcode(Operation::OR, OpcodeType::XY(x, y)) => {
                self.v[x as usize] = self.v[x as usize] | self.v[y as usize];
                Ok(())
            },
            Opcode(Operation::AND, OpcodeType::XY(x, y)) => {
                self.v[x as usize] = self.v[x as usize] & self.v[y as usize];
                Ok(())
            },
            Opcode(Operation::XOR, OpcodeType::XY(x, y)) => {
                self.v[x as usize] = self.v[x as usize] ^ self.v[y as usize];
                Ok(())
            },
            Opcode(Operation::SUB, OpcodeType::XY(x, y)) => {
                let a: u16 = self.v[x as usize] as u16;
                let b: u16 = self.v[y as usize] as u16;
                self.v[x as usize] = ((a + 256 - b) % 256) as u8;
                self.v[15] = if a >= b { 1 } else { 0 };
                Ok(())
            },
            Opcode(Operation::SUBN, OpcodeType::XY(x, y)) => {
                let a: u16 = self.v[x as usize] as u16;
                let b: u16 = self.v[y as usize] as u16;
                self.v[x as usize] = ((b + 256 - a) % 256) as u8;
                self.v[15] = if b >= a { 1 } else { 0 };
                Ok(())
            },
            Opcode(Operation::SHR, OpcodeType::X(x)) => {
                let a: u8 = self.v[x as usize];
                self.v[x as usize] = a / 2;
                self.v[15] = if a % 2 == 1 { 1 } else { 0 };
                Ok(())
            },
            Opcode(Operation::SHL, OpcodeType::X(x)) => {
                let a: u8 = self.v[x as usize];
                self.v[x as usize] = (((a as u16) * 2) % 256) as u8;
                self.v[15] = if a >= 128 { 1 } else { 0 };
                Ok(())
            },
            Opcode(Operation::RND, OpcodeType::XNN(x, nn)) => {
                self.v[x as usize] = rnd & (nn as u8);
                Ok(())
            },
            Opcode(Operation::DRW, OpcodeType::XYN(x, y, n)) => {
                let x0: u8 = self.v[x as usize];
                let y0: u8 = self.v[y as usize];
                let collided = self.draw_sprite(x0, y0, n);
                self.v[15] = if collided { 1 } else { 0 };
                Ok(())
            },
            Opcode(Operation::SKP, OpcodeType::X(x)) => {
                let pressed: bool = self.key_buf[(self.v[x as usize] % 16) as usize];
                self.skip(pressed);
                Ok(())
            },
            Opcode(Operation::SKNP, OpcodeType::X(x)) => {
                let pressed: bool = self.key_buf[(self.v[x as usize] % 16) as usize];
                self.skip(!pressed);
                Ok(())
            },
            _ => Err(FaultKind::UndefinedInstruction),
        }
    }

    /// Runs one cycle with `rnd` as the random byte: unless waiting for a
    /// key, fetches the instruction at the program counter, advances past
    /// it, decodes and executes it, counts both timers down, and publishes
    /// the audio state, the frame buffer, the memory and, if the instruction
    /// drew, a repaint request. A fault leaves the state as it was and names
    /// the instruction and its address.
    pub fn emulate_cycle_with(&mut self, rnd: u8) -> (r: Result<(), EmulationError>)
        requires
            old(self)@.wf(),
        ensures
            cycle_taken(*old(self), *final(self), rnd, r),
    {
        let ghost before = *old(self);
        if self.key_wait {
            assert(self.outbound().skip(before.outbound().len() as int) =~= Seq::<Command>::empty());
            assert(self.outbound().take(before.outbound().len() as int) =~= before.outbound());
            return Ok(());
        }
        let pc: u16 = self.pc;
        let instruction: u16 = read_be_u16(
            [self.memory_buf[pc as usize], self.memory_buf[((pc as usize) + 1) % RAM_BYTES]],
        );
        assert(instruction == fetch(before@));
        self.pc = (pc + 2) % 4096;
        let opcode = OpcodeDisassembler::disassemble(instruction);
        match self.execute_opcode(opcode, rnd) {
            Ok(()) => {},
            Err(kind) => {
                self.pc = pc;
                assert(self@ =~= before@);
                assert(self.outbound().skip(before.outbound().len() as int) =~= Seq::<Command>::empty());
                assert(self.outbound().take(before.outbound().len() as int) =~= before.outbound());
                return Err(EmulationError { kind, instruction, address: pc });
            },
        }
        let ghost executed_state = self@;
        let ghost mid = self.outbound();

        if self.delay_timer > 0 {
            self.delay_timer = self.delay_timer - 1;
        }
        if self.sound_timer > 0 {
            self.sound_timer = self.sound_timer - 1;
        }
        if self.sound_timer > 0 {
            self.commands.send_outbound(Command::Audio(AudioCommand::Play));
        } else {
            self.commands.send_outbound(Command::Audio(AudioCommand::Pause));
        }
        self.commands.send_outbound(Command::Display(DisplayCommand::SendPixels(self.pixel_buf)));
        self.commands.send_outbound(Command::Memory(MemoryCommand::SendRAM(self.memory_buf)));
        if self.draw_flag {
            self.commands.send_outbound(Command::Display(DisplayCommand::SendDraw));
            self.draw_flag = false;
        }
        proof {
            let n = before.outbound().len() as int;
            let out = self.outbound().skip(n);
            assert(self.outbound().take(n) =~= before.outbound());
            assert(self@ =~= ticked(executed_state));
            let k: int = if opcode == Opcode(Operation::CLS, OpcodeType::NONE) { 1 } else { 0 };
            assert(out.len() == k + 3 + (if executed_state.draw_flag { 1int } else { 0int }));
            assert(k == 1 ==> out[0] == mid[n]);
            assert(out[k] == self.outbound()[n + k]);
            assert(out[k + 1] == self.outbound()[n + k + 1]);
            assert(out[k + 2] == self.outbound()[n + k + 2]);
            assert(executed_state.draw_flag ==> out[k + 3] == self.outbound()[n + k + 3]);
        }
        Ok(())
    }

    /// Runs one cycle, drawing the random byte for `RND` from the thread's
    /// generator: the outcome is that of `emulate_cycle_with` for some byte.
    pub fn emulate_cycle(&mut self) -> (r: Result<(), EmulationError>)
        requires
            old(self)@.wf(),
        ensures
            exists|rnd: u8| cycle_taken(*old(self), *final(self), rnd, r),
    {
        let rnd = random_byte();
        self.emulate_cycle_with(rnd)
    }
}

impl CommandEmulator for Chip8 {
    open spec fn ready(&self) -> bool {
        self@.wf()
    }

    fn get_commands(&mut self) -> &mut Router<Command> {
        Chip8::get_commands(self)
    }

    fn process_inbound_command(&mut self, command: &Command) {
        Chip8::process_inbound_command(self, command)
    }

    fn process_inbound_commands(&mut self) {
        self.read_commands()
    }

    fn emulate_cycle(&mut self) -> Result<(), EmulationError> {
        Chip8::emulate_cycle(self)
    }
}

} // verus!
