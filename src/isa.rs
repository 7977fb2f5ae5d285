//! The instruction set as a state machine: the engine's state, what one
//! instruction and one cycle do to it, what a cycle publishes, and how
//! inbound messages change it.
use vstd::prelude::*;

use crate::command::{
    is_audio, is_clear, is_draw, is_memory_snapshot, is_pixel_snapshot, AudioCommand, Command,
    DisplayCommand, KeyCommand, MemoryCommand,
};
use crate::constants::{FONT_ADDR, ROM_ADDR};
use crate::opcode::{decode, decode_is_deterministic, Opcode, OpcodeType, Operation};
use crate::sprite::{
    cell_index, draw_collides, draw_twice_restores, drawn_pixels, second_draw_collides, sprite_bit,
};

verus! {

/// Why execution stopped.
#[derive(Clone, Copy, Debug, PartialEq, Eq, Structural)]
pub enum FaultKind {
    /// An undefined instruction, or an operation with operands it has no rule for.
    UndefinedInstruction,
    /// A call with all sixteen stack slots in use.
    StackOverflow,
    /// A return with an empty stack.
    StackUnderflow,
}

/// A fatal fault, with the instruction word and the address it was fetched from.
#[derive(Clone, Copy, Debug, PartialEq, Eq, Structural)]
pub struct EmulationError {
    pub kind: FaultKind,
    pub instruction: u16,
    pub address: u16,
}

/// The engine's state as the instruction set sees it.
pub struct EngineState {
    pub v: Seq<u8>,
    pub i: u16,
    pub pc: u16,
    pub sp: u8,
    pub stack: Seq<u16>,
    pub delay_timer: u8,
    pub sound_timer: u8,
    pub key_wait: bool,
    pub reg_wait: usize,
    pub draw_flag: bool,
    pub keys: Seq<bool>,
    pub pixels: Seq<bool>,
    pub memory: Seq<u8>,
}

impl EngineState {
    /// Sizes of the register file, stack, keypad, frame buffer and memory;
    /// addresses, return addresses included, within the 4 KB space; stack
    /// depth at most sixteen.
    pub open spec fn wf(self) -> bool {
        &&& self.v.len() == 16
        &&& self.stack.len() == 16
        &&& forall|k: int| 0 <= k < 16 ==> #[trigger] self.stack[k] < 4096
        &&& self.keys.len() == 16
        &&& self.pixels.len() == 2048
        &&& self.memory.len() == 4096
        &&& self.pc < 4096
        &&& self.i < 4096
        &&& self.sp <= 16
        &&& self.reg_wait < 16
    }
}

/// `s` with register `x` set to `val`.
pub open spec fn set_reg(s: EngineState, x: int, val: u8) -> EngineState {
    EngineState { v: s.v.update(x, val), ..s }
}

/// `s` with register `x` set to `val`, then register 15 set to the flag.
pub open spec fn set_reg_flag(s: EngineState, x: int, val: u8, flag: bool) -> EngineState {
    set_reg(set_reg(s, x, val), 15, if flag { 1u8 } else { 0u8 })
}

/// `s` with the next instruction skipped when `cond` holds.
pub open spec fn skip_if(s: EngineState, cond: bool) -> EngineState {
    if cond {
        EngineState { pc: ((s.pc + 2) % 4096) as u16, ..s }
    } else {
        s
    }
}

/// Memory with registers 0..=x stored from address `base` on.
pub open spec fn stored_registers(memory: Seq<u8>, v: Seq<u8>, base: int, x: int) -> Seq<u8> {
    Seq::new(
        memory.len(),
        |a: int|
            if (a - base) % 4096 <= x {
                v[(a - base) % 4096]
            } else {
                memory[a]
            },
    )
}

/// Registers 0..=x loaded from memory at address `base` on.
pub open spec fn loaded_registers(memory: Seq<u8>, v: Seq<u8>, base: int, x: int) -> Seq<u8> {
    Seq::new(v.len(), |k: int| if k <= x { memory[(base + k) % 4096] } else { v[k] })
}

/// The effect of one decoded instruction on the state; `rnd` is the random
/// byte that `RND` masks. The program counter has already moved past the
/// instruction.
pub open spec fn execute(s: EngineState, op: Opcode, rnd: u8) -> Result<EngineState, FaultKind> {
    match op {
        Opcode(Operation::CLS, OpcodeType::NONE) => Ok(EngineState { draw_flag: true, ..s }),
        Opcode(Operation::RET, OpcodeType::NONE) => if s.sp == 0 {
            Err(FaultKind::StackUnderflow)
        } else {
            Ok(EngineState { sp: (s.sp - 1) as u8, pc: s.stack[s.sp - 1], ..s })
        },
        Opcode(Operation::JP, OpcodeType::NNN(a)) => Ok(EngineState { pc: a, ..s }),
        Opcode(Operation::JP, OpcodeType::V0_NNN(a)) => Ok(
            EngineState { pc: ((s.v[0] + a) % 4096) as u16, ..s },
        ),
        Opcode(Operation::CALL, OpcodeType::NNN(a)) => if s.sp >= 16 {
            Err(FaultKind::StackOverflow)
        } else {
            Ok(EngineState { stack: s.stack.update(s.sp as int, s.pc), sp: (s.sp + 1) as u8, pc: a, ..s })
        },
        Opcode(Operation::SE, OpcodeType::XNN(x, nn)) => Ok(skip_if(s, s.v[x as int] == nn)),
        Opcode(Operation::SE, OpcodeType::XY(x, y)) => Ok(skip_if(s, s.v[x as int] == s.v[y as int])),
        Opcode(Operation::SNE, OpcodeType::XNN(x, nn)) => Ok(skip_if(s, s.v[x as int] != nn)),
        Opcode(Operation::SNE, OpcodeType::XY(x, y)) => Ok(skip_if(s, s.v[x as int] != s.v[y as int])),
        Opcode(Operation::LD, OpcodeType::XNN(x, nn)) => Ok(set_reg(s, x as int, nn as u8)),
        Opcode(Operation::LD, OpcodeType::XY(x, y)) => Ok(set_reg(s, x as int, s.v[y as int])),
        Opcode(Operation::LD, OpcodeType::I_NNN(a)) => Ok(EngineState { i: a, ..s }),
        Opcode(Operation::LD, OpcodeType::X_DT(x)) => Ok(set_reg(s, x as int, s.delay_timer)),
        Opcode(Operation::LD, OpcodeType::X_K(x)) => Ok(EngineState { key_wait: true, reg_wait: x as usize, ..s }),
        Opcode(Operation::LD, OpcodeType::DT_X(x)) => Ok(EngineState { delay_timer: s.v[x as int], ..s }),
        Opcode(Operation::LD, OpcodeType::ST_X(x)) => Ok(EngineState { sound_timer: s.v[x as int], ..s }),
        Opcode(Operation::LD, OpcodeType::F_X(x)) => Ok(
            EngineState { i: (FONT_ADDR + 5 * s.v[x as int]) as u16, ..s },
        ),
        Opcode(Operation::LD, OpcodeType::B_X(x)) => Ok(
            EngineState {
                memory: s.memory.update(s.i as int, s.v[x as int] / 100).update(
                    (s.i + 1) % 4096,
                    ((s.v[x as int] / 10) % 10) as u8,
                ).update((s.i + 2) % 4096, s.v[x as int] % 10),
                ..s
            },
        ),
        Opcode(Operation::LD, OpcodeType::RI_X(x)) => Ok(
            EngineState { memory: stored_registers(s.memory, s.v, s.i as int, x as int), ..s },
        ),
        Opcode(Operation::LD, OpcodeType::X_RI(x)) => Ok(
            EngineState { v: loaded_registers(s.memory, s.v, s.i as int, x as int), ..s },
        ),
        Opcode(Operation::ADD, OpcodeType::XNN(x, nn)) => Ok(
            set_reg(s, x as int, ((s.v[x as int] + nn) % 256) as u8),
        ),
        Opcode(Operation::ADD, OpcodeType::I_X(x)) => Ok(
            EngineState { i: ((s.i + s.v[x as int]) % 4096) as u16, ..s },
        ),
        Opcode(Operation::ADD, OpcodeType::XY(x, y)) => Ok(
            set_reg_flag(
                s,
                x as int,
                ((s.v[x as int] + s.v[y as int]) % 256) as u8,
                s.v[x as int] + s.v[y as int] >= 256,
            ),
        ),
        Opcode(Operation::OR, OpcodeType::XY(x, y)) => Ok(set_reg(s, x as int, s.v[x as int] | s.v[y as int])),
        Opcode(Operation::AND, OpcodeType::XY(x, y)) => Ok(set_reg(s, x as int, s.v[x as int] & s.v[y as int])),
        Opcode(Operation::XOR, OpcodeType::XY(x, y)) => Ok(set_reg(s, x as int, s.v[x as int] ^ s.v[y as int])),
        Opcode(Operation::SUB, OpcodeType::XY(x, y)) => Ok(
            set_reg_flag(
                s,
                x as int,
                ((s.v[x as int] + 256 - s.v[y as int]) % 256) as u8,
                s.v[x as int] >= s.v[y as int],
            ),
        ),
        Opcode(Operation::SUBN, OpcodeType::XY(x, y)) => Ok(
            set_reg_flag(
                s,
                x as int,
                ((s.v[y as int] + 256 - s.v[x as int]) % 256) as u8,
                s.v[y as int] >= s.v[x as int],
            ),
        ),
        Opcode(Operation::SHR, OpcodeType::X(x)) => Ok(
            set_reg_flag(s, x as int, s.v[x as int] / 2, s.v[x as int] % 2 == 1),
        ),
        Opcode(Operation::SHL, OpcodeType::X(x)) => Ok(
            set_reg_flag(s, x as int, ((s.v[x as int] * 2) % 256) as u8, s.v[x as int] >= 128),
        ),
        Opcode(Operation::RND, OpcodeType::XNN(x, nn)) => Ok(set_reg(s, x as int, rnd & (nn as u8))),
        Opcode(Operation::DRW, OpcodeType::XYN(x, y, n)) => {
            let x0 = s.v[x as int] as int;
            let y0 = s.v[y as int] as int;
            let drawn = EngineState {
                pixels: drawn_pixels(s.pixels, s.memory, s.i as int, x0, y0, n as int),
                draw_flag: s.draw_flag || n > 0,
                ..s
            };
            Ok(
                set_reg(
                    drawn,
                    15,
                    if draw_collides(s.pixels, s.memory, s.i as int, x0, y0, n as int) {
                        1u8
                    } else {
                        0u8
                    },
                ),
            )
        },
        Opcode(Operation::SKP, OpcodeType::X(x)) => Ok(skip_if(s, s.keys[(s.v[x as int] % 16) as int])),
        Opcode(Operation::SKNP, OpcodeType::X(x)) => Ok(skip_if(s, !s.keys[(s.v[x as int] % 16) as int])),
        _ => Err(FaultKind::UndefinedInstruction),
    }
}

/// The instruction word at the program counter, most significant byte first.
pub open spec fn fetch(s: EngineState) -> u16 {
    (s.memory[s.pc as int] * 256 + s.memory[(s.pc + 1) % 4096]) as u16
}

/// Fetch, advance the program counter by one instruction, decode, execute.
pub open spec fn executed(s: EngineState, rnd: u8) -> Result<EngineState, EmulationError> {
    let w = fetch(s);
    let advanced = EngineState { pc: ((s.pc + 2) % 4096) as u16, ..s };
    match execute(advanced, decode(w), rnd) {
        Ok(t) => Ok(t),
        Err(kind) => Err(EmulationError { kind, instruction: w, address: s.pc }),
    }
}

/// The end of a cycle: both timers count down unless at zero, and the
/// repaint request is handed out.
pub open spec fn ticked(s: EngineState) -> EngineState {
    EngineState {
        delay_timer: if s.delay_timer > 0 { (s.delay_timer - 1) as u8 } else { 0 },
        sound_timer: if s.sound_timer > 0 { (s.sound_timer - 1) as u8 } else { 0 },
        draw_flag: false,
        ..s
    }
}

/// One cycle: nothing while waiting for a key; otherwise one instruction and
/// one timer tick, or the fault that stops the run.
pub open spec fn cycle(s: EngineState, rnd: u8) -> Result<EngineState, EmulationError> {
    if s.key_wait {
        Ok(s)
    } else {
        match executed(s, rnd) {
            Ok(t) => Ok(ticked(t)),
            Err(e) => Err(e),
        }
    }
}

/// The audio command a cycle ends with: on while the sound timer is still
/// running, off once it is at zero.
pub open spec fn audio_for(s: EngineState) -> AudioCommand {
    if s.sound_timer > 0 {
        AudioCommand::Play
    } else {
        AudioCommand::Pause
    }
}

/// What a cycle from state `s` publishes: nothing while waiting for a key or
/// on a fault; otherwise the screen-clear request of a `CLS`, one audio
/// command, the frame buffer, the memory, and a repaint request when the
/// instruction drew.
pub open spec fn cycle_output(s: EngineState, rnd: u8, out: Seq<Command>) -> bool {
    if s.key_wait {
        out.len() == 0
    } else {
        match executed(s, rnd) {
            Err(_) => out.len() == 0,
            Ok(t) => {
                let e = ticked(t);
                let k: int = if decode(fetch(s)) == Opcode(Operation::CLS, OpcodeType::NONE) { 1 } else { 0 };
                &&& out.len() == k + 3 + (if t.draw_flag { 1int } else { 0int })
                &&& k == 1 ==> is_clear(out[0])
                &&& is_audio(out[k], audio_for(e))
                &&& is_pixel_snapshot(out[k + 1], e.pixels)
                &&& is_memory_snapshot(out[k + 2], e.memory)
                &&& t.draw_flag ==> is_draw(out[k + 3])
            },
        }
    }
}

/// The effect of one inbound message: a frame-buffer or memory snapshot
/// replaces the engine's copy; a key event sets the key's state, and a
/// key-down event while waiting for a key stores the key in the waiting
/// register and ends the wait. Key indices outside the keypad and other
/// messages change nothing.
pub open spec fn handle_command(s: EngineState, c: Command) -> EngineState {
    match c {
        Command::Display(DisplayCommand::SendPixels(p)) => EngineState { pixels: p@, ..s },
        Command::Memory(MemoryCommand::SendRAM(m)) => EngineState { memory: m@, ..s },
        Command::Key(KeyCommand::KeyDownUp(k, down)) => if k < 16 {
            let pressed = EngineState { keys: s.keys.update(k as int, down), ..s };
            if s.key_wait && down {
                EngineState { key_wait: false, v: s.v.update(s.reg_wait as int, k as u8), ..pressed }
            } else {
                pressed
            }
        } else {
            s
        },
        _ => s,
    }
}

/// The effect of a sequence of inbound messages, in order.
pub open spec fn handle_all(s: EngineState, cs: Seq<Command>) -> EngineState
    decreases cs.len(),
{
    if cs.len() == 0 {
        s
    } else {
        handle_command(handle_all(s, cs.drop_last()), cs.last())
    }
}

/// The two values that `SE` and `SNE` compare: a register and an immediate,
/// or two registers.
pub open spec fn operand_pair(s: EngineState, t: OpcodeType) -> Option<(u16, u16)> {
    match t {
        OpcodeType::XNN(x, nn) => Some((s.v[x as int] as u16, nn)),
        OpcodeType::XY(x, y) => Some((s.v[x as int] as u16, s.v[y as int] as u16)),
        _ => None,
    }
}

/// A step that either succeeded with the state `expected` gives, or failed
/// with its fault and left the state as it was.
pub open spec fn outcome_matches(
    before: EngineState,
    after: EngineState,
    r: Result<(), FaultKind>,
    expected: Result<EngineState, FaultKind>,
) -> bool {
    match expected {
        Ok(t) => r is Ok && after == t,
        Err(k) => r == Err::<(), FaultKind>(k) && after == before,
    }
}

/// Address `base + k` within the 4 KB space is at offset `k` from `base`,
/// and no other address is.
pub proof fn lemma_offset(base: int, k: int, a: int)
    requires
        0 <= base < 4096,
        0 <= k < 4096,
        0 <= a < 4096,
    ensures
        ((base + k) % 4096 - base) % 4096 == k,
        (a - base) % 4096 == k ==> a == (base + k) % 4096,
{
    let q = (base + k) % 4096;
    assert((q - base) % 4096 == k) by (nonlinear_arith)
        requires
            q == (base + k) % 4096,
            0 <= k < 4096,
            0 <= base,
    ;
    assert((a - base) % 4096 == k ==> a == q) by (nonlinear_arith)
        requires
            q == (base + k) % 4096,
            0 <= a < 4096,
            0 <= base < 4096,
    ;
}

/// How many of the messages in `out` are the audio command `a`.
pub open spec fn count_audio(out: Seq<Command>, a: AudioCommand) -> nat
    decreases out.len(),
{
    if out.len() == 0 {
        0
    } else {
        count_audio(out.drop_last(), a) + if is_audio(out.last(), a) { 1nat } else { 0nat }
    }
}

/// A sequence with no audio message `a` counts none.
proof fn lemma_count_none(out: Seq<Command>, a: AudioCommand)
    requires
        forall|i: int| 0 <= i < out.len() ==> !is_audio(#[trigger] out[i], a),
    ensures
        count_audio(out, a) == 0,
    decreases out.len(),
{
    if out.len() > 0 {
        lemma_count_none(out.drop_last(), a);
    }
}

/// A sequence whose only audio message stands at `j` counts that one.
proof fn lemma_count_single(out: Seq<Command>, j: int, a: AudioCommand)
    requires
        0 <= j < out.len(),
        forall|i: int| 0 <= i < out.len() && i != j ==> !is_audio(#[trigger] out[i], a),
    ensures
        count_audio(out, a) == if is_audio(out[j], a) { 1nat } else { 0nat },
    decreases out.len(),
{
    if j == out.len() - 1 {
        lemma_count_none(out.drop_last(), a);
    } else {
        lemma_count_single(out.drop_last(), j, a);
    }
}

/// Each cycle that runs an instruction publishes exactly one audio command:
/// `Play` if the sound timer is still running at the end of the cycle,
/// `Pause` if it is at zero; so the cycle in which the timer goes from 1 to
/// 0 publishes one `Pause` and no `Play`.
pub proof fn sound_timer_drives_audio(s: EngineState, rnd: u8, out: Seq<Command>)
    requires
        s.wf(),
        !s.key_wait,
        executed(s, rnd) is Ok,
        cycle_output(s, rnd, out),
    ensures
        ({
            let t = executed(s, rnd)->Ok_0;
            let e = ticked(t);
            &&& e.sound_timer > 0 ==> count_audio(out, AudioCommand::Play) == 1 && count_audio(out, AudioCommand::Pause) == 0
            &&& e.sound_timer == 0 ==> count_audio(out, AudioCommand::Pause) == 1 && count_audio(out, AudioCommand::Play) == 0
            &&& t.sound_timer == 1 ==> e.sound_timer == 0
        }),
{
    let t = executed(s, rnd)->Ok_0;
    let k: int = if decode(fetch(s)) == Opcode(Operation::CLS, OpcodeType::NONE) { 1 } else { 0 };
    assert forall|i: int, a: AudioCommand| 0 <= i < out.len() && i != k implies !#[trigger] is_audio(out[i], a) by {
        if i == 0 && k == 1 {
            assert(is_clear(out[i]));
        } else if i == k + 1 {
            assert(is_pixel_snapshot(out[i], ticked(t).pixels));
        } else if i == k + 2 {
            assert(is_memory_snapshot(out[i], ticked(t).memory));
        } else {
            assert(t.draw_flag && i == k + 3);
            assert(is_draw(out[i]));
        }
    }
    lemma_count_single(out, k, AudioCommand::Play);
    lemma_count_single(out, k, AudioCommand::Pause);
}

/// `LD Vx, K` suspends the engine: the cycle that runs it leaves the latch
/// set with the program counter past it, and from then on every cycle changes
/// nothing and publishes nothing, and key releases keep the latch. A key-down
/// event for key `k` stores `k` in `Vx` and releases the latch without moving
/// the program counter, so the next cycle fetches and executes again.
pub proof fn key_wait_suspends_until_key_down(s: EngineState, x: u16, rnd: u8, later: u8, k: usize)
    requires
        s.wf(),
        !s.key_wait,
        decode(fetch(s)) == Opcode(Operation::LD, OpcodeType::X_K(x)),
        k < 16,
    ensures
        cycle(s, rnd) is Ok,
        ({
            let waiting = cycle(s, rnd)->Ok_0;
            let released = handle_command(waiting, Command::Key(KeyCommand::KeyDownUp(k, false)));
            let resumed = handle_command(waiting, Command::Key(KeyCommand::KeyDownUp(k, true)));
            &&& waiting.key_wait
            &&& waiting.reg_wait == x
            &&& waiting.pc == (s.pc + 2) % 4096
            &&& cycle(waiting, later) == Ok::<EngineState, EmulationError>(waiting)
            &&& forall|out: Seq<Command>| cycle_output(waiting, later, out) <==> out.len() == 0
            &&& released.key_wait
            &&& released.pc == waiting.pc
            &&& !resumed.key_wait
            &&& resumed.v[x as int] == k
            &&& resumed.pc == waiting.pc
            &&& cycle(resumed, later) == match executed(resumed, later) {
                Ok(t) => Ok(ticked(t)),
                Err(e) => Err(e),
            }
        }),
{
    decode_is_deterministic(fetch(s), fetch(s));
}

/// The state of a freshly made engine.
pub open spec fn initial_state() -> EngineState {
    EngineState {
        v: Seq::new(16, |k: int| 0u8),
        i: 0,
        pc: ROM_ADDR as u16,
        sp: 0,
        stack: Seq::new(16, |k: int| 0u16),
        delay_timer: 0,
        sound_timer: 0,
        key_wait: false,
        reg_wait: 0,
        draw_flag: false,
        keys: Seq::new(16, |k: int| false),
        pixels: Seq::new(2048, |k: int| false),
        memory: Seq::new(4096, |k: int| 0u8),
    }
}

/// Drawing the same sprite twice at the same place with `DRW Vx, Vy, n`
/// leaves the frame buffer as it was, and the second draw sets register 15
/// to 1 when the sprite has a set bit over a pixel that was off (so always
/// for a sprite with a set bit on a clear screen). Register 15 must hold
/// neither coordinate, since the first draw overwrites it.
pub proof fn drawing_twice_restores_and_collides(s: EngineState, x: u16, y: u16, n: u16, row: int, col: int)
    requires
        s.wf(),
        x < 15,
        y < 15,
        n < 16,
        0 <= row < n,
        0 <= col < 8,
        sprite_bit(s.memory, s.i as int, row, col),
        !s.pixels[cell_index(s.v[x as int] as int, s.v[y as int] as int, row, col)],
    ensures
        execute(s, Opcode(Operation::DRW, OpcodeType::XYN(x, y, n)), 0) is Ok,
        ({
            let once = execute(s, Opcode(Operation::DRW, OpcodeType::XYN(x, y, n)), 0)->Ok_0;
            let twice = execute(once, Opcode(Operation::DRW, OpcodeType::XYN(x, y, n)), 0);
            &&& twice is Ok
            &&& twice->Ok_0.pixels == s.pixels
            &&& twice->Ok_0.v[15] == 1
        }),
{
    let x0 = s.v[x as int] as int;
    let y0 = s.v[y as int] as int;
    let once = execute(s, Opcode(Operation::DRW, OpcodeType::XYN(x, y, n)), 0)->Ok_0;
    assert(once.v[x as int] == s.v[x as int] && once.v[y as int] == s.v[y as int]);
    draw_twice_restores(s.pixels, s.memory, s.i as int, x0, y0, n as int);
    second_draw_collides(s.pixels, s.memory, s.i as int, x0, y0, n as int, row, col);
}

} // verus!
