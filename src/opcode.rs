//! The instruction decoder.
use vstd::prelude::*;

use crate::constants::{MAX_ROM_BYTES, ROM_ADDR};

verus! {

/// The operands that an instruction carries, named after the nibbles they
/// come from (`X`, `Y` register indices, `N`, `NN`, `NNN` immediates).
#[allow(non_camel_case_types)]
#[derive(Clone, Copy, Debug, PartialEq, Eq, Structural)]
pub enum OpcodeType {
    /// exact match, no operands
    NONE,
    /// address nnn
    NNN(u16),
    /// Vx, value nn
    XNN(u16, u16),
    /// Vx, Vy
    XY(u16, u16),
    /// Vx, Vy, value n
    XYN(u16, u16, u16),
    /// Vx
    X(u16),
    /// I, Vx
    I_X(u16),
    /// I, nnn
    I_NNN(u16),
    /// V0, nnn
    V0_NNN(u16),
    /// Vx, K
    X_K(u16),
    /// DT, Vx
    DT_X(u16),
    /// Vx, DT
    X_DT(u16),
    /// F, Vx
    F_X(u16),
    /// B, Vx
    B_X(u16),
    /// ST, Vx
    ST_X(u16),
    /// [I], Vx
    RI_X(u16),
    /// Vx, [I]
    X_RI(u16),
}

/// The operation of an instruction.
#[derive(Clone, Copy, Debug, PartialEq, Eq, Structural)]
pub enum Operation {
    SYS,
    CLS,
    RET,
    JP,
    CALL,
    SE,
    SNE,
    LD,
    ADD,
    OR,
    AND,
    XOR,
    SUB,
    SHR,
    SUBN,
    SHL,
    RND,
    DRW,
    SKP,
    SKNP,
    UNDEFINED,
}

/// A decoded instruction: its operation and its operands.
#[derive(Clone, Copy, Debug, PartialEq, Eq, Structural)]
pub struct Opcode(pub Operation, pub OpcodeType);

/// Operands that an instruction can hold: register indices below 16,
/// addresses below 4096, bytes below 256 and nibbles below 16.
pub open spec fn operands_fit(t: OpcodeType) -> bool {
    match t {
        OpcodeType::NONE => true,
        OpcodeType::NNN(a) | OpcodeType::I_NNN(a) | OpcodeType::V0_NNN(a) => a < 4096,
        OpcodeType::XNN(x, nn) => x < 16 && nn < 256,
        OpcodeType::XY(x, y) => x < 16 && y < 16,
        OpcodeType::XYN(x, y, n) => x < 16 && y < 16 && n < 16,
        OpcodeType::X(x) | OpcodeType::I_X(x) | OpcodeType::X_K(x) | OpcodeType::DT_X(x)
        | OpcodeType::X_DT(x) | OpcodeType::F_X(x) | OpcodeType::B_X(x) | OpcodeType::ST_X(x)
        | OpcodeType::RI_X(x) | OpcodeType::X_RI(x) => x < 16,
    }
}

/// The instruction set: what each 16-bit word decodes to.
///
/// The two exact words (clear screen, return) are matched first; then the top
/// nibble selects the family, and within families 0x5, 0x8, 0x9, 0xE and 0xF
/// the low nibble or low byte selects the operation. Every other word is
/// `UNDEFINED`.
pub open spec fn decode(w: u16) -> Opcode {
    let u = w / 4096;
    let nnn = (w % 4096) as u16;
    let nn = (w % 256) as u16;
    let n = (w % 16) as u16;
    let x = ((w / 256) % 16) as u16;
    let y = ((w / 16) % 16) as u16;
    if w == 0x00E0 {
        Opcode(Operation::CLS, OpcodeType::NONE)
    } else if w == 0x00EE {
        Opcode(Operation::RET, OpcodeType::NONE)
    } else if u == 0x0 {
        Opcode(Operation::SYS, OpcodeType::NNN(nnn))
    } else if u == 0x1 {
        Opcode(Operation::JP, OpcodeType::NNN(nnn))
    } else if u == 0x2 {
        Opcode(Operation::CALL, OpcodeType::NNN(nnn))
    } else if u == 0x3 {
        Opcode(Operation::SE, OpcodeType::XNN(x, nn))
    } else if u == 0x4 {
        Opcode(Operation::SNE, OpcodeType::XNN(x, nn))
    } else if u == 0x5 && n == 0 {
        Opcode(Operation::SE, OpcodeType::XY(x, y))
    } else if u == 0x6 {
        Opcode(Operation::LD, OpcodeType::XNN(x, nn))
    } else if u == 0x7 {
        Opcode(Operation::ADD, OpcodeType::XNN(x, nn))
    } else if u == 0x8 && n == 0x0 {
        Opcode(Operation::LD, OpcodeType::XY(x, y))
    } else if u == 0x8 && n == 0x1 {
        Opcode(Operation::OR, OpcodeType::XY(x, y))
    } else if u == 0x8 && n == 0x2 {
        Opcode(Operation::AND, OpcodeType::XY(x, y))
    } else if u == 0x8 && n == 0x3 {
        Opcode(Operation::XOR, OpcodeType::XY(x, y))
    } else if u == 0x8 && n == 0x4 {
        Opcode(Operation::ADD, OpcodeType::XY(x, y))
    } else if u == 0x8 && n == 0x5 {
        Opcode(Operation::SUB, OpcodeType::XY(x, y))
    } else if u == 0x8 && n == 0x6 {
        Opcode(Operation::SHR, OpcodeType::X(x))
    } else if u == 0x8 && n == 0x7 {
        Opcode(Operation::SUBN, OpcodeType::XY(x, y))
    } else if u == 0x8 && n == 0xE {
        Opcode(Operation::SHL, OpcodeType::X(x))
    } else if u == 0x9 && n == 0 {
        Opcode(Operation::SNE, OpcodeType::XY(x, y))
    } else if u == 0xA {
        Opcode(Operation::LD, OpcodeType::I_NNN(nnn))
    } else if u == 0xB {
        Opcode(Operation::JP, OpcodeType::V0_NNN(nnn))
    } else if u == 0xC {
        Opcode(Operation::RND, OpcodeType::XNN(x, nn))
    } else if u == 0xD {
        Opcode(Operation::DRW, OpcodeType::XYN(x, y, n))
    } else if u == 0xE && nn == 0x9E {
        Opcode(Operation::SKP, OpcodeType::X(x))
    } else if u == 0xE && nn == 0xA1 {
        Opcode(Operation::SKNP, OpcodeType::X(x))
    } else if u == 0xF && nn == 0x07 {
        Opcode(Operation::LD, OpcodeType::X_DT(x))
    } else if u == 0xF && nn == 0x0A {
        Opcode(Operation::LD, OpcodeType::X_K(x))
    } else if u == 0xF && nn == 0x15 {
        Opcode(Operation::LD, OpcodeType::DT_X(x))
    } else if u == 0xF && nn == 0x18 {
        Opcode(Operation::LD, OpcodeType::ST_X(x))
    } else if u == 0xF && nn == 0x1E {
        Opcode(Operation::ADD, OpcodeType::I_X(x))
    } else if u == 0xF && nn == 0x29 {
        Opcode(Operation::LD, OpcodeType::F_X(x))
    } else if u == 0xF && nn == 0x33 {
        Opcode(Operation::LD, OpcodeType::B_X(x))
    } else if u == 0xF && nn == 0x55 {
        Opcode(Operation::LD, OpcodeType::RI_X(x))
    } else if u == 0xF && nn == 0x65 {
        Opcode(Operation::LD, OpcodeType::X_RI(x))
    } else {
        Opcode(Operation::UNDEFINED, OpcodeType::NONE)
    }
}

/// Decoding is a function of the instruction word alone: the same word
/// always yields the same operation and operands, and those operands are
/// within the ranges that their nibbles allow.
pub proof fn decode_is_deterministic(a: u16, b: u16)
    requires
        a == b,
    ensures
        decode(a) == decode(b),
        operands_fit(decode(a).1),
{
}

/// Turns instruction words into decoded instructions.
pub struct OpcodeDisassembler;

impl OpcodeDisassembler {
    /// Decodes one instruction word. Total: every word decodes, the words of
    /// no defined pattern to `UNDEFINED`.
    pub fn disassemble(instruction: u16) -> (r: Opcode)
        ensures
            r == decode(instruction),
            operands_fit(r.1),
    {
        let u: u16 = instruction / 4096;
        let nnn: u16 = instruction % 4096;
        let nn: u16 = instruction % 256;
        let n: u16 = instruction % 16;
        let x: u16 = (instruction / 256) % 16;
        let y: u16 = (instruction / 16) % 16;

        match instruction {
            0x00E0 => Opcode(Operation::CLS, OpcodeType::NONE),
            0x00EE => Opcode(Operation::RET, OpcodeType::NONE),
            _ => match u {
                0x0 => Opcode(Operation::SYS, OpcodeType::NNN(nnn)),
                0x1 => Opcode(Operation::JP, OpcodeType::NNN(nnn)),
                0x2 => Opcode(Operation::CALL, OpcodeType::NNN(nnn)),
                0x3 => Opcode(Operation::SE, OpcodeType::XNN(x, nn)),
                0x4 => Opcode(Operation::SNE, OpcodeType::XNN(x, nn)),
                0x5 => match n {
                    0 => Opcode(Operation::SE, OpcodeType::XY(x, y)),
                    _ => Opcode(Operation::UNDEFINED, OpcodeType::NONE),
                },
                0x6 => Opcode(Operation::LD, OpcodeType::XNN(x, nn)),
                0x7 => Opcode(Operation::ADD, OpcodeType::XNN(x, nn)),
                0x8 => match n {
                    0x0 => Opcode(Operation::LD, OpcodeType::XY(x, y)),
                    0x1 => Opcode(Operation::OR, OpcodeType::XY(x, y)),
                    0x2 => Opcode(Operation::AND, OpcodeType::XY(x, y)),
                    0x3 => Opcode(Operation::XOR, OpcodeType::XY(x, y)),
                    0x4 => Opcode(Operation::ADD, OpcodeType::XY(x, y)),
                    0x5 => Opcode(Operation::SUB, OpcodeType::XY(x, y)),
                    0x6 => Opcode(Operation::SHR, OpcodeType::X(x)),
                    0x7 => Opcode(Operation::SUBN, OpcodeType::XY(x, y)),
                    0xE => Opcode(Operation::SHL, OpcodeType::X(x)),
                    _ => Opcode(Operation::UNDEFINED, OpcodeType::NONE),
                },
                0x9 => match n {
                    0 => Opcode(Operation::SNE, OpcodeType::XY(x, y)),
                    _ => Opcode(Operation::UNDEFINED, OpcodeType::NONE),
                },
                0xA => Opcode(Operation::LD, OpcodeType::I_NNN(nnn)),
                0xB => Opcode(Operation::JP, OpcodeType::V0_NNN(nnn)),
                0xC => Opcode(Operation::RND, OpcodeType::XNN(x, nn)),
                0xD => Opcode(Operation::DRW, OpcodeType::XYN(x, y, n)),
                0xE => match nn {
                    0x9E => Opcode(Operation::SKP, OpcodeType::X(x)),
                    0xA1 => Opcode(Operation::SKNP, OpcodeType::X(x)),
                    _ => Opcode(Operation::UNDEFINED, OpcodeType::NONE),
                },
                0xF => match nn {
                    0x07 => Opcode(Operation::LD, OpcodeType::X_DT(x)),
                    0x0A => Opcode(Operation::LD, OpcodeType::X_K(x)),
                    0x15 => Opcode(Operation::LD, OpcodeType::DT_X(x)),
                    0x18 => Opcode(Operation::LD, OpcodeType::ST_X(x)),
                    0x1E => Opcode(Operation::ADD, OpcodeType::I_X(x)),
                    0x29 => Opcode(Operation::LD, OpcodeType::F_X(x)),
                    0x33 => Opcode(Operation::LD, OpcodeType::B_X(x)),
                    0x55 => Opcode(Operation::LD, OpcodeType::RI_X(x)),
                    0x65 => Opcode(Operation::LD, OpcodeType::X_RI(x)),
                    _ => Opcode(Operation::UNDEFINED, OpcodeType::NONE),
                },
                _ => Opcode(Operation::UNDEFINED, OpcodeType::NONE),
            },
        }
    }
}

/// Relies on byteorder's `BigEndian::read_u16`: the two bytes read as one
/// integer, the first the more significant.
#[verifier::external_body]
pub(crate) fn read_be_u16(bytes: [u8; 2]) -> (r: u16)
    ensures
        r == bytes[0] * 256 + bytes[1],
{
    <byteorder::BigEndian as byteorder::ByteOrder>::read_u16(&bytes)
}

/// One line of a program listing: the address an instruction is loaded at,
/// its word, and what it decodes to.
pub open spec fn listing_line(rom: Seq<u8>, k: int) -> (usize, u16, Opcode) {
    let w = (rom[2 * k] * 256 + rom[2 * k + 1]) as u16;
    ((ROM_ADDR + 2 * k) as usize, w, decode(w))
}

/// Lists a program as it will be loaded: one line per whole instruction
/// word, in order; a trailing odd byte is not listed.
pub fn disassemble_program(rom_bytes: &[u8]) -> (r: Vec<(usize, u16, Opcode)>)
    requires
        rom_bytes@.len() <= MAX_ROM_BYTES,
    ensures
        r@.len() == rom_bytes@.len() / 2,
        forall|k: int| 0 <= k < r@.len() ==> #[trigger] r@[k] == listing_line(rom_bytes@, k),
{
    let mut lines: Vec<(usize, u16, Opcode)> = Vec::new();
    let count: usize = rom_bytes.len() / 2;
    let mut k: usize = 0;
    while k < count
        invariant
            count == rom_bytes@.len() / 2,
            rom_bytes@.len() <= MAX_ROM_BYTES,
            k <= count,
            lines@.len() == k,
            forall|j: int| 0 <= j < k ==> #[trigger] lines@[j] == listing_line(rom_bytes@, j),
        decreases count - k,
    {
        let instruction: u16 = read_be_u16([rom_bytes[2 * k], rom_bytes[2 * k + 1]]);
        lines.push((ROM_ADDR + 2 * k, instruction, OpcodeDisassembler::disassemble(instruction)));
        k = k + 1;
    }
    lines
}

} // verus!
