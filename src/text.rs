//! Assembly text of decoded instructions: `JP 0x12a`, `SE V0, 15`,
//! `AND Va, V3`. Addresses print as three hex digits after `0x`, registers
//! as `V` and a hex digit, other immediates in decimal.
use vstd::prelude::*;
use vstd::string::*;

use crate::opcode::{Opcode, OpcodeType, Operation};

verus! {

/// The digit for `d` (below 16), lower case.
pub open spec fn digit_char(d: int) -> char {
    if d == 0 { '0' }
    else if d == 1 { '1' }
    else if d == 2 { '2' }
    else if d == 3 { '3' }
    else if d == 4 { '4' }
    else if d == 5 { '5' }
    else if d == 6 { '6' }
    else if d == 7 { '7' }
    else if d == 8 { '8' }
    else if d == 9 { '9' }
    else if d == 10 { 'a' }
    else if d == 11 { 'b' }
    else if d == 12 { 'c' }
    else if d == 13 { 'd' }
    else if d == 14 { 'e' }
    else { 'f' }
}

/// `n` in hexadecimal, without leading zeros.
pub open spec fn hex_text(n: nat) -> Seq<char>
    decreases n,
{
    if n < 16 {
        seq![digit_char(n as int)]
    } else {
        hex_text(n / 16).push(digit_char((n % 16) as int))
    }
}

/// `n` in decimal, without leading zeros.
pub open spec fn dec_text(n: nat) -> Seq<char>
    decreases n,
{
    if n < 10 {
        seq![digit_char(n as int)]
    } else {
        dec_text(n / 10).push(digit_char((n % 10) as int))
    }
}

/// An address: `0x` and at least three hex digits.
pub open spec fn address_text(a: u16) -> Seq<char> {
    "0x"@ + (if a < 16 { "00"@ } else if a < 256 { "0"@ } else { ""@ }) + hex_text(a as nat)
}

/// A register: `V` and its index in hex.
pub open spec fn register_text(x: u16) -> Seq<char> {
    "V"@ + hex_text(x as nat)
}

/// The mnemonic of an operation.
pub open spec fn operation_text(op: Operation) -> Seq<char> {
    match op {
        Operation::SYS => "SYS"@,
        Operation::CLS => "CLS"@,
        Operation::RET => "RET"@,
        Operation::JP => "JP"@,
        Operation::CALL => "CALL"@,
        Operation::SE => "SE"@,
        Operation::SNE => "SNE"@,
        Operation::LD => "LD"@,
        Operation::ADD => "ADD"@,
        Operation::OR => "OR"@,
        Operation::AND => "AND"@,
        Operation::XOR => "XOR"@,
        Operation::SUB => "SUB"@,
        Operation::SHR => "SHR"@,
        Operation::SUBN => "SUBN"@,
        Operation::SHL => "SHL"@,
        Operation::RND => "RND"@,
        Operation::DRW => "DRW"@,
        Operation::SKP => "SKP"@,
        Operation::SKNP => "SKNP"@,
        Operation::UNDEFINED => "UNDEFINED"@,
    }
}

/// The operands, comma separated.
pub open spec fn operands_text(t: OpcodeType) -> Seq<char> {
    match t {
        OpcodeType::NONE => ""@,
        OpcodeType::NNN(a) => address_text(a),
        OpcodeType::XNN(x, nn) => register_text(x) + ", "@ + dec_text(nn as nat),
        OpcodeType::XY(x, y) => register_text(x) + ", "@ + register_text(y),
        OpcodeType::XYN(x, y, n) => register_text(x) + ", "@ + register_text(y) + ", "@ + dec_text(n as nat),
        OpcodeType::X(x) => register_text(x),
        OpcodeType::I_X(x) => "I, "@ + register_text(x),
        OpcodeType::I_NNN(a) => "I, "@ + address_text(a),
        OpcodeType::V0_NNN(a) => "V0, "@ + address_text(a),
        OpcodeType::X_K(x) => register_text(x) + ", K"@,
        OpcodeType::DT_X(x) => "DT, "@ + register_text(x),
        OpcodeType::X_DT(x) => register_text(x) + ", DT"@,
        OpcodeType::F_X(x) => "F, "@ + register_text(x),
        OpcodeType::B_X(x) => "B, "@ + register_text(x),
        OpcodeType::ST_X(x) => "ST, "@ + register_text(x),
        OpcodeType::RI_X(x) => "[I], "@ + register_text(x),
        OpcodeType::X_RI(x) => register_text(x) + ", [I]"@,
    }
}

/// An instruction's assembly text: the mnemonic, then a space and the
/// operands if it has any.
pub open spec fn opcode_text(o: Opcode) -> Seq<char> {
    match o.1 {
        OpcodeType::NONE => operation_text(o.0),
        _ => operation_text(o.0) + " "@ + operands_text(o.1),
    }
}

/// Relies on `String::push`: appends one character.
#[verifier::external_body]
pub(crate) fn push_char(s: &mut String, c: char)
    ensures
        final(s)@ == old(s)@.push(c),
{
    s.push(c)
}

fn digit(d: u16) -> (r: char)
    requires
        d < 16,
    ensures
        r == digit_char(d as int),
{
    match d {
        0 => '0',
        1 => '1',
        2 => '2',
        3 => '3',
        4 => '4',
        5 => '5',
        6 => '6',
        7 => '7',
        8 => '8',
        9 => '9',
        10 => 'a',
        11 => 'b',
        12 => 'c',
        13 => 'd',
        14 => 'e',
        _ => 'f',
    }
}

fn push_hex(s: &mut String, n: u16)
    ensures
        final(s)@ == old(s)@ + hex_text(n as nat),
    decreases n,
{
    if n >= 16 {
        push_hex(s, n / 16);
    }
    push_char(s, digit(n % 16));
    assert(final(s)@ =~= old(s)@ + hex_text(n as nat));
}

fn push_dec(s: &mut String, n: u16)
    ensures
        final(s)@ == old(s)@ + dec_text(n as nat),
    decreases n,
{
    if n >= 10 {
        push_dec(s, n / 10);
    }
    push_char(s, digit(n % 10));
    assert(final(s)@ =~= old(s)@ + dec_text(n as nat));
}

fn push_address(s: &mut String, a: u16)
    ensures
        final(s)@ == old(s)@ + address_text(a),
{
    s.append("0x");
    if a < 16 {
        s.append("00");
    } else if a < 256 {
        s.append("0");
    }
    push_hex(s, a);
    proof {
        reveal_strlit("");
    }
    assert(final(s)@ =~= old(s)@ + address_text(a));
}

fn push_register(s: &mut String, x: u16)
    ensures
        final(s)@ == old(s)@ + register_text(x),
{
    s.append("V");
    push_hex(s, x);
    assert(final(s)@ =~= old(s)@ + register_text(x));
}

fn operation_str(op: Operation) -> (r: &'static str)
    ensures
        r@ == operation_text(op),
{
    match op {
        Operation::SYS => "SYS",
        Operation::CLS => "CLS",
        Operation::RET => "RET",
        Operation::JP => "JP",
        Operation::CALL => "CALL",
        Operation::SE => "SE",
        Operation::SNE => "SNE",
        Operation::LD => "LD",
        Operation::ADD => "ADD",
        Operation::OR => "OR",
        Operation::AND => "AND",
        Operation::XOR => "XOR",
        Operation::SUB => "SUB",
        Operation::SHR => "SHR",
        Operation::SUBN => "SUBN",
        Operation::SHL => "SHL",
        Operation::RND => "RND",
        Operation::DRW => "DRW",
        Operation::SKP => "SKP",
        Operation::SKNP => "SKNP",
        Operation::UNDEFINED => "UNDEFINED",
    }
}

fn push_operands(s: &mut String, t: OpcodeType)
    ensures
        final(s)@ == old(s)@ + operands_text(t),
{
    match t {
        OpcodeType::NONE => {},
        OpcodeType::NNN(a) => push_address(s, a),
        OpcodeType::XNN(x, nn) => {
            push_register(s, x);
            s.append(", ");
            push_dec(s, nn);
        },
        OpcodeType::XY(x, y) => {
            push_register(s, x);
            s.append(", ");
            push_register(s, y);
        },
        OpcodeType::XYN(x, y, n) => {
            push_register(s, x);
            s.append(", ");
            push_register(s, y);
            s.append(", ");
            push_dec(s, n);
        },
        OpcodeType::X(x) => push_register(s, x),
        OpcodeType::I_X(x) => {
            s.append("I, ");
            push_register(s, x);
        },
        OpcodeType::I_NNN(a) => {
            s.append("I, ");
            push_address(s, a);
        },
        OpcodeType::V0_NNN(a) => {
            s.append("V0, ");
            push_address(s, a);
        },
        OpcodeType::X_K(x) => {
            push_register(s, x);
            s.append(", K");
        },
        OpcodeType::DT_X(x) => {
            s.append("DT, ");
            push_register(s, x);
        },
        OpcodeType::X_DT(x) => {
            push_register(s, x);
            s.append(", DT");
        },
        OpcodeType::F_X(x) => {
            s.append("F, ");
            push_register(s, x);
        },
        OpcodeType::B_X(x) => {
            s.append("B, ");
            push_register(s, x);
        },
        OpcodeType::ST_X(x) => {
            s.append("ST, ");
            push_register(s, x);
        },
        OpcodeType::RI_X(x) => {
            s.append("[I], ");
            push_register(s, x);
        },
        OpcodeType::X_RI(x) => {
            push_register(s, x);
            s.append(", [I]");
        },
    }
    proof {
        reveal_strlit("");
    }
    assert(final(s)@ =~= old(s)@ + operands_text(t));
}

impl Opcode {
    /// The instruction's assembly text (see `opcode_text`).
    pub fn to_string(&self) -> (r: String)
        ensures
            r@ == opcode_text(*self),
    {
        let mut s = String::from_str(operation_str(self.0));
        match self.1 {
            OpcodeType::NONE => {},
            _ => {
                s.append(" ");
                push_operands(&mut s, self.1);
                assert(s@ =~= opcode_text(*self));
            },
        }
        s
    }
}

} // verus!
