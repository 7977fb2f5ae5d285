use chip8::opcode::OpcodeType::{I_NNN, NNN, NONE, V0_NNN, DT_X, X, XNN, XY};
use chip8::opcode::Operation::{AND, CLS, DRW, JP, LD, RET, RND, SE, SHR, SYS, UNDEFINED};
use chip8::opcode::{disassemble_program, Opcode, OpcodeDisassembler, OpcodeType};

#[test]
fn opcode_display() {
    assert_eq!("CLS", Opcode(CLS, NONE).to_string());
    assert_eq!("JP 0x12a", Opcode(JP, NNN(0x12a)).to_string());
    assert_eq!("JP 0x0b2", Opcode(JP, NNN(0xb2)).to_string());
    assert_eq!("SE V0, 15", Opcode(SE, XNN(0, 15)).to_string());
    assert_eq!("AND Va, V3", Opcode(AND, XY(0xa, 0x3)).to_string());
    assert_eq!("SHR V2", Opcode(SHR, X(2)).to_string());
    assert_eq!("UNDEFINED", Opcode(UNDEFINED, NONE).to_string());
    assert_eq!("LD I, 0x00c", Opcode(LD, I_NNN(0xc)).to_string());
    assert_eq!("JP V0, 0xf3d", Opcode(JP, V0_NNN(0xf3d)).to_string());
}

#[test]
fn opcode_disassemble() {
    assert_eq!(Opcode(CLS, NONE), OpcodeDisassembler::disassemble(0x00e0));
    assert_eq!(Opcode(RET, NONE), OpcodeDisassembler::disassemble(0x00ee));
    assert_eq!(Opcode(SYS, NNN(0xE1)), OpcodeDisassembler::disassemble(0x00e1));
    assert_eq!(Opcode(SE, XY(2, 0xb)), OpcodeDisassembler::disassemble(0x52b0));
    assert_eq!(Opcode(RND, XNN(6, 0x3a)), OpcodeDisassembler::disassemble(0xc63a));
    assert_eq!(Opcode(LD, DT_X(4)), OpcodeDisassembler::disassemble(0xf415));
    assert_eq!(Opcode(UNDEFINED, NONE), OpcodeDisassembler::disassemble(0x800a));
}

#[test]
fn decode_every_word_twice_gives_the_same_result() {
    for w in 0..=u16::MAX {
        let first = OpcodeDisassembler::disassemble(w);
        let second = OpcodeDisassembler::disassemble(w);
        assert_eq!(first, second);
    }
}

#[test]
fn decode_families() {
    assert_eq!(Opcode(DRW, OpcodeType::XYN(1, 2, 5)), OpcodeDisassembler::disassemble(0xd125));
    assert_eq!(Opcode(LD, OpcodeType::X_K(3)), OpcodeDisassembler::disassemble(0xf30a));
    assert_eq!(Opcode(chip8::opcode::Operation::SHL, X(7)), OpcodeDisassembler::disassemble(0x87fe));
    assert_eq!(Opcode(UNDEFINED, NONE), OpcodeDisassembler::disassemble(0x5121));
    assert_eq!(Opcode(UNDEFINED, NONE), OpcodeDisassembler::disassemble(0xe1ff));
    assert_eq!(Opcode(UNDEFINED, NONE), OpcodeDisassembler::disassemble(0xf1ff));
    assert_eq!(Opcode(UNDEFINED, NONE), OpcodeDisassembler::disassemble(0x9121));
}

#[test]
fn display_of_other_operand_shapes() {
    assert_eq!("DRW V1, V2, 5", Opcode(DRW, OpcodeType::XYN(1, 2, 5)).to_string());
    assert_eq!("LD Vf, K", Opcode(LD, OpcodeType::X_K(15)).to_string());
    assert_eq!("LD [I], V4", Opcode(LD, OpcodeType::RI_X(4)).to_string());
    assert_eq!("RND V6, 255", Opcode(RND, XNN(6, 255)).to_string());
    assert_eq!("SYS 0xfff", Opcode(SYS, NNN(0xfff)).to_string());
}

#[test]
fn listing_of_a_program() {
    let lines = disassemble_program(&[0x00, 0xe0, 0x12, 0x2a, 0x01]);
    assert_eq!(lines.len(), 2);
    assert_eq!(lines[0], (0x200, 0x00e0, Opcode(CLS, NONE)));
    assert_eq!(lines[1], (0x202, 0x122a, Opcode(JP, NNN(0x22a))));
    assert_eq!("JP 0x22a", lines[1].2.to_string());
}
