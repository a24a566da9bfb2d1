use yamos6502::mnemonics::get_opcode_string;
use yamos6502::{decode_insn, encode_insn, AddressMode, Insn};

#[test]
fn encode_after_decode_gives_the_opcode_back() {
    let mut valid = 0;
    for opcode in 0..=255u8 {
        let insn = decode_insn(opcode);
        if insn != Insn::JAM {
            assert_eq!(encode_insn(insn), opcode);
            valid += 1;
        }
    }
    assert_eq!(valid, 151);
}

#[test]
fn group_three_holds_no_instruction() {
    for opcode in 0..=255u8 {
        if opcode & 0b11 == 0b11 {
            assert_eq!(decode_insn(opcode), Insn::JAM);
            assert!(!decode_insn(opcode).is_valid());
        }
    }
}

#[test]
fn decode_gives_known_instructions() {
    assert_eq!(decode_insn(0x00), Insn::BRK);
    assert_eq!(decode_insn(0xa9), Insn::LDA(AddressMode::Immediate));
    assert_eq!(decode_insn(0xa1), Insn::LDA(AddressMode::Xindirect));
    assert_eq!(decode_insn(0x6c), Insn::JMP(AddressMode::Indirect));
    assert_eq!(decode_insn(0x0a), Insn::ASLA);
    assert_eq!(decode_insn(0x0e), Insn::ASL(AddressMode::Absolute));
    assert_eq!(decode_insn(0x96), Insn::STX(AddressMode::ZeropageY));
    assert_eq!(decode_insn(0xbe), Insn::LDX(AddressMode::AbsoluteY));
    assert_eq!(decode_insn(0xea), Insn::NOP);
    assert_eq!(decode_insn(0x89), Insn::JAM);
    assert_eq!(decode_insn(0x9e), Insn::JAM);
    assert_eq!(decode_insn(0x02), Insn::JAM);
    assert_eq!(decode_insn(0xff), Insn::JAM);
}

#[test]
fn encode_gives_known_opcodes() {
    assert_eq!(encode_insn(Insn::LDA(AddressMode::Immediate)), 0xa9);
    assert_eq!(encode_insn(Insn::STA(AddressMode::AbsoluteY)), 0x99);
    assert_eq!(encode_insn(Insn::RTS), 0x60);
    assert_eq!(encode_insn(Insn::BNE(AddressMode::Relative)), 0xd0);
}

#[test]
fn encode_gives_ff_for_what_is_no_instruction() {
    assert_eq!(encode_insn(Insn::JAM), 0xff);
    assert_eq!(encode_insn(Insn::STA(AddressMode::Immediate)), 0xff);
    assert_eq!(encode_insn(Insn::LDA(AddressMode::Relative)), 0xff);
    assert_eq!(encode_insn(Insn::JMP(AddressMode::Zeropage)), 0xff);
}

#[test]
fn is_valid_is_false_for_jam_only() {
    assert!(!Insn::JAM.is_valid());
    assert!(Insn::NOP.is_valid());
    assert!(Insn::LDA(AddressMode::Absolute).is_valid());
}

#[test]
fn opcode_strings_name_the_instruction() {
    assert_eq!(get_opcode_string(0x00), "BRK");
    assert_eq!(get_opcode_string(0xbd), "LDA abs,X");
    assert_eq!(get_opcode_string(0xa1), "LDA X,ind");
    assert_eq!(get_opcode_string(0xb1), "LDA ind,Y");
    assert_eq!(get_opcode_string(0x6c), "JMP ind");
    assert_eq!(get_opcode_string(0x0a), "ASL");
    assert_eq!(get_opcode_string(0x06), "ASL zpg");
    assert_eq!(get_opcode_string(0xb6), "LDX zpg,Y");
    assert_eq!(get_opcode_string(0xd0), "BNE rel");
    assert_eq!(get_opcode_string(0xa9), "LDA imm");
    assert_eq!(get_opcode_string(0x02), "JAM");
    assert_eq!(get_opcode_string(0xff), "JAM");
}

#[test]
fn opcode_strings_are_jam_for_invalid_opcodes_only() {
    for opcode in 0..=255u8 {
        let text = get_opcode_string(opcode);
        assert_eq!(text == "JAM", decode_insn(opcode) == Insn::JAM);
        if text != "JAM" {
            let debug = format!("{:?}", decode_insn(opcode));
            assert_eq!(&text[0..3], &debug[0..3]);
        }
    }
}
