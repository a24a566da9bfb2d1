//! Names of the instructions, as a disassembler prints them.

use crate::insns::{decode, decode_insn, is_instruction, lemma_encode_decode, AddressMode, Insn};
use vstd::prelude::*;

verus! {

/// How an addressing mode is written behind a mnemonic.
pub open spec fn mode_text(mode: AddressMode) -> Seq<char> {
    match mode {
        AddressMode::Immediate => "imm"@,
        AddressMode::Relative => "rel"@,
        AddressMode::Xindirect => "X,ind"@,
        AddressMode::Indirect => "ind"@,
        AddressMode::IndirectY => "ind,Y"@,
        AddressMode::Absolute => "abs"@,
        AddressMode::AbsoluteX => "abs,X"@,
        AddressMode::AbsoluteY => "abs,Y"@,
        AddressMode::Zeropage => "zpg"@,
        AddressMode::ZeropageX => "zpg,X"@,
        AddressMode::ZeropageY => "zpg,Y"@,
    }
}

/// The mnemonic of an instruction: three capital letters. The shifts and
/// rotates of the accumulator share theirs with those of the memory.
pub open spec fn name(insn: Insn) -> Seq<char> {
    match insn {
        Insn::ADC(_) => "ADC"@,
        Insn::AND(_) => "AND"@,
        Insn::ASLA => "ASL"@,
        Insn::ASL(_) => "ASL"@,
        Insn::BCC(_) => "BCC"@,
        Insn::BCS(_) => "BCS"@,
        Insn::BEQ(_) => "BEQ"@,
        Insn::BIT(_) => "BIT"@,
        Insn::BMI(_) => "BMI"@,
        Insn::BNE(_) => "BNE"@,
        Insn::BPL(_) => "BPL"@,
        Insn::BRK => "BRK"@,
        Insn::BVC(_) => "BVC"@,
        Insn::BVS(_) => "BVS"@,
        Insn::CLC => "CLC"@,
        Insn::CLD => "CLD"@,
        Insn::CLI => "CLI"@,
        Insn::CLV => "CLV"@,
        Insn::CMP(_) => "CMP"@,
        Insn::CPX(_) => "CPX"@,
        Insn::CPY(_) => "CPY"@,
        Insn::DEC(_) => "DEC"@,
        Insn::DEX => "DEX"@,
        Insn::DEY => "DEY"@,
        Insn::EOR(_) => "EOR"@,
        Insn::INC(_) => "INC"@,
        Insn::INX => "INX"@,
        Insn::INY => "INY"@,
        Insn::JAM => "JAM"@,
        Insn::JMP(_) => "JMP"@,
        Insn::JSR(_) => "JSR"@,
        Insn::LDA(_) => "LDA"@,
        Insn::LDX(_) => "LDX"@,
        Insn::LDY(_) => "LDY"@,
        Insn::LSRA => "LSR"@,
        Insn::LSR(_) => "LSR"@,
        Insn::NOP => "NOP"@,
        Insn::ORA(_) => "ORA"@,
        Insn::PHA => "PHA"@,
        Insn::PHP => "PHP"@,
        Insn::PLA => "PLA"@,
        Insn::PLP => "PLP"@,
        Insn::ROLA => "ROL"@,
        Insn::ROL(_) => "ROL"@,
        Insn::RORA => "ROR"@,
        Insn::ROR(_) => "ROR"@,
        Insn::RTI => "RTI"@,
        Insn::RTS => "RTS"@,
        Insn::SBC(_) => "SBC"@,
        Insn::SEC => "SEC"@,
        Insn::SED => "SED"@,
        Insn::SEI => "SEI"@,
        Insn::STA(_) => "STA"@,
        Insn::STX(_) => "STX"@,
        Insn::STY(_) => "STY"@,
        Insn::TAX => "TAX"@,
        Insn::TAY => "TAY"@,
        Insn::TSX => "TSX"@,
        Insn::TXA => "TXA"@,
        Insn::TXS => "TXS"@,
        Insn::TYA => "TYA"@,
    }
}

/// The addressing mode that an instruction carries, if it carries one.
pub open spec fn mode_of(insn: Insn) -> Option<AddressMode> {
    match insn {
        Insn::ADC(mode) => Some(mode),
        Insn::AND(mode) => Some(mode),
        Insn::ASL(mode) => Some(mode),
        Insn::BCC(mode) => Some(mode),
        Insn::BCS(mode) => Some(mode),
        Insn::BEQ(mode) => Some(mode),
        Insn::BIT(mode) => Some(mode),
        Insn::BMI(mode) => Some(mode),
        Insn::BNE(mode) => Some(mode),
        Insn::BPL(mode) => Some(mode),
        Insn::BVC(mode) => Some(mode),
        Insn::BVS(mode) => Some(mode),
        Insn::CMP(mode) => Some(mode),
        Insn::CPX(mode) => Some(mode),
        Insn::CPY(mode) => Some(mode),
        Insn::DEC(mode) => Some(mode),
        Insn::EOR(mode) => Some(mode),
        Insn::INC(mode) => Some(mode),
        Insn::JMP(mode) => Some(mode),
        Insn::JSR(mode) => Some(mode),
        Insn::LDA(mode) => Some(mode),
        Insn::LDX(mode) => Some(mode),
        Insn::LDY(mode) => Some(mode),
        Insn::LSR(mode) => Some(mode),
        Insn::ORA(mode) => Some(mode),
        Insn::ROL(mode) => Some(mode),
        Insn::ROR(mode) => Some(mode),
        Insn::SBC(mode) => Some(mode),
        Insn::STA(mode) => Some(mode),
        Insn::STX(mode) => Some(mode),
        Insn::STY(mode) => Some(mode),
        _ => None,
    }
}

/// An instruction as a disassembler prints it: the mnemonic, then a space
/// and the addressing mode where there is one. What is no instruction of the
/// processor prints as `JAM`.
pub open spec fn insn_text(insn: Insn) -> Seq<char> {
    if !is_instruction(insn) {
        "JAM"@
    } else {
        match mode_of(insn) {
            Some(mode) => name(insn) + " "@ + mode_text(mode),
            None => name(insn),
        }
    }
}

/// An opcode as a disassembler prints it.
pub open spec fn mnemonic(opcode: u8) -> Seq<char> {
    insn_text(decode(opcode))
}

/// The space and the addressing modes, letter by letter.
proof fn lemma_mode_texts()
    ensures
        " "@ == seq![' '],
        "imm"@ == seq!['i', 'm', 'm'],
        "rel"@ == seq!['r', 'e', 'l'],
        "X,ind"@ == seq!['X', ',', 'i', 'n', 'd'],
        "ind"@ == seq!['i', 'n', 'd'],
        "ind,Y"@ == seq!['i', 'n', 'd', ',', 'Y'],
        "abs"@ == seq!['a', 'b', 's'],
        "abs,X"@ == seq!['a', 'b', 's', ',', 'X'],
        "abs,Y"@ == seq!['a', 'b', 's', ',', 'Y'],
        "zpg"@ == seq!['z', 'p', 'g'],
        "zpg,X"@ == seq!['z', 'p', 'g', ',', 'X'],
        "zpg,Y"@ == seq!['z', 'p', 'g', ',', 'Y'],
{
    reveal_strlit(" ");
    reveal_strlit("imm");
    reveal_strlit("rel");
    reveal_strlit("X,ind");
    reveal_strlit("ind");
    reveal_strlit("ind,Y");
    reveal_strlit("abs");
    reveal_strlit("abs,X");
    reveal_strlit("abs,Y");
    reveal_strlit("zpg");
    reveal_strlit("zpg,X");
    reveal_strlit("zpg,Y");
    assert(" "@ =~= seq![' ']);
    assert("imm"@ =~= seq!['i', 'm', 'm']);
    assert("rel"@ =~= seq!['r', 'e', 'l']);
    assert("X,ind"@ =~= seq!['X', ',', 'i', 'n', 'd']);
    assert("ind"@ =~= seq!['i', 'n', 'd']);
    assert("ind,Y"@ =~= seq!['i', 'n', 'd', ',', 'Y']);
    assert("abs"@ =~= seq!['a', 'b', 's']);
    assert("abs,X"@ =~= seq!['a', 'b', 's', ',', 'X']);
    assert("abs,Y"@ =~= seq!['a', 'b', 's', ',', 'Y']);
    assert("zpg"@ =~= seq!['z', 'p', 'g']);
    assert("zpg,X"@ =~= seq!['z', 'p', 'g', ',', 'X']);
    assert("zpg,Y"@ =~= seq!['z', 'p', 'g', ',', 'Y']);
}

proof fn lemma_adc_texts(mode: AddressMode)
    ensures
        insn_text(Insn::ADC(mode)) == match mode {
            AddressMode::Immediate => "ADC imm"@,
            AddressMode::Xindirect => "ADC X,ind"@,
            AddressMode::IndirectY => "ADC ind,Y"@,
            AddressMode::Absolute => "ADC abs"@,
            AddressMode::AbsoluteX => "ADC abs,X"@,
            AddressMode::AbsoluteY => "ADC abs,Y"@,
            AddressMode::Zeropage => "ADC zpg"@,
            AddressMode::ZeropageX => "ADC zpg,X"@,
            _ => "JAM"@,
        },
{
    lemma_mode_texts();
    reveal_strlit("ADC");
    reveal_strlit("ADC X,ind");
    reveal_strlit("ADC zpg");
    reveal_strlit("ADC imm");
    reveal_strlit("ADC abs");
    reveal_strlit("ADC ind,Y");
    reveal_strlit("ADC zpg,X");
    reveal_strlit("ADC abs,Y");
    reveal_strlit("ADC abs,X");
    assert("ADC X,ind"@ =~= "ADC"@ + " "@ + "X,ind"@);
    assert("ADC zpg"@ =~= "ADC"@ + " "@ + "zpg"@);
    assert("ADC imm"@ =~= "ADC"@ + " "@ + "imm"@);
    assert("ADC abs"@ =~= "ADC"@ + " "@ + "abs"@);
    assert("ADC ind,Y"@ =~= "ADC"@ + " "@ + "ind,Y"@);
    assert("ADC zpg,X"@ =~= "ADC"@ + " "@ + "zpg,X"@);
    assert("ADC abs,Y"@ =~= "ADC"@ + " "@ + "abs,Y"@);
    assert("ADC abs,X"@ =~= "ADC"@ + " "@ + "abs,X"@);
}

proof fn lemma_and_texts(mode: AddressMode)
    ensures
        insn_text(Insn::AND(mode)) == match mode {
            AddressMode::Immediate => "AND imm"@,
            AddressMode::Xindirect => "AND X,ind"@,
            AddressMode::IndirectY => "AND ind,Y"@,
            AddressMode::Absolute => "AND abs"@,
            AddressMode::AbsoluteX => "AND abs,X"@,
            AddressMode::AbsoluteY => "AND abs,Y"@,
            AddressMode::Zeropage => "AND zpg"@,
            AddressMode::ZeropageX => "AND zpg,X"@,
            _ => "JAM"@,
        },
{
    lemma_mode_texts();
    reveal_strlit("AND");
    reveal_strlit("AND X,ind");
    reveal_strlit("AND zpg");
    reveal_strlit("AND imm");
    reveal_strlit("AND abs");
    reveal_strlit("AND ind,Y");
    reveal_strlit("AND zpg,X");
    reveal_strlit("AND abs,Y");
    reveal_strlit("AND abs,X");
    assert("AND X,ind"@ =~= "AND"@ + " "@ + "X,ind"@);
    assert("AND zpg"@ =~= "AND"@ + " "@ + "zpg"@);
    assert("AND imm"@ =~= "AND"@ + " "@ + "imm"@);
    assert("AND abs"@ =~= "AND"@ + " "@ + "abs"@);
    assert("AND ind,Y"@ =~= "AND"@ + " "@ + "ind,Y"@);
    assert("AND zpg,X"@ =~= "AND"@ + " "@ + "zpg,X"@);
    assert("AND abs,Y"@ =~= "AND"@ + " "@ + "abs,Y"@);
    assert("AND abs,X"@ =~= "AND"@ + " "@ + "abs,X"@);
}

proof fn lemma_asl_texts(mode: AddressMode)
    ensures
        insn_text(Insn::ASL(mode)) == match mode {
            AddressMode::Absolute => "ASL abs"@,
            AddressMode::AbsoluteX => "ASL abs,X"@,
            AddressMode::Zeropage => "ASL zpg"@,
            AddressMode::ZeropageX => "ASL zpg,X"@,
            _ => "JAM"@,
        },
{
    lemma_mode_texts();
    reveal_strlit("ASL");
    reveal_strlit("ASL zpg");
    reveal_strlit("ASL abs");
    reveal_strlit("ASL zpg,X");
    reveal_strlit("ASL abs,X");
    assert("ASL zpg"@ =~= "ASL"@ + " "@ + "zpg"@);
    assert("ASL abs"@ =~= "ASL"@ + " "@ + "abs"@);
    assert("ASL zpg,X"@ =~= "ASL"@ + " "@ + "zpg,X"@);
    assert("ASL abs,X"@ =~= "ASL"@ + " "@ + "abs,X"@);
}

proof fn lemma_bcc_texts(mode: AddressMode)
    ensures
        insn_text(Insn::BCC(mode)) == match mode {
            AddressMode::Relative => "BCC rel"@,
            _ => "JAM"@,
        },
{
    lemma_mode_texts();
    reveal_strlit("BCC");
    reveal_strlit("BCC rel");
    assert("BCC rel"@ =~= "BCC"@ + " "@ + "rel"@);
}

proof fn lemma_bcs_texts(mode: AddressMode)
    ensures
        insn_text(Insn::BCS(mode)) == match mode {
            AddressMode::Relative => "BCS rel"@,
            _ => "JAM"@,
        },
{
    lemma_mode_texts();
    reveal_strlit("BCS");
    reveal_strlit("BCS rel");
    assert("BCS rel"@ =~= "BCS"@ + " "@ + "rel"@);
}

proof fn lemma_beq_texts(mode: AddressMode)
    ensures
        insn_text(Insn::BEQ(mode)) == match mode {
            AddressMode::Relative => "BEQ rel"@,
            _ => "JAM"@,
        },
{
    lemma_mode_texts();
    reveal_strlit("BEQ");
    reveal_strlit("BEQ rel");
    assert("BEQ rel"@ =~= "BEQ"@ + " "@ + "rel"@);
}

proof fn lemma_bit_texts(mode: AddressMode)
    ensures
        insn_text(Insn::BIT(mode)) == match mode {
            AddressMode::Absolute => "BIT abs"@,
            AddressMode::Zeropage => "BIT zpg"@,
            _ => "JAM"@,
        },
{
    lemma_mode_texts();
    reveal_strlit("BIT");
    reveal_strlit("BIT zpg");
    reveal_strlit("BIT abs");
    assert("BIT zpg"@ =~= "BIT"@ + " "@ + "zpg"@);
    assert("BIT abs"@ =~= "BIT"@ + " "@ + "abs"@);
}

proof fn lemma_bmi_texts(mode: AddressMode)
    ensures
        insn_text(Insn::BMI(mode)) == match mode {
            AddressMode::Relative => "BMI rel"@,
            _ => "JAM"@,
        },
{
    lemma_mode_texts();
    reveal_strlit("BMI");
    reveal_strlit("BMI rel");
    assert("BMI rel"@ =~= "BMI"@ + " "@ + "rel"@);
}

proof fn lemma_bne_texts(mode: AddressMode)
    ensures
        insn_text(Insn::BNE(mode)) == match mode {
            AddressMode::Relative => "BNE rel"@,
            _ => "JAM"@,
        },
{
    lemma_mode_texts();
    reveal_strlit("BNE");
    reveal_strlit("BNE rel");
    assert("BNE rel"@ =~= "BNE"@ + " "@ + "rel"@);
}

proof fn lemma_bpl_texts(mode: AddressMode)
    ensures
        insn_text(Insn::BPL(mode)) == match mode {
            AddressMode::Relative => "BPL rel"@,
            _ => "JAM"@,
        },
{
    lemma_mode_texts();
    reveal_strlit("BPL");
    reveal_strlit("BPL rel");
    assert("BPL rel"@ =~= "BPL"@ + " "@ + "rel"@);
}

proof fn lemma_bvc_texts(mode: AddressMode)
    ensures
        insn_text(Insn::BVC(mode)) == match mode {
            AddressMode::Relative => "BVC rel"@,
            _ => "JAM"@,
        },
{
    lemma_mode_texts();
    reveal_strlit("BVC");
    reveal_strlit("BVC rel");
    assert("BVC rel"@ =~= "BVC"@ + " "@ + "rel"@);
}

proof fn lemma_bvs_texts(mode: AddressMode)
    ensures
        insn_text(Insn::BVS(mode)) == match mode {
            AddressMode::Relative => "BVS rel"@,
            _ => "JAM"@,
        },
{
    lemma_mode_texts();
    reveal_strlit("BVS");
    reveal_strlit("BVS rel");
    assert("BVS rel"@ =~= "BVS"@ + " "@ + "rel"@);
}

proof fn lemma_cmp_texts(mode: AddressMode)
    ensures
        insn_text(Insn::CMP(mode)) == match mode {
            AddressMode::Immediate => "CMP imm"@,
            AddressMode::Xindirect => "CMP X,ind"@,
            AddressMode::IndirectY => "CMP ind,Y"@,
            AddressMode::Absolute => "CMP abs"@,
            AddressMode::AbsoluteX => "CMP abs,X"@,
            AddressMode::AbsoluteY => "CMP abs,Y"@,
            AddressMode::Zeropage => "CMP zpg"@,
            AddressMode::ZeropageX => "CMP zpg,X"@,
            _ => "JAM"@,
        },
{
    lemma_mode_texts();
    reveal_strlit("CMP");
    reveal_strlit("CMP X,ind");
    reveal_strlit("CMP zpg");
    reveal_strlit("CMP imm");
    reveal_strlit("CMP abs");
    reveal_strlit("CMP ind,Y");
    reveal_strlit("CMP zpg,X");
    reveal_strlit("CMP abs,Y");
    reveal_strlit("CMP abs,X");
    assert("CMP X,ind"@ =~= "CMP"@ + " "@ + "X,ind"@);
    assert("CMP zpg"@ =~= "CMP"@ + " "@ + "zpg"@);
    assert("CMP imm"@ =~= "CMP"@ + " "@ + "imm"@);
    assert("CMP abs"@ =~= "CMP"@ + " "@ + "abs"@);
    assert("CMP ind,Y"@ =~= "CMP"@ + " "@ + "ind,Y"@);
    assert("CMP zpg,X"@ =~= "CMP"@ + " "@ + "zpg,X"@);
    assert("CMP abs,Y"@ =~= "CMP"@ + " "@ + "abs,Y"@);
    assert("CMP abs,X"@ =~= "CMP"@ + " "@ + "abs,X"@);
}

proof fn lemma_cpx_texts(mode: AddressMode)
    ensures
        insn_text(Insn::CPX(mode)) == match mode {
            AddressMode::Immediate => "CPX imm"@,
            AddressMode::Absolute => "CPX abs"@,
            AddressMode::Zeropage => "CPX zpg"@,
            _ => "JAM"@,
        },
{
    lemma_mode_texts();
    reveal_strlit("CPX");
    reveal_strlit("CPX imm");
    reveal_strlit("CPX zpg");
    reveal_strlit("CPX abs");
    assert("CPX imm"@ =~= "CPX"@ + " "@ + "imm"@);
    assert("CPX zpg"@ =~= "CPX"@ + " "@ + "zpg"@);
    assert("CPX abs"@ =~= "CPX"@ + " "@ + "abs"@);
}

proof fn lemma_cpy_texts(mode: AddressMode)
    ensures
        insn_text(Insn::CPY(mode)) == match mode {
            AddressMode::Immediate => "CPY imm"@,
            AddressMode::Absolute => "CPY abs"@,
            AddressMode::Zeropage => "CPY zpg"@,
            _ => "JAM"@,
        },
{
    lemma_mode_texts();
    reveal_strlit("CPY");
    reveal_strlit("CPY imm");
    reveal_strlit("CPY zpg");
    reveal_strlit("CPY abs");
    assert("CPY imm"@ =~= "CPY"@ + " "@ + "imm"@);
    assert("CPY zpg"@ =~= "CPY"@ + " "@ + "zpg"@);
    assert("CPY abs"@ =~= "CPY"@ + " "@ + "abs"@);
}

proof fn lemma_dec_texts(mode: AddressMode)
    ensures
        insn_text(Insn::DEC(mode)) == match mode {
            AddressMode::Absolute => "DEC abs"@,
            AddressMode::AbsoluteX => "DEC abs,X"@,
            AddressMode::Zeropage => "DEC zpg"@,
            AddressMode::ZeropageX => "DEC zpg,X"@,
            _ => "JAM"@,
        },
{
    lemma_mode_texts();
    reveal_strlit("DEC");
    reveal_strlit("DEC zpg");
    reveal_strlit("DEC abs");
    reveal_strlit("DEC zpg,X");
    reveal_strlit("DEC abs,X");
    assert("DEC zpg"@ =~= "DEC"@ + " "@ + "zpg"@);
    assert("DEC abs"@ =~= "DEC"@ + " "@ + "abs"@);
    assert("DEC zpg,X"@ =~= "DEC"@ + " "@ + "zpg,X"@);
    assert("DEC abs,X"@ =~= "DEC"@ + " "@ + "abs,X"@);
}

proof fn lemma_eor_texts(mode: AddressMode)
    ensures
        insn_text(Insn::EOR(mode)) == match mode {
            AddressMode::Immediate => "EOR imm"@,
            AddressMode::Xindirect => "EOR X,ind"@,
            AddressMode::IndirectY => "EOR ind,Y"@,
            AddressMode::Absolute => "EOR abs"@,
            AddressMode::AbsoluteX => "EOR abs,X"@,
            AddressMode::AbsoluteY => "EOR abs,Y"@,
            AddressMode::Zeropage => "EOR zpg"@,
            AddressMode::ZeropageX => "EOR zpg,X"@,
            _ => "JAM"@,
        },
{
    lemma_mode_texts();
    reveal_strlit("EOR");
    reveal_strlit("EOR X,ind");
    reveal_strlit("EOR zpg");
    reveal_strlit("EOR imm");
    reveal_strlit("EOR abs");
    reveal_strlit("EOR ind,Y");
    reveal_strlit("EOR zpg,X");
    reveal_strlit("EOR abs,Y");
    reveal_strlit("EOR abs,X");
    assert("EOR X,ind"@ =~= "EOR"@ + " "@ + "X,ind"@);
    assert("EOR zpg"@ =~= "EOR"@ + " "@ + "zpg"@);
    assert("EOR imm"@ =~= "EOR"@ + " "@ + "imm"@);
    assert("EOR abs"@ =~= "EOR"@ + " "@ + "abs"@);
    assert("EOR ind,Y"@ =~= "EOR"@ + " "@ + "ind,Y"@);
    assert("EOR zpg,X"@ =~= "EOR"@ + " "@ + "zpg,X"@);
    assert("EOR abs,Y"@ =~= "EOR"@ + " "@ + "abs,Y"@);
    assert("EOR abs,X"@ =~= "EOR"@ + " "@ + "abs,X"@);
}

proof fn lemma_inc_texts(mode: AddressMode)
    ensures
        insn_text(Insn::INC(mode)) == match mode {
            AddressMode::Absolute => "INC abs"@,
            AddressMode::AbsoluteX => "INC abs,X"@,
            AddressMode::Zeropage => "INC zpg"@,
            AddressMode::ZeropageX => "INC zpg,X"@,
            _ => "JAM"@,
        },
{
    lemma_mode_texts();
    reveal_strlit("INC");
    reveal_strlit("INC zpg");
    reveal_strlit("INC abs");
    reveal_strlit("INC zpg,X");
    reveal_strlit("INC abs,X");
    assert("INC zpg"@ =~= "INC"@ + " "@ + "zpg"@);
    assert("INC abs"@ =~= "INC"@ + " "@ + "abs"@);
    assert("INC zpg,X"@ =~= "INC"@ + " "@ + "zpg,X"@);
    assert("INC abs,X"@ =~= "INC"@ + " "@ + "abs,X"@);
}

proof fn lemma_jmp_texts(mode: AddressMode)
    ensures
        insn_text(Insn::JMP(mode)) == match mode {
            AddressMode::Indirect => "JMP ind"@,
            AddressMode::Absolute => "JMP abs"@,
            _ => "JAM"@,
        },
{
    lemma_mode_texts();
    reveal_strlit("JMP");
    reveal_strlit("JMP abs");
    reveal_strlit("JMP ind");
    assert("JMP abs"@ =~= "JMP"@ + " "@ + "abs"@);
    assert("JMP ind"@ =~= "JMP"@ + " "@ + "ind"@);
}

proof fn lemma_jsr_texts(mode: AddressMode)
    ensures
        insn_text(Insn::JSR(mode)) == match mode {
            AddressMode::Absolute => "JSR abs"@,
            _ => "JAM"@,
        },
{
    lemma_mode_texts();
    reveal_strlit("JSR");
    reveal_strlit("JSR abs");
    assert("JSR abs"@ =~= "JSR"@ + " "@ + "abs"@);
}

proof fn lemma_lda_texts(mode: AddressMode)
    ensures
        insn_text(Insn::LDA(mode)) == match mode {
            AddressMode::Immediate => "LDA imm"@,
            AddressMode::Xindirect => "LDA X,ind"@,
            AddressMode::IndirectY => "LDA ind,Y"@,
            AddressMode::Absolute => "LDA abs"@,
            AddressMode::AbsoluteX => "LDA abs,X"@,
            AddressMode::AbsoluteY => "LDA abs,Y"@,
            AddressMode::Zeropage => "LDA zpg"@,
            AddressMode::ZeropageX => "LDA zpg,X"@,
            _ => "JAM"@,
        },
{
    lemma_mode_texts();
    reveal_strlit("LDA");
    reveal_strlit("LDA X,ind");
    reveal_strlit("LDA zpg");
    reveal_strlit("LDA imm");
    reveal_strlit("LDA abs");
    reveal_strlit("LDA ind,Y");
    reveal_strlit("LDA zpg,X");
    reveal_strlit("LDA abs,Y");
    reveal_strlit("LDA abs,X");
    assert("LDA X,ind"@ =~= "LDA"@ + " "@ + "X,ind"@);
    assert("LDA zpg"@ =~= "LDA"@ + " "@ + "zpg"@);
    assert("LDA imm"@ =~= "LDA"@ + " "@ + "imm"@);
    assert("LDA abs"@ =~= "LDA"@ + " "@ + "abs"@);
    assert("LDA ind,Y"@ =~= "LDA"@ + " "@ + "ind,Y"@);
    assert("LDA zpg,X"@ =~= "LDA"@ + " "@ + "zpg,X"@);
    assert("LDA abs,Y"@ =~= "LDA"@ + " "@ + "abs,Y"@);
    assert("LDA abs,X"@ =~= "LDA"@ + " "@ + "abs,X"@);
}

proof fn lemma_ldx_texts(mode: AddressMode)
    ensures
        insn_text(Insn::LDX(mode)) == match mode {
            AddressMode::Immediate => "LDX imm"@,
            AddressMode::Absolute => "LDX abs"@,
            AddressMode::AbsoluteY => "LDX abs,Y"@,
            AddressMode::Zeropage => "LDX zpg"@,
            AddressMode::ZeropageY => "LDX zpg,Y"@,
            _ => "JAM"@,
        },
{
    lemma_mode_texts();
    reveal_strlit("LDX");
    reveal_strlit("LDX imm");
    reveal_strlit("LDX zpg");
    reveal_strlit("LDX abs");
    reveal_strlit("LDX zpg,Y");
    reveal_strlit("LDX abs,Y");
    assert("LDX imm"@ =~= "LDX"@ + " "@ + "imm"@);
    assert("LDX zpg"@ =~= "LDX"@ + " "@ + "zpg"@);
    assert("LDX abs"@ =~= "LDX"@ + " "@ + "abs"@);
    assert("LDX zpg,Y"@ =~= "LDX"@ + " "@ + "zpg,Y"@);
    assert("LDX abs,Y"@ =~= "LDX"@ + " "@ + "abs,Y"@);
}

proof fn lemma_ldy_texts(mode: AddressMode)
    ensures
        insn_text(Insn::LDY(mode)) == match mode {
            AddressMode::Immediate => "LDY imm"@,
            AddressMode::Absolute => "LDY abs"@,
            AddressMode::AbsoluteX => "LDY abs,X"@,
            AddressMode::Zeropage => "LDY zpg"@,
            AddressMode::ZeropageX => "LDY zpg,X"@,
            _ => "JAM"@,
        },
{
    lemma_mode_texts();
    reveal_strlit("LDY");
    reveal_strlit("LDY imm");
    reveal_strlit("LDY zpg");
    reveal_strlit("LDY abs");
    reveal_strlit("LDY zpg,X");
    reveal_strlit("LDY abs,X");
    assert("LDY imm"@ =~= "LDY"@ + " "@ + "imm"@);
    assert("LDY zpg"@ =~= "LDY"@ + " "@ + "zpg"@);
    assert("LDY abs"@ =~= "LDY"@ + " "@ + "abs"@);
    assert("LDY zpg,X"@ =~= "LDY"@ + " "@ + "zpg,X"@);
    assert("LDY abs,X"@ =~= "LDY"@ + " "@ + "abs,X"@);
}

proof fn lemma_lsr_texts(mode: AddressMode)
    ensures
        insn_text(Insn::LSR(mode)) == match mode {
            AddressMode::Absolute => "LSR abs"@,
            AddressMode::AbsoluteX => "LSR abs,X"@,
            AddressMode::Zeropage => "LSR zpg"@,
            AddressMode::ZeropageX => "LSR zpg,X"@,
            _ => "JAM"@,
        },
{
    lemma_mode_texts();
    reveal_strlit("LSR");
    reveal_strlit("LSR zpg");
    reveal_strlit("LSR abs");
    reveal_strlit("LSR zpg,X");
    reveal_strlit("LSR abs,X");
    assert("LSR zpg"@ =~= "LSR"@ + " "@ + "zpg"@);
    assert("LSR abs"@ =~= "LSR"@ + " "@ + "abs"@);
    assert("LSR zpg,X"@ =~= "LSR"@ + " "@ + "zpg,X"@);
    assert("LSR abs,X"@ =~= "LSR"@ + " "@ + "abs,X"@);
}

proof fn lemma_ora_texts(mode: AddressMode)
    ensures
        insn_text(Insn::ORA(mode)) == match mode {
            AddressMode::Immediate => "ORA imm"@,
            AddressMode::Xindirect => "ORA X,ind"@,
            AddressMode::IndirectY => "ORA ind,Y"@,
            AddressMode::Absolute => "ORA abs"@,
            AddressMode::AbsoluteX => "ORA abs,X"@,
            AddressMode::AbsoluteY => "ORA abs,Y"@,
            AddressMode::Zeropage => "ORA zpg"@,
            AddressMode::ZeropageX => "ORA zpg,X"@,
            _ => "JAM"@,
        },
{
    lemma_mode_texts();
    reveal_strlit("ORA");
    reveal_strlit("ORA X,ind");
    reveal_strlit("ORA zpg");
    reveal_strlit("ORA imm");
    reveal_strlit("ORA abs");
    reveal_strlit("ORA ind,Y");
    reveal_strlit("ORA zpg,X");
    reveal_strlit("ORA abs,Y");
    reveal_strlit("ORA abs,X");
    assert("ORA X,ind"@ =~= "ORA"@ + " "@ + "X,ind"@);
    assert("ORA zpg"@ =~= "ORA"@ + " "@ + "zpg"@);
    assert("ORA imm"@ =~= "ORA"@ + " "@ + "imm"@);
    assert("ORA abs"@ =~= "ORA"@ + " "@ + "abs"@);
    assert("ORA ind,Y"@ =~= "ORA"@ + " "@ + "ind,Y"@);
    assert("ORA zpg,X"@ =~= "ORA"@ + " "@ + "zpg,X"@);
    assert("ORA abs,Y"@ =~= "ORA"@ + " "@ + "abs,Y"@);
    assert("ORA abs,X"@ =~= "ORA"@ + " "@ + "abs,X"@);
}

proof fn lemma_rol_texts(mode: AddressMode)
    ensures
        insn_text(Insn::ROL(mode)) == match mode {
            AddressMode::Absolute => "ROL abs"@,
            AddressMode::AbsoluteX => "ROL abs,X"@,
            AddressMode::Zeropage => "ROL zpg"@,
            AddressMode::ZeropageX => "ROL zpg,X"@,
            _ => "JAM"@,
        },
{
    lemma_mode_texts();
    reveal_strlit("ROL");
    reveal_strlit("ROL zpg");
    reveal_strlit("ROL abs");
    reveal_strlit("ROL zpg,X");
    reveal_strlit("ROL abs,X");
    assert("ROL zpg"@ =~= "ROL"@ + " "@ + "zpg"@);
    assert("ROL abs"@ =~= "ROL"@ + " "@ + "abs"@);
    assert("ROL zpg,X"@ =~= "ROL"@ + " "@ + "zpg,X"@);
    assert("ROL abs,X"@ =~= "ROL"@ + " "@ + "abs,X"@);
}

proof fn lemma_ror_texts(mode: AddressMode)
    ensures
        insn_text(Insn::ROR(mode)) == match mode {
            AddressMode::Absolute => "ROR abs"@,
            AddressMode::AbsoluteX => "ROR abs,X"@,
            AddressMode::Zeropage => "ROR zpg"@,
            AddressMode::ZeropageX => "ROR zpg,X"@,
            _ => "JAM"@,
        },
{
    lemma_mode_texts();
    reveal_strlit("ROR");
    reveal_strlit("ROR zpg");
    reveal_strlit("ROR abs");
    reveal_strlit("ROR zpg,X");
    reveal_strlit("ROR abs,X");
    assert("ROR zpg"@ =~= "ROR"@ + " "@ + "zpg"@);
    assert("ROR abs"@ =~= "ROR"@ + " "@ + "abs"@);
    assert("ROR zpg,X"@ =~= "ROR"@ + " "@ + "zpg,X"@);
    assert("ROR abs,X"@ =~= "ROR"@ + " "@ + "abs,X"@);
}

proof fn lemma_sbc_texts(mode: AddressMode)
    ensures
        insn_text(Insn::SBC(mode)) == match mode {
            AddressMode::Immediate => "SBC imm"@,
            AddressMode::Xindirect => "SBC X,ind"@,
            AddressMode::IndirectY => "SBC ind,Y"@,
            AddressMode::Absolute => "SBC abs"@,
            AddressMode::AbsoluteX => "SBC abs,X"@,
            AddressMode::AbsoluteY => "SBC abs,Y"@,
            AddressMode::Zeropage => "SBC zpg"@,
            AddressMode::ZeropageX => "SBC zpg,X"@,
            _ => "JAM"@,
        },
{
    lemma_mode_texts();
    reveal_strlit("SBC");
    reveal_strlit("SBC X,ind");
    reveal_strlit("SBC zpg");
    reveal_strlit("SBC imm");
    reveal_strlit("SBC abs");
    reveal_strlit("SBC ind,Y");
    reveal_strlit("SBC zpg,X");
    reveal_strlit("SBC abs,Y");
    reveal_strlit("SBC abs,X");
    assert("SBC X,ind"@ =~= "SBC"@ + " "@ + "X,ind"@);
    assert("SBC zpg"@ =~= "SBC"@ + " "@ + "zpg"@);
    assert("SBC imm"@ =~= "SBC"@ + " "@ + "imm"@);
    assert("SBC abs"@ =~= "SBC"@ + " "@ + "abs"@);
    assert("SBC ind,Y"@ =~= "SBC"@ + " "@ + "ind,Y"@);
    assert("SBC zpg,X"@ =~= "SBC"@ + " "@ + "zpg,X"@);
    assert("SBC abs,Y"@ =~= "SBC"@ + " "@ + "abs,Y"@);
    assert("SBC abs,X"@ =~= "SBC"@ + " "@ + "abs,X"@);
}

proof fn lemma_sta_texts(mode: AddressMode)
    ensures
        insn_text(Insn::STA(mode)) == match mode {
            AddressMode::Xindirect => "STA X,ind"@,
            AddressMode::IndirectY => "STA ind,Y"@,
            AddressMode::Absolute => "STA abs"@,
            AddressMode::AbsoluteX => "STA abs,X"@,
            AddressMode::AbsoluteY => "STA abs,Y"@,
            AddressMode::Zeropage => "STA zpg"@,
            AddressMode::ZeropageX => "STA zpg,X"@,
            _ => "JAM"@,
        },
{
    lemma_mode_texts();
    reveal_strlit("STA");
    reveal_strlit("STA X,ind");
    reveal_strlit("STA zpg");
    reveal_strlit("STA abs");
    reveal_strlit("STA ind,Y");
    reveal_strlit("STA zpg,X");
    reveal_strlit("STA abs,Y");
    reveal_strlit("STA abs,X");
    assert("STA X,ind"@ =~= "STA"@ + " "@ + "X,ind"@);
    assert("STA zpg"@ =~= "STA"@ + " "@ + "zpg"@);
    assert("STA abs"@ =~= "STA"@ + " "@ + "abs"@);
    assert("STA ind,Y"@ =~= "STA"@ + " "@ + "ind,Y"@);
    assert("STA zpg,X"@ =~= "STA"@ + " "@ + "zpg,X"@);
    assert("STA abs,Y"@ =~= "STA"@ + " "@ + "abs,Y"@);
    assert("STA abs,X"@ =~= "STA"@ + " "@ + "abs,X"@);
}

proof fn lemma_stx_texts(mode: AddressMode)
    ensures
        insn_text(Insn::STX(mode)) == match mode {
            AddressMode::Absolute => "STX abs"@,
            AddressMode::Zeropage => "STX zpg"@,
            AddressMode::ZeropageY => "STX zpg,Y"@,
            _ => "JAM"@,
        },
{
    lemma_mode_texts();
    reveal_strlit("STX");
    reveal_strlit("STX zpg");
    reveal_strlit("STX abs");
    reveal_strlit("STX zpg,Y");
    assert("STX zpg"@ =~= "STX"@ + " "@ + "zpg"@);
    assert("STX abs"@ =~= "STX"@ + " "@ + "abs"@);
    assert("STX zpg,Y"@ =~= "STX"@ + " "@ + "zpg,Y"@);
}

proof fn lemma_sty_texts(mode: AddressMode)
    ensures
        insn_text(Insn::STY(mode)) == match mode {
            AddressMode::Absolute => "STY abs"@,
            AddressMode::Zeropage => "STY zpg"@,
            AddressMode::ZeropageX => "STY zpg,X"@,
            _ => "JAM"@,
        },
{
    lemma_mode_texts();
    reveal_strlit("STY");
    reveal_strlit("STY zpg");
    reveal_strlit("STY abs");
    reveal_strlit("STY zpg,X");
    assert("STY zpg"@ =~= "STY"@ + " "@ + "zpg"@);
    assert("STY abs"@ =~= "STY"@ + " "@ + "abs"@);
    assert("STY zpg,X"@ =~= "STY"@ + " "@ + "zpg,X"@);
}

/// Every mnemonic has three letters, and none but those of the jumps and of
/// what is no instruction starts with a `J`.
proof fn lemma_names(insn: Insn)
    ensures
        name(insn).len() == 3,
        "JAM"@.len() == 3,
        "JAM"@[0] == 'J',
        !(insn is JAM || insn is JMP || insn is JSR) ==> name(insn)[0] != 'J',
{
    reveal_strlit("ADC");
    reveal_strlit("AND");
    reveal_strlit("ASL");
    reveal_strlit("BCC");
    reveal_strlit("BCS");
    reveal_strlit("BEQ");
    reveal_strlit("BIT");
    reveal_strlit("BMI");
    reveal_strlit("BNE");
    reveal_strlit("BPL");
    reveal_strlit("BRK");
    reveal_strlit("BVC");
    reveal_strlit("BVS");
    reveal_strlit("CLC");
    reveal_strlit("CLD");
    reveal_strlit("CLI");
    reveal_strlit("CLV");
    reveal_strlit("CMP");
    reveal_strlit("CPX");
    reveal_strlit("CPY");
    reveal_strlit("DEC");
    reveal_strlit("DEX");
    reveal_strlit("DEY");
    reveal_strlit("EOR");
    reveal_strlit("INC");
    reveal_strlit("INX");
    reveal_strlit("INY");
    reveal_strlit("JAM");
    reveal_strlit("JMP");
    reveal_strlit("JSR");
    reveal_strlit("LDA");
    reveal_strlit("LDX");
    reveal_strlit("LDY");
    reveal_strlit("LSR");
    reveal_strlit("NOP");
    reveal_strlit("ORA");
    reveal_strlit("PHA");
    reveal_strlit("PHP");
    reveal_strlit("PLA");
    reveal_strlit("PLP");
    reveal_strlit("ROL");
    reveal_strlit("ROR");
    reveal_strlit("RTI");
    reveal_strlit("RTS");
    reveal_strlit("SBC");
    reveal_strlit("SEC");
    reveal_strlit("SED");
    reveal_strlit("SEI");
    reveal_strlit("STA");
    reveal_strlit("STX");
    reveal_strlit("STY");
    reveal_strlit("TAX");
    reveal_strlit("TAY");
    reveal_strlit("TSX");
    reveal_strlit("TXA");
    reveal_strlit("TXS");
    reveal_strlit("TYA");
}

/// An opcode is printed as `JAM` if and only if it is no instruction.
pub proof fn lemma_jam_is_no_instruction(opcode: u8)
    ensures
        (mnemonic(opcode) == "JAM"@) <==> (decode(opcode) == Insn::JAM),
{
    let insn = decode(opcode);
    lemma_names(insn);
    if insn != Insn::JAM {
        lemma_encode_decode(opcode);
        match mode_of(insn) {
            Some(mode) => {
                lemma_mode_texts();
                assert(mnemonic(opcode).len() == 3 + 1 + mode_text(mode).len());
            },
            None => {
                assert(mnemonic(opcode)[0] != 'J');
            },
        }
    }
}

/// The text of an instruction. Each arm returns at once, so that each
/// instruction is verified by itself.
fn insn_string(insn: Insn) -> (text: &'static str)
    ensures
        text@ == insn_text(insn),
{
    match insn {
        Insn::ADC(mode) => {
            proof {
                lemma_adc_texts(mode);
            }
            match mode {
                AddressMode::Immediate => {
                    return "ADC imm";
                },
                AddressMode::Xindirect => {
                    return "ADC X,ind";
                },
                AddressMode::IndirectY => {
                    return "ADC ind,Y";
                },
                AddressMode::Absolute => {
                    return "ADC abs";
                },
                AddressMode::AbsoluteX => {
                    return "ADC abs,X";
                },
                AddressMode::AbsoluteY => {
                    return "ADC abs,Y";
                },
                AddressMode::Zeropage => {
                    return "ADC zpg";
                },
                AddressMode::ZeropageX => {
                    return "ADC zpg,X";
                },
                _ => {
                    return "JAM";
                },
            }
        },
        Insn::AND(mode) => {
            proof {
                lemma_and_texts(mode);
            }
            match mode {
                AddressMode::Immediate => {
                    return "AND imm";
                },
                AddressMode::Xindirect => {
                    return "AND X,ind";
                },
                AddressMode::IndirectY => {
                    return "AND ind,Y";
                },
                AddressMode::Absolute => {
                    return "AND abs";
                },
                AddressMode::AbsoluteX => {
                    return "AND abs,X";
                },
                AddressMode::AbsoluteY => {
                    return "AND abs,Y";
                },
                AddressMode::Zeropage => {
                    return "AND zpg";
                },
                AddressMode::ZeropageX => {
                    return "AND zpg,X";
                },
                _ => {
                    return "JAM";
                },
            }
        },
        Insn::ASLA => {
            return "ASL";
        },
        Insn::ASL(mode) => {
            proof {
                lemma_asl_texts(mode);
            }
            match mode {
                AddressMode::Absolute => {
                    return "ASL abs";
                },
                AddressMode::AbsoluteX => {
                    return "ASL abs,X";
                },
                AddressMode::Zeropage => {
                    return "ASL zpg";
                },
                AddressMode::ZeropageX => {
                    return "ASL zpg,X";
                },
                _ => {
                    return "JAM";
                },
            }
        },
        Insn::BCC(mode) => {
            proof {
                lemma_bcc_texts(mode);
            }
            match mode {
                AddressMode::Relative => {
                    return "BCC rel";
                },
                _ => {
                    return "JAM";
                },
            }
        },
        Insn::BCS(mode) => {
            proof {
                lemma_bcs_texts(mode);
            }
            match mode {
                AddressMode::Relative => {
                    return "BCS rel";
                },
                _ => {
                    return "JAM";
                },
            }
        },
        Insn::BEQ(mode) => {
            proof {
                lemma_beq_texts(mode);
            }
            match mode {
                AddressMode::Relative => {
                    return "BEQ rel";
                },
                _ => {
                    return "JAM";
                },
            }
        },
        Insn::BIT(mode) => {
            proof {
                lemma_bit_texts(mode);
            }
            match mode {
                AddressMode::Absolute => {
                    return "BIT abs";
                },
                AddressMode::Zeropage => {
                    return "BIT zpg";
                },
                _ => {
                    return "JAM";
                },
            }
        },
        Insn::BMI(mode) => {
            proof {
                lemma_bmi_texts(mode);
            }
            match mode {
                AddressMode::Relative => {
                    return "BMI rel";
                },
                _ => {
                    return "JAM";
                },
            }
        },
        Insn::BNE(mode) => {
            proof {
                lemma_bne_texts(mode);
            }
            match mode {
                AddressMode::Relative => {
                    return "BNE rel";
                },
                _ => {
                    return "JAM";
                },
            }
        },
        Insn::BPL(mode) => {
            proof {
                lemma_bpl_texts(mode);
            }
            match mode {
                AddressMode::Relative => {
                    return "BPL rel";
                },
                _ => {
                    return "JAM";
                },
            }
        },
        Insn::BRK => {
            return "BRK";
        },
        Insn::BVC(mode) => {
            proof {
                lemma_bvc_texts(mode);
            }
            match mode {
                AddressMode::Relative => {
                    return "BVC rel";
                },
                _ => {
                    return "JAM";
                },
            }
        },
        Insn::BVS(mode) => {
            proof {
                lemma_bvs_texts(mode);
            }
            match mode {
                AddressMode::Relative => {
                    return "BVS rel";
                },
                _ => {
                    return "JAM";
                },
            }
        },
        Insn::CLC => {
            return "CLC";
        },
        Insn::CLD => {
            return "CLD";
        },
        Insn::CLI => {
            return "CLI";
        },
        Insn::CLV => {
            return "CLV";
        },
        Insn::CMP(mode) => {
            proof {
                lemma_cmp_texts(mode);
            }
            match mode {
                AddressMode::Immediate => {
                    return "CMP imm";
                },
                AddressMode::Xindirect => {
                    return "CMP X,ind";
                },
                AddressMode::IndirectY => {
                    return "CMP ind,Y";
                },
                AddressMode::Absolute => {
                    return "CMP abs";
                },
                AddressMode::AbsoluteX => {
                    return "CMP abs,X";
                },
                AddressMode::AbsoluteY => {
                    return "CMP abs,Y";
                },
                AddressMode::Zeropage => {
                    return "CMP zpg";
                },
                AddressMode::ZeropageX => {
                    return "CMP zpg,X";
                },
                _ => {
                    return "JAM";
                },
            }
        },
        Insn::CPX(mode) => {
            proof {
                lemma_cpx_texts(mode);
            }
            match mode {
                AddressMode::Immediate => {
                    return "CPX imm";
                },
                AddressMode::Absolute => {
                    return "CPX abs";
                },
                AddressMode::Zeropage => {
                    return "CPX zpg";
                },
                _ => {
                    return "JAM";
                },
            }
        },
        Insn::CPY(mode) => {
            proof {
                lemma_cpy_texts(mode);
            }
            match mode {
                AddressMode::Immediate => {
                    return "CPY imm";
                },
                AddressMode::Absolute => {
                    return "CPY abs";
                },
                AddressMode::Zeropage => {
                    return "CPY zpg";
                },
                _ => {
                    return "JAM";
                },
            }
        },
        Insn::DEC(mode) => {
            proof {
                lemma_dec_texts(mode);
            }
            match mode {
                AddressMode::Absolute => {
                    return "DEC abs";
                },
                AddressMode::AbsoluteX => {
                    return "DEC abs,X";
                },
                AddressMode::Zeropage => {
                    return "DEC zpg";
                },
                AddressMode::ZeropageX => {
                    return "DEC zpg,X";
                },
                _ => {
                    return "JAM";
                },
            }
        },
        Insn::DEX => {
            return "DEX";
        },
        Insn::DEY => {
            return "DEY";
        },
        Insn::EOR(mode) => {
            proof {
                lemma_eor_texts(mode);
            }
            match mode {
                AddressMode::Immediate => {
                    return "EOR imm";
                },
                AddressMode::Xindirect => {
                    return "EOR X,ind";
                },
                AddressMode::IndirectY => {
                    return "EOR ind,Y";
                },
                AddressMode::Absolute => {
                    return "EOR abs";
                },
                AddressMode::AbsoluteX => {
                    return "EOR abs,X";
                },
                AddressMode::AbsoluteY => {
                    return "EOR abs,Y";
                },
                AddressMode::Zeropage => {
                    return "EOR zpg";
                },
                AddressMode::ZeropageX => {
                    return "EOR zpg,X";
                },
                _ => {
                    return "JAM";
                },
            }
        },
        Insn::INC(mode) => {
            proof {
                lemma_inc_texts(mode);
            }
            match mode {
                AddressMode::Absolute => {
                    return "INC abs";
                },
                AddressMode::AbsoluteX => {
                    return "INC abs,X";
                },
                AddressMode::Zeropage => {
                    return "INC zpg";
                },
                AddressMode::ZeropageX => {
                    return "INC zpg,X";
                },
                _ => {
                    return "JAM";
                },
            }
        },
        Insn::INX => {
            return "INX";
        },
        Insn::INY => {
            return "INY";
        },
        Insn::JMP(mode) => {
            proof {
                lemma_jmp_texts(mode);
            }
            match mode {
                AddressMode::Indirect => {
                    return "JMP ind";
                },
                AddressMode::Absolute => {
                    return "JMP abs";
                },
                _ => {
                    return "JAM";
                },
            }
        },
        Insn::JSR(mode) => {
            proof {
                lemma_jsr_texts(mode);
            }
            match mode {
                AddressMode::Absolute => {
                    return "JSR abs";
                },
                _ => {
                    return "JAM";
                },
            }
        },
        Insn::LDA(mode) => {
            proof {
                lemma_lda_texts(mode);
            }
            match mode {
                AddressMode::Immediate => {
                    return "LDA imm";
                },
                AddressMode::Xindirect => {
                    return "LDA X,ind";
                },
                AddressMode::IndirectY => {
                    return "LDA ind,Y";
                },
                AddressMode::Absolute => {
                    return "LDA abs";
                },
                AddressMode::AbsoluteX => {
                    return "LDA abs,X";
                },
                AddressMode::AbsoluteY => {
                    return "LDA abs,Y";
                },
                AddressMode::Zeropage => {
                    return "LDA zpg";
                },
                AddressMode::ZeropageX => {
                    return "LDA zpg,X";
                },
                _ => {
                    return "JAM";
                },
            }
        },
        Insn::LDX(mode) => {
            proof {
                lemma_ldx_texts(mode);
            }
            match mode {
                AddressMode::Immediate => {
                    return "LDX imm";
                },
                AddressMode::Absolute => {
                    return "LDX abs";
                },
                AddressMode::AbsoluteY => {
                    return "LDX abs,Y";
                },
                AddressMode::Zeropage => {
                    return "LDX zpg";
                },
                AddressMode::ZeropageY => {
                    return "LDX zpg,Y";
                },
                _ => {
                    return "JAM";
                },
            }
        },
        Insn::LDY(mode) => {
            proof {
                lemma_ldy_texts(mode);
            }
            match mode {
                AddressMode::Immediate => {
                    return "LDY imm";
                },
                AddressMode::Absolute => {
                    return "LDY abs";
                },
                AddressMode::AbsoluteX => {
                    return "LDY abs,X";
                },
                AddressMode::Zeropage => {
                    return "LDY zpg";
                },
                AddressMode::ZeropageX => {
                    return "LDY zpg,X";
                },
                _ => {
                    return "JAM";
                },
            }
        },
        Insn::LSRA => {
            return "LSR";
        },
        Insn::LSR(mode) => {
            proof {
                lemma_lsr_texts(mode);
            }
            match mode {
                AddressMode::Absolute => {
                    return "LSR abs";
                },
                AddressMode::AbsoluteX => {
                    return "LSR abs,X";
                },
                AddressMode::Zeropage => {
                    return "LSR zpg";
                },
                AddressMode::ZeropageX => {
                    return "LSR zpg,X";
                },
                _ => {
                    return "JAM";
                },
            }
        },
        Insn::NOP => {
            return "NOP";
        },
        Insn::ORA(mode) => {
            proof {
                lemma_ora_texts(mode);
            }
            match mode {
                AddressMode::Immediate => {
                    return "ORA imm";
                },
                AddressMode::Xindirect => {
                    return "ORA X,ind";
                },
                AddressMode::IndirectY => {
                    return "ORA ind,Y";
                },
                AddressMode::Absolute => {
                    return "ORA abs";
                },
                AddressMode::AbsoluteX => {
                    return "ORA abs,X";
                },
                AddressMode::AbsoluteY => {
                    return "ORA abs,Y";
                },
                AddressMode::Zeropage => {
                    return "ORA zpg";
                },
                AddressMode::ZeropageX => {
                    return "ORA zpg,X";
                },
                _ => {
                    return "JAM";
                },
            }
        },
        Insn::PHA => {
            return "PHA";
        },
        Insn::PHP => {
            return "PHP";
        },
        Insn::PLA => {
            return "PLA";
        },
        Insn::PLP => {
            return "PLP";
        },
        Insn::ROLA => {
            return "ROL";
        },
        Insn::ROL(mode) => {
            proof {
                lemma_rol_texts(mode);
            }
            match mode {
                AddressMode::Absolute => {
                    return "ROL abs";
                },
                AddressMode::AbsoluteX => {
                    return "ROL abs,X";
                },
                AddressMode::Zeropage => {
                    return "ROL zpg";
                },
                AddressMode::ZeropageX => {
                    return "ROL zpg,X";
                },
                _ => {
                    return "JAM";
                },
            }
        },
        Insn::RORA => {
            return "ROR";
        },
        Insn::ROR(mode) => {
            proof {
                lemma_ror_texts(mode);
            }
            match mode {
                AddressMode::Absolute => {
                    return "ROR abs";
                },
                AddressMode::AbsoluteX => {
                    return "ROR abs,X";
                },
                AddressMode::Zeropage => {
                    return "ROR zpg";
                },
                AddressMode::ZeropageX => {
                    return "ROR zpg,X";
                },
                _ => {
                    return "JAM";
                },
            }
        },
        Insn::RTI => {
            return "RTI";
        },
        Insn::RTS => {
            return "RTS";
        },
        Insn::SBC(mode) => {
            proof {
                lemma_sbc_texts(mode);
            }
            match mode {
                AddressMode::Immediate => {
                    return "SBC imm";
                },
                AddressMode::Xindirect => {
                    return "SBC X,ind";
                },
                AddressMode::IndirectY => {
                    return "SBC ind,Y";
                },
                AddressMode::Absolute => {
                    return "SBC abs";
                },
                AddressMode::AbsoluteX => {
                    return "SBC abs,X";
                },
                AddressMode::AbsoluteY => {
                    return "SBC abs,Y";
                },
                AddressMode::Zeropage => {
                    return "SBC zpg";
                },
                AddressMode::ZeropageX => {
                    return "SBC zpg,X";
                },
                _ => {
                    return "JAM";
                },
            }
        },
        Insn::SEC => {
            return "SEC";
        },
        Insn::SED => {
            return "SED";
        },
        Insn::SEI => {
            return "SEI";
        },
        Insn::STA(mode) => {
            proof {
                lemma_sta_texts(mode);
            }
            match mode {
                AddressMode::Xindirect => {
                    return "STA X,ind";
                },
                AddressMode::IndirectY => {
                    return "STA ind,Y";
                },
                AddressMode::Absolute => {
                    return "STA abs";
                },
                AddressMode::AbsoluteX => {
                    return "STA abs,X";
                },
                AddressMode::AbsoluteY => {
                    return "STA abs,Y";
                },
                AddressMode::Zeropage => {
                    return "STA zpg";
                },
                AddressMode::ZeropageX => {
                    return "STA zpg,X";
                },
                _ => {
                    return "JAM";
                },
            }
        },
        Insn::STX(mode) => {
            proof {
                lemma_stx_texts(mode);
            }
            match mode {
                AddressMode::Absolute => {
                    return "STX abs";
                },
                AddressMode::Zeropage => {
                    return "STX zpg";
                },
                AddressMode::ZeropageY => {
                    return "STX zpg,Y";
                },
                _ => {
                    return "JAM";
                },
            }
        },
        Insn::STY(mode) => {
            proof {
                lemma_sty_texts(mode);
            }
            match mode {
                AddressMode::Absolute => {
                    return "STY abs";
                },
                AddressMode::Zeropage => {
                    return "STY zpg";
                },
                AddressMode::ZeropageX => {
                    return "STY zpg,X";
                },
                _ => {
                    return "JAM";
                },
            }
        },
        Insn::TAX => {
            return "TAX";
        },
        Insn::TAY => {
            return "TAY";
        },
        Insn::TSX => {
            return "TSX";
        },
        Insn::TXA => {
            return "TXA";
        },
        Insn::TXS => {
            return "TXS";
        },
        Insn::TYA => {
            return "TYA";
        },
        Insn::JAM => {
            return "JAM";
        },
    }
}

/// The name of an opcode is that of the instruction it stands for.
pub fn get_opcode_string(opcode: u8) -> (text: &'static str)
    ensures
        text@ == mnemonic(opcode),
{
    insn_string(decode_insn(opcode))
}

} // verus!
