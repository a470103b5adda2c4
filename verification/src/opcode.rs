//! The instruction set as a table: one entry for each of the 256 opcode
//! bytes, 151 of them documented.

use vstd::prelude::*;
use crate::cpu::AddressingMode;

verus! {

/// What an instruction does, apart from how it finds its operand.
#[derive(Clone, Copy, Debug, PartialEq, Eq, Structural)]
pub enum Operation {
    Adc,
    Alr,
    Anc,
    And,
    Arr,
    Asl,
    Atx,
    Axa,
    Axs,
    Bcc,
    Bcs,
    Beq,
    Bit,
    Bmi,
    Bne,
    Bpl,
    Brk,
    Bvc,
    Bvs,
    Clc,
    Cld,
    Cli,
    Clv,
    Cmp,
    Cpx,
    Cpy,
    Dcp,
    Dec,
    Dex,
    Dey,
    Eor,
    Hlt,
    Inc,
    Inx,
    Iny,
    Isb,
    Jmp,
    Jsr,
    Lar,
    Lax,
    Lda,
    Ldx,
    Ldy,
    Lsr,
    Nop,
    Ora,
    Pha,
    Php,
    Pla,
    Plp,
    Rla,
    Rol,
    Ror,
    Rra,
    Rti,
    Rts,
    Sax,
    Sbc,
    Sec,
    Sed,
    Sei,
    Slo,
    Sre,
    Sta,
    Stx,
    Sty,
    Sxa,
    Sya,
    Tax,
    Tay,
    Tsx,
    Txa,
    Txs,
    Tya,
    Xaa,
    Xas,
}

/// What each opcode byte does.
pub const OPERATIONS: [Operation; 256] = [
    Operation::Brk, Operation::Ora, Operation::Hlt, Operation::Slo,
    Operation::Nop, Operation::Ora, Operation::Asl, Operation::Slo,
    Operation::Php, Operation::Ora, Operation::Asl, Operation::Anc,
    Operation::Nop, Operation::Ora, Operation::Asl, Operation::Slo,
    Operation::Bpl, Operation::Ora, Operation::Hlt, Operation::Slo,
    Operation::Nop, Operation::Ora, Operation::Asl, Operation::Slo,
    Operation::Clc, Operation::Ora, Operation::Nop, Operation::Slo,
    Operation::Nop, Operation::Ora, Operation::Asl, Operation::Slo,
    Operation::Jsr, Operation::And, Operation::Hlt, Operation::Rla,
    Operation::Bit, Operation::And, Operation::Rol, Operation::Rla,
    Operation::Plp, Operation::And, Operation::Rol, Operation::Anc,
    Operation::Bit, Operation::And, Operation::Rol, Operation::Rla,
    Operation::Bmi, Operation::And, Operation::Hlt, Operation::Rla,
    Operation::Nop, Operation::And, Operation::Rol, Operation::Rla,
    Operation::Sec, Operation::And, Operation::Nop, Operation::Rla,
    Operation::Nop, Operation::And, Operation::Rol, Operation::Rla,
    Operation::Rti, Operation::Eor, Operation::Hlt, Operation::Sre,
    Operation::Nop, Operation::Eor, Operation::Lsr, Operation::Sre,
    Operation::Pha, Operation::Eor, Operation::Lsr, Operation::Alr,
    Operation::Jmp, Operation::Eor, Operation::Lsr, Operation::Sre,
    Operation::Bvc, Operation::Eor, Operation::Hlt, Operation::Sre,
    Operation::Nop, Operation::Eor, Operation::Lsr, Operation::Sre,
    Operation::Cli, Operation::Eor, Operation::Nop, Operation::Sre,
    Operation::Nop, Operation::Eor, Operation::Lsr, Operation::Sre,
    Operation::Rts, Operation::Adc, Operation::Hlt, Operation::Rra,
    Operation::Nop, Operation::Adc, Operation::Ror, Operation::Rra,
    Operation::Pla, Operation::Adc, Operation::Ror, Operation::Arr,
    Operation::Jmp, Operation::Adc, Operation::Ror, Operation::Rra,
    Operation::Bvs, Operation::Adc, Operation::Hlt, Operation::Rra,
    Operation::Nop, Operation::Adc, Operation::Ror, Operation::Rra,
    Operation::Sei, Operation::Adc, Operation::Nop, Operation::Rra,
    Operation::Nop, Operation::Adc, Operation::Ror, Operation::Rra,
    Operation::Nop, Operation::Sta, Operation::Nop, Operation::Sax,
    Operation::Sty, Operation::Sta, Operation::Stx, Operation::Sax,
    Operation::Dey, Operation::Nop, Operation::Txa, Operation::Xaa,
    Operation::Sty, Operation::Sta, Operation::Stx, Operation::Sax,
    Operation::Bcc, Operation::Sta, Operation::Hlt, Operation::Axa,
    Operation::Sty, Operation::Sta, Operation::Stx, Operation::Sax,
    Operation::Tya, Operation::Sta, Operation::Txs, Operation::Xas,
    Operation::Sya, Operation::Sta, Operation::Sxa, Operation::Axa,
    Operation::Ldy, Operation::Lda, Operation::Ldx, Operation::Lax,
    Operation::Ldy, Operation::Lda, Operation::Ldx, Operation::Lax,
    Operation::Tay, Operation::Lda, Operation::Tax, Operation::Atx,
    Operation::Ldy, Operation::Lda, Operation::Ldx, Operation::Lax,
    Operation::Bcs, Operation::Lda, Operation::Hlt, Operation::Lax,
    Operation::Ldy, Operation::Lda, Operation::Ldx, Operation::Lax,
    Operation::Clv, Operation::Lda, Operation::Tsx, Operation::Lar,
    Operation::Ldy, Operation::Lda, Operation::Ldx, Operation::Lax,
    Operation::Cpy, Operation::Cmp, Operation::Nop, Operation::Dcp,
    Operation::Cpy, Operation::Cmp, Operation::Dec, Operation::Dcp,
    Operation::Iny, Operation::Cmp, Operation::Dex, Operation::Axs,
    Operation::Cpy, Operation::Cmp, Operation::Dec, Operation::Dcp,
    Operation::Bne, Operation::Cmp, Operation::Hlt, Operation::Dcp,
    Operation::Nop, Operation::Cmp, Operation::Dec, Operation::Dcp,
    Operation::Cld, Operation::Cmp, Operation::Nop, Operation::Dcp,
    Operation::Nop, Operation::Cmp, Operation::Dec, Operation::Dcp,
    Operation::Cpx, Operation::Sbc, Operation::Nop, Operation::Isb,
    Operation::Cpx, Operation::Sbc, Operation::Inc, Operation::Isb,
    Operation::Inx, Operation::Sbc, Operation::Nop, Operation::Sbc,
    Operation::Cpx, Operation::Sbc, Operation::Inc, Operation::Isb,
    Operation::Beq, Operation::Sbc, Operation::Hlt, Operation::Isb,
    Operation::Nop, Operation::Sbc, Operation::Inc, Operation::Isb,
    Operation::Sed, Operation::Sbc, Operation::Nop, Operation::Isb,
    Operation::Nop, Operation::Sbc, Operation::Inc, Operation::Isb,
];

/// How each opcode byte finds its operand.
pub const MODES: [AddressingMode; 256] = [
    AddressingMode::NoneAddressing, AddressingMode::Indirect_X, AddressingMode::NoneAddressing, AddressingMode::Indirect_X,
    AddressingMode::ZeroPage, AddressingMode::ZeroPage, AddressingMode::ZeroPage, AddressingMode::ZeroPage,
    AddressingMode::NoneAddressing, AddressingMode::Immediate, AddressingMode::NoneAddressing, AddressingMode::Immediate,
    AddressingMode::Absolute, AddressingMode::Absolute, AddressingMode::Absolute, AddressingMode::Absolute,
    AddressingMode::NoneAddressing, AddressingMode::Indirect_Y, AddressingMode::NoneAddressing, AddressingMode::Indirect_Y,
    AddressingMode::ZeroPage_X, AddressingMode::ZeroPage_X, AddressingMode::ZeroPage_X, AddressingMode::ZeroPage_X,
    AddressingMode::NoneAddressing, AddressingMode::Absolute_Y, AddressingMode::NoneAddressing, AddressingMode::Absolute_Y,
    AddressingMode::Absolute_X, AddressingMode::Absolute_X, AddressingMode::Absolute_X, AddressingMode::Absolute_X,
    AddressingMode::Absolute, AddressingMode::Indirect_X, AddressingMode::NoneAddressing, AddressingMode::Indirect_X,
    AddressingMode::ZeroPage, AddressingMode::ZeroPage, AddressingMode::ZeroPage, AddressingMode::ZeroPage,
    AddressingMode::NoneAddressing, AddressingMode::Immediate, AddressingMode::NoneAddressing, AddressingMode::Immediate,
    AddressingMode::Absolute, AddressingMode::Absolute, AddressingMode::Absolute, AddressingMode::Absolute,
    AddressingMode::NoneAddressing, AddressingMode::Indirect_Y, AddressingMode::NoneAddressing, AddressingMode::Indirect_Y,
    AddressingMode::ZeroPage_X, AddressingMode::ZeroPage_X, AddressingMode::ZeroPage_X, AddressingMode::ZeroPage_X,
    AddressingMode::NoneAddressing, AddressingMode::Absolute_Y, AddressingMode::NoneAddressing, AddressingMode::Absolute_Y,
    AddressingMode::Absolute_X, AddressingMode::Absolute_X, AddressingMode::Absolute_X, AddressingMode::Absolute_X,
    AddressingMode::NoneAddressing, AddressingMode::Indirect_X, AddressingMode::NoneAddressing, AddressingMode::Indirect_X,
    AddressingMode::ZeroPage, AddressingMode::ZeroPage, AddressingMode::ZeroPage, AddressingMode::ZeroPage,
    AddressingMode::NoneAddressing, AddressingMode::Immediate, AddressingMode::NoneAddressing, AddressingMode::Immediate,
    AddressingMode::Absolute, AddressingMode::Absolute, AddressingMode::Absolute, AddressingMode::Absolute,
    AddressingMode::NoneAddressing, AddressingMode::Indirect_Y, AddressingMode::NoneAddressing, AddressingMode::Indirect_Y,
    AddressingMode::ZeroPage_X, AddressingMode::ZeroPage_X, AddressingMode::ZeroPage_X, AddressingMode::ZeroPage_X,
    AddressingMode::NoneAddressing, AddressingMode::Absolute_Y, AddressingMode::NoneAddressing, AddressingMode::Absolute_Y,
    AddressingMode::Absolute_X, AddressingMode::Absolute_X, AddressingMode::Absolute_X, AddressingMode::Absolute_X,
    AddressingMode::NoneAddressing, AddressingMode::Indirect_X, AddressingMode::NoneAddressing, AddressingMode::Indirect_X,
    AddressingMode::ZeroPage, AddressingMode::ZeroPage, AddressingMode::ZeroPage, AddressingMode::ZeroPage,
    AddressingMode::NoneAddressing, AddressingMode::Immediate, AddressingMode::NoneAddressing, AddressingMode::Immediate,
    AddressingMode::Indirect, AddressingMode::Absolute, AddressingMode::Absolute, AddressingMode::Absolute,
    AddressingMode::NoneAddressing, AddressingMode::Indirect_Y, AddressingMode::NoneAddressing, AddressingMode::Indirect_Y,
    AddressingMode::ZeroPage_X, AddressingMode::ZeroPage_X, AddressingMode::ZeroPage_X, AddressingMode::ZeroPage_X,
    AddressingMode::NoneAddressing, AddressingMode::Absolute_Y, AddressingMode::NoneAddressing, AddressingMode::Absolute_Y,
    AddressingMode::Absolute_X, AddressingMode::Absolute_X, AddressingMode::Absolute_X, AddressingMode::Absolute_X,
    AddressingMode::Immediate, AddressingMode::Indirect_X, AddressingMode::Immediate, AddressingMode::Indirect_X,
    AddressingMode::ZeroPage, AddressingMode::ZeroPage, AddressingMode::ZeroPage, AddressingMode::ZeroPage,
    AddressingMode::NoneAddressing, AddressingMode::Immediate, AddressingMode::NoneAddressing, AddressingMode::Immediate,
    AddressingMode::Absolute, AddressingMode::Absolute, AddressingMode::Absolute, AddressingMode::Absolute,
    AddressingMode::NoneAddressing, AddressingMode::Indirect_Y, AddressingMode::NoneAddressing, AddressingMode::Indirect_Y,
    AddressingMode::ZeroPage_X, AddressingMode::ZeroPage_X, AddressingMode::ZeroPage_Y, AddressingMode::ZeroPage_Y,
    AddressingMode::NoneAddressing, AddressingMode::Absolute_Y, AddressingMode::NoneAddressing, AddressingMode::Absolute_Y,
    AddressingMode::Absolute_X, AddressingMode::Absolute_X, AddressingMode::Absolute_Y, AddressingMode::Absolute_Y,
    AddressingMode::Immediate, AddressingMode::Indirect_X, AddressingMode::Immediate, AddressingMode::Indirect_X,
    AddressingMode::ZeroPage, AddressingMode::ZeroPage, AddressingMode::ZeroPage, AddressingMode::ZeroPage,
    AddressingMode::NoneAddressing, AddressingMode::Immediate, AddressingMode::NoneAddressing, AddressingMode::Immediate,
    AddressingMode::Absolute, AddressingMode::Absolute, AddressingMode::Absolute, AddressingMode::Absolute,
    AddressingMode::NoneAddressing, AddressingMode::Indirect_Y, AddressingMode::NoneAddressing, AddressingMode::Indirect_Y,
    AddressingMode::ZeroPage_X, AddressingMode::ZeroPage_X, AddressingMode::ZeroPage_Y, AddressingMode::ZeroPage_Y,
    AddressingMode::NoneAddressing, AddressingMode::Absolute_Y, AddressingMode::NoneAddressing, AddressingMode::Absolute_Y,
    AddressingMode::Absolute_X, AddressingMode::Absolute_X, AddressingMode::Absolute_Y, AddressingMode::Absolute_Y,
    AddressingMode::Immediate, AddressingMode::Indirect_X, AddressingMode::Immediate, AddressingMode::Indirect_X,
    AddressingMode::ZeroPage, AddressingMode::ZeroPage, AddressingMode::ZeroPage, AddressingMode::ZeroPage,
    AddressingMode::NoneAddressing, AddressingMode::Immediate, AddressingMode::NoneAddressing, AddressingMode::Immediate,
    AddressingMode::Absolute, AddressingMode::Absolute, AddressingMode::Absolute, AddressingMode::Absolute,
    AddressingMode::NoneAddressing, AddressingMode::Indirect_Y, AddressingMode::NoneAddressing, AddressingMode::Indirect_Y,
    AddressingMode::ZeroPage_X, AddressingMode::ZeroPage_X, AddressingMode::ZeroPage_X, AddressingMode::ZeroPage_X,
    AddressingMode::NoneAddressing, AddressingMode::Absolute_Y, AddressingMode::NoneAddressing, AddressingMode::Absolute_Y,
    AddressingMode::Absolute_X, AddressingMode::Absolute_X, AddressingMode::Absolute_X, AddressingMode::Absolute_X,
    AddressingMode::Immediate, AddressingMode::Indirect_X, AddressingMode::Immediate, AddressingMode::Indirect_X,
    AddressingMode::ZeroPage, AddressingMode::ZeroPage, AddressingMode::ZeroPage, AddressingMode::ZeroPage,
    AddressingMode::NoneAddressing, AddressingMode::Immediate, AddressingMode::NoneAddressing, AddressingMode::Immediate,
    AddressingMode::Absolute, AddressingMode::Absolute, AddressingMode::Absolute, AddressingMode::Absolute,
    AddressingMode::NoneAddressing, AddressingMode::Indirect_Y, AddressingMode::NoneAddressing, AddressingMode::Indirect_Y,
    AddressingMode::ZeroPage_X, AddressingMode::ZeroPage_X, AddressingMode::ZeroPage_X, AddressingMode::ZeroPage_X,
    AddressingMode::NoneAddressing, AddressingMode::Absolute_Y, AddressingMode::NoneAddressing, AddressingMode::Absolute_Y,
    AddressingMode::Absolute_X, AddressingMode::Absolute_X, AddressingMode::Absolute_X, AddressingMode::Absolute_X,
];

/// The assembler name of each opcode byte.
pub const MNEMONICS: [&'static str; 256] = [
    "BRK", "ORA", "HLT", "SLO", "NOP", "ORA", "ASL", "SLO",
    "PHP", "ORA", "ASL", "ANC", "NOP", "ORA", "ASL", "SLO",
    "BPL", "ORA", "HLT", "SLO", "NOP", "ORA", "ASL", "SLO",
    "CLC", "ORA", "NOP", "SLO", "NOP", "ORA", "ASL", "SLO",
    "JSR", "AND", "HLT", "RLA", "BIT", "AND", "ROL", "RLA",
    "PLP", "AND", "ROL", "ANC", "BIT", "AND", "ROL", "RLA",
    "BMI", "AND", "HLT", "RLA", "NOP", "AND", "ROL", "RLA",
    "SEC", "AND", "NOP", "RLA", "NOP", "AND", "ROL", "RLA",
    "RTI", "EOR", "HLT", "SRE", "NOP", "EOR", "LSR", "SRE",
    "PHA", "EOR", "LSR", "ALR", "JMP", "EOR", "LSR", "SRE",
    "BVC", "EOR", "HLT", "SRE", "NOP", "EOR", "LSR", "SRE",
    "CLI", "EOR", "NOP", "SRE", "NOP", "EOR", "LSR", "SRE",
    "RTS", "ADC", "HLT", "RRA", "NOP", "ADC", "ROR", "RRA",
    "PLA", "ADC", "ROR", "ARR", "JMP", "ADC", "ROR", "RRA",
    "BVS", "ADC", "HLT", "RRA", "NOP", "ADC", "ROR", "RRA",
    "SEI", "ADC", "NOP", "RRA", "NOP", "ADC", "ROR", "RRA",
    "NOP", "STA", "NOP", "SAX", "STY", "STA", "STX", "SAX",
    "DEY", "NOP", "TXA", "XAA", "STY", "STA", "STX", "SAX",
    "BCC", "STA", "HLT", "AXA", "STY", "STA", "STX", "SAX",
    "TYA", "STA", "TXS", "XAS", "SYA", "STA", "SXA", "AXA",
    "LDY", "LDA", "LDX", "LAX", "LDY", "LDA", "LDX", "LAX",
    "TAY", "LDA", "TAX", "ATX", "LDY", "LDA", "LDX", "LAX",
    "BCS", "LDA", "HLT", "LAX", "LDY", "LDA", "LDX", "LAX",
    "CLV", "LDA", "TSX", "LAR", "LDY", "LDA", "LDX", "LAX",
    "CPY", "CMP", "NOP", "DCP", "CPY", "CMP", "DEC", "DCP",
    "INY", "CMP", "DEX", "AXS", "CPY", "CMP", "DEC", "DCP",
    "BNE", "CMP", "HLT", "DCP", "NOP", "CMP", "DEC", "DCP",
    "CLD", "CMP", "NOP", "DCP", "NOP", "CMP", "DEC", "DCP",
    "CPX", "SBC", "NOP", "ISB", "CPX", "SBC", "INC", "ISB",
    "INX", "SBC", "NOP", "SBC", "CPX", "SBC", "INC", "ISB",
    "BEQ", "SBC", "HLT", "ISB", "NOP", "SBC", "INC", "ISB",
    "SED", "SBC", "NOP", "ISB", "NOP", "SBC", "INC", "ISB",
];

/// How many bytes the instruction of each opcode byte takes, the opcode byte included.
pub const LENGTHS: [u8; 256] = [
    1, 2, 1, 2, 2, 2, 2, 2, 1, 2, 1, 2, 3, 3, 3, 3,
    2, 2, 1, 2, 2, 2, 2, 2, 1, 3, 1, 3, 3, 3, 3, 3,
    3, 2, 1, 2, 2, 2, 2, 2, 1, 2, 1, 2, 3, 3, 3, 3,
    2, 2, 1, 2, 2, 2, 2, 2, 1, 3, 1, 3, 3, 3, 3, 3,
    1, 2, 1, 2, 2, 2, 2, 2, 1, 2, 1, 2, 3, 3, 3, 3,
    2, 2, 1, 2, 2, 2, 2, 2, 1, 3, 1, 3, 3, 3, 3, 3,
    1, 2, 1, 2, 2, 2, 2, 2, 1, 2, 1, 2, 3, 3, 3, 3,
    2, 2, 1, 2, 2, 2, 2, 2, 1, 3, 1, 3, 3, 3, 3, 3,
    2, 2, 2, 2, 2, 2, 2, 2, 1, 2, 1, 2, 3, 3, 3, 3,
    2, 2, 1, 2, 2, 2, 2, 2, 1, 3, 1, 3, 3, 3, 3, 3,
    2, 2, 2, 2, 2, 2, 2, 2, 1, 2, 1, 2, 3, 3, 3, 3,
    2, 2, 1, 2, 2, 2, 2, 2, 1, 3, 1, 3, 3, 3, 3, 3,
    2, 2, 2, 2, 2, 2, 2, 2, 1, 2, 1, 2, 3, 3, 3, 3,
    2, 2, 1, 2, 2, 2, 2, 2, 1, 3, 1, 3, 3, 3, 3, 3,
    2, 2, 2, 2, 2, 2, 2, 2, 1, 2, 1, 2, 3, 3, 3, 3,
    2, 2, 1, 2, 2, 2, 2, 2, 1, 3, 1, 3, 3, 3, 3, 3,
];

/// How many cycles the instruction of each opcode byte takes at least.
pub const CYCLES: [u8; 256] = [
    7, 6, 1, 8, 3, 3, 5, 5, 3, 2, 2, 2, 4, 4, 6, 6,
    2, 5, 1, 8, 4, 4, 6, 6, 2, 4, 2, 7, 4, 4, 7, 7,
    6, 6, 1, 8, 3, 3, 5, 5, 4, 2, 2, 2, 4, 4, 6, 6,
    2, 5, 1, 8, 4, 4, 6, 6, 2, 4, 2, 7, 4, 4, 7, 7,
    6, 6, 1, 8, 3, 3, 5, 5, 3, 2, 2, 2, 3, 4, 6, 6,
    2, 5, 1, 8, 4, 4, 6, 6, 2, 4, 2, 7, 4, 4, 7, 7,
    6, 6, 1, 8, 3, 3, 5, 5, 4, 2, 2, 2, 5, 4, 6, 6,
    2, 5, 1, 8, 4, 4, 6, 8, 2, 4, 2, 7, 4, 4, 7, 7,
    2, 6, 2, 6, 3, 3, 3, 3, 2, 2, 2, 2, 4, 4, 4, 4,
    2, 6, 1, 6, 4, 4, 4, 4, 2, 5, 2, 5, 5, 5, 5, 5,
    2, 6, 2, 6, 3, 3, 3, 3, 2, 2, 2, 2, 4, 4, 4, 4,
    2, 5, 1, 5, 4, 4, 4, 4, 2, 4, 2, 4, 4, 4, 4, 4,
    2, 6, 2, 8, 3, 3, 5, 5, 2, 2, 2, 2, 4, 4, 6, 6,
    2, 5, 1, 8, 4, 4, 6, 6, 2, 4, 2, 7, 4, 4, 7, 7,
    2, 6, 2, 8, 3, 3, 5, 5, 2, 2, 2, 2, 4, 4, 6, 6,
    2, 5, 1, 8, 4, 4, 6, 6, 2, 4, 2, 7, 4, 4, 7, 7,
];

/// Whether each opcode byte lies outside the documented instruction set.
pub const UNDOCUMENTED: [bool; 256] = [
    false, false, true, true, true, false, false, true,
    false, false, false, true, true, false, false, true,
    false, false, true, true, true, false, false, true,
    false, false, true, true, true, false, false, true,
    false, false, true, true, false, false, false, true,
    false, false, false, true, false, false, false, true,
    false, false, true, true, true, false, false, true,
    false, false, true, true, true, false, false, true,
    false, false, true, true, true, false, false, true,
    false, false, false, true, false, false, false, true,
    false, false, true, true, true, false, false, true,
    false, false, true, true, true, false, false, true,
    false, false, true, true, true, false, false, true,
    false, false, false, true, false, false, false, true,
    false, false, true, true, true, false, false, true,
    false, false, true, true, true, false, false, true,
    true, false, true, true, false, false, false, true,
    false, true, false, true, false, false, false, true,
    false, false, true, true, false, false, false, true,
    false, false, false, true, true, false, true, true,
    false, false, false, true, false, false, false, true,
    false, false, false, true, false, false, false, true,
    false, false, true, true, false, false, false, true,
    false, false, false, true, false, false, false, true,
    false, false, true, true, false, false, false, true,
    false, false, false, true, false, false, false, true,
    false, false, true, true, true, false, false, true,
    false, false, true, true, true, false, false, true,
    false, false, true, true, false, false, false, true,
    false, false, false, true, false, false, false, true,
    false, false, true, true, true, false, false, true,
    false, false, true, true, true, false, false, true,
];

pub struct OpCode {
    pub code: u8,
    pub mnemonic: &'static str,
    pub len: u8,
    pub cycles: u8,
    pub mode: AddressingMode,
    pub undocumented: bool,
}

impl OpCode {
    /// The table entry of an opcode byte.
    #[verifier::opaque]
    pub open spec fn of(code: u8) -> OpCode {
        OpCode {
            code,
            mnemonic: MNEMONICS[code as int],
            len: LENGTHS[code as int],
            cycles: CYCLES[code as int],
            mode: MODES[code as int],
            undocumented: UNDOCUMENTED[code as int],
        }
    }

    /// An entry for a documented instruction.
    pub fn new(code: u8, mnemonic: &'static str, len: u8, cycles: u8, mode: AddressingMode) -> (op:
        Self)
        ensures
            op == (OpCode { code, mnemonic, len, cycles, mode, undocumented: false }),
    {
        OpCode { code, mnemonic, len, cycles, mode, undocumented: false }
    }

    /// An entry for an undocumented instruction.
    pub fn new_undoc(
        code: u8,
        mnemonic: &'static str,
        len: u8,
        cycles: u8,
        mode: AddressingMode,
    ) -> (op: Self)
        ensures
            op == (OpCode { code, mnemonic, len, cycles, mode, undocumented: true }),
    {
        OpCode { code, mnemonic, len, cycles, mode, undocumented: true }
    }

    /// Looks an opcode byte up in the table.
    pub fn lookup(code: u8) -> (op: Self)
        ensures
            op == OpCode::of(code),
    {
        proof {
            reveal(OpCode::of);
        }
        let i = code as usize;
        if UNDOCUMENTED[i] {
            OpCode::new_undoc(code, MNEMONICS[i], LENGTHS[i], CYCLES[i], MODES[i])
        } else {
            OpCode::new(code, MNEMONICS[i], LENGTHS[i], CYCLES[i], MODES[i])
        }
    }
}

/// What an opcode byte does, by the table.
#[verifier::opaque]
pub open spec fn operation_at(code: u8) -> Operation {
    OPERATIONS[code as int]
}

/// What an opcode byte does.
pub fn operation_of(code: u8) -> (operation: Operation)
    ensures
        operation == operation_at(code),
{
    proof {
        reveal(operation_at);
    }
    OPERATIONS[code as usize]
}

} // verus!
