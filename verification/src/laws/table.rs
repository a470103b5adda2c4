//! The opcode table: every entry hangs together.

use vstd::prelude::*;
use crate::cpu::state::CpuState;
use crate::cpu::AddressingMode;
use crate::error::CpuError;
use crate::opcode::{operation_at, OpCode, LENGTHS, MODES, OPERATIONS};

verus! {

/// How many bytes of operand a mode takes.
pub open spec fn operand_bytes(mode: AddressingMode) -> int {
    match mode {
        AddressingMode::Implied | AddressingMode::NoneAddressing => 0,
        AddressingMode::Absolute | AddressingMode::Absolute_X | AddressingMode::Absolute_Y
        | AddressingMode::Indirect => 2,
        _ => 1,
    }
}

/// The table entry of an opcode byte hangs together: an operation that
/// needs an operand has a mode that names one, and an instruction whose
/// mode names an operand is as long as the opcode byte and the operand.
pub open spec fn table_entry_is_sound(code: u8) -> bool {
    let operation = OPERATIONS[code as int];
    let mode = MODES[code as int];
    &&& operation.needs_operand() ==> mode.has_operand()
    &&& mode.has_operand() ==> LENGTHS[code as int] == 1 + operand_bytes(mode)
    &&& 1 <= LENGTHS[code as int] <= 3
}

proof fn lemma_table_row_0(code: u8)
    requires
        0x00 <= code < 0x10,
    ensures
        table_entry_is_sound(code),
{
    assert(code == 0x00 || code == 0x01 || code == 0x02 || code == 0x03
        || code == 0x04 || code == 0x05 || code == 0x06 || code == 0x07
        || code == 0x08 || code == 0x09 || code == 0x0A || code == 0x0B
        || code == 0x0C || code == 0x0D || code == 0x0E || code == 0x0F);
}

proof fn lemma_table_row_1(code: u8)
    requires
        0x10 <= code < 0x20,
    ensures
        table_entry_is_sound(code),
{
    assert(code == 0x10 || code == 0x11 || code == 0x12 || code == 0x13
        || code == 0x14 || code == 0x15 || code == 0x16 || code == 0x17
        || code == 0x18 || code == 0x19 || code == 0x1A || code == 0x1B
        || code == 0x1C || code == 0x1D || code == 0x1E || code == 0x1F);
}

proof fn lemma_table_row_2(code: u8)
    requires
        0x20 <= code < 0x30,
    ensures
        table_entry_is_sound(code),
{
    assert(code == 0x20 || code == 0x21 || code == 0x22 || code == 0x23
        || code == 0x24 || code == 0x25 || code == 0x26 || code == 0x27
        || code == 0x28 || code == 0x29 || code == 0x2A || code == 0x2B
        || code == 0x2C || code == 0x2D || code == 0x2E || code == 0x2F);
}

proof fn lemma_table_row_3(code: u8)
    requires
        0x30 <= code < 0x40,
    ensures
        table_entry_is_sound(code),
{
    assert(code == 0x30 || code == 0x31 || code == 0x32 || code == 0x33
        || code == 0x34 || code == 0x35 || code == 0x36 || code == 0x37
        || code == 0x38 || code == 0x39 || code == 0x3A || code == 0x3B
        || code == 0x3C || code == 0x3D || code == 0x3E || code == 0x3F);
}

proof fn lemma_table_row_4(code: u8)
    requires
        0x40 <= code < 0x50,
    ensures
        table_entry_is_sound(code),
{
    assert(code == 0x40 || code == 0x41 || code == 0x42 || code == 0x43
        || code == 0x44 || code == 0x45 || code == 0x46 || code == 0x47
        || code == 0x48 || code == 0x49 || code == 0x4A || code == 0x4B
        || code == 0x4C || code == 0x4D || code == 0x4E || code == 0x4F);
}

proof fn lemma_table_row_5(code: u8)
    requires
        0x50 <= code < 0x60,
    ensures
        table_entry_is_sound(code),
{
    assert(code == 0x50 || code == 0x51 || code == 0x52 || code == 0x53
        || code == 0x54 || code == 0x55 || code == 0x56 || code == 0x57
        || code == 0x58 || code == 0x59 || code == 0x5A || code == 0x5B
        || code == 0x5C || code == 0x5D || code == 0x5E || code == 0x5F);
}

proof fn lemma_table_row_6(code: u8)
    requires
        0x60 <= code < 0x70,
    ensures
        table_entry_is_sound(code),
{
    assert(code == 0x60 || code == 0x61 || code == 0x62 || code == 0x63
        || code == 0x64 || code == 0x65 || code == 0x66 || code == 0x67
        || code == 0x68 || code == 0x69 || code == 0x6A || code == 0x6B
        || code == 0x6C || code == 0x6D || code == 0x6E || code == 0x6F);
}

proof fn lemma_table_row_7(code: u8)
    requires
        0x70 <= code < 0x80,
    ensures
        table_entry_is_sound(code),
{
    assert(code == 0x70 || code == 0x71 || code == 0x72 || code == 0x73
        || code == 0x74 || code == 0x75 || code == 0x76 || code == 0x77
        || code == 0x78 || code == 0x79 || code == 0x7A || code == 0x7B
        || code == 0x7C || code == 0x7D || code == 0x7E || code == 0x7F);
}

proof fn lemma_table_row_8(code: u8)
    requires
        0x80 <= code < 0x90,
    ensures
        table_entry_is_sound(code),
{
    assert(code == 0x80 || code == 0x81 || code == 0x82 || code == 0x83
        || code == 0x84 || code == 0x85 || code == 0x86 || code == 0x87
        || code == 0x88 || code == 0x89 || code == 0x8A || code == 0x8B
        || code == 0x8C || code == 0x8D || code == 0x8E || code == 0x8F);
}

proof fn lemma_table_row_9(code: u8)
    requires
        0x90 <= code < 0xA0,
    ensures
        table_entry_is_sound(code),
{
    assert(code == 0x90 || code == 0x91 || code == 0x92 || code == 0x93
        || code == 0x94 || code == 0x95 || code == 0x96 || code == 0x97
        || code == 0x98 || code == 0x99 || code == 0x9A || code == 0x9B
        || code == 0x9C || code == 0x9D || code == 0x9E || code == 0x9F);
}

proof fn lemma_table_row_A(code: u8)
    requires
        0xA0 <= code < 0xB0,
    ensures
        table_entry_is_sound(code),
{
    assert(code == 0xA0 || code == 0xA1 || code == 0xA2 || code == 0xA3
        || code == 0xA4 || code == 0xA5 || code == 0xA6 || code == 0xA7
        || code == 0xA8 || code == 0xA9 || code == 0xAA || code == 0xAB
        || code == 0xAC || code == 0xAD || code == 0xAE || code == 0xAF);
}

proof fn lemma_table_row_B(code: u8)
    requires
        0xB0 <= code < 0xC0,
    ensures
        table_entry_is_sound(code),
{
    assert(code == 0xB0 || code == 0xB1 || code == 0xB2 || code == 0xB3
        || code == 0xB4 || code == 0xB5 || code == 0xB6 || code == 0xB7
        || code == 0xB8 || code == 0xB9 || code == 0xBA || code == 0xBB
        || code == 0xBC || code == 0xBD || code == 0xBE || code == 0xBF);
}

proof fn lemma_table_row_C(code: u8)
    requires
        0xC0 <= code < 0xD0,
    ensures
        table_entry_is_sound(code),
{
    assert(code == 0xC0 || code == 0xC1 || code == 0xC2 || code == 0xC3
        || code == 0xC4 || code == 0xC5 || code == 0xC6 || code == 0xC7
        || code == 0xC8 || code == 0xC9 || code == 0xCA || code == 0xCB
        || code == 0xCC || code == 0xCD || code == 0xCE || code == 0xCF);
}

proof fn lemma_table_row_D(code: u8)
    requires
        0xD0 <= code < 0xE0,
    ensures
        table_entry_is_sound(code),
{
    assert(code == 0xD0 || code == 0xD1 || code == 0xD2 || code == 0xD3
        || code == 0xD4 || code == 0xD5 || code == 0xD6 || code == 0xD7
        || code == 0xD8 || code == 0xD9 || code == 0xDA || code == 0xDB
        || code == 0xDC || code == 0xDD || code == 0xDE || code == 0xDF);
}

proof fn lemma_table_row_E(code: u8)
    requires
        0xE0 <= code < 0xF0,
    ensures
        table_entry_is_sound(code),
{
    assert(code == 0xE0 || code == 0xE1 || code == 0xE2 || code == 0xE3
        || code == 0xE4 || code == 0xE5 || code == 0xE6 || code == 0xE7
        || code == 0xE8 || code == 0xE9 || code == 0xEA || code == 0xEB
        || code == 0xEC || code == 0xED || code == 0xEE || code == 0xEF);
}

proof fn lemma_table_row_F(code: u8)
    requires
        0xF0 <= code < 0x100,
    ensures
        table_entry_is_sound(code),
{
    assert(code == 0xF0 || code == 0xF1 || code == 0xF2 || code == 0xF3
        || code == 0xF4 || code == 0xF5 || code == 0xF6 || code == 0xF7
        || code == 0xF8 || code == 0xF9 || code == 0xFA || code == 0xFB
        || code == 0xFC || code == 0xFD || code == 0xFE || code == 0xFF);
}

/// Every entry of the opcode table hangs together, so that no opcode byte
/// is unknown: whatever byte is fetched, its instruction is executed, and
/// fails only where the operation itself fails.
pub proof fn law_no_opcode_is_unknown(s: CpuState, code: u8)
    ensures
        table_entry_is_sound(code),
        operation_at(code) == OPERATIONS[code as int],
        OpCode::of(code).mode == MODES[code as int],
        OpCode::of(code).len == LENGTHS[code as int],
        s.run_opcode(code).1 is Err <==> s.execute(operation_at(code), OpCode::of(code).mode).1
            is Err,
        s.run_opcode(code).1 is Err ==> s.run_opcode(code) == (
            s.execute(operation_at(code), OpCode::of(code).mode).0,
            Err::<u8, CpuError>(s.execute(operation_at(code), OpCode::of(code).mode).1->Err_0),
        ),
{
    reveal(OpCode::of);
    reveal(operation_at);
    if code < 16 {
        lemma_table_row_0(code);
    } else if code < 32 {
        lemma_table_row_1(code);
    } else if code < 48 {
        lemma_table_row_2(code);
    } else if code < 64 {
        lemma_table_row_3(code);
    } else if code < 80 {
        lemma_table_row_4(code);
    } else if code < 96 {
        lemma_table_row_5(code);
    } else if code < 112 {
        lemma_table_row_6(code);
    } else if code < 128 {
        lemma_table_row_7(code);
    } else if code < 144 {
        lemma_table_row_8(code);
    } else if code < 160 {
        lemma_table_row_9(code);
    } else if code < 176 {
        lemma_table_row_A(code);
    } else if code < 192 {
        lemma_table_row_B(code);
    } else if code < 208 {
        lemma_table_row_C(code);
    } else if code < 224 {
        lemma_table_row_D(code);
    } else if code < 240 {
        lemma_table_row_E(code);
    } else {
        lemma_table_row_F(code);
    }
}

} // verus!
