//! One line of text for the instruction that the processor is about to
//! run, in the layout of the Nintendulator log:
//!
//! ```text
//! C000  4C F5 C5  JMP $C5F5                       A:00 X:00 Y:00 P:24 SP:FD
//! ```
//!
//! Tracing looks at memory and never reads it: no register of the PPU
//! notices.

use vstd::prelude::*;
use vstd::string::*;
use crate::cpu::state::{indexed, next_in_page, CpuState};
use crate::cpu::{AddressingMode, CPU};
use crate::mem::{high_byte, low_byte, make_word, next_addr, split_word, word};
use crate::opcode::{operation_at, operation_of, OpCode, Operation};

verus! {

/// The sixteen hexadecimal digits.
pub const HEX_DIGITS: [&'static str; 16] = [
    "0", "1", "2", "3", "4", "5", "6", "7", "8", "9", "A", "B", "C", "D", "E", "F",
];

/// A byte as two hexadecimal digits.
pub open spec fn hex_byte(value: u8) -> Seq<char> {
    HEX_DIGITS[(value / 16) as int]@ + HEX_DIGITS[(value % 16) as int]@
}

/// A word as four hexadecimal digits.
pub open spec fn hex_word(value: u16) -> Seq<char> {
    hex_byte(high_byte(value)) + hex_byte(low_byte(value))
}

/// The bytes of an instruction of `len` bytes, in eight columns.
pub open spec fn opcode_bytes_text(len: u8, one: u8, two: u8, three: u8) -> Seq<char> {
    if len == 1 {
        hex_byte(one) + "      "@
    } else if len == 2 {
        hex_byte(one) + " "@ + hex_byte(two) + "   "@
    } else {
        hex_byte(one) + " "@ + hex_byte(two) + " "@ + hex_byte(three)
    }
}

impl CpuState {
    /// The byte at `addr` as the tracer sees it.
    pub open spec fn peek(self, addr: u16) -> u8 {
        self.bus.peek(addr)
    }

    /// The word at `addr` as the tracer sees it.
    pub open spec fn peek_u16(self, addr: u16) -> u16 {
        word(self.peek(addr), self.peek(next_addr(addr)))
    }

    /// The word in the zero page at `ptr` as the tracer sees it.
    pub open spec fn peek_zero_page_word(self, ptr: u8) -> u16 {
        word(self.peek(ptr as u16), self.peek(ptr.wrapping_add(1) as u16))
    }

    /// The address that `mode` names when its operand bytes lie at `base`,
    /// found by looking: what `resolve` gives where no read has an effect.
    pub open spec fn peek_address(self, mode: AddressingMode, base: u16) -> u16 {
        match mode {
            AddressingMode::ZeroPage => self.peek(base) as u16,
            AddressingMode::ZeroPage_X => self.peek(base).wrapping_add(self.x) as u16,
            AddressingMode::ZeroPage_Y => self.peek(base).wrapping_add(self.y) as u16,
            AddressingMode::Absolute => self.peek_u16(base),
            AddressingMode::Absolute_X => indexed(self.peek_u16(base), self.x).0,
            AddressingMode::Absolute_Y => indexed(self.peek_u16(base), self.y).0,
            AddressingMode::Indirect => word(
                self.peek(self.peek_u16(base)),
                self.peek(next_in_page(self.peek_u16(base))),
            ),
            AddressingMode::Indirect_X => self.peek_zero_page_word(
                self.peek(base).wrapping_add(self.x),
            ),
            AddressingMode::Indirect_Y => indexed(
                self.peek_zero_page_word(self.peek(base)),
                self.y,
            ).0,
            _ => base,
        }
    }

    /// The operand of the instruction at the program counter as the log
    /// shows it, in 27 columns: the operand as written in assembler, then
    /// the address it comes to and the byte that lies there.
    pub open spec fn operand_text(self) -> Seq<char> {
        let code = self.peek(self.pc);
        let base = next_addr(self.pc);
        let two = self.peek(base);
        let entry = OpCode::of(code);
        let operation = operation_at(code);
        let addr = self.peek_address(entry.mode, base);
        let stored = self.peek(addr);
        match entry.mode {
            AddressingMode::NoneAddressing => if entry.len == 2 {
                "$"@ + hex_word(crate::cpu::alu::branch_target(base, two))
                    + "                      "@
            } else if operation is Asl || operation is Lsr || operation is Rol
                || operation is Ror {
                "A                          "@
            } else {
                "                           "@
            },
            AddressingMode::Implied => "                           "@,
            AddressingMode::Immediate => "#$"@ + hex_byte(two) + "                       "@,
            AddressingMode::ZeroPage => "$"@ + hex_byte(two) + " = "@ + hex_byte(stored)
                + "                   "@,
            AddressingMode::ZeroPage_X => "$"@ + hex_byte(two) + ",X @ "@ + hex_byte(
                low_byte(addr),
            ) + " = "@ + hex_byte(stored) + "            "@,
            AddressingMode::ZeroPage_Y => "$"@ + hex_byte(two) + ",Y @ "@ + hex_byte(
                low_byte(addr),
            ) + " = "@ + hex_byte(stored) + "            "@,
            AddressingMode::Absolute => if operation is Jmp || operation is Jsr {
                "$"@ + hex_word(addr) + "                      "@
            } else {
                "$"@ + hex_word(addr) + " = "@ + hex_byte(stored) + "                 "@
            },
            AddressingMode::Absolute_X => "$"@ + hex_word(self.peek_u16(base)) + ",X @ "@
                + hex_word(addr) + " = "@ + hex_byte(stored) + "        "@,
            AddressingMode::Absolute_Y => "$"@ + hex_word(self.peek_u16(base)) + ",Y @ "@
                + hex_word(addr) + " = "@ + hex_byte(stored) + "        "@,
            AddressingMode::Indirect => "($"@ + hex_word(self.peek_u16(base)) + ") = "@
                + hex_word(addr) + "             "@,
            AddressingMode::Indirect_X => "($"@ + hex_byte(two) + ",X) @ "@ + hex_byte(
                two.wrapping_add(self.x),
            ) + " = "@ + hex_word(addr) + " = "@ + hex_byte(stored) + "   "@,
            AddressingMode::Indirect_Y => "($"@ + hex_byte(two) + "),Y = "@ + hex_word(
                self.peek_zero_page_word(two),
            ) + " @ "@ + hex_word(addr) + " = "@ + hex_byte(stored) + " "@,
        }
    }

    /// The line of the log for the instruction at the program counter: the
    /// program counter, the bytes of the instruction, its mnemonic with a
    /// star before it where it is undocumented, its operand, and the
    /// registers.
    pub open spec fn trace_line(self) -> Seq<char> {
        let code = self.peek(self.pc);
        let two = self.peek(next_addr(self.pc));
        let three = self.peek(next_addr(next_addr(self.pc)));
        let entry = OpCode::of(code);
        hex_word(self.pc) + "  "@ + opcode_bytes_text(entry.len, code, two, three) + (if entry.undocumented {
            " *"@
        } else {
            "  "@
        }) + entry.mnemonic@ + " "@ + self.operand_text() + " A:"@ + hex_byte(self.a) + " X:"@
            + hex_byte(self.x) + " Y:"@ + hex_byte(self.y) + " P:"@ + hex_byte(self.p) + " SP:"@
            + hex_byte(self.sp)
    }
}

fn hex_byte_text(value: u8) -> (text: String)
    ensures
        text@ == hex_byte(value),
{
    let mut text = String::from_str(HEX_DIGITS[(value / 16) as usize]);
    text.append(HEX_DIGITS[(value % 16) as usize]);
    text
}

fn hex_word_text(value: u16) -> (text: String)
    ensures
        text@ == hex_word(value),
{
    let (lo, hi) = split_word(value);
    let mut text = hex_byte_text(hi);
    text.append(hex_byte_text(lo).as_str());
    text
}

fn opcode_bytes(len: u8, one: u8, two: u8, three: u8) -> (text: String)
    ensures
        text@ == opcode_bytes_text(len, one, two, three),
{
    let mut text = hex_byte_text(one);
    if len == 1 {
        text.append("      ");
    } else if len == 2 {
        text.append(" ");
        text.append(hex_byte_text(two).as_str());
        text.append("   ");
    } else {
        text.append(" ");
        text.append(hex_byte_text(two).as_str());
        text.append(" ");
        text.append(hex_byte_text(three).as_str());
    }
    text
}

impl CPU {
    fn peek_u16(&self, addr: u16) -> (value: u16)
        ensures
            value == self@.peek_u16(addr),
    {
        make_word(self.peek(addr), self.peek(addr.wrapping_add(1)))
    }

    fn peek_zero_page_word(&self, ptr: u8) -> (value: u16)
        ensures
            value == self@.peek_zero_page_word(ptr),
    {
        make_word(self.peek(ptr as u16), self.peek(ptr.wrapping_add(1) as u16))
    }

    /// The address that `mode` names when its operand bytes lie at `base`,
    /// found without reading.
    pub fn peek_address(&self, mode: &AddressingMode, base: u16) -> (addr: u16)
        ensures
            addr == self@.peek_address(*mode, base),
    {
        match mode {
            AddressingMode::ZeroPage => self.peek(base) as u16,
            AddressingMode::ZeroPage_X => self.peek(base).wrapping_add(self.register_x) as u16,
            AddressingMode::ZeroPage_Y => self.peek(base).wrapping_add(self.register_y) as u16,
            AddressingMode::Absolute => self.peek_u16(base),
            AddressingMode::Absolute_X => self.peek_u16(base).wrapping_add(
                self.register_x as u16,
            ),
            AddressingMode::Absolute_Y => self.peek_u16(base).wrapping_add(
                self.register_y as u16,
            ),
            AddressingMode::Indirect => {
                let ptr = self.peek_u16(base);
                let next = if ptr % 256 == 0xFF {
                    ptr - 0xFF
                } else {
                    ptr + 1
                };
                make_word(self.peek(ptr), self.peek(next))
            },
            AddressingMode::Indirect_X => self.peek_zero_page_word(
                self.peek(base).wrapping_add(self.register_x),
            ),
            AddressingMode::Indirect_Y => self.peek_zero_page_word(self.peek(base)).wrapping_add(
                self.register_y as u16,
            ),
            _ => base,
        }
    }

    fn operand_text(&self) -> (text: String)
        ensures
            text@ == self@.operand_text(),
    {
        let code = self.peek(self.program_counter);
        let base = self.program_counter.wrapping_add(1);
        let two = self.peek(base);
        let entry = OpCode::lookup(code);
        let operation = operation_of(code);
        let addr = self.peek_address(&entry.mode, base);
        let stored = self.peek(addr);
        match entry.mode {
            AddressingMode::NoneAddressing => {
                if entry.len == 2 {
                    let mut text = String::from_str("$");
                    text.append(
                        hex_word_text(crate::cpu::alu::exec_branch_target(base, two)).as_str(),
                    );
                    text.append("                      ");
                    text
                } else {
                    match operation {
                        Operation::Asl | Operation::Lsr | Operation::Rol
                        | Operation::Ror => String::from_str("A                          "),
                        _ => String::from_str("                           "),
                    }
                }
            },
            AddressingMode::Implied => String::from_str("                           "),
            AddressingMode::Immediate => {
                let mut text = String::from_str("#$");
                text.append(hex_byte_text(two).as_str());
                text.append("                       ");
                text
            },
            AddressingMode::ZeroPage => {
                let mut text = String::from_str("$");
                text.append(hex_byte_text(two).as_str());
                text.append(" = ");
                text.append(hex_byte_text(stored).as_str());
                text.append("                   ");
                text
            },
            AddressingMode::ZeroPage_X => {
                let mut text = String::from_str("$");
                text.append(hex_byte_text(two).as_str());
                text.append(",X @ ");
                text.append(hex_byte_text(split_word(addr).0).as_str());
                text.append(" = ");
                text.append(hex_byte_text(stored).as_str());
                text.append("            ");
                text
            },
            AddressingMode::ZeroPage_Y => {
                let mut text = String::from_str("$");
                text.append(hex_byte_text(two).as_str());
                text.append(",Y @ ");
                text.append(hex_byte_text(split_word(addr).0).as_str());
                text.append(" = ");
                text.append(hex_byte_text(stored).as_str());
                text.append("            ");
                text
            },
            AddressingMode::Absolute => {
                let mut text = String::from_str("$");
                text.append(hex_word_text(addr).as_str());
                match operation {
                    Operation::Jmp | Operation::Jsr => {
                        text.append("                      ");
                    },
                    _ => {
                        text.append(" = ");
                        text.append(hex_byte_text(stored).as_str());
                        text.append("                 ");
                    },
                }
                text
            },
            AddressingMode::Absolute_X => {
                let mut text = String::from_str("$");
                text.append(hex_word_text(self.peek_u16(base)).as_str());
                text.append(",X @ ");
                text.append(hex_word_text(addr).as_str());
                text.append(" = ");
                text.append(hex_byte_text(stored).as_str());
                text.append("        ");
                text
            },
            AddressingMode::Absolute_Y => {
                let mut text = String::from_str("$");
                text.append(hex_word_text(self.peek_u16(base)).as_str());
                text.append(",Y @ ");
                text.append(hex_word_text(addr).as_str());
                text.append(" = ");
                text.append(hex_byte_text(stored).as_str());
                text.append("        ");
                text
            },
            AddressingMode::Indirect => {
                let mut text = String::from_str("($");
                text.append(hex_word_text(self.peek_u16(base)).as_str());
                text.append(") = ");
                text.append(hex_word_text(addr).as_str());
                text.append("             ");
                text
            },
            AddressingMode::Indirect_X => {
                let mut text = String::from_str("($");
                text.append(hex_byte_text(two).as_str());
                text.append(",X) @ ");
                text.append(hex_byte_text(two.wrapping_add(self.register_x)).as_str());
                text.append(" = ");
                text.append(hex_word_text(addr).as_str());
                text.append(" = ");
                text.append(hex_byte_text(stored).as_str());
                text.append("   ");
                text
            },
            AddressingMode::Indirect_Y => {
                let mut text = String::from_str("($");
                text.append(hex_byte_text(two).as_str());
                text.append("),Y = ");
                text.append(hex_word_text(self.peek_zero_page_word(two)).as_str());
                text.append(" @ ");
                text.append(hex_word_text(addr).as_str());
                text.append(" = ");
                text.append(hex_byte_text(stored).as_str());
                text.append(" ");
                text
            },
        }
    }
}

/// The line of the log for the instruction that `cpu` is about to run.
pub fn trace(cpu: &CPU) -> (line: String)
    ensures
        line@ == cpu@.trace_line(),
{
    let code = cpu.peek(cpu.program_counter);
    let two = cpu.peek(cpu.program_counter.wrapping_add(1));
    let three = cpu.peek(cpu.program_counter.wrapping_add(1).wrapping_add(1));
    let entry = OpCode::lookup(code);
    let mut line = hex_word_text(cpu.program_counter);
    line.append("  ");
    line.append(opcode_bytes(entry.len, code, two, three).as_str());
    if entry.undocumented {
        line.append(" *");
    } else {
        line.append("  ");
    }
    line.append(entry.mnemonic);
    line.append(" ");
    line.append(cpu.operand_text().as_str());
    line.append(" A:");
    line.append(hex_byte_text(cpu.register_a).as_str());
    line.append(" X:");
    line.append(hex_byte_text(cpu.register_x).as_str());
    line.append(" Y:");
    line.append(hex_byte_text(cpu.register_y).as_str());
    line.append(" P:");
    line.append(hex_byte_text(cpu.status.bits()).as_str());
    line.append(" SP:");
    line.append(hex_byte_text(cpu.stack_pointer).as_str());
    line
}

} // verus!
