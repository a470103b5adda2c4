//! The processor as the contracts see it: its registers over the bus, and
//! what every instruction makes of them.

use vstd::prelude::*;
use crate::bits::{has_flag, with_flag};
use crate::bus::BusState;
use crate::cpu::alu::{
    add_binary, add_decimal, bit_tested, branch_target, compared, pages_differ, pulled_status,
    pushed_status, rotate_left, rotate_right, shift_left, shift_right, sub_decimal, with_zn,
    Shifted, Sum, CARRY, DECIMAL_MODE, INTERRUPT_DISABLE, NEGATIVE, OVERFLOW,
};
use crate::cpu::AddressingMode;
use crate::error::CpuError;
use crate::mem::{high_byte, low_byte, next_addr, word};
use crate::opcode::{operation_at, OpCode, Operation};

verus! {

/// The page that holds the stack.
pub const STACK: u16 = 0x0100;

/// The stack pointer after a reset.
pub const STACK_RESET: u8 = 0xFD;

/// The status byte after a reset: interrupts disabled, the unused flag set.
pub const STATUS_RESET: u8 = 0b0010_0100;

/// Where the address of the NMI handler lies.
pub const NMI_VECTOR: u16 = 0xFFFA;

/// Where the address of the reset handler lies.
pub const RESET_VECTOR: u16 = 0xFFFC;

/// Where the address of the handler for BRK and IRQ lies.
pub const IRQ_VECTOR: u16 = 0xFFFE;

/// Cycles that entering an interrupt handler takes.
pub const INTERRUPT_CYCLES: u8 = 7;

/// The opcode byte of BRK.
pub const BRK: u8 = 0x00;

/// The processor as the contracts see it.
pub struct CpuState {
    pub a: u8,
    pub x: u8,
    pub y: u8,
    pub sp: u8,
    pub p: u8,
    pub pc: u16,
    pub bus: BusState,
    pub decimal_enabled: bool,
    pub paused: bool,
}

/// Where a piece of work leaves the processor, and what it gives, or why it
/// was given up.
pub type Step<T> = (CpuState, Result<T, CpuError>);

/// One piece of work and then, if it was done, another on what it gave.
pub open spec fn and_then<A, B>(first: Step<A>, next: spec_fn(CpuState, A) -> Step<B>) -> Step<B> {
    match first.1 {
        Ok(value) => next(first.0, value),
        Err(e) => (first.0, Err(e)),
    }
}

/// An address and whether reaching it crossed a page.
pub type Target = (u16, bool);

/// `base` moved on by an index register, modulo the address space, and
/// whether that left the page of `base`.
pub open spec fn indexed(base: u16, index: u8) -> Target {
    let addr = ((base + index) % 0x10000) as u16;
    (addr, pages_differ(base, addr))
}

/// The address after `ptr` within the page of `ptr`: the 6502 does not carry
/// into the high byte when it fetches the target of an indirect jump.
pub open spec fn next_in_page(ptr: u16) -> u16 {
    if ptr % 256 == 0xFF {
        (ptr - 0xFF) as u16
    } else {
        (ptr + 1) as u16
    }
}

/// One where a page was crossed, else zero: the cycles that a read pays for
/// crossing.
pub open spec fn crossing_cycles(crossed: bool) -> u8 {
    if crossed {
        1
    } else {
        0
    }
}

impl AddressingMode {
    /// The mode names an operand.
    pub open spec fn has_operand(self) -> bool {
        !(self is Implied) && !(self is NoneAddressing)
    }

    /// The mode names an operand in memory.
    pub open spec fn in_memory(self) -> bool {
        self.has_operand() && !(self is Immediate)
    }
}

impl Operation {
    /// The operation works on an operand in every form, so that it cannot
    /// stand with a mode that names none.
    pub open spec fn needs_operand(self) -> bool {
        match self {
            Operation::Adc | Operation::Alr | Operation::Anc | Operation::And | Operation::Arr
            | Operation::Atx | Operation::Axa | Operation::Axs | Operation::Bit | Operation::Cmp
            | Operation::Cpx | Operation::Cpy | Operation::Dcp | Operation::Dec | Operation::Eor
            | Operation::Inc | Operation::Isb | Operation::Jmp | Operation::Lar | Operation::Lax
            | Operation::Lda | Operation::Ldx | Operation::Ldy | Operation::Ora | Operation::Rla
            | Operation::Rra | Operation::Sax | Operation::Sbc | Operation::Slo | Operation::Sre
            | Operation::Sta | Operation::Stx | Operation::Sty | Operation::Sxa | Operation::Sya
            | Operation::Xaa | Operation::Xas => true,
            _ => false,
        }
    }
}

impl Operation {
    /// A load, a store, a transfer between registers or a stack instruction.
    pub open spec fn is_transfer(self) -> bool {
        matches!(self, Operation::Lda | Operation::Ldx | Operation::Ldy | Operation::Sta | Operation::Stx | Operation::Sty | Operation::Tax | Operation::Tay | Operation::Tsx | Operation::Txa | Operation::Txs | Operation::Tya | Operation::Pha | Operation::Php | Operation::Pla | Operation::Plp)
    }

    /// An instruction of arithmetic or logic, a comparison, an increment or a decrement.
    pub open spec fn is_arithmetic(self) -> bool {
        matches!(self, Operation::Adc | Operation::Sbc | Operation::And | Operation::Ora | Operation::Eor | Operation::Bit | Operation::Cmp | Operation::Cpx | Operation::Cpy | Operation::Inc | Operation::Dec | Operation::Inx | Operation::Iny | Operation::Dex | Operation::Dey)
    }

    /// A shift or a rotation.
    pub open spec fn is_shift(self) -> bool {
        matches!(self, Operation::Asl | Operation::Lsr | Operation::Rol | Operation::Ror)
    }

    /// A conditional branch.
    pub open spec fn is_branch(self) -> bool {
        matches!(self, Operation::Bcc | Operation::Bcs | Operation::Beq | Operation::Bne | Operation::Bmi | Operation::Bpl | Operation::Bvc | Operation::Bvs)
    }

    /// A jump, a call, a return, a flag instruction, NOP or a halt.
    pub open spec fn is_control(self) -> bool {
        matches!(self, Operation::Jmp | Operation::Jsr | Operation::Rts | Operation::Rti | Operation::Brk | Operation::Nop | Operation::Hlt | Operation::Clc | Operation::Cld | Operation::Cli | Operation::Clv | Operation::Sec | Operation::Sed | Operation::Sei)
    }

    /// An undocumented instruction that reads, writes back and then works on the accumulator.
    pub open spec fn is_combined(self) -> bool {
        matches!(self, Operation::Dcp | Operation::Isb | Operation::Slo | Operation::Rla | Operation::Sre | Operation::Rra)
    }

    /// Another undocumented instruction.
    pub open spec fn is_undocumented(self) -> bool {
        matches!(self, Operation::Lax | Operation::Sax | Operation::Alr | Operation::Anc | Operation::Arr | Operation::Axs | Operation::Atx | Operation::Axa | Operation::Sxa | Operation::Sya | Operation::Xas | Operation::Lar | Operation::Xaa)
    }
}

impl CpuState {
    /// A processor fresh from the factory on the given bus.
    pub open spec fn power_on(bus: BusState) -> CpuState {
        CpuState {
            a: 0,
            x: 0,
            y: 0,
            sp: STACK_RESET,
            p: STATUS_RESET,
            pc: 0,
            bus,
            decimal_enabled: false,
            paused: false,
        }
    }

    /// The processor after a reset: registers cleared, the stack pointer and
    /// the status at their reset values, the program counter taken from the
    /// reset vector. Memory is as it was.
    pub open spec fn reset(self) -> CpuState {
        CpuState {
            a: 0,
            x: 0,
            y: 0,
            sp: STACK_RESET,
            p: STATUS_RESET,
            pc: word(self.bus.peek(RESET_VECTOR), self.bus.peek(next_addr(RESET_VECTOR))),
            ..self
        }
    }

    /// The flag is set.
    pub open spec fn flag(self, mask: u8) -> bool {
        has_flag(self.p, mask)
    }

    /// The processor with a flag set or cleared.
    pub open spec fn with_flag(self, mask: u8, on: bool) -> CpuState {
        CpuState { p: with_flag(self.p, mask, on), ..self }
    }

    /// The processor with zero and negative set from a result.
    pub open spec fn set_zn(self, result: u8) -> CpuState {
        CpuState { p: with_zn(self.p, result), ..self }
    }

    /// The processor with another program counter.
    pub open spec fn with_pc(self, pc: u16) -> CpuState {
        CpuState { pc, ..self }
    }

    // ---------------------------------------------------------------
    // Memory
    // ---------------------------------------------------------------
    /// A read of the byte at `addr`.
    pub open spec fn read(self, addr: u16) -> Step<u8> {
        let (bus, r) = self.bus.read(addr);
        (CpuState { bus, ..self }, r)
    }

    /// A write of `data` to `addr`.
    pub open spec fn write(self, addr: u16, data: u8) -> Step<()> {
        let (bus, r) = self.bus.write(addr, data);
        (CpuState { bus, ..self }, r)
    }

    /// A read of the word at `pos`, low byte first.
    pub open spec fn read_u16(self, pos: u16) -> Step<u16> {
        let (bus, r) = self.bus.read_u16(pos);
        (CpuState { bus, ..self }, r)
    }

    /// A write of the word `data` at `pos`, low byte first.
    pub open spec fn write_u16(self, pos: u16, data: u16) -> Step<()> {
        let (bus, r) = self.bus.write_u16(pos, data);
        (CpuState { bus, ..self }, r)
    }

    /// A read of the word in the zero page at `ptr`; the high byte comes
    /// from `ptr + 1` modulo 256, so that the word never leaves the page.
    pub open spec fn read_zero_page_word(self, ptr: u8) -> Step<u16> {
        and_then(
            self.read(ptr as u16),
            |s: CpuState, lo: u8|
                and_then(
                    s.read(ptr.wrapping_add(1) as u16),
                    |s: CpuState, hi: u8| (s, Ok(word(lo, hi))),
                ),
        )
    }

    /// The bytes `bytes[from..]` written to `addr` and the addresses after
    /// it; the first refused write ends the work.
    pub open spec fn write_bytes(self, bytes: Seq<u8>, from: int, addr: u16) -> Step<()>
        decreases bytes.len() - from,
    {
        if from < 0 || from >= bytes.len() {
            (self, Ok(()))
        } else {
            let (s, r) = self.write(addr, bytes[from]);
            match r {
                Ok(_) => s.write_bytes(bytes, from + 1, next_addr(addr)),
                Err(e) => (s, Err(e)),
            }
        }
    }

    /// A program written to memory from `addr` on, and `addr` written to
    /// the reset vector.
    pub open spec fn load_at(self, program: Seq<u8>, addr: u16) -> Step<()> {
        and_then(
            self.write_bytes(program, 0, addr),
            |s: CpuState, done: ()| s.write_u16(RESET_VECTOR, addr),
        )
    }

    // ---------------------------------------------------------------
    // Addressing
    // ---------------------------------------------------------------
    /// The address that `mode` names when its operand bytes lie at `base`,
    /// and whether indexing crossed a page.
    ///
    /// | mode | address |
    /// |---|---|
    /// | `Immediate` | `base` itself |
    /// | `ZeroPage` | the byte at `base` |
    /// | `ZeroPage_X`, `ZeroPage_Y` | that byte plus the register, modulo 256 |
    /// | `Absolute` | the word at `base` |
    /// | `Absolute_X`, `Absolute_Y` | that word plus the register |
    /// | `Indirect` | the word at the word at `base`, fetched within one page |
    /// | `Indirect_X` | the zero-page word at the byte at `base` plus X, modulo 256 |
    /// | `Indirect_Y` | the zero-page word at the byte at `base`, plus Y |
    ///
    /// A mode that names no operand resolves like `Immediate`; no
    /// executable function is called with one.
    #[verifier::opaque]
    pub open spec fn resolve(self, mode: AddressingMode, base: u16) -> Step<Target> {
        match mode {
            AddressingMode::ZeroPage => and_then(
                self.read(base),
                |s: CpuState, zp: u8| (s, Ok((zp as u16, false))),
            ),
            AddressingMode::ZeroPage_X => and_then(
                self.read(base),
                |s: CpuState, zp: u8| (s, Ok((zp.wrapping_add(s.x) as u16, false))),
            ),
            AddressingMode::ZeroPage_Y => and_then(
                self.read(base),
                |s: CpuState, zp: u8| (s, Ok((zp.wrapping_add(s.y) as u16, false))),
            ),
            AddressingMode::Absolute => and_then(
                self.read_u16(base),
                |s: CpuState, addr: u16| (s, Ok((addr, false))),
            ),
            AddressingMode::Absolute_X => and_then(
                self.read_u16(base),
                |s: CpuState, addr: u16| (s, Ok(indexed(addr, s.x))),
            ),
            AddressingMode::Absolute_Y => and_then(
                self.read_u16(base),
                |s: CpuState, addr: u16| (s, Ok(indexed(addr, s.y))),
            ),
            AddressingMode::Indirect => and_then(
                self.read_u16(base),
                |s: CpuState, ptr: u16|
                    and_then(
                        s.read(ptr),
                        |s: CpuState, lo: u8|
                            and_then(
                                s.read(next_in_page(ptr)),
                                |s: CpuState, hi: u8| (s, Ok((word(lo, hi), false))),
                            ),
                    ),
            ),
            AddressingMode::Indirect_X => and_then(
                self.read(base),
                |s: CpuState, zp: u8|
                    and_then(
                        s.read_zero_page_word(zp.wrapping_add(s.x)),
                        |s: CpuState, addr: u16| (s, Ok((addr, false))),
                    ),
            ),
            AddressingMode::Indirect_Y => and_then(
                self.read(base),
                |s: CpuState, zp: u8|
                    and_then(
                        s.read_zero_page_word(zp),
                        |s: CpuState, addr: u16| (s, Ok(indexed(addr, s.y))),
                    ),
            ),
            _ => (self, Ok((base, false))),
        }
    }

    /// The address of the operand of the instruction whose operand bytes
    /// lie at the program counter.
    pub open spec fn operand_address(self, mode: AddressingMode) -> Step<Target> {
        self.resolve(mode, self.pc)
    }

    /// The operand itself, and whether reaching it crossed a page.
    pub open spec fn read_operand(self, mode: AddressingMode) -> Step<(u8, bool)> {
        and_then(
            self.operand_address(mode),
            |s: CpuState, target: Target|
                and_then(s.read(target.0), |s: CpuState, value: u8| (s, Ok((value, target.1)))),
        )
    }

    // ---------------------------------------------------------------
    // Stack
    // ---------------------------------------------------------------
    /// The address that the stack pointer names.
    pub open spec fn stack_addr(self) -> u16 {
        (STACK + self.sp) as u16
    }

    /// A byte pushed: written where the stack pointer points, which then
    /// moves down by one, modulo 256.
    pub open spec fn push(self, data: u8) -> CpuState {
        CpuState { sp: self.sp.wrapping_sub(1), ..self.write(self.stack_addr(), data).0 }
    }

    /// A word pushed, high byte first.
    pub open spec fn push_u16(self, data: u16) -> CpuState {
        self.push(high_byte(data)).push(low_byte(data))
    }

    /// A byte pulled: the stack pointer moves up by one, modulo 256, and
    /// the byte is read where it then points.
    pub open spec fn pop(self) -> (CpuState, u8) {
        let up = CpuState { sp: self.sp.wrapping_add(1), ..self };
        let (s, r) = up.read(up.stack_addr());
        (
            s,
            match r {
                Ok(value) => value,
                Err(_) => 0,
            },
        )
    }

    /// A word pulled, low byte first.
    pub open spec fn pop_u16(self) -> (CpuState, u16) {
        let (s1, lo) = self.pop();
        let (s2, hi) = s1.pop();
        (s2, word(lo, hi))
    }

    // ---------------------------------------------------------------
    // What the instructions make of an operand
    // ---------------------------------------------------------------
    /// A byte loaded into the accumulator.
    pub open spec fn load_a(self, value: u8) -> CpuState {
        CpuState { a: value, ..self }.set_zn(value)
    }

    /// A byte loaded into X.
    pub open spec fn load_x(self, value: u8) -> CpuState {
        CpuState { x: value, ..self }.set_zn(value)
    }

    /// A byte loaded into Y.
    pub open spec fn load_y(self, value: u8) -> CpuState {
        CpuState { y: value, ..self }.set_zn(value)
    }

    /// Decimal arithmetic is switched on and the decimal flag is set.
    pub open spec fn in_decimal_mode(self) -> bool {
        self.decimal_enabled && self.flag(DECIMAL_MODE)
    }

    /// A sum taken into the accumulator, with carry, overflow, zero and
    /// negative.
    pub open spec fn take_sum(self, sum: Sum) -> CpuState {
        CpuState { a: sum.result, ..self }.with_flag(CARRY, sum.carry).with_flag(
            OVERFLOW,
            sum.overflow,
        ).set_zn(sum.result)
    }

    /// ADC: the byte and the carry are added to the accumulator, in decimal
    /// where decimal mode holds.
    pub open spec fn add_to_a(self, m: u8) -> CpuState {
        if self.in_decimal_mode() {
            self.take_sum(add_decimal(self.a, m, self.flag(CARRY)))
        } else {
            self.take_sum(add_binary(self.a, m, self.flag(CARRY)))
        }
    }

    /// SBC: the byte and the borrow are subtracted from the accumulator. In
    /// binary this is ADC of the byte's complement.
    pub open spec fn subtract_from_a(self, m: u8) -> CpuState {
        if self.in_decimal_mode() {
            self.take_sum(sub_decimal(self.a, m, self.flag(CARRY)))
        } else {
            self.take_sum(add_binary(self.a, !m, self.flag(CARRY)))
        }
    }

    /// A register compared with a byte; only flags change.
    pub open spec fn compare(self, register: u8, m: u8) -> CpuState {
        CpuState { p: compared(self.p, register, m), ..self }
    }

    /// Zero, negative and carry set from a shift or rotation.
    pub open spec fn with_shift(self, shifted: Shifted) -> CpuState {
        self.set_zn(shifted.result).with_flag(CARRY, shifted.carry)
    }

    /// A shift or rotation taken into the accumulator.
    pub open spec fn shift_a(self, shifted: Shifted) -> CpuState {
        CpuState { a: shifted.result, ..self }.with_shift(shifted)
    }

    /// ARR, after its AND: the accumulator is rotated right; then carry is
    /// its bit 6, and overflow tells whether its bits 5 and 6 differ.
    pub open spec fn rotate_after_and(self) -> CpuState {
        let s = self.shift_a(rotate_right(self.a, self.flag(CARRY)));
        let five = s.a & 0b0010_0000 == 0b0010_0000;
        let six = s.a & 0b0100_0000 == 0b0100_0000;
        s.with_flag(OVERFLOW, five != six).with_flag(CARRY, six)
    }

    /// AXS: X becomes accumulator AND X, less the byte; carry tells that no
    /// borrow was needed.
    pub open spec fn and_x_minus(self, m: u8) -> CpuState {
        let both = self.a & self.x;
        let result = both.wrapping_sub(m);
        CpuState { x: result, ..self }.with_flag(CARRY, both >= m).set_zn(result)
    }

    /// LAR: accumulator, X and stack pointer all become the byte AND the
    /// stack pointer.
    pub open spec fn and_stack(self, m: u8) -> CpuState {
        let data = m & self.sp;
        CpuState { a: data, x: data, sp: data, ..self }.set_zn(data)
    }

    /// An instruction that reads its operand: `apply` says what the operand
    /// makes of the registers. It costs a cycle more where reaching the
    /// operand crossed a page.
    #[verifier::opaque]
    pub open spec fn read_then(
        self,
        mode: AddressingMode,
        apply: spec_fn(CpuState, u8) -> CpuState,
    ) -> Step<u8> {
        and_then(
            self.read_operand(mode),
            |s: CpuState, operand: (u8, bool)|
                (apply(s, operand.0), Ok(crossing_cycles(operand.1))),
        )
    }

    /// An instruction that stores: `value` says which byte goes to the
    /// address.
    #[verifier::opaque]
    pub open spec fn store(self, mode: AddressingMode, value: spec_fn(CpuState, u16) -> u8) -> Step<
        u8,
    > {
        and_then(
            self.operand_address(mode),
            |s: CpuState, target: Target|
                and_then(
                    s.write(target.0, value(s, target.0)),
                    |s: CpuState, done: ()| (s, Ok(0u8)),
                ),
        )
    }

    /// An instruction that reads a byte of memory, writes another in its
    /// place and then works on the registers: `change` gives the new byte
    /// for the old, `after` says what old and new byte make of the
    /// registers.
    #[verifier::opaque]
    pub open spec fn modify(
        self,
        mode: AddressingMode,
        change: spec_fn(CpuState, u8) -> u8,
        after: spec_fn(CpuState, u8, u8) -> CpuState,
    ) -> Step<u8> {
        and_then(
            self.operand_address(mode),
            |s: CpuState, target: Target|
                and_then(
                    s.read(target.0),
                    |s: CpuState, old: u8|
                        and_then(
                            s.write(target.0, change(s, old)),
                            |s2: CpuState, done: ()| (after(s2, old, change(s, old)), Ok(0u8)),
                        ),
                ),
        )
    }

    /// A branch: where the condition holds, the operand byte is read and
    /// the program counter moves by it. A branch taken costs a cycle, and
    /// one more where it leaves the page of the next instruction.
    #[verifier::opaque]
    pub open spec fn branch(self, condition: bool) -> Step<u8> {
        if condition {
            and_then(
                self.read(self.pc),
                |s: CpuState, offset: u8|
                    {
                        let target = branch_target(s.pc, offset);
                        (
                            s.with_pc(target),
                            Ok(
                                if pages_differ(next_addr(s.pc), target) {
                                    2u8
                                } else {
                                    1u8
                                },
                            ),
                        )
                    },
            )
        } else {
            (self, Ok(0))
        }
    }

    /// JSR: the address of the last byte of the instruction is pushed, and
    /// the program counter becomes the operand word.
    #[verifier::opaque]
    pub open spec fn jsr(self) -> Step<u8> {
        and_then(
            self.push_u16(next_addr(self.pc)).read_u16(self.pc),
            |s: CpuState, target: u16| (s.with_pc(target), Ok(0u8)),
        )
    }

    /// RTS: a word is pulled, and the program counter becomes the address
    /// after it.
    #[verifier::opaque]
    pub open spec fn rts(self) -> CpuState {
        let (s, addr) = self.pop_u16();
        s.with_pc(next_addr(addr))
    }

    /// RTI: the status is pulled, then the program counter.
    #[verifier::opaque]
    pub open spec fn rti(self) -> CpuState {
        let (s1, status) = self.pop();
        let (s2, addr) = CpuState { p: pulled_status(status), ..s1 }.pop_u16();
        s2.with_pc(addr)
    }

    /// PLA: a byte is pulled into the accumulator.
    #[verifier::opaque]
    pub open spec fn pla(self) -> CpuState {
        let (s, value) = self.pop();
        s.load_a(value)
    }

    /// PLP: the status is pulled.
    #[verifier::opaque]
    pub open spec fn plp(self) -> CpuState {
        let (s, status) = self.pop();
        CpuState { p: pulled_status(status), ..s }
    }

    /// Entering a handler: the return address and the status are pushed,
    /// interrupts are disabled, and the program counter is taken from the
    /// vector.
    #[verifier::opaque]
    pub open spec fn enter_handler(self, return_addr: u16, status: u8, vector: u16) -> Step<()> {
        and_then(
            self.push_u16(return_addr).push(status).with_flag(INTERRUPT_DISABLE, true).read_u16(
                vector,
            ),
            |s: CpuState, handler: u16| (s.with_pc(handler), Ok(())),
        )
    }

    /// BRK: the address two behind the opcode and the status with break set
    /// are pushed; the handler is that of IRQ.
    #[verifier::opaque]
    pub open spec fn brk(self) -> Step<u8> {
        and_then(
            self.enter_handler(next_addr(self.pc), pushed_status(self.p), IRQ_VECTOR),
            |s: CpuState, done: ()| (s, Ok(0u8)),
        )
    }

    /// An interrupt taken between two instructions: the program counter and
    /// the status with break clear are pushed.
    pub open spec fn interrupt(self, vector: u16) -> Step<()> {
        self.enter_handler(self.pc, pulled_status(self.p), vector)
    }

    /// ADC: adds the operand and the carry to the accumulator.
    #[verifier::opaque]
    pub open spec fn adc(self, mode: AddressingMode) -> Step<u8> {
        self.read_then(mode, |s: CpuState, m: u8| s.add_to_a(m))
    }

    /// AND: the accumulator becomes accumulator AND operand.
    #[verifier::opaque]
    pub open spec fn and(self, mode: AddressingMode) -> Step<u8> {
        self.read_then(mode, |s: CpuState, m: u8| s.load_a(s.a & m))
    }

    /// ASL: shifts the operand, or the accumulator where the mode names no
    /// operand, left.
    #[verifier::opaque]
    pub open spec fn asl(self, mode: AddressingMode) -> Step<u8> {
        if mode.has_operand() {
            self.modify(
                mode,
                |s: CpuState, v: u8| shift_left(v).result,
                |s: CpuState, v: u8, n: u8| s.with_shift(shift_left(v)),
            )
        } else {
            (self.shift_a(shift_left(self.a)), Ok(0))
        }
    }

    /// BIT: tests the operand against the accumulator; only flags change.
    #[verifier::opaque]
    pub open spec fn bit(self, mode: AddressingMode) -> Step<u8> {
        self.read_then(
            mode,
            |s: CpuState, m: u8| CpuState { p: bit_tested(s.p, s.a, m), ..s },
        )
    }

    /// CMP: compares the accumulator with the operand.
    #[verifier::opaque]
    pub open spec fn cpa(self, mode: AddressingMode) -> Step<u8> {
        self.read_then(mode, |s: CpuState, m: u8| s.compare(s.a, m))
    }

    /// CPX: compares X with the operand.
    #[verifier::opaque]
    pub open spec fn cpx(self, mode: AddressingMode) -> Step<u8> {
        self.read_then(mode, |s: CpuState, m: u8| s.compare(s.x, m))
    }

    /// CPY: compares Y with the operand.
    #[verifier::opaque]
    pub open spec fn cpy(self, mode: AddressingMode) -> Step<u8> {
        self.read_then(mode, |s: CpuState, m: u8| s.compare(s.y, m))
    }

    /// DEC: the operand becomes one less, modulo 256.
    #[verifier::opaque]
    pub open spec fn dec(self, mode: AddressingMode) -> Step<u8> {
        self.modify(
            mode,
            |s: CpuState, v: u8| v.wrapping_sub(1),
            |s: CpuState, v: u8, n: u8| s.set_zn(n),
        )
    }

    /// EOR: the accumulator becomes accumulator XOR operand.
    #[verifier::opaque]
    pub open spec fn eor(self, mode: AddressingMode) -> Step<u8> {
        self.read_then(mode, |s: CpuState, m: u8| s.load_a(s.a ^ m))
    }

    /// INC: the operand becomes one more, modulo 256.
    #[verifier::opaque]
    pub open spec fn inc(self, mode: AddressingMode) -> Step<u8> {
        self.modify(
            mode,
            |s: CpuState, v: u8| v.wrapping_add(1),
            |s: CpuState, v: u8, n: u8| s.set_zn(n),
        )
    }

    /// JMP: the program counter becomes the address of the operand.
    #[verifier::opaque]
    pub open spec fn jmp(self, mode: AddressingMode) -> Step<u8> {
        and_then(
            self.operand_address(mode),
            |s: CpuState, target: Target| (s.with_pc(target.0), Ok(0u8)),
        )
    }

    /// LDA: loads the operand into the accumulator.
    #[verifier::opaque]
    pub open spec fn lda(self, mode: AddressingMode) -> Step<u8> {
        self.read_then(mode, |s: CpuState, m: u8| s.load_a(m))
    }

    /// LDX: loads the operand into X.
    #[verifier::opaque]
    pub open spec fn ldx(self, mode: AddressingMode) -> Step<u8> {
        self.read_then(mode, |s: CpuState, m: u8| s.load_x(m))
    }

    /// LDY: loads the operand into Y.
    #[verifier::opaque]
    pub open spec fn ldy(self, mode: AddressingMode) -> Step<u8> {
        self.read_then(mode, |s: CpuState, m: u8| s.load_y(m))
    }

    /// LSR: shifts the operand, or the accumulator where the mode names no
    /// operand, right.
    #[verifier::opaque]
    pub open spec fn lsr(self, mode: AddressingMode) -> Step<u8> {
        if mode.has_operand() {
            self.modify(
                mode,
                |s: CpuState, v: u8| shift_right(v).result,
                |s: CpuState, v: u8, n: u8| s.with_shift(shift_right(v)),
            )
        } else {
            (self.shift_a(shift_right(self.a)), Ok(0))
        }
    }

    /// NOP: changes nothing; where its mode names an operand in memory, that
    /// operand is read.
    #[verifier::opaque]
    pub open spec fn nop(self, mode: AddressingMode) -> Step<u8> {
        if mode.in_memory() {
            self.read_then(mode, |s: CpuState, m: u8| s)
        } else {
            (self, Ok(0))
        }
    }

    /// ORA: the accumulator becomes accumulator OR operand.
    #[verifier::opaque]
    pub open spec fn ora(self, mode: AddressingMode) -> Step<u8> {
        self.read_then(mode, |s: CpuState, m: u8| s.load_a(s.a | m))
    }

    /// ROL: rotates the operand, or the accumulator where the mode names no
    /// operand, left through carry.
    #[verifier::opaque]
    pub open spec fn rol(self, mode: AddressingMode) -> Step<u8> {
        if mode.has_operand() {
            self.modify(
                mode,
                |s: CpuState, v: u8| rotate_left(v, s.flag(CARRY)).result,
                |s: CpuState, v: u8, n: u8| s.with_shift(rotate_left(v, s.flag(CARRY))),
            )
        } else {
            (self.shift_a(rotate_left(self.a, self.flag(CARRY))), Ok(0))
        }
    }

    /// ROR: rotates the operand, or the accumulator where the mode names no
    /// operand, right through carry.
    #[verifier::opaque]
    pub open spec fn ror(self, mode: AddressingMode) -> Step<u8> {
        if mode.has_operand() {
            self.modify(
                mode,
                |s: CpuState, v: u8| rotate_right(v, s.flag(CARRY)).result,
                |s: CpuState, v: u8, n: u8| s.with_shift(rotate_right(v, s.flag(CARRY))),
            )
        } else {
            (self.shift_a(rotate_right(self.a, self.flag(CARRY))), Ok(0))
        }
    }

    /// SBC: subtracts the operand and the borrow from the accumulator.
    #[verifier::opaque]
    pub open spec fn sbc(self, mode: AddressingMode) -> Step<u8> {
        self.read_then(mode, |s: CpuState, m: u8| s.subtract_from_a(m))
    }

    /// STA: stores the accumulator.
    #[verifier::opaque]
    pub open spec fn sta(self, mode: AddressingMode) -> Step<u8> {
        self.store(mode, |s: CpuState, addr: u16| s.a)
    }

    /// STX: stores X.
    #[verifier::opaque]
    pub open spec fn stx(self, mode: AddressingMode) -> Step<u8> {
        self.store(mode, |s: CpuState, addr: u16| s.x)
    }

    /// STY: stores Y.
    #[verifier::opaque]
    pub open spec fn sty(self, mode: AddressingMode) -> Step<u8> {
        self.store(mode, |s: CpuState, addr: u16| s.y)
    }

    /// ALR: AND, then the accumulator is shifted right.
    #[verifier::opaque]
    pub open spec fn alr(self, mode: AddressingMode) -> Step<u8> {
        self.read_then(
            mode,
            |s: CpuState, m: u8| s.load_a(s.a & m).shift_a(shift_right(s.a & m)),
        )
    }

    /// ANC: AND, then carry becomes negative.
    #[verifier::opaque]
    pub open spec fn anc(self, mode: AddressingMode) -> Step<u8> {
        self.read_then(
            mode,
            |s: CpuState, m: u8| s.load_a(s.a & m).with_flag(CARRY, s.load_a(s.a & m).flag(NEGATIVE)),
        )
    }

    /// ARR: AND, then the accumulator is rotated right, with carry and
    /// overflow from its bits 5 and 6.
    #[verifier::opaque]
    pub open spec fn arr(self, mode: AddressingMode) -> Step<u8> {
        self.read_then(mode, |s: CpuState, m: u8| s.load_a(s.a & m).rotate_after_and())
    }

    /// ATX: AND, then X becomes the accumulator.
    #[verifier::opaque]
    pub open spec fn atx(self, mode: AddressingMode) -> Step<u8> {
        self.read_then(
            mode,
            |s: CpuState, m: u8| CpuState { x: s.a & m, ..s.load_a(s.a & m) },
        )
    }

    /// AXA: stores accumulator AND X AND (high byte of the address plus one).
    /// The hardware is unstable here; this is one deterministic reading of
    /// it.
    #[verifier::opaque]
    pub open spec fn axa(self, mode: AddressingMode) -> Step<u8> {
        self.store(
            mode,
            |s: CpuState, addr: u16| s.a & s.x & high_byte(addr).wrapping_add(1),
        )
    }

    /// AXS: X becomes accumulator AND X, less the operand.
    #[verifier::opaque]
    pub open spec fn axs(self, mode: AddressingMode) -> Step<u8> {
        self.read_then(mode, |s: CpuState, m: u8| s.and_x_minus(m))
    }

    /// DCP: DEC, then CMP with the new byte.
    #[verifier::opaque]
    pub open spec fn dcp(self, mode: AddressingMode) -> Step<u8> {
        self.modify(
            mode,
            |s: CpuState, v: u8| v.wrapping_sub(1),
            |s: CpuState, v: u8, n: u8| s.compare(s.a, n),
        )
    }

    /// ISB: INC, then SBC of the new byte.
    #[verifier::opaque]
    pub open spec fn isb(self, mode: AddressingMode) -> Step<u8> {
        self.modify(
            mode,
            |s: CpuState, v: u8| v.wrapping_add(1),
            |s: CpuState, v: u8, n: u8| s.subtract_from_a(n),
        )
    }

    /// LAR: accumulator, X and stack pointer become operand AND stack
    /// pointer. Unstable on hardware.
    #[verifier::opaque]
    pub open spec fn lar(self, mode: AddressingMode) -> Step<u8> {
        self.read_then(mode, |s: CpuState, m: u8| s.and_stack(m))
    }

    /// LAX: LDA, then TAX.
    #[verifier::opaque]
    pub open spec fn lax(self, mode: AddressingMode) -> Step<u8> {
        self.read_then(mode, |s: CpuState, m: u8| s.load_a(m).load_x(m))
    }

    /// RLA: ROL, then AND with the new byte.
    #[verifier::opaque]
    pub open spec fn rla(self, mode: AddressingMode) -> Step<u8> {
        self.modify(
            mode,
            |s: CpuState, v: u8| rotate_left(v, s.flag(CARRY)).result,
            |s: CpuState, v: u8, n: u8|
                s.with_shift(rotate_left(v, s.flag(CARRY))).load_a(s.a & n),
        )
    }

    /// RRA: ROR, then ADC of the new byte.
    #[verifier::opaque]
    pub open spec fn rra(self, mode: AddressingMode) -> Step<u8> {
        self.modify(
            mode,
            |s: CpuState, v: u8| rotate_right(v, s.flag(CARRY)).result,
            |s: CpuState, v: u8, n: u8| s.with_shift(rotate_right(v, s.flag(CARRY))).add_to_a(n),
        )
    }

    /// SAX: stores accumulator AND X; no flag changes.
    #[verifier::opaque]
    pub open spec fn sax(self, mode: AddressingMode) -> Step<u8> {
        self.store(mode, |s: CpuState, addr: u16| s.a & s.x)
    }

    /// SLO: ASL, then ORA with the new byte.
    #[verifier::opaque]
    pub open spec fn slo(self, mode: AddressingMode) -> Step<u8> {
        self.modify(
            mode,
            |s: CpuState, v: u8| shift_left(v).result,
            |s: CpuState, v: u8, n: u8| s.with_shift(shift_left(v)).load_a(s.a | n),
        )
    }

    /// SRE: LSR, then EOR with the new byte.
    #[verifier::opaque]
    pub open spec fn sre(self, mode: AddressingMode) -> Step<u8> {
        self.modify(
            mode,
            |s: CpuState, v: u8| shift_right(v).result,
            |s: CpuState, v: u8, n: u8| s.with_shift(shift_right(v)).load_a(s.a ^ n),
        )
    }

    /// SXA: stores X AND (high byte of the address plus one). Unstable on
    /// hardware.
    #[verifier::opaque]
    pub open spec fn sxa(self, mode: AddressingMode) -> Step<u8> {
        self.store(
            mode,
            |s: CpuState, addr: u16| s.x & high_byte(addr).wrapping_add(1),
        )
    }

    /// SYA: stores Y AND (high byte of the address plus one). Unstable on
    /// hardware.
    #[verifier::opaque]
    pub open spec fn sya(self, mode: AddressingMode) -> Step<u8> {
        self.store(
            mode,
            |s: CpuState, addr: u16| s.y & high_byte(addr).wrapping_add(1),
        )
    }

    /// XAA: the accumulator becomes X AND operand; no flag changes. Unstable
    /// on hardware.
    #[verifier::opaque]
    pub open spec fn xaa(self, mode: AddressingMode) -> Step<u8> {
        self.read_then(mode, |s: CpuState, m: u8| CpuState { a: s.x & m, ..s })
    }

    /// XAS: the stack pointer becomes accumulator AND X, and is stored ANDed
    /// with (high byte of the address plus one). Unstable on hardware.
    #[verifier::opaque]
    pub open spec fn xas(self, mode: AddressingMode) -> Step<u8> {
        and_then(
            self.operand_address(mode),
            |s: CpuState, target: Target|
                CpuState { sp: s.a & s.x, ..s }.store_at(
                    target.0,
                    s.a & s.x & high_byte(target.0).wrapping_add(1),
                ),
        )
    }

    /// An interrupt request: taken like an interrupt, through the vector
    /// of IRQ and at the cost of seven cycles, unless interrupts are
    /// disabled; then nothing happens. The result is the number of cycles
    /// that passed.
    pub open spec fn irq(self) -> Step<u8> {
        if self.flag(INTERRUPT_DISABLE) {
            (self, Ok(0))
        } else {
            and_then(
                self.interrupt(IRQ_VECTOR),
                |s: CpuState, done: ()| (s.tick(INTERRUPT_CYCLES), Ok(INTERRUPT_CYCLES)),
            )
        }
    }

    /// What an operation with an addressing mode makes of the processor
    /// whose program counter stands behind the opcode byte, and how many
    /// cycles it takes beyond those of the table.
    #[verifier::opaque]
    pub open spec fn execute(self, operation: Operation, mode: AddressingMode) -> Step<u8> {
        match operation {
            Operation::Adc => self.adc(mode),
            Operation::And => self.and(mode),
            Operation::Asl => self.asl(mode),
            Operation::Bcc => self.branch(!self.flag(CARRY)),
            Operation::Bcs => self.branch(self.flag(CARRY)),
            Operation::Beq => self.branch(self.flag(crate::cpu::alu::ZERO)),
            Operation::Bmi => self.branch(self.flag(NEGATIVE)),
            Operation::Bne => self.branch(!self.flag(crate::cpu::alu::ZERO)),
            Operation::Bpl => self.branch(!self.flag(NEGATIVE)),
            Operation::Bvc => self.branch(!self.flag(OVERFLOW)),
            Operation::Bvs => self.branch(self.flag(OVERFLOW)),
            Operation::Bit => self.bit(mode),
            Operation::Brk => self.brk(),
            Operation::Clc => (self.with_flag(CARRY, false), Ok(0)),
            Operation::Cld => (self.with_flag(DECIMAL_MODE, false), Ok(0)),
            Operation::Cli => (self.with_flag(INTERRUPT_DISABLE, false), Ok(0)),
            Operation::Clv => (self.with_flag(OVERFLOW, false), Ok(0)),
            Operation::Cmp => self.cpa(mode),
            Operation::Cpx => self.cpx(mode),
            Operation::Cpy => self.cpy(mode),
            Operation::Dec => self.dec(mode),
            Operation::Dex => (self.load_x(self.x.wrapping_sub(1)), Ok(0)),
            Operation::Dey => (self.load_y(self.y.wrapping_sub(1)), Ok(0)),
            Operation::Eor => self.eor(mode),
            Operation::Inc => self.inc(mode),
            Operation::Inx => (self.load_x(self.x.wrapping_add(1)), Ok(0)),
            Operation::Iny => (self.load_y(self.y.wrapping_add(1)), Ok(0)),
            Operation::Jmp => self.jmp(mode),
            Operation::Jsr => self.jsr(),
            Operation::Lda => self.lda(mode),
            Operation::Ldx => self.ldx(mode),
            Operation::Ldy => self.ldy(mode),
            Operation::Lsr => self.lsr(mode),
            Operation::Nop => self.nop(mode),
            Operation::Ora => self.ora(mode),
            Operation::Pha => (self.push(self.a), Ok(0)),
            Operation::Php => (self.push(pushed_status(self.p)), Ok(0)),
            Operation::Pla => (self.pla(), Ok(0)),
            Operation::Plp => (self.plp(), Ok(0)),
            Operation::Rol => self.rol(mode),
            Operation::Ror => self.ror(mode),
            Operation::Rti => (self.rti(), Ok(0)),
            Operation::Rts => (self.rts(), Ok(0)),
            Operation::Sbc => self.sbc(mode),
            Operation::Sec => (self.with_flag(CARRY, true), Ok(0)),
            Operation::Sed => (self.with_flag(DECIMAL_MODE, true), Ok(0)),
            Operation::Sei => (self.with_flag(INTERRUPT_DISABLE, true), Ok(0)),
            Operation::Sta => self.sta(mode),
            Operation::Stx => self.stx(mode),
            Operation::Sty => self.sty(mode),
            Operation::Tax => (self.load_x(self.a), Ok(0)),
            Operation::Tay => (self.load_y(self.a), Ok(0)),
            Operation::Tsx => (self.load_x(self.sp), Ok(0)),
            Operation::Txa => (self.load_a(self.x), Ok(0)),
            Operation::Txs => (CpuState { sp: self.x, ..self }, Ok(0)),
            Operation::Tya => (self.load_a(self.y), Ok(0)),
            // Undocumented operations.
            Operation::Alr => self.alr(mode),
            Operation::Anc => self.anc(mode),
            Operation::Arr => self.arr(mode),
            Operation::Atx => self.atx(mode),
            Operation::Axa => self.axa(mode),
            Operation::Axs => self.axs(mode),
            Operation::Dcp => self.dcp(mode),
            Operation::Hlt => (self, Err(CpuError::IllegalHalt)),
            Operation::Isb => self.isb(mode),
            Operation::Lar => self.lar(mode),
            Operation::Lax => self.lax(mode),
            Operation::Rla => self.rla(mode),
            Operation::Rra => self.rra(mode),
            Operation::Sax => self.sax(mode),
            Operation::Slo => self.slo(mode),
            Operation::Sre => self.sre(mode),
            Operation::Sxa => self.sxa(mode),
            Operation::Sya => self.sya(mode),
            Operation::Xaa => self.xaa(mode),
            Operation::Xas => self.xas(mode),
        }
    }

    /// A byte written to an address at no further cost.
    pub open spec fn store_at(self, addr: u16, value: u8) -> Step<u8> {
        and_then(self.write(addr, value), |s: CpuState, done: ()| (s, Ok(0u8)))
    }

    /// The instruction of an opcode byte, on the processor whose program
    /// counter stands behind that byte. Where the instruction leaves the
    /// program counter alone, it moves on to the next instruction. The
    /// result is the number of cycles taken. An opcode whose table entry
    /// pairs an operation with a mode that it cannot have is unknown.
    pub open spec fn run_opcode(self, code: u8) -> Step<u8> {
        let entry = OpCode::of(code);
        let operation = operation_at(code);
        let mode = entry.mode;
        if operation.needs_operand() && !mode.has_operand() {
            (self, Err(CpuError::UnknownOpcode(code)))
        } else {
            and_then(
                self.execute(operation, mode),
                |s: CpuState, extra: u8|
                    (
                        if s.pc == self.pc {
                            s.with_pc(((self.pc + entry.len - 1) % 0x10000) as u16)
                        } else {
                            s
                        },
                        Ok(((entry.cycles + extra) % 256) as u8),
                    ),
            )
        }
    }

    /// The clocks moved on by a number of CPU cycles.
    pub open spec fn tick(self, cycles: u8) -> CpuState {
        CpuState { bus: self.bus.tick(cycles), ..self }
    }

    /// What comes before an instruction: a pending NMI is taken, and the
    /// opcode byte is fetched. The result is the opcode byte and the cycles
    /// spent on the interrupt.
    pub open spec fn fetch(self) -> Step<(u8, u8)> {
        let (bus, nmi) = self.bus.poll_nmi();
        let polled = CpuState { bus, ..self };
        let entered: Step<u8> = if nmi {
            and_then(
                polled.interrupt(NMI_VECTOR),
                |s: CpuState, done: ()| (s.tick(INTERRUPT_CYCLES), Ok(INTERRUPT_CYCLES)),
            )
        } else {
            (polled, Ok(0))
        };
        and_then(
            entered,
            |s: CpuState, spent: u8|
                and_then(
                    s.read(s.pc),
                    |s: CpuState, code: u8| (s.with_pc(next_addr(s.pc)), Ok((code, spent))),
                ),
        )
    }

    /// The instruction of a fetched opcode byte, and the clocks moved on by
    /// the cycles it took.
    pub open spec fn finish(self, code: u8) -> Step<u8> {
        and_then(self.run_opcode(code), |s: CpuState, cycles: u8| (s.tick(cycles), Ok(cycles)))
    }

    /// One instruction, with the interrupt before it where one is pending.
    /// The result is the number of cycles that passed.
    pub open spec fn step(self) -> Step<u32> {
        and_then(
            self.fetch(),
            |s: CpuState, fetched: (u8, u8)|
                and_then(
                    s.finish(fetched.0),
                    |s: CpuState, cycles: u8| (s, Ok((fetched.1 + cycles) as u32)),
                ),
        )
    }

    /// One round of `run`: like `step`, but BRK is fetched and not
    /// executed. The result tells whether BRK was met.
    pub open spec fn step_unless_break(self) -> Step<bool> {
        and_then(
            self.fetch(),
            |s: CpuState, fetched: (u8, u8)|
                if fetched.0 == BRK {
                    (s, Ok(true))
                } else {
                    and_then(s.finish(fetched.0), |s: CpuState, cycles: u8| (s, Ok(false)))
                },
        )
    }

    /// Instructions one after the other until BRK is fetched, an
    /// instruction fails, the processor is found paused or `limit`
    /// instructions have run.
    pub open spec fn run(self, limit: nat) -> Step<()>
        decreases limit,
    {
        if limit == 0 || self.paused {
            (self, Ok(()))
        } else {
            let (s, r) = self.step_unless_break();
            match r {
                Err(e) => (s, Err(e)),
                Ok(met_break) => if met_break {
                    (s, Ok(()))
                } else {
                    s.run((limit - 1) as nat)
                },
            }
        }
    }
}

} // verus!
