//! The 6502 itself: its registers, its addressing modes, its instructions
//! and the loop that runs them.

use vstd::prelude::*;
use crate::bits::{has_flag, with_flag};
use crate::bus::Bus;
use crate::error::CpuError;
use crate::mem::{make_word, Mem};
use crate::opcode::{operation_of, OpCode, Operation};
use self::state::{
    CpuState, BRK, INTERRUPT_CYCLES, IRQ_VECTOR, NMI_VECTOR, RESET_VECTOR, STACK_RESET,
    STATUS_RESET,
};

pub mod alu;
pub mod instructions;
pub mod state;

verus! {

/// How many instructions `run` executes at most.
pub const RUN_LIMIT: u64 = 0xFFFF_FFFF_FFFF_FFFF;

/// The status byte of the processor.
///
/// ```text
/// 7  bit  0
/// ---- ----
/// NV1B DIZC
/// ```
#[derive(Clone, Copy, Debug, PartialEq, Eq)]
pub struct StatusFlags {
    bits: u8,
}

impl StatusFlags {
    pub const CARRY: u8 = alu::CARRY;

    pub const ZERO: u8 = alu::ZERO;

    pub const INTERRUPT_DISABLE: u8 = alu::INTERRUPT_DISABLE;

    pub const DECIMAL_MODE: u8 = alu::DECIMAL_MODE;

    pub const BREAK: u8 = alu::BREAK;

    pub const BREAK2: u8 = alu::BREAK2;

    pub const OVERFLOW: u8 = alu::OVERFLOW;

    pub const NEGATIVE: u8 = alu::NEGATIVE;

    /// The flags as a byte.
    pub closed spec fn view(&self) -> u8 {
        self.bits
    }

    /// No flag set.
    pub fn empty() -> (r: Self)
        ensures
            r@ == 0,
    {
        StatusFlags { bits: 0 }
    }

    /// The flags of a byte; every bit of a status byte is a flag.
    pub fn from_bits_truncate(bits: u8) -> (r: Self)
        ensures
            r@ == bits,
    {
        StatusFlags { bits }
    }

    pub fn bits(&self) -> (r: u8)
        ensures
            r == self@,
    {
        self.bits
    }

    /// Whether all flags of `flag` are set.
    pub fn contains(&self, flag: u8) -> (r: bool)
        ensures
            r == has_flag(self@, flag),
    {
        self.bits & flag == flag
    }

    /// Sets or clears the flags of `flag`.
    pub fn set(&mut self, flag: u8, value: bool)
        ensures
            final(self)@ == with_flag(old(self)@, flag, value),
    {
        if value {
            self.bits = self.bits | flag;
        } else {
            self.bits = self.bits & !flag;
        }
    }

    /// Sets the flags of `flag`.
    pub fn insert(&mut self, flag: u8)
        ensures
            final(self)@ == with_flag(old(self)@, flag, true),
    {
        self.bits = self.bits | flag;
    }

    /// Clears the flags of `flag`.
    pub fn remove(&mut self, flag: u8)
        ensures
            final(self)@ == with_flag(old(self)@, flag, false),
    {
        self.bits = self.bits & !flag;
    }
}

/// How an instruction finds its operand.
#[derive(Clone, Copy, Debug, PartialEq, Eq, Structural)]
#[allow(non_camel_case_types)]
pub enum AddressingMode {
    Immediate,
    ZeroPage,
    ZeroPage_X,
    ZeroPage_Y,
    Absolute,
    Absolute_X,
    Absolute_Y,
    Indirect,
    Indirect_X,
    Indirect_Y,
    Implied,
    NoneAddressing,
}

impl AddressingMode {
    /// Whether the mode names an operand.
    pub fn takes_operand(&self) -> (r: bool)
        ensures
            r == self.has_operand(),
    {
        match self {
            AddressingMode::Implied | AddressingMode::NoneAddressing => false,
            _ => true,
        }
    }

    /// Whether the mode names an operand in memory.
    pub fn takes_memory(&self) -> (r: bool)
        ensures
            r == self.in_memory(),
    {
        match self {
            AddressingMode::Implied | AddressingMode::NoneAddressing
            | AddressingMode::Immediate => false,
            _ => true,
        }
    }
}

impl Operation {
    /// Whether the operation works on an operand in every form.
    pub fn takes_operand(&self) -> (r: bool)
        ensures
            r == self.needs_operand(),
    {
        match self {
            Operation::Adc | Operation::Alr | Operation::Anc | Operation::And | Operation::Arr
            | Operation::Atx | Operation::Axa | Operation::Axs | Operation::Bit | Operation::Cmp
            | Operation::Cpx | Operation::Cpy | Operation::Dcp | Operation::Dec | Operation::Eor
            | Operation::Inc | Operation::Isb | Operation::Jmp | Operation::Lar | Operation::Lax
            | Operation::Lda | Operation::Ldx | Operation::Ldy | Operation::Ora | Operation::Rla
            | Operation::Rra | Operation::Sax | Operation::Sbc | Operation::Slo | Operation::Sre
            | Operation::Sta | Operation::Stx | Operation::Sty | Operation::Sxa | Operation::Sya
            | Operation::Xaa | Operation::Xas => true,
            _ => false,
        }
    }
}

pub struct CPU {
    pub register_a: u8,
    pub register_x: u8,
    pub register_y: u8,
    pub stack_pointer: u8,
    pub status: StatusFlags,
    pub program_counter: u16,
    pub bus: Bus,
    pub enable_decimal: bool,
    pub pause: bool,
}

impl Mem for CPU {
    type Model = CpuState;

    open spec fn model(&self) -> CpuState {
        self@
    }

    open spec fn read_model(m: CpuState, addr: u16) -> (CpuState, Result<u8, CpuError>) {
        m.read(addr)
    }

    open spec fn write_model(m: CpuState, addr: u16, data: u8) -> (CpuState, Result<
        (),
        CpuError,
    >) {
        m.write(addr, data)
    }

    fn mem_read(&mut self, addr: u16) -> (r: Result<u8, CpuError>) {
        self.bus.mem_read(addr)
    }

    fn mem_write(&mut self, addr: u16, data: u8) -> (r: Result<(), CpuError>) {
        self.bus.mem_write(addr, data)
    }

    fn mem_read_u16(&mut self, pos: u16) -> (r: Result<u16, CpuError>)
        ensures
            (final(self)@, r) == old(self)@.read_u16(pos),
    {
        self.bus.mem_read_u16(pos)
    }

    fn mem_write_u16(&mut self, pos: u16, data: u16) -> (r: Result<(), CpuError>)
        ensures
            (final(self)@, r) == old(self)@.write_u16(pos, data),
    {
        self.bus.mem_write_u16(pos, data)
    }
}

impl CPU {
    /// The processor as the contracts see it.
    pub open spec fn view(&self) -> CpuState {
        CpuState {
            a: self.register_a,
            x: self.register_x,
            y: self.register_y,
            sp: self.stack_pointer,
            p: self.status@,
            pc: self.program_counter,
            bus: self.bus@,
            decimal_enabled: self.enable_decimal,
            paused: self.pause,
        }
    }

    /// A processor on the given bus, with its registers at their reset
    /// values and the program counter at zero; `reset` takes the program
    /// counter from the reset vector.
    pub fn new(bus: Bus) -> (cpu: Self)
        ensures
            cpu@ == CpuState::power_on(bus@),
    {
        CPU {
            register_a: 0,
            register_x: 0,
            register_y: 0,
            stack_pointer: STACK_RESET,
            status: StatusFlags::from_bits_truncate(STATUS_RESET),
            program_counter: 0,
            bus,
            enable_decimal: false,
            pause: false,
        }
    }

    /// Pauses the processor, or lets it go on. A paused processor is left
    /// alone by `run`; `step` does not look at the pause.
    pub fn toggle_pause(&mut self)
        ensures
            final(self)@ == (CpuState { paused: !old(self)@.paused, ..old(self)@ }),
    {
        self.pause = !self.pause;
    }

    /// Loads a program at `0x8000`, resets and runs it.
    pub fn load_and_run(&mut self, program: Vec<u8>) -> (r: Result<(), CpuError>)
        requires
            program@.len() <= 0x8000,
        ensures
            (final(self)@, r) == state::and_then(
                old(self)@.load_at(program@, 0x8000),
                |s: CpuState, done: ()| s.reset().run(RUN_LIMIT as nat),
            ),
    {
        match self.load(program) {
            Ok(()) => {
                self.reset();
                self.run()
            },
            Err(e) => Err(e),
        }
    }

    /// Loads a program at `0x8000` and points the reset vector there.
    pub fn load(&mut self, program: Vec<u8>) -> (r: Result<(), CpuError>)
        requires
            program@.len() <= 0x8000,
        ensures
            (final(self)@, r) == old(self)@.load_at(program@, 0x8000),
    {
        self.load_at(program, 0x8000)
    }

    /// Loads a program at `addr` and points the reset vector there. The
    /// program must end inside the address space.
    #[verifier::rlimit(50)]
    pub fn load_at(&mut self, program: Vec<u8>, addr: u16) -> (r: Result<(), CpuError>)
        requires
            addr + program@.len() <= 0x10000,
        ensures
            (final(self)@, r) == old(self)@.load_at(program@, addr),
    {
        let mut i: usize = 0;
        let mut at: u16 = addr;
        while i < program.len()
            invariant
                i <= program@.len(),
                addr + program@.len() <= 0x10000,
                i < program@.len() ==> at == addr + i,
                self@.write_bytes(program@, i as int, at) == old(self)@.write_bytes(
                    program@,
                    0,
                    addr,
                ),
            decreases program@.len() - i,
        {
            let ghost before = self@;
            let written = self.mem_write(at, program[i]);
            assert(before.write_bytes(program@, i as int, at) == match written {
                Ok(_) => self@.write_bytes(program@, i + 1, crate::mem::next_addr(at)),
                Err(e) => (self@, Err(e)),
            });
            match written {
                Ok(()) => {},
                Err(e) => {
                    return Err(e);
                },
            }
            at = at.wrapping_add(1);
            i = i + 1;
        }
        self.mem_write_u16(RESET_VECTOR, addr)
    }

    /// Resets the registers and takes the program counter from the reset
    /// vector. Memory stays as it is.
    pub fn reset(&mut self)
        ensures
            final(self)@ == old(self)@.reset(),
    {
        self.register_a = 0;
        self.register_x = 0;
        self.register_y = 0;
        self.stack_pointer = STACK_RESET;
        self.status = StatusFlags::from_bits_truncate(STATUS_RESET);
        let lo = self.bus.peek(RESET_VECTOR);
        let hi = self.bus.peek(RESET_VECTOR + 1);
        self.program_counter = make_word(lo, hi);
    }

    /// What a read of `addr` would give, read without side effects.
    pub fn peek(&self, addr: u16) -> (value: u8)
        ensures
            value == self@.bus.peek(addr),
    {
        self.bus.peek(addr)
    }

    fn read_zero_page_word(&mut self, ptr: u8) -> (r: Result<u16, CpuError>)
        ensures
            (final(self)@, r) == old(self)@.read_zero_page_word(ptr),
    {
        let lo = match self.mem_read(ptr as u16) {
            Ok(lo) => lo,
            Err(e) => {
                return Err(e);
            },
        };
        let hi = match self.mem_read(ptr.wrapping_add(1) as u16) {
            Ok(hi) => hi,
            Err(e) => {
                return Err(e);
            },
        };
        Ok(make_word(lo, hi))
    }

    fn index(base: u16, register: u8) -> (target: (u16, bool))
        ensures
            target == state::indexed(base, register),
    {
        let addr = base.wrapping_add(register as u16);
        (addr, base / 256 != addr / 256)
    }

    /// Resolves the address that `mode` names when its operand bytes lie at
    /// `base`, and tells whether indexing crossed a page.
    pub fn resolve_address(&mut self, mode: &AddressingMode, base: u16) -> (r: Result<
        (u16, bool),
        CpuError,
    >)
        requires
            mode.has_operand(),
        ensures
            (final(self)@, r) == old(self)@.resolve(*mode, base),
    {
        proof {
            reveal(CpuState::resolve);
        }
        match mode {
            AddressingMode::ZeroPage => match self.mem_read(base) {
                Ok(zp) => Ok((zp as u16, false)),
                Err(e) => Err(e),
            },
            AddressingMode::ZeroPage_X => match self.mem_read(base) {
                Ok(zp) => Ok((zp.wrapping_add(self.register_x) as u16, false)),
                Err(e) => Err(e),
            },
            AddressingMode::ZeroPage_Y => match self.mem_read(base) {
                Ok(zp) => Ok((zp.wrapping_add(self.register_y) as u16, false)),
                Err(e) => Err(e),
            },
            AddressingMode::Absolute => match self.mem_read_u16(base) {
                Ok(addr) => Ok((addr, false)),
                Err(e) => Err(e),
            },
            AddressingMode::Absolute_X => match self.mem_read_u16(base) {
                Ok(addr) => Ok(Self::index(addr, self.register_x)),
                Err(e) => Err(e),
            },
            AddressingMode::Absolute_Y => match self.mem_read_u16(base) {
                Ok(addr) => Ok(Self::index(addr, self.register_y)),
                Err(e) => Err(e),
            },
            AddressingMode::Indirect => {
                // The 6502 fetches the high byte of the target from the page
                // of the low byte: a pointer at $xxFF takes it from $xx00.
                let ptr = match self.mem_read_u16(base) {
                    Ok(ptr) => ptr,
                    Err(e) => {
                        return Err(e);
                    },
                };
                let lo = match self.mem_read(ptr) {
                    Ok(lo) => lo,
                    Err(e) => {
                        return Err(e);
                    },
                };
                let next = if ptr % 256 == 0xFF {
                    ptr - 0xFF
                } else {
                    ptr + 1
                };
                match self.mem_read(next) {
                    Ok(hi) => Ok((make_word(lo, hi), false)),
                    Err(e) => Err(e),
                }
            },
            AddressingMode::Indirect_X => {
                let zp = match self.mem_read(base) {
                    Ok(zp) => zp,
                    Err(e) => {
                        return Err(e);
                    },
                };
                match self.read_zero_page_word(zp.wrapping_add(self.register_x)) {
                    Ok(addr) => Ok((addr, false)),
                    Err(e) => Err(e),
                }
            },
            AddressingMode::Indirect_Y => {
                let zp = match self.mem_read(base) {
                    Ok(zp) => zp,
                    Err(e) => {
                        return Err(e);
                    },
                };
                match self.read_zero_page_word(zp) {
                    Ok(addr) => Ok(Self::index(addr, self.register_y)),
                    Err(e) => Err(e),
                }
            },
            _ => Ok((base, false)),
        }
    }

    fn get_operand_address(&mut self, mode: &AddressingMode) -> (r: Result<(u16, bool), CpuError>)
        requires
            mode.has_operand(),
        ensures
            (final(self)@, r) == old(self)@.operand_address(*mode),
    {
        self.resolve_address(mode, self.program_counter)
    }

    fn read_operand(&mut self, mode: &AddressingMode) -> (r: Result<(u8, bool), CpuError>)
        requires
            mode.has_operand(),
        ensures
            (final(self)@, r) == old(self)@.read_operand(*mode),
    {
        let (addr, crossed) = match self.get_operand_address(mode) {
            Ok(target) => target,
            Err(e) => {
                return Err(e);
            },
        };
        match self.mem_read(addr) {
            Ok(value) => Ok((value, crossed)),
            Err(e) => Err(e),
        }
    }
}

impl CPU {
    #[verifier::rlimit(50)]
    fn execute_transfer(&mut self, operation: Operation, mode: &AddressingMode) -> (r: Result<u8, CpuError>)
        requires
            operation.is_transfer(),
            operation.needs_operand() ==> mode.has_operand(),
        ensures
            (final(self)@, r) == old(self)@.execute(operation, *mode),
    {
        proof {
            reveal(CpuState::execute);
        }
        match operation {
            Operation::Lda => self.lda(mode),
            Operation::Ldx => self.ldx(mode),
            Operation::Ldy => self.ldy(mode),
            Operation::Sta => self.sta(mode),
            Operation::Stx => self.stx(mode),
            Operation::Sty => self.sty(mode),
            Operation::Tax => self.tax(),
            Operation::Tay => self.tay(),
            Operation::Tsx => self.tsx(),
            Operation::Txa => self.txa(),
            Operation::Txs => self.txs(),
            Operation::Tya => self.tya(),
            Operation::Pha => self.pha(),
            Operation::Php => self.php(),
            Operation::Pla => self.pla(),
            _ => self.plp(),
        }
    }

    #[verifier::rlimit(50)]
    fn execute_arithmetic(&mut self, operation: Operation, mode: &AddressingMode) -> (r: Result<u8, CpuError>)
        requires
            operation.is_arithmetic(),
            operation.needs_operand() ==> mode.has_operand(),
        ensures
            (final(self)@, r) == old(self)@.execute(operation, *mode),
    {
        proof {
            reveal(CpuState::execute);
        }
        match operation {
            Operation::Adc => self.adc(mode),
            Operation::Sbc => self.sbc(mode),
            Operation::And => self.and(mode),
            Operation::Ora => self.ora(mode),
            Operation::Eor => self.eor(mode),
            Operation::Bit => self.bit(mode),
            Operation::Cmp => self.cpa(mode),
            Operation::Cpx => self.cpx(mode),
            Operation::Cpy => self.cpy(mode),
            Operation::Inc => self.inc(mode),
            Operation::Dec => self.dec(mode),
            Operation::Inx => self.inx(),
            Operation::Iny => self.iny(),
            Operation::Dex => self.dex(),
            _ => self.dey(),
        }
    }

    #[verifier::rlimit(50)]
    fn execute_shift(&mut self, operation: Operation, mode: &AddressingMode) -> (r: Result<u8, CpuError>)
        requires
            operation.is_shift(),
            operation.needs_operand() ==> mode.has_operand(),
        ensures
            (final(self)@, r) == old(self)@.execute(operation, *mode),
    {
        proof {
            reveal(CpuState::execute);
        }
        match operation {
            Operation::Asl => self.asl(mode),
            Operation::Lsr => self.lsr(mode),
            Operation::Rol => self.rol(mode),
            _ => self.ror(mode),
        }
    }

    #[verifier::rlimit(50)]
    fn execute_branch(&mut self, operation: Operation, mode: &AddressingMode) -> (r: Result<u8, CpuError>)
        requires
            operation.is_branch(),
            operation.needs_operand() ==> mode.has_operand(),
        ensures
            (final(self)@, r) == old(self)@.execute(operation, *mode),
    {
        proof {
            reveal(CpuState::execute);
        }
        match operation {
            Operation::Bcc => {
                let condition = !self.status.contains(StatusFlags::CARRY);
                self.branch(condition)
            },
            Operation::Bcs => {
                let condition = self.status.contains(StatusFlags::CARRY);
                self.branch(condition)
            },
            Operation::Beq => {
                let condition = self.status.contains(StatusFlags::ZERO);
                self.branch(condition)
            },
            Operation::Bne => {
                let condition = !self.status.contains(StatusFlags::ZERO);
                self.branch(condition)
            },
            Operation::Bmi => {
                let condition = self.status.contains(StatusFlags::NEGATIVE);
                self.branch(condition)
            },
            Operation::Bpl => {
                let condition = !self.status.contains(StatusFlags::NEGATIVE);
                self.branch(condition)
            },
            Operation::Bvc => {
                let condition = !self.status.contains(StatusFlags::OVERFLOW);
                self.branch(condition)
            },
            _ => {
                let condition = self.status.contains(StatusFlags::OVERFLOW);
                self.branch(condition)
            },
        }
    }

    #[verifier::rlimit(50)]
    fn execute_control(&mut self, operation: Operation, mode: &AddressingMode) -> (r: Result<u8, CpuError>)
        requires
            operation.is_control(),
            operation.needs_operand() ==> mode.has_operand(),
        ensures
            (final(self)@, r) == old(self)@.execute(operation, *mode),
    {
        proof {
            reveal(CpuState::execute);
        }
        match operation {
            Operation::Jmp => self.jmp(mode),
            Operation::Jsr => self.jsr(),
            Operation::Rts => self.rts(),
            Operation::Rti => self.rti(),
            Operation::Brk => self.brk(),
            Operation::Nop => self.nop(mode),
            Operation::Hlt => Err(CpuError::IllegalHalt),
            _ => self.flag_instruction(operation),
        }
    }

    #[verifier::rlimit(50)]
    fn execute_combined(&mut self, operation: Operation, mode: &AddressingMode) -> (r: Result<u8, CpuError>)
        requires
            operation.is_combined(),
            operation.needs_operand() ==> mode.has_operand(),
        ensures
            (final(self)@, r) == old(self)@.execute(operation, *mode),
    {
        proof {
            reveal(CpuState::execute);
        }
        match operation {
            Operation::Dcp => self.dcp(mode),
            Operation::Isb => self.isb(mode),
            Operation::Slo => self.slo(mode),
            Operation::Rla => self.rla(mode),
            Operation::Sre => self.sre(mode),
            _ => self.rra(mode),
        }
    }

    #[verifier::rlimit(50)]
    fn execute_undocumented(&mut self, operation: Operation, mode: &AddressingMode) -> (r: Result<u8, CpuError>)
        requires
            operation.is_undocumented(),
            operation.needs_operand() ==> mode.has_operand(),
        ensures
            (final(self)@, r) == old(self)@.execute(operation, *mode),
    {
        proof {
            reveal(CpuState::execute);
        }
        match operation {
            Operation::Lax => self.lax(mode),
            Operation::Sax => self.sax(mode),
            Operation::Alr => self.alr(mode),
            Operation::Anc => self.anc(mode),
            Operation::Arr => self.arr(mode),
            Operation::Axs => self.axs(mode),
            Operation::Atx => self.atx(mode),
            Operation::Axa => self.axa(mode),
            Operation::Sxa => self.sxa(mode),
            Operation::Sya => self.sya(mode),
            Operation::Xas => self.xas(mode),
            Operation::Lar => self.lar(mode),
            _ => self.xaa(mode),
        }
    }

    fn execute(&mut self, operation: Operation, mode: &AddressingMode) -> (r: Result<u8, CpuError>)
        requires
            operation.needs_operand() ==> mode.has_operand(),
        ensures
            (final(self)@, r) == old(self)@.execute(operation, *mode),
    {
        match operation {
            Operation::Lda
            | Operation::Ldx
            | Operation::Ldy
            | Operation::Sta
            | Operation::Stx
            | Operation::Sty
            | Operation::Tax
            | Operation::Tay
            | Operation::Tsx
            | Operation::Txa
            | Operation::Txs
            | Operation::Tya
            | Operation::Pha
            | Operation::Php
            | Operation::Pla
            | Operation::Plp => self.execute_transfer(operation, mode),
            Operation::Adc
            | Operation::Sbc
            | Operation::And
            | Operation::Ora
            | Operation::Eor
            | Operation::Bit
            | Operation::Cmp
            | Operation::Cpx
            | Operation::Cpy
            | Operation::Inc
            | Operation::Dec
            | Operation::Inx
            | Operation::Iny
            | Operation::Dex
            | Operation::Dey => self.execute_arithmetic(operation, mode),
            Operation::Asl
            | Operation::Lsr
            | Operation::Rol
            | Operation::Ror => self.execute_shift(operation, mode),
            Operation::Bcc
            | Operation::Bcs
            | Operation::Beq
            | Operation::Bne
            | Operation::Bmi
            | Operation::Bpl
            | Operation::Bvc
            | Operation::Bvs => self.execute_branch(operation, mode),
            Operation::Jmp
            | Operation::Jsr
            | Operation::Rts
            | Operation::Rti
            | Operation::Brk
            | Operation::Nop
            | Operation::Hlt
            | Operation::Clc
            | Operation::Cld
            | Operation::Cli
            | Operation::Clv
            | Operation::Sec
            | Operation::Sed
            | Operation::Sei => self.execute_control(operation, mode),
            Operation::Dcp
            | Operation::Isb
            | Operation::Slo
            | Operation::Rla
            | Operation::Sre
            | Operation::Rra => self.execute_combined(operation, mode),
            _ => self.execute_undocumented(operation, mode),
        }
    }

    /// Executes the instruction of an opcode byte that has been fetched, and
    /// gives the cycles it takes.
    #[verifier::rlimit(50)]
    fn run_opcode(&mut self, code: u8) -> (r: Result<u8, CpuError>)
        ensures
            (final(self)@, r) == old(self)@.run_opcode(code),
    {
        let opcode = OpCode::lookup(code);
        let operation = operation_of(code);
        if operation.takes_operand() && !opcode.mode.takes_operand() {
            return Err(CpuError::UnknownOpcode(code));
        }
        let program_counter_state = self.program_counter;
        match self.execute(operation, &opcode.mode) {
            Ok(extra) => {
                if program_counter_state == self.program_counter {
                    self.program_counter = Self::skip_operand(program_counter_state, opcode.len);
                }
                Ok(opcode.cycles.wrapping_add(extra))
            },
            Err(e) => Err(e),
        }
    }

    fn skip_operand(pc: u16, len: u8) -> (next: u16)
        ensures
            next == ((pc + len - 1) % 0x10000) as u16,
    {
        if len == 0 {
            pc.wrapping_sub(1)
        } else {
            pc.wrapping_add((len - 1) as u16)
        }
    }

    /// Takes a pending NMI and fetches the next opcode byte.
    fn fetch(&mut self) -> (r: Result<(u8, u8), CpuError>)
        ensures
            (final(self)@, r) == old(self)@.fetch(),
    {
        let mut spent: u8 = 0;
        if self.bus.poll_nmi_status() {
            match self.interrupt(NMI_VECTOR) {
                Ok(()) => {},
                Err(e) => {
                    return Err(e);
                },
            }
            self.bus.tick(INTERRUPT_CYCLES);
            spent = INTERRUPT_CYCLES;
        }
        match self.mem_read(self.program_counter) {
            Ok(code) => {
                self.program_counter = self.program_counter.wrapping_add(1);
                Ok((code, spent))
            },
            Err(e) => Err(e),
        }
    }

    fn finish(&mut self, code: u8) -> (r: Result<u8, CpuError>)
        ensures
            (final(self)@, r) == old(self)@.finish(code),
    {
        match self.run_opcode(code) {
            Ok(cycles) => {
                self.bus.tick(cycles);
                Ok(cycles)
            },
            Err(e) => Err(e),
        }
    }

    /// Asks for an interrupt. Nothing drives this line in the console; it
    /// is here for a host that has a source of interrupts. Gives the
    /// number of cycles that passed: seven if the interrupt was taken, none
    /// if interrupts are disabled.
    pub fn irq(&mut self) -> (r: Result<u8, CpuError>)
        ensures
            (final(self)@, r) == old(self)@.irq(),
    {
        if self.status.contains(StatusFlags::INTERRUPT_DISABLE) {
            return Ok(0);
        }
        match self.interrupt(IRQ_VECTOR) {
            Ok(()) => {
                self.bus.tick(INTERRUPT_CYCLES);
                Ok(INTERRUPT_CYCLES)
            },
            Err(e) => Err(e),
        }
    }

    /// Runs one instruction, after the interrupt that is pending, if one
    /// is. Gives the number of cycles that passed; the bus clock and the
    /// PPU have moved on by as much.
    pub fn step(&mut self) -> (r: Result<u32, CpuError>)
        ensures
            (final(self)@, r) == old(self)@.step(),
    {
        let (code, spent) = match self.fetch() {
            Ok(fetched) => fetched,
            Err(e) => {
                return Err(e);
            },
        };
        match self.finish(code) {
            Ok(cycles) => Ok(spent as u32 + cycles as u32),
            Err(e) => Err(e),
        }
    }

    fn step_unless_break(&mut self) -> (r: Result<bool, CpuError>)
        ensures
            (final(self)@, r) == old(self)@.step_unless_break(),
    {
        let (code, _) = match self.fetch() {
            Ok(fetched) => fetched,
            Err(e) => {
                return Err(e);
            },
        };
        if code == BRK {
            return Ok(true);
        }
        match self.finish(code) {
            Ok(_) => Ok(false),
            Err(e) => Err(e),
        }
    }

    /// Runs instructions until BRK is fetched. BRK itself is not executed:
    /// the program counter is left behind its opcode byte.
    pub fn run(&mut self) -> (r: Result<(), CpuError>)
        ensures
            (final(self)@, r) == old(self)@.run(RUN_LIMIT as nat),
    {
        self.run_with_callback(|cpu: &CPU| {})
    }

    /// Runs instructions until BRK is fetched, calling `callback` before
    /// each of them. The run also ends when an instruction fails, when the
    /// processor is found paused, and after `RUN_LIMIT` instructions.
    pub fn run_with_callback<F>(&mut self, mut callback: F) -> (r: Result<(), CpuError>) where
        F: FnMut(&CPU),

        requires
            forall|cpu: &CPU| callback.requires((cpu,)),
        ensures
            (final(self)@, r) == old(self)@.run(RUN_LIMIT as nat),
    {
        let mut remaining: u64 = RUN_LIMIT;
        loop
            invariant
                forall|cpu: &CPU| callback.requires((cpu,)),
                self@.run(remaining as nat) == old(self)@.run(RUN_LIMIT as nat),
            decreases remaining,
        {
            if remaining == 0 {
                return Ok(());
            }
            callback(&*self);
            if self.pause {
                return Ok(());
            }
            match self.step_unless_break() {
                Ok(met_break) => {
                    if met_break {
                        return Ok(());
                    }
                },
                Err(e) => {
                    return Err(e);
                },
            }
            remaining = remaining - 1;
        }
    }
}

} // verus!
