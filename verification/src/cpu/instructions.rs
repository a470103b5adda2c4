//! The instructions, one function each. Every function leaves the
//! processor as `CpuState::execute` says for its operation, and gives the
//! cycles that the instruction takes beyond those of the opcode table.

use vstd::prelude::*;
use crate::cpu::alu::{
    exec_add_binary, exec_add_decimal, exec_branch_target, exec_rotate_left, exec_rotate_right,
    exec_shift_left, exec_shift_right, exec_sub_decimal, pushed_status, Shifted, Sum,
};
use crate::cpu::state::{CpuState, IRQ_VECTOR, STACK};
use crate::cpu::{AddressingMode, StatusFlags, CPU};
use crate::error::CpuError;
use crate::mem::{make_word, split_word, Mem};
use crate::opcode::Operation;

verus! {

impl CPU {
    // ---------------------------------------------------------------
    // Flags
    // ---------------------------------------------------------------
    pub(super) fn update_zero_and_negative_flags(&mut self, result: u8)
        ensures
            final(self)@ == old(self)@.set_zn(result),
    {
        self.status.set(StatusFlags::ZERO, result == 0);
        self.status.set(StatusFlags::NEGATIVE, result & 0b1000_0000 != 0);
    }

    fn carry(&self) -> (set: bool)
        ensures
            set == self@.flag(StatusFlags::CARRY),
    {
        self.status.contains(StatusFlags::CARRY)
    }

    fn set_flag(&mut self, flag: u8, value: bool) -> (extra: Result<u8, CpuError>)
        ensures
            final(self)@ == old(self)@.with_flag(flag, value),
            extra == Ok::<u8, CpuError>(0),
    {
        self.status.set(flag, value);
        Ok(0)
    }

    fn cycles_for(crossed: bool) -> (extra: u8)
        ensures
            extra == crate::cpu::state::crossing_cycles(crossed),
    {
        if crossed {
            1
        } else {
            0
        }
    }

    // ---------------------------------------------------------------
    // Stack
    // ---------------------------------------------------------------
    pub(super) fn stack_push(&mut self, data: u8)
        ensures
            final(self)@ == old(self)@.push(data),
    {
        let _ = self.mem_write(STACK + self.stack_pointer as u16, data);
        self.stack_pointer = self.stack_pointer.wrapping_sub(1);
    }

    pub(super) fn stack_push_u16(&mut self, data: u16)
        ensures
            final(self)@ == old(self)@.push_u16(data),
    {
        let (lo, hi) = split_word(data);
        self.stack_push(hi);
        self.stack_push(lo);
    }

    pub(super) fn stack_pop(&mut self) -> (value: u8)
        ensures
            (final(self)@, value) == old(self)@.pop(),
    {
        self.stack_pointer = self.stack_pointer.wrapping_add(1);
        match self.mem_read(STACK + self.stack_pointer as u16) {
            Ok(value) => value,
            Err(_) => 0,
        }
    }

    pub(super) fn stack_pop_u16(&mut self) -> (value: u16)
        ensures
            (final(self)@, value) == old(self)@.pop_u16(),
    {
        let lo = self.stack_pop();
        let hi = self.stack_pop();
        make_word(lo, hi)
    }

    // ---------------------------------------------------------------
    // Loads and stores
    // ---------------------------------------------------------------
    pub(super) fn lda(&mut self, mode: &AddressingMode) -> (r: Result<u8, CpuError>)
        requires
            mode.has_operand(),
        ensures
            (final(self)@, r) == old(self)@.lda(*mode),
    {
        proof {
            reveal(CpuState::lda);
            reveal(CpuState::read_then);
        }
        match self.read_operand(mode) {
            Ok((value, crossed)) => {
                self.register_a = value;
                self.update_zero_and_negative_flags(self.register_a);
                Ok(Self::cycles_for(crossed))
            },
            Err(e) => Err(e),
        }
    }

    pub(super) fn ldx(&mut self, mode: &AddressingMode) -> (r: Result<u8, CpuError>)
        requires
            mode.has_operand(),
        ensures
            (final(self)@, r) == old(self)@.ldx(*mode),
    {
        proof {
            reveal(CpuState::ldx);
            reveal(CpuState::read_then);
        }
        match self.read_operand(mode) {
            Ok((value, crossed)) => {
                self.register_x = value;
                self.update_zero_and_negative_flags(self.register_x);
                Ok(Self::cycles_for(crossed))
            },
            Err(e) => Err(e),
        }
    }

    pub(super) fn ldy(&mut self, mode: &AddressingMode) -> (r: Result<u8, CpuError>)
        requires
            mode.has_operand(),
        ensures
            (final(self)@, r) == old(self)@.ldy(*mode),
    {
        proof {
            reveal(CpuState::ldy);
            reveal(CpuState::read_then);
        }
        match self.read_operand(mode) {
            Ok((value, crossed)) => {
                self.register_y = value;
                self.update_zero_and_negative_flags(self.register_y);
                Ok(Self::cycles_for(crossed))
            },
            Err(e) => Err(e),
        }
    }

    fn store_at(&mut self, addr: u16, value: u8) -> (r: Result<u8, CpuError>)
        ensures
            (final(self)@, r) == old(self)@.store_at(addr, value),
    {
        match self.mem_write(addr, value) {
            Ok(()) => Ok(0),
            Err(e) => Err(e),
        }
    }

    pub(super) fn sta(&mut self, mode: &AddressingMode) -> (r: Result<u8, CpuError>)
        requires
            mode.has_operand(),
        ensures
            (final(self)@, r) == old(self)@.sta(*mode),
    {
        proof {
            reveal(CpuState::sta);
            reveal(CpuState::store);
        }
        match self.get_operand_address(mode) {
            Ok((addr, _)) => self.store_at(addr, self.register_a),
            Err(e) => Err(e),
        }
    }

    pub(super) fn stx(&mut self, mode: &AddressingMode) -> (r: Result<u8, CpuError>)
        requires
            mode.has_operand(),
        ensures
            (final(self)@, r) == old(self)@.stx(*mode),
    {
        proof {
            reveal(CpuState::stx);
            reveal(CpuState::store);
        }
        match self.get_operand_address(mode) {
            Ok((addr, _)) => self.store_at(addr, self.register_x),
            Err(e) => Err(e),
        }
    }

    pub(super) fn sty(&mut self, mode: &AddressingMode) -> (r: Result<u8, CpuError>)
        requires
            mode.has_operand(),
        ensures
            (final(self)@, r) == old(self)@.sty(*mode),
    {
        proof {
            reveal(CpuState::sty);
            reveal(CpuState::store);
        }
        match self.get_operand_address(mode) {
            Ok((addr, _)) => self.store_at(addr, self.register_y),
            Err(e) => Err(e),
        }
    }

    // ---------------------------------------------------------------
    // Transfers
    // ---------------------------------------------------------------
    pub(super) fn tax(&mut self) -> (r: Result<u8, CpuError>)
        ensures
            (final(self)@, r) == (old(self)@.load_x(old(self)@.a), Ok::<u8, CpuError>(0)),
    {
        self.register_x = self.register_a;
        self.update_zero_and_negative_flags(self.register_x);
        Ok(0)
    }

    pub(super) fn tay(&mut self) -> (r: Result<u8, CpuError>)
        ensures
            (final(self)@, r) == (old(self)@.load_y(old(self)@.a), Ok::<u8, CpuError>(0)),
    {
        self.register_y = self.register_a;
        self.update_zero_and_negative_flags(self.register_y);
        Ok(0)
    }

    pub(super) fn tsx(&mut self) -> (r: Result<u8, CpuError>)
        ensures
            (final(self)@, r) == (old(self)@.load_x(old(self)@.sp), Ok::<u8, CpuError>(0)),
    {
        self.register_x = self.stack_pointer;
        self.update_zero_and_negative_flags(self.register_x);
        Ok(0)
    }

    pub(super) fn txa(&mut self) -> (r: Result<u8, CpuError>)
        ensures
            (final(self)@, r) == (old(self)@.load_a(old(self)@.x), Ok::<u8, CpuError>(0)),
    {
        self.register_a = self.register_x;
        self.update_zero_and_negative_flags(self.register_a);
        Ok(0)
    }

    pub(super) fn txs(&mut self) -> (r: Result<u8, CpuError>)
        ensures
            (final(self)@, r) == (CpuState { sp: old(self)@.x, ..old(self)@ }, Ok::<u8, CpuError>(0)),
    {
        self.stack_pointer = self.register_x;
        Ok(0)
    }

    pub(super) fn tya(&mut self) -> (r: Result<u8, CpuError>)
        ensures
            (final(self)@, r) == (old(self)@.load_a(old(self)@.y), Ok::<u8, CpuError>(0)),
    {
        self.register_a = self.register_y;
        self.update_zero_and_negative_flags(self.register_a);
        Ok(0)
    }

    // ---------------------------------------------------------------
    // Stack instructions
    // ---------------------------------------------------------------
    pub(super) fn pha(&mut self) -> (r: Result<u8, CpuError>)
        ensures
            (final(self)@, r) == (old(self)@.push(old(self)@.a), Ok::<u8, CpuError>(0)),
    {
        self.stack_push(self.register_a);
        Ok(0)
    }

    pub(super) fn php(&mut self) -> (r: Result<u8, CpuError>)
        ensures
            (final(self)@, r) == (old(self)@.push(pushed_status(old(self)@.p)), Ok::<u8, CpuError>(0)),
    {
        let mut flags = self.status;
        flags.insert(StatusFlags::BREAK);
        flags.insert(StatusFlags::BREAK2);
        self.stack_push(flags.bits());
        Ok(0)
    }

    pub(super) fn pla(&mut self) -> (r: Result<u8, CpuError>)
        ensures
            (final(self)@, r) == (old(self)@.pla(), Ok::<u8, CpuError>(0)),
    {
        proof {
            reveal(CpuState::pla);
        }
        self.register_a = self.stack_pop();
        self.update_zero_and_negative_flags(self.register_a);
        Ok(0)
    }

    fn pull_status(&mut self)
        ensures
            final(self)@ == old(self)@.plp(),
    {
        proof {
            reveal(CpuState::plp);
        }
        self.status = StatusFlags::from_bits_truncate(self.stack_pop());
        self.status.remove(StatusFlags::BREAK);
        self.status.insert(StatusFlags::BREAK2);
    }

    pub(super) fn plp(&mut self) -> (r: Result<u8, CpuError>)
        ensures
            (final(self)@, r) == (old(self)@.plp(), Ok::<u8, CpuError>(0)),
    {
        self.pull_status();
        Ok(0)
    }

    // ---------------------------------------------------------------
    // Arithmetic
    // ---------------------------------------------------------------
    fn take_sum(&mut self, sum: Sum)
        ensures
            final(self)@ == old(self)@.take_sum(sum),
    {
        self.register_a = sum.result;
        self.status.set(StatusFlags::CARRY, sum.carry);
        self.status.set(StatusFlags::OVERFLOW, sum.overflow);
        self.update_zero_and_negative_flags(self.register_a);
    }

    fn in_decimal_mode(&self) -> (decimal: bool)
        ensures
            decimal == self@.in_decimal_mode(),
    {
        self.enable_decimal && self.status.contains(StatusFlags::DECIMAL_MODE)
    }

    fn binary_add(&mut self, arg: u8)
        ensures
            final(self)@ == old(self)@.take_sum(
                crate::cpu::alu::add_binary(old(self)@.a, arg, old(self)@.flag(StatusFlags::CARRY)),
            ),
    {
        let sum = exec_add_binary(self.register_a, arg, self.carry());
        self.take_sum(sum);
    }

    fn bcd_add(&mut self, arg: u8)
        ensures
            final(self)@ == old(self)@.take_sum(
                crate::cpu::alu::add_decimal(
                    old(self)@.a,
                    arg,
                    old(self)@.flag(StatusFlags::CARRY),
                ),
            ),
    {
        let sum = exec_add_decimal(self.register_a, arg, self.carry());
        self.take_sum(sum);
    }

    fn bcd_sub(&mut self, arg: u8)
        ensures
            final(self)@ == old(self)@.take_sum(
                crate::cpu::alu::sub_decimal(
                    old(self)@.a,
                    arg,
                    old(self)@.flag(StatusFlags::CARRY),
                ),
            ),
    {
        let sum = exec_sub_decimal(self.register_a, arg, self.carry());
        self.take_sum(sum);
    }

    fn add_to_a(&mut self, value: u8)
        ensures
            final(self)@ == old(self)@.add_to_a(value),
    {
        if self.in_decimal_mode() {
            self.bcd_add(value);
        } else {
            self.binary_add(value);
        }
    }

    fn subtract_from_a(&mut self, value: u8)
        ensures
            final(self)@ == old(self)@.subtract_from_a(value),
    {
        if self.in_decimal_mode() {
            self.bcd_sub(value);
        } else {
            self.binary_add(!value);
        }
    }

    pub(super) fn adc(&mut self, mode: &AddressingMode) -> (r: Result<u8, CpuError>)
        requires
            mode.has_operand(),
        ensures
            (final(self)@, r) == old(self)@.adc(*mode),
    {
        proof {
            reveal(CpuState::adc);
            reveal(CpuState::read_then);
        }
        match self.read_operand(mode) {
            Ok((value, crossed)) => {
                self.add_to_a(value);
                Ok(Self::cycles_for(crossed))
            },
            Err(e) => Err(e),
        }
    }

    pub(super) fn sbc(&mut self, mode: &AddressingMode) -> (r: Result<u8, CpuError>)
        requires
            mode.has_operand(),
        ensures
            (final(self)@, r) == old(self)@.sbc(*mode),
    {
        proof {
            reveal(CpuState::sbc);
            reveal(CpuState::read_then);
        }
        match self.read_operand(mode) {
            Ok((value, crossed)) => {
                self.subtract_from_a(value);
                Ok(Self::cycles_for(crossed))
            },
            Err(e) => Err(e),
        }
    }

    // ---------------------------------------------------------------
    // Logic
    // ---------------------------------------------------------------
    fn load_a(&mut self, value: u8)
        ensures
            final(self)@ == old(self)@.load_a(value),
    {
        self.register_a = value;
        self.update_zero_and_negative_flags(self.register_a);
    }

    pub(super) fn and(&mut self, mode: &AddressingMode) -> (r: Result<u8, CpuError>)
        requires
            mode.has_operand(),
        ensures
            (final(self)@, r) == old(self)@.and(*mode),
    {
        proof {
            reveal(CpuState::and);
            reveal(CpuState::read_then);
        }
        match self.read_operand(mode) {
            Ok((value, crossed)) => {
                self.load_a(self.register_a & value);
                Ok(Self::cycles_for(crossed))
            },
            Err(e) => Err(e),
        }
    }

    pub(super) fn ora(&mut self, mode: &AddressingMode) -> (r: Result<u8, CpuError>)
        requires
            mode.has_operand(),
        ensures
            (final(self)@, r) == old(self)@.ora(*mode),
    {
        proof {
            reveal(CpuState::ora);
            reveal(CpuState::read_then);
        }
        match self.read_operand(mode) {
            Ok((value, crossed)) => {
                self.load_a(self.register_a | value);
                Ok(Self::cycles_for(crossed))
            },
            Err(e) => Err(e),
        }
    }

    pub(super) fn eor(&mut self, mode: &AddressingMode) -> (r: Result<u8, CpuError>)
        requires
            mode.has_operand(),
        ensures
            (final(self)@, r) == old(self)@.eor(*mode),
    {
        proof {
            reveal(CpuState::eor);
            reveal(CpuState::read_then);
        }
        match self.read_operand(mode) {
            Ok((value, crossed)) => {
                self.load_a(self.register_a ^ value);
                Ok(Self::cycles_for(crossed))
            },
            Err(e) => Err(e),
        }
    }

    pub(super) fn bit(&mut self, mode: &AddressingMode) -> (r: Result<u8, CpuError>)
        requires
            mode.has_operand(),
        ensures
            (final(self)@, r) == old(self)@.bit(*mode),
    {
        proof {
            reveal(CpuState::bit);
            reveal(CpuState::read_then);
        }
        match self.read_operand(mode) {
            Ok((value, crossed)) => {
                let b6 = value & 0b0100_0000 == 0b0100_0000;
                let b7 = value & 0b1000_0000 != 0;
                let zero = value & self.register_a == 0;
                self.status.set(StatusFlags::ZERO, zero);
                self.status.set(StatusFlags::OVERFLOW, b6);
                self.status.set(StatusFlags::NEGATIVE, b7);
                Ok(Self::cycles_for(crossed))
            },
            Err(e) => Err(e),
        }
    }

    // ---------------------------------------------------------------
    // Comparisons
    // ---------------------------------------------------------------
    fn compare_with(&mut self, register: u8, value: u8)
        ensures
            final(self)@ == old(self)@.compare(register, value),
    {
        let result = register.wrapping_sub(value);
        self.status.set(StatusFlags::CARRY, register >= value);
        self.status.set(StatusFlags::ZERO, register == value);
        self.status.set(StatusFlags::NEGATIVE, result & 0b1000_0000 != 0);
    }

    /// CMP: compares the accumulator with the operand.
    pub(super) fn cpa(&mut self, mode: &AddressingMode) -> (r: Result<u8, CpuError>)
        requires
            mode.has_operand(),
        ensures
            (final(self)@, r) == old(self)@.cpa(*mode),
    {
        proof {
            reveal(CpuState::cpa);
            reveal(CpuState::read_then);
        }
        match self.read_operand(mode) {
            Ok((value, crossed)) => {
                self.compare_with(self.register_a, value);
                Ok(Self::cycles_for(crossed))
            },
            Err(e) => Err(e),
        }
    }

    pub(super) fn cpx(&mut self, mode: &AddressingMode) -> (r: Result<u8, CpuError>)
        requires
            mode.has_operand(),
        ensures
            (final(self)@, r) == old(self)@.cpx(*mode),
    {
        proof {
            reveal(CpuState::cpx);
            reveal(CpuState::read_then);
        }
        match self.read_operand(mode) {
            Ok((value, crossed)) => {
                self.compare_with(self.register_x, value);
                Ok(Self::cycles_for(crossed))
            },
            Err(e) => Err(e),
        }
    }

    pub(super) fn cpy(&mut self, mode: &AddressingMode) -> (r: Result<u8, CpuError>)
        requires
            mode.has_operand(),
        ensures
            (final(self)@, r) == old(self)@.cpy(*mode),
    {
        proof {
            reveal(CpuState::cpy);
            reveal(CpuState::read_then);
        }
        match self.read_operand(mode) {
            Ok((value, crossed)) => {
                self.compare_with(self.register_y, value);
                Ok(Self::cycles_for(crossed))
            },
            Err(e) => Err(e),
        }
    }

    // ---------------------------------------------------------------
    // Increments and decrements
    // ---------------------------------------------------------------
    /// Resolves the operand and reads it, for an instruction that will
    /// write it back.
    fn read_target(&mut self, mode: &AddressingMode) -> (r: Result<(u16, u8), CpuError>)
        requires
            mode.has_operand(),
        ensures
            (final(self)@, r) == crate::cpu::state::and_then(
                old(self)@.operand_address(*mode),
                |s: CpuState, target: (u16, bool)|
                    crate::cpu::state::and_then(
                        s.read(target.0),
                        |s: CpuState, value: u8| (s, Ok((target.0, value))),
                    ),
            ),
    {
        let addr = match self.get_operand_address(mode) {
            Ok((addr, _)) => addr,
            Err(e) => {
                return Err(e);
            },
        };
        match self.mem_read(addr) {
            Ok(value) => Ok((addr, value)),
            Err(e) => Err(e),
        }
    }

    pub(super) fn inc(&mut self, mode: &AddressingMode) -> (r: Result<u8, CpuError>)
        requires
            mode.has_operand(),
        ensures
            (final(self)@, r) == old(self)@.inc(*mode),
    {
        proof {
            reveal(CpuState::inc);
            reveal(CpuState::modify);
        }
        let (addr, old) = match self.read_target(mode) {
            Ok(target) => target,
            Err(e) => {
                return Err(e);
            },
        };
        let value = old.wrapping_add(1);
        match self.mem_write(addr, value) {
            Ok(()) => {
                self.update_zero_and_negative_flags(value);
                Ok(0)
            },
            Err(e) => Err(e),
        }
    }

    pub(super) fn dec(&mut self, mode: &AddressingMode) -> (r: Result<u8, CpuError>)
        requires
            mode.has_operand(),
        ensures
            (final(self)@, r) == old(self)@.dec(*mode),
    {
        proof {
            reveal(CpuState::dec);
            reveal(CpuState::modify);
        }
        let (addr, old) = match self.read_target(mode) {
            Ok(target) => target,
            Err(e) => {
                return Err(e);
            },
        };
        let value = old.wrapping_sub(1);
        match self.mem_write(addr, value) {
            Ok(()) => {
                self.update_zero_and_negative_flags(value);
                Ok(0)
            },
            Err(e) => Err(e),
        }
    }

    pub(super) fn inx(&mut self) -> (r: Result<u8, CpuError>)
        ensures
            (final(self)@, r) == (old(self)@.load_x(old(self)@.x.wrapping_add(1)), Ok::<u8, CpuError>(0)),
    {
        self.register_x = self.register_x.wrapping_add(1);
        self.update_zero_and_negative_flags(self.register_x);
        Ok(0)
    }

    pub(super) fn iny(&mut self) -> (r: Result<u8, CpuError>)
        ensures
            (final(self)@, r) == (old(self)@.load_y(old(self)@.y.wrapping_add(1)), Ok::<u8, CpuError>(0)),
    {
        self.register_y = self.register_y.wrapping_add(1);
        self.update_zero_and_negative_flags(self.register_y);
        Ok(0)
    }

    pub(super) fn dex(&mut self) -> (r: Result<u8, CpuError>)
        ensures
            (final(self)@, r) == (old(self)@.load_x(old(self)@.x.wrapping_sub(1)), Ok::<u8, CpuError>(0)),
    {
        self.register_x = self.register_x.wrapping_sub(1);
        self.update_zero_and_negative_flags(self.register_x);
        Ok(0)
    }

    pub(super) fn dey(&mut self) -> (r: Result<u8, CpuError>)
        ensures
            (final(self)@, r) == (old(self)@.load_y(old(self)@.y.wrapping_sub(1)), Ok::<u8, CpuError>(0)),
    {
        self.register_y = self.register_y.wrapping_sub(1);
        self.update_zero_and_negative_flags(self.register_y);
        Ok(0)
    }

    // ---------------------------------------------------------------
    // Shifts and rotations
    // ---------------------------------------------------------------
    fn set_shift_flags(&mut self, shifted: &Shifted)
        ensures
            final(self)@ == old(self)@.with_shift(*shifted),
    {
        self.update_zero_and_negative_flags(shifted.result);
        self.status.set(StatusFlags::CARRY, shifted.carry);
    }

    fn shift_a(&mut self, shifted: &Shifted)
        ensures
            final(self)@ == old(self)@.shift_a(*shifted),
    {
        self.register_a = shifted.result;
        self.set_shift_flags(shifted);
    }

    pub(super) fn asl(&mut self, mode: &AddressingMode) -> (r: Result<u8, CpuError>)
        ensures
            (final(self)@, r) == old(self)@.asl(*mode),
    {
        proof {
            reveal(CpuState::asl);
            reveal(CpuState::modify);
        }
        if !mode.takes_operand() {
            let shifted = exec_shift_left(self.register_a);
            self.shift_a(&shifted);
            return Ok(0);
        }
        let (addr, old) = match self.read_target(mode) {
            Ok(target) => target,
            Err(e) => {
                return Err(e);
            },
        };
        let shifted = exec_shift_left(old);
        match self.mem_write(addr, shifted.result) {
            Ok(()) => {
                self.set_shift_flags(&shifted);
                Ok(0)
            },
            Err(e) => Err(e),
        }
    }

    pub(super) fn lsr(&mut self, mode: &AddressingMode) -> (r: Result<u8, CpuError>)
        ensures
            (final(self)@, r) == old(self)@.lsr(*mode),
    {
        proof {
            reveal(CpuState::lsr);
            reveal(CpuState::modify);
        }
        if !mode.takes_operand() {
            let shifted = exec_shift_right(self.register_a);
            self.shift_a(&shifted);
            return Ok(0);
        }
        let (addr, old) = match self.read_target(mode) {
            Ok(target) => target,
            Err(e) => {
                return Err(e);
            },
        };
        let shifted = exec_shift_right(old);
        match self.mem_write(addr, shifted.result) {
            Ok(()) => {
                self.set_shift_flags(&shifted);
                Ok(0)
            },
            Err(e) => Err(e),
        }
    }

    #[verifier::rlimit(50)]
    pub(super) fn rol(&mut self, mode: &AddressingMode) -> (r: Result<u8, CpuError>)
        ensures
            (final(self)@, r) == old(self)@.rol(*mode),
    {
        proof {
            reveal(CpuState::rol);
            reveal(CpuState::modify);
        }
        if !mode.takes_operand() {
            let shifted = exec_rotate_left(self.register_a, self.carry());
            self.shift_a(&shifted);
            return Ok(0);
        }
        let (addr, old) = match self.read_target(mode) {
            Ok(target) => target,
            Err(e) => {
                return Err(e);
            },
        };
        let shifted = exec_rotate_left(old, self.carry());
        match self.mem_write(addr, shifted.result) {
            Ok(()) => {
                self.set_shift_flags(&shifted);
                Ok(0)
            },
            Err(e) => Err(e),
        }
    }

    #[verifier::rlimit(50)]
    pub(super) fn ror(&mut self, mode: &AddressingMode) -> (r: Result<u8, CpuError>)
        ensures
            (final(self)@, r) == old(self)@.ror(*mode),
    {
        proof {
            reveal(CpuState::ror);
            reveal(CpuState::modify);
        }
        if !mode.takes_operand() {
            let shifted = exec_rotate_right(self.register_a, self.carry());
            self.shift_a(&shifted);
            return Ok(0);
        }
        let (addr, old) = match self.read_target(mode) {
            Ok(target) => target,
            Err(e) => {
                return Err(e);
            },
        };
        let shifted = exec_rotate_right(old, self.carry());
        match self.mem_write(addr, shifted.result) {
            Ok(()) => {
                self.set_shift_flags(&shifted);
                Ok(0)
            },
            Err(e) => Err(e),
        }
    }

    // ---------------------------------------------------------------
    // Jumps, branches and returns
    // ---------------------------------------------------------------
    pub(super) fn branch(&mut self, condition: bool) -> (r: Result<u8, CpuError>)
        ensures
            (final(self)@, r) == old(self)@.branch(condition),
    {
        proof {
            reveal(CpuState::branch);
        }
        if !condition {
            return Ok(0);
        }
        match self.mem_read(self.program_counter) {
            Ok(offset) => {
                let next = self.program_counter.wrapping_add(1);
                let target = exec_branch_target(self.program_counter, offset);
                self.program_counter = target;
                if next / 256 != target / 256 {
                    Ok(2)
                } else {
                    Ok(1)
                }
            },
            Err(e) => Err(e),
        }
    }

    pub(super) fn jmp(&mut self, mode: &AddressingMode) -> (r: Result<u8, CpuError>)
        requires
            mode.has_operand(),
        ensures
            (final(self)@, r) == old(self)@.jmp(*mode),
    {
        proof {
            reveal(CpuState::jmp);
        }
        match self.get_operand_address(mode) {
            Ok((addr, _)) => {
                self.program_counter = addr;
                Ok(0)
            },
            Err(e) => Err(e),
        }
    }

    pub(super) fn jsr(&mut self) -> (r: Result<u8, CpuError>)
        ensures
            (final(self)@, r) == old(self)@.jsr(),
    {
        proof {
            reveal(CpuState::jsr);
        }
        self.stack_push_u16(self.program_counter.wrapping_add(1));
        match self.mem_read_u16(self.program_counter) {
            Ok(target) => {
                self.program_counter = target;
                Ok(0)
            },
            Err(e) => Err(e),
        }
    }

    pub(super) fn rts(&mut self) -> (r: Result<u8, CpuError>)
        ensures
            (final(self)@, r) == (old(self)@.rts(), Ok::<u8, CpuError>(0)),
    {
        proof {
            reveal(CpuState::rts);
        }
        self.program_counter = self.stack_pop_u16().wrapping_add(1);
        Ok(0)
    }

    pub(super) fn rti(&mut self) -> (r: Result<u8, CpuError>)
        ensures
            (final(self)@, r) == (old(self)@.rti(), Ok::<u8, CpuError>(0)),
    {
        proof {
            reveal(CpuState::plp);
            reveal(CpuState::rti);
        }
        self.pull_status();
        self.program_counter = self.stack_pop_u16();
        Ok(0)
    }

    /// Pushes a return address and a status byte, disables interrupts and
    /// jumps through a vector.
    pub(super) fn enter_handler(&mut self, return_addr: u16, status: u8, vector: u16) -> (r: Result<
        (),
        CpuError,
    >)
        ensures
            (final(self)@, r) == old(self)@.enter_handler(return_addr, status, vector),
    {
        proof {
            reveal(CpuState::enter_handler);
        }
        self.stack_push_u16(return_addr);
        self.stack_push(status);
        self.status.insert(StatusFlags::INTERRUPT_DISABLE);
        match self.mem_read_u16(vector) {
            Ok(handler) => {
                self.program_counter = handler;
                Ok(())
            },
            Err(e) => Err(e),
        }
    }

    pub(super) fn brk(&mut self) -> (r: Result<u8, CpuError>)
        ensures
            (final(self)@, r) == old(self)@.brk(),
    {
        proof {
            reveal(CpuState::brk);
        }
        let mut flags = self.status;
        flags.insert(StatusFlags::BREAK);
        flags.insert(StatusFlags::BREAK2);
        match self.enter_handler(self.program_counter.wrapping_add(1), flags.bits(), IRQ_VECTOR) {
            Ok(()) => Ok(0),
            Err(e) => Err(e),
        }
    }

    /// Takes an interrupt between two instructions.
    pub(super) fn interrupt(&mut self, vector: u16) -> (r: Result<(), CpuError>)
        ensures
            (final(self)@, r) == old(self)@.interrupt(vector),
    {
        proof {
            reveal(CpuState::enter_handler);
        }
        let mut flags = self.status;
        flags.remove(StatusFlags::BREAK);
        flags.insert(StatusFlags::BREAK2);
        self.enter_handler(self.program_counter, flags.bits(), vector)
    }

    pub(super) fn nop(&mut self, mode: &AddressingMode) -> (r: Result<u8, CpuError>)
        ensures
            (final(self)@, r) == old(self)@.nop(*mode),
    {
        proof {
            reveal(CpuState::nop);
            reveal(CpuState::read_then);
        }
        if !mode.takes_memory() {
            return Ok(0);
        }
        match self.read_operand(mode) {
            Ok((_, crossed)) => Ok(Self::cycles_for(crossed)),
            Err(e) => Err(e),
        }
    }

    pub(super) fn flag_instruction(&mut self, operation: Operation) -> (r: Result<u8, CpuError>)
        requires
            operation is Clc || operation is Cld || operation is Cli || operation is Clv
                || operation is Sec || operation is Sed || operation is Sei,
        ensures
            (final(self)@, r) == old(self)@.execute(operation, AddressingMode::NoneAddressing),
    {
        proof {
            reveal(CpuState::execute);
        }
        match operation {
            Operation::Clc => self.set_flag(StatusFlags::CARRY, false),
            Operation::Cld => self.set_flag(StatusFlags::DECIMAL_MODE, false),
            Operation::Cli => self.set_flag(StatusFlags::INTERRUPT_DISABLE, false),
            Operation::Clv => self.set_flag(StatusFlags::OVERFLOW, false),
            Operation::Sec => self.set_flag(StatusFlags::CARRY, true),
            Operation::Sed => self.set_flag(StatusFlags::DECIMAL_MODE, true),
            _ => self.set_flag(StatusFlags::INTERRUPT_DISABLE, true),
        }
    }
}

impl CPU {
    // ---------------------------------------------------------------
    // Undocumented instructions
    // ---------------------------------------------------------------
    pub(super) fn lax(&mut self, mode: &AddressingMode) -> (r: Result<u8, CpuError>)
        requires
            mode.has_operand(),
        ensures
            (final(self)@, r) == old(self)@.lax(*mode),
    {
        proof {
            reveal(CpuState::lax);
            reveal(CpuState::read_then);
        }
        match self.read_operand(mode) {
            Ok((value, crossed)) => {
                self.load_a(value);
                self.register_x = self.register_a;
                self.update_zero_and_negative_flags(self.register_x);
                Ok(Self::cycles_for(crossed))
            },
            Err(e) => Err(e),
        }
    }

    pub(super) fn sax(&mut self, mode: &AddressingMode) -> (r: Result<u8, CpuError>)
        requires
            mode.has_operand(),
        ensures
            (final(self)@, r) == old(self)@.sax(*mode),
    {
        proof {
            reveal(CpuState::sax);
            reveal(CpuState::store);
        }
        match self.get_operand_address(mode) {
            Ok((addr, _)) => self.store_at(addr, self.register_a & self.register_x),
            Err(e) => Err(e),
        }
    }

    fn high_plus_one(addr: u16) -> (value: u8)
        ensures
            value == crate::mem::high_byte(addr).wrapping_add(1),
    {
        let (_, hi) = split_word(addr);
        hi.wrapping_add(1)
    }

    pub(super) fn axa(&mut self, mode: &AddressingMode) -> (r: Result<u8, CpuError>)
        requires
            mode.has_operand(),
        ensures
            (final(self)@, r) == old(self)@.axa(*mode),
    {
        proof {
            reveal(CpuState::axa);
            reveal(CpuState::store);
        }
        match self.get_operand_address(mode) {
            Ok((addr, _)) => self.store_at(
                addr,
                self.register_a & self.register_x & Self::high_plus_one(addr),
            ),
            Err(e) => Err(e),
        }
    }

    pub(super) fn sxa(&mut self, mode: &AddressingMode) -> (r: Result<u8, CpuError>)
        requires
            mode.has_operand(),
        ensures
            (final(self)@, r) == old(self)@.sxa(*mode),
    {
        proof {
            reveal(CpuState::sxa);
            reveal(CpuState::store);
        }
        match self.get_operand_address(mode) {
            Ok((addr, _)) => self.store_at(addr, self.register_x & Self::high_plus_one(addr)),
            Err(e) => Err(e),
        }
    }

    pub(super) fn sya(&mut self, mode: &AddressingMode) -> (r: Result<u8, CpuError>)
        requires
            mode.has_operand(),
        ensures
            (final(self)@, r) == old(self)@.sya(*mode),
    {
        proof {
            reveal(CpuState::sya);
            reveal(CpuState::store);
        }
        match self.get_operand_address(mode) {
            Ok((addr, _)) => self.store_at(addr, self.register_y & Self::high_plus_one(addr)),
            Err(e) => Err(e),
        }
    }

    pub(super) fn xas(&mut self, mode: &AddressingMode) -> (r: Result<u8, CpuError>)
        requires
            mode.has_operand(),
        ensures
            (final(self)@, r) == old(self)@.xas(*mode),
    {
        proof {
            reveal(CpuState::xas);
        }
        match self.get_operand_address(mode) {
            Ok((addr, _)) => {
                self.stack_pointer = self.register_a & self.register_x;
                self.store_at(
                    addr,
                    self.register_a & self.register_x & Self::high_plus_one(addr),
                )
            },
            Err(e) => Err(e),
        }
    }

    pub(super) fn dcp(&mut self, mode: &AddressingMode) -> (r: Result<u8, CpuError>)
        requires
            mode.has_operand(),
        ensures
            (final(self)@, r) == old(self)@.dcp(*mode),
    {
        proof {
            reveal(CpuState::dcp);
            reveal(CpuState::modify);
        }
        let (addr, old) = match self.read_target(mode) {
            Ok(target) => target,
            Err(e) => {
                return Err(e);
            },
        };
        let value = old.wrapping_sub(1);
        match self.mem_write(addr, value) {
            Ok(()) => {
                self.compare_with(self.register_a, value);
                Ok(0)
            },
            Err(e) => Err(e),
        }
    }

    pub(super) fn isb(&mut self, mode: &AddressingMode) -> (r: Result<u8, CpuError>)
        requires
            mode.has_operand(),
        ensures
            (final(self)@, r) == old(self)@.isb(*mode),
    {
        proof {
            reveal(CpuState::isb);
            reveal(CpuState::modify);
        }
        let (addr, old) = match self.read_target(mode) {
            Ok(target) => target,
            Err(e) => {
                return Err(e);
            },
        };
        let value = old.wrapping_add(1);
        match self.mem_write(addr, value) {
            Ok(()) => {
                self.subtract_from_a(value);
                Ok(0)
            },
            Err(e) => Err(e),
        }
    }

    pub(super) fn slo(&mut self, mode: &AddressingMode) -> (r: Result<u8, CpuError>)
        requires
            mode.has_operand(),
        ensures
            (final(self)@, r) == old(self)@.slo(*mode),
    {
        proof {
            reveal(CpuState::slo);
            reveal(CpuState::modify);
        }
        let (addr, old) = match self.read_target(mode) {
            Ok(target) => target,
            Err(e) => {
                return Err(e);
            },
        };
        let shifted = exec_shift_left(old);
        match self.mem_write(addr, shifted.result) {
            Ok(()) => {
                self.set_shift_flags(&shifted);
                self.load_a(self.register_a | shifted.result);
                Ok(0)
            },
            Err(e) => Err(e),
        }
    }

    pub(super) fn rla(&mut self, mode: &AddressingMode) -> (r: Result<u8, CpuError>)
        requires
            mode.has_operand(),
        ensures
            (final(self)@, r) == old(self)@.rla(*mode),
    {
        proof {
            reveal(CpuState::rla);
            reveal(CpuState::modify);
        }
        let (addr, old) = match self.read_target(mode) {
            Ok(target) => target,
            Err(e) => {
                return Err(e);
            },
        };
        let shifted = exec_rotate_left(old, self.carry());
        match self.mem_write(addr, shifted.result) {
            Ok(()) => {
                self.set_shift_flags(&shifted);
                self.load_a(self.register_a & shifted.result);
                Ok(0)
            },
            Err(e) => Err(e),
        }
    }

    pub(super) fn sre(&mut self, mode: &AddressingMode) -> (r: Result<u8, CpuError>)
        requires
            mode.has_operand(),
        ensures
            (final(self)@, r) == old(self)@.sre(*mode),
    {
        proof {
            reveal(CpuState::sre);
            reveal(CpuState::modify);
        }
        let (addr, old) = match self.read_target(mode) {
            Ok(target) => target,
            Err(e) => {
                return Err(e);
            },
        };
        let shifted = exec_shift_right(old);
        match self.mem_write(addr, shifted.result) {
            Ok(()) => {
                self.set_shift_flags(&shifted);
                self.load_a(self.register_a ^ shifted.result);
                Ok(0)
            },
            Err(e) => Err(e),
        }
    }

    pub(super) fn rra(&mut self, mode: &AddressingMode) -> (r: Result<u8, CpuError>)
        requires
            mode.has_operand(),
        ensures
            (final(self)@, r) == old(self)@.rra(*mode),
    {
        proof {
            reveal(CpuState::rra);
            reveal(CpuState::modify);
        }
        let (addr, old) = match self.read_target(mode) {
            Ok(target) => target,
            Err(e) => {
                return Err(e);
            },
        };
        let shifted = exec_rotate_right(old, self.carry());
        match self.mem_write(addr, shifted.result) {
            Ok(()) => {
                self.set_shift_flags(&shifted);
                self.add_to_a(shifted.result);
                Ok(0)
            },
            Err(e) => Err(e),
        }
    }

    pub(super) fn alr(&mut self, mode: &AddressingMode) -> (r: Result<u8, CpuError>)
        requires
            mode.has_operand(),
        ensures
            (final(self)@, r) == old(self)@.alr(*mode),
    {
        proof {
            reveal(CpuState::alr);
            reveal(CpuState::read_then);
        }
        match self.read_operand(mode) {
            Ok((value, crossed)) => {
                self.load_a(self.register_a & value);
                let shifted = exec_shift_right(self.register_a);
                self.shift_a(&shifted);
                Ok(Self::cycles_for(crossed))
            },
            Err(e) => Err(e),
        }
    }

    pub(super) fn anc(&mut self, mode: &AddressingMode) -> (r: Result<u8, CpuError>)
        requires
            mode.has_operand(),
        ensures
            (final(self)@, r) == old(self)@.anc(*mode),
    {
        proof {
            reveal(CpuState::anc);
            reveal(CpuState::read_then);
        }
        match self.read_operand(mode) {
            Ok((value, crossed)) => {
                self.load_a(self.register_a & value);
                let negative = self.status.contains(StatusFlags::NEGATIVE);
                self.status.set(StatusFlags::CARRY, negative);
                Ok(Self::cycles_for(crossed))
            },
            Err(e) => Err(e),
        }
    }

    pub(super) fn arr(&mut self, mode: &AddressingMode) -> (r: Result<u8, CpuError>)
        requires
            mode.has_operand(),
        ensures
            (final(self)@, r) == old(self)@.arr(*mode),
    {
        proof {
            reveal(CpuState::arr);
            reveal(CpuState::read_then);
        }
        match self.read_operand(mode) {
            Ok((value, crossed)) => {
                self.load_a(self.register_a & value);
                let shifted = exec_rotate_right(self.register_a, self.carry());
                self.shift_a(&shifted);
                let five = self.register_a & 0b0010_0000 == 0b0010_0000;
                let six = self.register_a & 0b0100_0000 == 0b0100_0000;
                self.status.set(StatusFlags::OVERFLOW, five != six);
                self.status.set(StatusFlags::CARRY, six);
                Ok(Self::cycles_for(crossed))
            },
            Err(e) => Err(e),
        }
    }

    pub(super) fn axs(&mut self, mode: &AddressingMode) -> (r: Result<u8, CpuError>)
        requires
            mode.has_operand(),
        ensures
            (final(self)@, r) == old(self)@.axs(*mode),
    {
        proof {
            reveal(CpuState::axs);
            reveal(CpuState::read_then);
        }
        match self.read_operand(mode) {
            Ok((value, crossed)) => {
                let both = self.register_a & self.register_x;
                let result = both.wrapping_sub(value);
                self.register_x = result;
                self.status.set(StatusFlags::CARRY, both >= value);
                self.update_zero_and_negative_flags(result);
                Ok(Self::cycles_for(crossed))
            },
            Err(e) => Err(e),
        }
    }

    pub(super) fn atx(&mut self, mode: &AddressingMode) -> (r: Result<u8, CpuError>)
        requires
            mode.has_operand(),
        ensures
            (final(self)@, r) == old(self)@.atx(*mode),
    {
        proof {
            reveal(CpuState::atx);
            reveal(CpuState::read_then);
        }
        match self.read_operand(mode) {
            Ok((value, crossed)) => {
                self.load_a(self.register_a & value);
                self.register_x = self.register_a;
                Ok(Self::cycles_for(crossed))
            },
            Err(e) => Err(e),
        }
    }

    pub(super) fn lar(&mut self, mode: &AddressingMode) -> (r: Result<u8, CpuError>)
        requires
            mode.has_operand(),
        ensures
            (final(self)@, r) == old(self)@.lar(*mode),
    {
        proof {
            reveal(CpuState::lar);
            reveal(CpuState::read_then);
        }
        match self.read_operand(mode) {
            Ok((value, crossed)) => {
                let data = value & self.stack_pointer;
                self.register_a = data;
                self.register_x = data;
                self.stack_pointer = data;
                self.update_zero_and_negative_flags(data);
                Ok(Self::cycles_for(crossed))
            },
            Err(e) => Err(e),
        }
    }

    pub(super) fn xaa(&mut self, mode: &AddressingMode) -> (r: Result<u8, CpuError>)
        requires
            mode.has_operand(),
        ensures
            (final(self)@, r) == old(self)@.xaa(*mode),
    {
        proof {
            reveal(CpuState::xaa);
            reveal(CpuState::read_then);
        }
        match self.read_operand(mode) {
            Ok((value, crossed)) => {
                self.register_a = self.register_x & value;
                Ok(Self::cycles_for(crossed))
            },
            Err(e) => Err(e),
        }
    }
}

} // verus!
