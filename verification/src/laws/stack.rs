//! The processor: its stack, its calls and returns, its interrupts and
//! its reset.

use vstd::prelude::*;
use crate::bits::{bit7, lemma_with_flag_reads_back};
use crate::bus::BusState;
use crate::cpu::alu::{
    pulled_status, pushed_status, BREAK, BREAK2, CARRY, INTERRUPT_DISABLE, NEGATIVE, ZERO,
};
use crate::cpu::state::{CpuState, NMI_VECTOR, RESET_VECTOR};
use crate::cpu::AddressingMode;
use crate::error::CpuError;
use crate::laws::bus::{law_peek_agrees_with_read, lemma_read_u16_leaves_ram};
use crate::laws::status::{
    law_pulled_status, law_status_round_trip, law_zero_and_negative_tell_of_the_result,
};
use crate::mem::{high_byte, low_byte, next_addr, word};
use crate::opcode::Operation;

verus! {

/// The registers are bytes after every step, and the program counter is a
/// word.
pub proof fn law_registers_stay_in_range(s: CpuState)
    ensures
        0x00 <= s.step().0.a <= 0xFF,
        0x00 <= s.step().0.x <= 0xFF,
        0x00 <= s.step().0.y <= 0xFF,
        0x00 <= s.step().0.sp <= 0xFF,
        0x00 <= s.step().0.p <= 0xFF,
        0x0000 <= s.step().0.pc <= 0xFFFF,
{
}

/// The unused flag is set after everything that writes the status byte as
/// a whole: PLP, RTI and reset.
pub proof fn law_unused_flag_is_held(s: CpuState, mode: AddressingMode)
    ensures
        s.execute(Operation::Plp, mode).0.flag(BREAK2),
        s.execute(Operation::Rti, mode).0.flag(BREAK2),
        s.reset().flag(BREAK2),
        !s.execute(Operation::Plp, mode).0.flag(BREAK),
        !s.execute(Operation::Rti, mode).0.flag(BREAK),
{
    reveal(CpuState::execute);
    reveal(CpuState::plp);
    reveal(CpuState::rti);
    law_pulled_status(s.pop().1);
    assert(0x24u8 & 0x20u8 == 0x20u8) by (bit_vector);
}

/// A push writes the byte into page 1 where the stack pointer points and
/// moves the stack pointer down by one, from `0x00` to `0xFF`; nothing else
/// changes.
pub proof fn law_push_writes_the_stack_page(s: CpuState, data: u8)
    requires
        s.bus.wf(),
    ensures
        s.push(data).sp == (if s.sp == 0 {
            0xFFu8
        } else {
            (s.sp - 1) as u8
        }),
        s.push(data).bus == (BusState { ram: s.bus.ram.update(0x100 + s.sp, data), ..s.bus }),
        s.push(data).bus.ram[0x100 + s.sp] == data,
        s.push(data).bus.wf(),
        s.push(data) == (CpuState { sp: s.push(data).sp, bus: s.push(data).bus, ..s }),
{
    reveal(BusState::write);
}

/// A pull moves the stack pointer up by one, from `0xFF` to `0x00`, and
/// gives the byte of page 1 where it then points; nothing else changes.
pub proof fn law_pop_reads_the_stack_page(s: CpuState)
    ensures
        s.pop().0.sp == (if s.sp == 0xFF {
            0x00u8
        } else {
            (s.sp + 1) as u8
        }),
        s.pop().1 == s.bus.ram[0x100 + s.pop().0.sp],
        s.pop().0 == (CpuState { sp: s.pop().0.sp, ..s }),
{
    reveal(BusState::read);
}

/// What is pushed is pulled: a pull after a push gives the byte pushed and
/// leaves the stack pointer where it was before the push.
pub proof fn law_pop_undoes_push(s: CpuState, data: u8)
    requires
        s.bus.wf(),
    ensures
        s.push(data).pop().1 == data,
        s.push(data).pop().0.sp == s.sp,
        s.push(data).pop().0 == (CpuState { bus: s.push(data).bus, ..s }),
{
    law_push_writes_the_stack_page(s, data);
    law_pop_reads_the_stack_page(s.push(data));
}

/// PHA then PLA gives the accumulator back whatever it held, and leaves
/// zero and negative telling of it.
pub proof fn law_pha_pla_restores_the_accumulator(s: CpuState, mode: AddressingMode)
    requires
        s.bus.wf(),
    ensures
        ({
            let t = s.execute(Operation::Pha, mode).0.execute(Operation::Pla, mode).0;
            &&& t.a == s.a
            &&& t.sp == s.sp
            &&& t.flag(ZERO) == (s.a == 0)
            &&& t.flag(NEGATIVE) == bit7(s.a)
        }),
        s.execute(Operation::Pha, mode).1 is Ok,
        s.execute(Operation::Pha, mode).0.execute(Operation::Pla, mode).1 is Ok,
{
    reveal(CpuState::execute);
    reveal(CpuState::pla);
    law_pop_undoes_push(s, s.a);
    law_zero_and_negative_tell_of_the_result(s.p, s.a);
}

/// PHP then PLP gives carry, zero, interrupt disable, decimal, overflow and
/// negative back; break is clear and the unused flag set.
pub proof fn law_php_plp_restores_the_flags(s: CpuState, mode: AddressingMode)
    requires
        s.bus.wf(),
    ensures
        ({
            let t = s.execute(Operation::Php, mode).0.execute(Operation::Plp, mode).0;
            &&& t.p & 0xCF == s.p & 0xCF
            &&& !t.flag(BREAK)
            &&& t.flag(BREAK2)
            &&& t.sp == s.sp
        }),
{
    reveal(CpuState::execute);
    reveal(CpuState::plp);
    law_pop_undoes_push(s, pushed_status(s.p));
    law_status_round_trip(s.p);
}

/// A word that is pushed is pulled again.
pub proof fn law_pop_u16_undoes_push_u16(s: CpuState, data: u16)
    requires
        s.bus.wf(),
    ensures
        s.push_u16(data).pop_u16().1 == data,
        s.push_u16(data).pop_u16().0.sp == s.sp,
{
    let s1 = s.push(high_byte(data));
    law_push_writes_the_stack_page(s, high_byte(data));
    law_pop_undoes_push(s1, low_byte(data));
    let s2 = s1.push(low_byte(data));
    let s3 = s2.pop().0;
    assert(s3 == (CpuState { bus: s2.bus, ..s1 }));
    law_push_writes_the_stack_page(s1, low_byte(data));
    law_pop_reads_the_stack_page(s3);
}

/// JSR then RTS, with the stack left as the call left it, continues behind
/// the JSR instruction: at the address three above its opcode byte.
pub proof fn law_rts_returns_behind_jsr(s: CpuState, mode: AddressingMode)
    requires
        s.bus.wf(),
        s.execute(Operation::Jsr, mode).1 is Ok,
    ensures
        ({
            let called = s.execute(Operation::Jsr, mode).0;
            let back = called.execute(Operation::Rts, mode).0;
            &&& back.pc == (s.pc + 2) % 0x10000
            &&& back.sp == s.sp
        }),
{
    reveal(CpuState::execute);
    reveal(CpuState::jsr);
    reveal(CpuState::rts);
    let pushed = s.push_u16(next_addr(s.pc));
    let called = s.execute(Operation::Jsr, mode).0;
    law_push_writes_the_stack_page(s, high_byte(next_addr(s.pc)));
    law_push_writes_the_stack_page(s.push(high_byte(next_addr(s.pc))), low_byte(next_addr(s.pc)));
    lemma_read_u16_leaves_ram(pushed.bus, s.pc);
    assert(called.bus.ram == pushed.bus.ram);
    assert(called.sp == pushed.sp);
    law_pop_reads_the_stack_page(called);
    law_pop_reads_the_stack_page(called.pop().0);
    law_pop_reads_the_stack_page(pushed);
    law_pop_reads_the_stack_page(pushed.pop().0);
    law_pop_u16_undoes_push_u16(s, next_addr(s.pc));
}

/// TAX then TXA leaves the accumulator as it was, TAY then TYA likewise,
/// and TSX then TXS leaves the stack pointer as it was.
pub proof fn law_transfers_round_trip(s: CpuState, mode: AddressingMode)
    ensures
        s.execute(Operation::Tax, mode).0.execute(Operation::Txa, mode).0.a == s.a,
        s.execute(Operation::Tay, mode).0.execute(Operation::Tya, mode).0.a == s.a,
        s.execute(Operation::Tsx, mode).0.execute(Operation::Txs, mode).0.sp == s.sp,
{
    reveal(CpuState::execute);
}

/// The flag instructions change the flag they name and nothing else.
pub proof fn law_flag_instructions_touch_one_flag(s: CpuState, mode: AddressingMode)
    ensures
        s.execute(Operation::Sec, mode).0 == (CpuState {
            p: s.execute(Operation::Sec, mode).0.p,
            ..s
        }),
        s.execute(Operation::Sec, mode).0.flag(CARRY),
        s.execute(Operation::Sec, mode).0.p & 0xFE == s.p & 0xFE,
        !s.execute(Operation::Clc, mode).0.flag(CARRY),
        s.execute(Operation::Clc, mode).0.p & 0xFE == s.p & 0xFE,
{
    reveal(CpuState::execute);
    let p = s.p;
    assert(((p | 0x01u8) & 0x01u8 == 0x01u8) && ((p & !0x01u8) & 0x01u8 != 0x01u8) && ((p | 0x01u8)
        & 0xFEu8 == p & 0xFEu8) && ((p & !0x01u8) & 0xFEu8 == p & 0xFEu8)) by (bit_vector);
}

/// A halting opcode fails and changes nothing.
pub proof fn law_halt_fails(s: CpuState, mode: AddressingMode)
    ensures
        s.execute(Operation::Hlt, mode) == (s, Err::<u8, CpuError>(CpuError::IllegalHalt)),
{
    reveal(CpuState::execute);
}

/// Looking at a word of the reset vector gives what a read of it gives, so
/// that a reset takes the program counter that a read of the vector gives.
pub proof fn law_reset_reads_the_vector(s: CpuState)
    ensures
        s.read_u16(RESET_VECTOR) == (s, Ok::<u16, CpuError>(s.reset().pc)),
        s.reset().bus == s.bus,
        s.reset().a == 0 && s.reset().x == 0 && s.reset().y == 0,
        s.reset().sp == 0xFD,
        s.reset().p == 0x24,
{
    law_peek_agrees_with_read(s.bus, 0xFFFC);
    law_peek_agrees_with_read(s.bus, 0xFFFD);
}

/// An interrupt request is ignored while interrupts are disabled, and a
/// handler is entered with interrupts disabled.
pub proof fn law_interrupts_can_be_disabled(s: CpuState)
    ensures
        s.flag(INTERRUPT_DISABLE) ==> s.irq() == (s, Ok::<u8, CpuError>(0)),
        s.interrupt(NMI_VECTOR).1 is Ok ==> s.interrupt(
            NMI_VECTOR,
        ).0.flag(INTERRUPT_DISABLE),
{
    reveal(CpuState::enter_handler);
    let pushed = s.push_u16(s.pc).push(pulled_status(s.p));
    lemma_with_flag_reads_back(pushed.p, INTERRUPT_DISABLE, true);
}

} // verus!
