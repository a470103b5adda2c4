//! Failures: an instruction fails only where the bus refuses an access,
//! or where it is a halt.

use vstd::prelude::*;
use crate::bus::BusState;
use crate::cpu::alu::{
    bit_tested, rotate_left, rotate_right, shift_left, shift_right, CARRY, NEGATIVE,
};
use crate::cpu::state::{CpuState, Step};
use crate::cpu::AddressingMode;
use crate::error::CpuError;
use crate::laws::table::law_no_opcode_is_unknown;
use crate::mem::high_byte;
use crate::opcode::{operation_at, OpCode, Operation};

verus! {

/// The failure is a refusal of the bus: a read of a write-only register, a
/// write to program ROM, or an access of PPU DATA in the forbidden window.
pub open spec fn is_bus_failure(e: CpuError) -> bool {
    e is WriteOnlyRead || e is RomWrite || e is PpuIllegalRegion
}

/// The work was done, or given up for a refusal of the bus.
pub open spec fn fails_on_the_bus<T>(step: Step<T>) -> bool {
    step.1 is Err ==> is_bus_failure(step.1->Err_0)
}

/// The work was done, or given up for a refusal of the bus or for a halt.
pub open spec fn fails_on_the_bus_or_halts<T>(step: Step<T>) -> bool {
    step.1 is Err ==> is_bus_failure(step.1->Err_0) || step.1->Err_0 is IllegalHalt
}

/// Every failure of a read or a write on the bus is a refusal of the bus,
/// and says at which address.
pub proof fn law_bus_failures(bus: BusState, addr: u16, data: u8)
    ensures
        bus.read(addr).1 is Err ==> bus.read(addr).1 == Err::<u8, CpuError>(
            CpuError::WriteOnlyRead(addr),
        ) || bus.read(addr).1 == Err::<u8, CpuError>(
            CpuError::PpuIllegalRegion(bus.ppu.addr),
        ),
        bus.write(addr, data).1 is Err ==> bus.write(addr, data).1 == Err::<(), CpuError>(
            CpuError::RomWrite(addr),
        ) || bus.write(addr, data).1 == Err::<(), CpuError>(
            CpuError::PpuIllegalRegion(bus.ppu.addr),
        ),
{
    reveal(BusState::read);
    reveal(BusState::write);
}

proof fn lemma_accesses_fail_on_the_bus()
    ensures
        forall|bus: BusState, addr: u16|
            (#[trigger] bus.read(addr)).1 is Err ==> is_bus_failure(bus.read(addr).1->Err_0),
        forall|bus: BusState, addr: u16, data: u8|
            (#[trigger] bus.write(addr, data)).1 is Err ==> is_bus_failure(
                bus.write(addr, data).1->Err_0,
            ),
{
    assert forall|bus: BusState, addr: u16|
        (#[trigger] bus.read(addr)).1 is Err implies is_bus_failure(bus.read(addr).1->Err_0) by {
        law_bus_failures(bus, addr, 0);
    }
    assert forall|bus: BusState, addr: u16, data: u8|
        (#[trigger] bus.write(addr, data)).1 is Err implies is_bus_failure(
            bus.write(addr, data).1->Err_0,
        ) by {
        law_bus_failures(bus, addr, data);
    }
}

proof fn lemma_resolve_fails_on_the_bus(s: CpuState, mode: AddressingMode, base: u16)
    ensures
        fails_on_the_bus(s.resolve(mode, base)),
{
    reveal(CpuState::resolve);
    lemma_accesses_fail_on_the_bus();
}

proof fn lemma_read_operand_fails_on_the_bus(s: CpuState, mode: AddressingMode)
    ensures
        fails_on_the_bus(s.read_operand(mode)),
{
    lemma_resolve_fails_on_the_bus(s, mode, s.pc);
    lemma_accesses_fail_on_the_bus();
}

proof fn lemma_read_then_fails_on_the_bus(
    s: CpuState,
    mode: AddressingMode,
    apply: spec_fn(CpuState, u8) -> CpuState,
)
    ensures
        fails_on_the_bus(s.read_then(mode, apply)),
{
    reveal(CpuState::read_then);
    lemma_read_operand_fails_on_the_bus(s, mode);
}

proof fn lemma_store_fails_on_the_bus(
    s: CpuState,
    mode: AddressingMode,
    value: spec_fn(CpuState, u16) -> u8,
)
    ensures
        fails_on_the_bus(s.store(mode, value)),
{
    reveal(CpuState::store);
    lemma_resolve_fails_on_the_bus(s, mode, s.pc);
    lemma_accesses_fail_on_the_bus();
}

proof fn lemma_modify_fails_on_the_bus(
    s: CpuState,
    mode: AddressingMode,
    change: spec_fn(CpuState, u8) -> u8,
    after: spec_fn(CpuState, u8, u8) -> CpuState,
)
    ensures
        fails_on_the_bus(s.modify(mode, change, after)),
{
    reveal(CpuState::modify);
    lemma_resolve_fails_on_the_bus(s, mode, s.pc);
    lemma_accesses_fail_on_the_bus();
}

proof fn lemma_adc_fails_on_the_bus(s: CpuState, mode: AddressingMode)
    ensures
        fails_on_the_bus(s.adc(mode)),
{
    reveal(CpuState::adc);
    lemma_accesses_fail_on_the_bus();
    lemma_read_then_fails_on_the_bus(
        s,
        mode,
        |s: CpuState, m: u8| s.add_to_a(m),
    );
}

proof fn lemma_and_fails_on_the_bus(s: CpuState, mode: AddressingMode)
    ensures
        fails_on_the_bus(s.and(mode)),
{
    reveal(CpuState::and);
    lemma_accesses_fail_on_the_bus();
    lemma_read_then_fails_on_the_bus(
        s,
        mode,
        |s: CpuState, m: u8| s.load_a(s.a & m),
    );
}

proof fn lemma_asl_fails_on_the_bus(s: CpuState, mode: AddressingMode)
    ensures
        fails_on_the_bus(s.asl(mode)),
{
    reveal(CpuState::asl);
    lemma_accesses_fail_on_the_bus();
    lemma_modify_fails_on_the_bus(
        s,
        mode,
        |s: CpuState, v: u8| shift_left(v).result,
        |s: CpuState, v: u8, n: u8| s.with_shift(shift_left(v)),
    );
}

proof fn lemma_bit_fails_on_the_bus(s: CpuState, mode: AddressingMode)
    ensures
        fails_on_the_bus(s.bit(mode)),
{
    reveal(CpuState::bit);
    lemma_accesses_fail_on_the_bus();
    lemma_read_then_fails_on_the_bus(
        s,
        mode,
        |s: CpuState, m: u8| CpuState { p: bit_tested(s.p, s.a, m), ..s },
    );
}

proof fn lemma_cpa_fails_on_the_bus(s: CpuState, mode: AddressingMode)
    ensures
        fails_on_the_bus(s.cpa(mode)),
{
    reveal(CpuState::cpa);
    lemma_accesses_fail_on_the_bus();
    lemma_read_then_fails_on_the_bus(
        s,
        mode,
        |s: CpuState, m: u8| s.compare(s.a, m),
    );
}

proof fn lemma_cpx_fails_on_the_bus(s: CpuState, mode: AddressingMode)
    ensures
        fails_on_the_bus(s.cpx(mode)),
{
    reveal(CpuState::cpx);
    lemma_accesses_fail_on_the_bus();
    lemma_read_then_fails_on_the_bus(
        s,
        mode,
        |s: CpuState, m: u8| s.compare(s.x, m),
    );
}

proof fn lemma_cpy_fails_on_the_bus(s: CpuState, mode: AddressingMode)
    ensures
        fails_on_the_bus(s.cpy(mode)),
{
    reveal(CpuState::cpy);
    lemma_accesses_fail_on_the_bus();
    lemma_read_then_fails_on_the_bus(
        s,
        mode,
        |s: CpuState, m: u8| s.compare(s.y, m),
    );
}

proof fn lemma_dec_fails_on_the_bus(s: CpuState, mode: AddressingMode)
    ensures
        fails_on_the_bus(s.dec(mode)),
{
    reveal(CpuState::dec);
    lemma_accesses_fail_on_the_bus();
    lemma_modify_fails_on_the_bus(
        s,
        mode,
        |s: CpuState, v: u8| v.wrapping_sub(1),
        |s: CpuState, v: u8, n: u8| s.set_zn(n),
    );
}

proof fn lemma_eor_fails_on_the_bus(s: CpuState, mode: AddressingMode)
    ensures
        fails_on_the_bus(s.eor(mode)),
{
    reveal(CpuState::eor);
    lemma_accesses_fail_on_the_bus();
    lemma_read_then_fails_on_the_bus(
        s,
        mode,
        |s: CpuState, m: u8| s.load_a(s.a ^ m),
    );
}

proof fn lemma_inc_fails_on_the_bus(s: CpuState, mode: AddressingMode)
    ensures
        fails_on_the_bus(s.inc(mode)),
{
    reveal(CpuState::inc);
    lemma_accesses_fail_on_the_bus();
    lemma_modify_fails_on_the_bus(
        s,
        mode,
        |s: CpuState, v: u8| v.wrapping_add(1),
        |s: CpuState, v: u8, n: u8| s.set_zn(n),
    );
}

proof fn lemma_jmp_fails_on_the_bus(s: CpuState, mode: AddressingMode)
    ensures
        fails_on_the_bus(s.jmp(mode)),
{
    reveal(CpuState::jmp);
    lemma_accesses_fail_on_the_bus();
    lemma_resolve_fails_on_the_bus(s, mode, s.pc);
}

proof fn lemma_lda_fails_on_the_bus(s: CpuState, mode: AddressingMode)
    ensures
        fails_on_the_bus(s.lda(mode)),
{
    reveal(CpuState::lda);
    lemma_accesses_fail_on_the_bus();
    lemma_read_then_fails_on_the_bus(
        s,
        mode,
        |s: CpuState, m: u8| s.load_a(m),
    );
}

proof fn lemma_ldx_fails_on_the_bus(s: CpuState, mode: AddressingMode)
    ensures
        fails_on_the_bus(s.ldx(mode)),
{
    reveal(CpuState::ldx);
    lemma_accesses_fail_on_the_bus();
    lemma_read_then_fails_on_the_bus(
        s,
        mode,
        |s: CpuState, m: u8| s.load_x(m),
    );
}

proof fn lemma_ldy_fails_on_the_bus(s: CpuState, mode: AddressingMode)
    ensures
        fails_on_the_bus(s.ldy(mode)),
{
    reveal(CpuState::ldy);
    lemma_accesses_fail_on_the_bus();
    lemma_read_then_fails_on_the_bus(
        s,
        mode,
        |s: CpuState, m: u8| s.load_y(m),
    );
}

proof fn lemma_lsr_fails_on_the_bus(s: CpuState, mode: AddressingMode)
    ensures
        fails_on_the_bus(s.lsr(mode)),
{
    reveal(CpuState::lsr);
    lemma_accesses_fail_on_the_bus();
    lemma_modify_fails_on_the_bus(
        s,
        mode,
        |s: CpuState, v: u8| shift_right(v).result,
        |s: CpuState, v: u8, n: u8| s.with_shift(shift_right(v)),
    );
}

proof fn lemma_nop_fails_on_the_bus(s: CpuState, mode: AddressingMode)
    ensures
        fails_on_the_bus(s.nop(mode)),
{
    reveal(CpuState::nop);
    lemma_accesses_fail_on_the_bus();
    lemma_read_then_fails_on_the_bus(
        s,
        mode,
        |s: CpuState, m: u8| s,
    );
}

proof fn lemma_ora_fails_on_the_bus(s: CpuState, mode: AddressingMode)
    ensures
        fails_on_the_bus(s.ora(mode)),
{
    reveal(CpuState::ora);
    lemma_accesses_fail_on_the_bus();
    lemma_read_then_fails_on_the_bus(
        s,
        mode,
        |s: CpuState, m: u8| s.load_a(s.a | m),
    );
}

proof fn lemma_rol_fails_on_the_bus(s: CpuState, mode: AddressingMode)
    ensures
        fails_on_the_bus(s.rol(mode)),
{
    reveal(CpuState::rol);
    lemma_accesses_fail_on_the_bus();
    lemma_modify_fails_on_the_bus(
        s,
        mode,
        |s: CpuState, v: u8| rotate_left(v, s.flag(CARRY)).result,
        |s: CpuState, v: u8, n: u8| s.with_shift(rotate_left(v, s.flag(CARRY))),
    );
}

proof fn lemma_ror_fails_on_the_bus(s: CpuState, mode: AddressingMode)
    ensures
        fails_on_the_bus(s.ror(mode)),
{
    reveal(CpuState::ror);
    lemma_accesses_fail_on_the_bus();
    lemma_modify_fails_on_the_bus(
        s,
        mode,
        |s: CpuState, v: u8| rotate_right(v, s.flag(CARRY)).result,
        |s: CpuState, v: u8, n: u8| s.with_shift(rotate_right(v, s.flag(CARRY))),
    );
}

proof fn lemma_sbc_fails_on_the_bus(s: CpuState, mode: AddressingMode)
    ensures
        fails_on_the_bus(s.sbc(mode)),
{
    reveal(CpuState::sbc);
    lemma_accesses_fail_on_the_bus();
    lemma_read_then_fails_on_the_bus(
        s,
        mode,
        |s: CpuState, m: u8| s.subtract_from_a(m),
    );
}

proof fn lemma_sta_fails_on_the_bus(s: CpuState, mode: AddressingMode)
    ensures
        fails_on_the_bus(s.sta(mode)),
{
    reveal(CpuState::sta);
    lemma_accesses_fail_on_the_bus();
    lemma_store_fails_on_the_bus(
        s,
        mode,
        |s: CpuState, addr: u16| s.a,
    );
}

proof fn lemma_stx_fails_on_the_bus(s: CpuState, mode: AddressingMode)
    ensures
        fails_on_the_bus(s.stx(mode)),
{
    reveal(CpuState::stx);
    lemma_accesses_fail_on_the_bus();
    lemma_store_fails_on_the_bus(
        s,
        mode,
        |s: CpuState, addr: u16| s.x,
    );
}

proof fn lemma_sty_fails_on_the_bus(s: CpuState, mode: AddressingMode)
    ensures
        fails_on_the_bus(s.sty(mode)),
{
    reveal(CpuState::sty);
    lemma_accesses_fail_on_the_bus();
    lemma_store_fails_on_the_bus(
        s,
        mode,
        |s: CpuState, addr: u16| s.y,
    );
}

proof fn lemma_alr_fails_on_the_bus(s: CpuState, mode: AddressingMode)
    ensures
        fails_on_the_bus(s.alr(mode)),
{
    reveal(CpuState::alr);
    lemma_accesses_fail_on_the_bus();
    lemma_read_then_fails_on_the_bus(
        s,
        mode,
        |s: CpuState, m: u8| s.load_a(s.a & m).shift_a(shift_right(s.a & m)),
    );
}

proof fn lemma_anc_fails_on_the_bus(s: CpuState, mode: AddressingMode)
    ensures
        fails_on_the_bus(s.anc(mode)),
{
    reveal(CpuState::anc);
    lemma_accesses_fail_on_the_bus();
    lemma_read_then_fails_on_the_bus(
        s,
        mode,
        |s: CpuState, m: u8|
            s.load_a(s.a & m).with_flag(CARRY, s.load_a(s.a & m).flag(NEGATIVE)),
    );
}

proof fn lemma_arr_fails_on_the_bus(s: CpuState, mode: AddressingMode)
    ensures
        fails_on_the_bus(s.arr(mode)),
{
    reveal(CpuState::arr);
    lemma_accesses_fail_on_the_bus();
    lemma_read_then_fails_on_the_bus(
        s,
        mode,
        |s: CpuState, m: u8| s.load_a(s.a & m).rotate_after_and(),
    );
}

proof fn lemma_atx_fails_on_the_bus(s: CpuState, mode: AddressingMode)
    ensures
        fails_on_the_bus(s.atx(mode)),
{
    reveal(CpuState::atx);
    lemma_accesses_fail_on_the_bus();
    lemma_read_then_fails_on_the_bus(
        s,
        mode,
        |s: CpuState, m: u8| CpuState { x: s.a & m, ..s.load_a(s.a & m) },
    );
}

proof fn lemma_axa_fails_on_the_bus(s: CpuState, mode: AddressingMode)
    ensures
        fails_on_the_bus(s.axa(mode)),
{
    reveal(CpuState::axa);
    lemma_accesses_fail_on_the_bus();
    lemma_store_fails_on_the_bus(
        s,
        mode,
        |s: CpuState, addr: u16| s.a & s.x & high_byte(addr).wrapping_add(1),
    );
}

proof fn lemma_axs_fails_on_the_bus(s: CpuState, mode: AddressingMode)
    ensures
        fails_on_the_bus(s.axs(mode)),
{
    reveal(CpuState::axs);
    lemma_accesses_fail_on_the_bus();
    lemma_read_then_fails_on_the_bus(
        s,
        mode,
        |s: CpuState, m: u8| s.and_x_minus(m),
    );
}

proof fn lemma_dcp_fails_on_the_bus(s: CpuState, mode: AddressingMode)
    ensures
        fails_on_the_bus(s.dcp(mode)),
{
    reveal(CpuState::dcp);
    lemma_accesses_fail_on_the_bus();
    lemma_modify_fails_on_the_bus(
        s,
        mode,
        |s: CpuState, v: u8| v.wrapping_sub(1),
        |s: CpuState, v: u8, n: u8| s.compare(s.a, n),
    );
}

proof fn lemma_isb_fails_on_the_bus(s: CpuState, mode: AddressingMode)
    ensures
        fails_on_the_bus(s.isb(mode)),
{
    reveal(CpuState::isb);
    lemma_accesses_fail_on_the_bus();
    lemma_modify_fails_on_the_bus(
        s,
        mode,
        |s: CpuState, v: u8| v.wrapping_add(1),
        |s: CpuState, v: u8, n: u8| s.subtract_from_a(n),
    );
}

proof fn lemma_lar_fails_on_the_bus(s: CpuState, mode: AddressingMode)
    ensures
        fails_on_the_bus(s.lar(mode)),
{
    reveal(CpuState::lar);
    lemma_accesses_fail_on_the_bus();
    lemma_read_then_fails_on_the_bus(
        s,
        mode,
        |s: CpuState, m: u8| s.and_stack(m),
    );
}

proof fn lemma_lax_fails_on_the_bus(s: CpuState, mode: AddressingMode)
    ensures
        fails_on_the_bus(s.lax(mode)),
{
    reveal(CpuState::lax);
    lemma_accesses_fail_on_the_bus();
    lemma_read_then_fails_on_the_bus(
        s,
        mode,
        |s: CpuState, m: u8| s.load_a(m).load_x(m),
    );
}

proof fn lemma_rla_fails_on_the_bus(s: CpuState, mode: AddressingMode)
    ensures
        fails_on_the_bus(s.rla(mode)),
{
    reveal(CpuState::rla);
    lemma_accesses_fail_on_the_bus();
    lemma_modify_fails_on_the_bus(
        s,
        mode,
        |s: CpuState, v: u8| rotate_left(v, s.flag(CARRY)).result,
        |s: CpuState, v: u8, n: u8|
            s.with_shift(rotate_left(v, s.flag(CARRY))).load_a(s.a & n),
    );
}

proof fn lemma_rra_fails_on_the_bus(s: CpuState, mode: AddressingMode)
    ensures
        fails_on_the_bus(s.rra(mode)),
{
    reveal(CpuState::rra);
    lemma_accesses_fail_on_the_bus();
    lemma_modify_fails_on_the_bus(
        s,
        mode,
        |s: CpuState, v: u8| rotate_right(v, s.flag(CARRY)).result,
        |s: CpuState, v: u8, n: u8|
            s.with_shift(rotate_right(v, s.flag(CARRY))).add_to_a(n),
    );
}

proof fn lemma_sax_fails_on_the_bus(s: CpuState, mode: AddressingMode)
    ensures
        fails_on_the_bus(s.sax(mode)),
{
    reveal(CpuState::sax);
    lemma_accesses_fail_on_the_bus();
    lemma_store_fails_on_the_bus(
        s,
        mode,
        |s: CpuState, addr: u16| s.a & s.x,
    );
}

proof fn lemma_slo_fails_on_the_bus(s: CpuState, mode: AddressingMode)
    ensures
        fails_on_the_bus(s.slo(mode)),
{
    reveal(CpuState::slo);
    lemma_accesses_fail_on_the_bus();
    lemma_modify_fails_on_the_bus(
        s,
        mode,
        |s: CpuState, v: u8| shift_left(v).result,
        |s: CpuState, v: u8, n: u8| s.with_shift(shift_left(v)).load_a(s.a | n),
    );
}

proof fn lemma_sre_fails_on_the_bus(s: CpuState, mode: AddressingMode)
    ensures
        fails_on_the_bus(s.sre(mode)),
{
    reveal(CpuState::sre);
    lemma_accesses_fail_on_the_bus();
    lemma_modify_fails_on_the_bus(
        s,
        mode,
        |s: CpuState, v: u8| shift_right(v).result,
        |s: CpuState, v: u8, n: u8| s.with_shift(shift_right(v)).load_a(s.a ^ n),
    );
}

proof fn lemma_sxa_fails_on_the_bus(s: CpuState, mode: AddressingMode)
    ensures
        fails_on_the_bus(s.sxa(mode)),
{
    reveal(CpuState::sxa);
    lemma_accesses_fail_on_the_bus();
    lemma_store_fails_on_the_bus(
        s,
        mode,
        |s: CpuState, addr: u16| s.x & high_byte(addr).wrapping_add(1),
    );
}

proof fn lemma_sya_fails_on_the_bus(s: CpuState, mode: AddressingMode)
    ensures
        fails_on_the_bus(s.sya(mode)),
{
    reveal(CpuState::sya);
    lemma_accesses_fail_on_the_bus();
    lemma_store_fails_on_the_bus(
        s,
        mode,
        |s: CpuState, addr: u16| s.y & high_byte(addr).wrapping_add(1),
    );
}

proof fn lemma_xaa_fails_on_the_bus(s: CpuState, mode: AddressingMode)
    ensures
        fails_on_the_bus(s.xaa(mode)),
{
    reveal(CpuState::xaa);
    lemma_accesses_fail_on_the_bus();
    lemma_read_then_fails_on_the_bus(
        s,
        mode,
        |s: CpuState, m: u8| CpuState { a: s.x & m, ..s },
    );
}

proof fn lemma_xas_fails_on_the_bus(s: CpuState, mode: AddressingMode)
    ensures
        fails_on_the_bus(s.xas(mode)),
{
    reveal(CpuState::xas);
    lemma_accesses_fail_on_the_bus();
    lemma_resolve_fails_on_the_bus(s, mode, s.pc);
}

proof fn lemma_control_fails_on_the_bus(s: CpuState, condition: bool, vector: u16)
    ensures
        fails_on_the_bus(s.branch(condition)),
        fails_on_the_bus(s.jsr()),
        fails_on_the_bus(s.brk()),
        fails_on_the_bus(s.interrupt(vector)),
        fails_on_the_bus(s.irq()),
{
    reveal(CpuState::branch);
    reveal(CpuState::jsr);
    reveal(CpuState::brk);
    reveal(CpuState::enter_handler);
    lemma_accesses_fail_on_the_bus();
}

/// An instruction fails only where the bus refuses an access or where the
/// instruction is a halt; a halt always fails.
pub proof fn law_instructions_fail_on_the_bus_or_halt(
    s: CpuState,
    operation: Operation,
    mode: AddressingMode,
)
    ensures
        fails_on_the_bus_or_halts(s.execute(operation, mode)),
        operation is Hlt <==> s.execute(operation, mode).1 == Err::<u8, CpuError>(
            CpuError::IllegalHalt,
        ),
{
    reveal(CpuState::execute);
    lemma_control_fails_on_the_bus(s, true, 0);
    lemma_control_fails_on_the_bus(s, false, 0);
    match operation {
        Operation::Adc => lemma_adc_fails_on_the_bus(s, mode),
        Operation::And => lemma_and_fails_on_the_bus(s, mode),
        Operation::Asl => lemma_asl_fails_on_the_bus(s, mode),
        Operation::Bit => lemma_bit_fails_on_the_bus(s, mode),
        Operation::Cmp => lemma_cpa_fails_on_the_bus(s, mode),
        Operation::Cpx => lemma_cpx_fails_on_the_bus(s, mode),
        Operation::Cpy => lemma_cpy_fails_on_the_bus(s, mode),
        Operation::Dec => lemma_dec_fails_on_the_bus(s, mode),
        Operation::Eor => lemma_eor_fails_on_the_bus(s, mode),
        Operation::Inc => lemma_inc_fails_on_the_bus(s, mode),
        Operation::Jmp => lemma_jmp_fails_on_the_bus(s, mode),
        Operation::Lda => lemma_lda_fails_on_the_bus(s, mode),
        Operation::Ldx => lemma_ldx_fails_on_the_bus(s, mode),
        Operation::Ldy => lemma_ldy_fails_on_the_bus(s, mode),
        Operation::Lsr => lemma_lsr_fails_on_the_bus(s, mode),
        Operation::Nop => lemma_nop_fails_on_the_bus(s, mode),
        Operation::Ora => lemma_ora_fails_on_the_bus(s, mode),
        Operation::Rol => lemma_rol_fails_on_the_bus(s, mode),
        Operation::Ror => lemma_ror_fails_on_the_bus(s, mode),
        Operation::Sbc => lemma_sbc_fails_on_the_bus(s, mode),
        Operation::Sta => lemma_sta_fails_on_the_bus(s, mode),
        Operation::Stx => lemma_stx_fails_on_the_bus(s, mode),
        Operation::Sty => lemma_sty_fails_on_the_bus(s, mode),
        Operation::Alr => lemma_alr_fails_on_the_bus(s, mode),
        Operation::Anc => lemma_anc_fails_on_the_bus(s, mode),
        Operation::Arr => lemma_arr_fails_on_the_bus(s, mode),
        Operation::Atx => lemma_atx_fails_on_the_bus(s, mode),
        Operation::Axa => lemma_axa_fails_on_the_bus(s, mode),
        Operation::Axs => lemma_axs_fails_on_the_bus(s, mode),
        Operation::Dcp => lemma_dcp_fails_on_the_bus(s, mode),
        Operation::Isb => lemma_isb_fails_on_the_bus(s, mode),
        Operation::Lar => lemma_lar_fails_on_the_bus(s, mode),
        Operation::Lax => lemma_lax_fails_on_the_bus(s, mode),
        Operation::Rla => lemma_rla_fails_on_the_bus(s, mode),
        Operation::Rra => lemma_rra_fails_on_the_bus(s, mode),
        Operation::Sax => lemma_sax_fails_on_the_bus(s, mode),
        Operation::Slo => lemma_slo_fails_on_the_bus(s, mode),
        Operation::Sre => lemma_sre_fails_on_the_bus(s, mode),
        Operation::Sxa => lemma_sxa_fails_on_the_bus(s, mode),
        Operation::Sya => lemma_sya_fails_on_the_bus(s, mode),
        Operation::Xaa => lemma_xaa_fails_on_the_bus(s, mode),
        Operation::Xas => lemma_xas_fails_on_the_bus(s, mode),
        _ => {},
    }
}

/// A step fails only where the bus refuses an access or where a halt is
/// met. No opcode is unknown.
pub proof fn law_steps_fail_on_the_bus_or_halt(s: CpuState, code: u8)
    ensures
        fails_on_the_bus_or_halts(s.run_opcode(code)),
        fails_on_the_bus(s.fetch()),
        fails_on_the_bus_or_halts(s.step()),
        fails_on_the_bus_or_halts(s.step_unless_break()),
{
    law_no_opcode_is_unknown(s, code);
    law_instructions_fail_on_the_bus_or_halt(s, operation_at(code), OpCode::of(code).mode);
    lemma_control_fails_on_the_bus(
        CpuState { bus: s.bus.poll_nmi().0, ..s },
        true,
        crate::cpu::state::NMI_VECTOR,
    );
    lemma_accesses_fail_on_the_bus();
    if s.fetch().1 is Ok {
        let fetched = s.fetch().0;
        let byte = s.fetch().1->Ok_0.0;
        law_no_opcode_is_unknown(fetched, byte);
        law_instructions_fail_on_the_bus_or_halt(
            fetched,
            operation_at(byte),
            OpCode::of(byte).mode,
        );
    }
}

} // verus!
