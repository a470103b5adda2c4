//! Zero and negative follow the result: after every instruction that
//! leaves a result, the two flags tell of it.

use vstd::prelude::*;
use crate::bits::{bit7, with_flag};
use crate::cpu::alu::{rotate_left, rotate_right, shift_left, shift_right, CARRY, NEGATIVE, ZERO};
use crate::cpu::state::CpuState;
use crate::cpu::AddressingMode;
use crate::laws::status::lemma_zero_and_negative_always;
use crate::opcode::Operation;

verus! {

/// The register in which an operation leaves its result, read from the
/// processor as the operation left it; `None` for an operation that
/// leaves no result in a register.
pub open spec fn register_result(
    operation: Operation,
    mode: AddressingMode,
    after: CpuState,
) -> Option<u8> {
    match operation {
        Operation::Lda | Operation::And | Operation::Ora | Operation::Eor | Operation::Adc
        | Operation::Sbc | Operation::Pla | Operation::Txa | Operation::Tya | Operation::Lax
        | Operation::Alr | Operation::Anc | Operation::Arr | Operation::Atx | Operation::Isb
        | Operation::Slo | Operation::Rla | Operation::Sre | Operation::Rra
        | Operation::Lar => Some(after.a),
        Operation::Ldx | Operation::Tax | Operation::Tsx | Operation::Inx | Operation::Dex
        | Operation::Axs => Some(after.x),
        Operation::Ldy | Operation::Tay | Operation::Iny | Operation::Dey => Some(after.y),
        Operation::Asl | Operation::Lsr | Operation::Rol | Operation::Ror => if mode.has_operand() {
            None
        } else {
            Some(after.a)
        },
        _ => None,
    }
}

/// Zero and negative tell of the byte.
pub open spec fn flags_tell_of(s: CpuState, value: u8) -> bool {
    s.flag(ZERO) == (value == 0) && s.flag(NEGATIVE) == bit7(value)
}

/// An instruction that reads its operand and did not fail has applied its
/// work to an operand.
pub proof fn lemma_read_then_has_applied(
    s: CpuState,
    mode: AddressingMode,
    apply: spec_fn(CpuState, u8) -> CpuState,
)
    requires
        s.read_then(mode, apply).1 is Ok,
    ensures
        s.read_operand(mode).1 is Ok,
        s.read_then(mode, apply).0 == apply(
            s.read_operand(mode).0,
            s.read_operand(mode).1->Ok_0.0,
        ),
{
    reveal(CpuState::read_then);
}

/// An instruction that writes a byte back and did not fail has worked on
/// the registers with the byte it read and the byte it wrote.
pub proof fn lemma_modify_has_worked(
    s: CpuState,
    mode: AddressingMode,
    change: spec_fn(CpuState, u8) -> u8,
    after: spec_fn(CpuState, u8, u8) -> CpuState,
)
    requires
        s.modify(mode, change, after).1 is Ok,
    ensures
        ({
            let target = s.operand_address(mode);
            let addr = target.1->Ok_0.0;
            let before = target.0.read(addr).0;
            let old = target.0.read(addr).1->Ok_0;
            let new = change(before, old);
            s.modify(mode, change, after).0 == after(before.write(addr, new).0, old, new)
        }),
{
    reveal(CpuState::modify);
}

/// The byte that an instruction which works on memory writes back.
pub open spec fn byte_written(s: CpuState, operation: Operation, mode: AddressingMode) -> u8 {
    let target = s.operand_address(mode);
    let read = target.0.read(target.1->Ok_0.0);
    let before = read.0;
    let old = read.1->Ok_0;
    match operation {
        Operation::Inc => old.wrapping_add(1),
        Operation::Dec => old.wrapping_sub(1),
        Operation::Asl => shift_left(old).result,
        Operation::Lsr => shift_right(old).result,
        Operation::Rol => rotate_left(old, before.flag(CARRY)).result,
        _ => rotate_right(old, before.flag(CARRY)).result,
    }
}

proof fn lemma_flags_follow_lda(s: CpuState, mode: AddressingMode)
    requires
        s.lda(mode).1 is Ok,
    ensures
        flags_tell_of(s.lda(mode).0, s.lda(mode).0.a),
{
    reveal(CpuState::lda);
    lemma_zero_and_negative_always();
    lemma_read_then_has_applied(
        s,
        mode,
        |s: CpuState, m: u8| s.load_a(m),
    );
}

proof fn lemma_flags_follow_ldx(s: CpuState, mode: AddressingMode)
    requires
        s.ldx(mode).1 is Ok,
    ensures
        flags_tell_of(s.ldx(mode).0, s.ldx(mode).0.x),
{
    reveal(CpuState::ldx);
    lemma_zero_and_negative_always();
    lemma_read_then_has_applied(
        s,
        mode,
        |s: CpuState, m: u8| s.load_x(m),
    );
}

proof fn lemma_flags_follow_ldy(s: CpuState, mode: AddressingMode)
    requires
        s.ldy(mode).1 is Ok,
    ensures
        flags_tell_of(s.ldy(mode).0, s.ldy(mode).0.y),
{
    reveal(CpuState::ldy);
    lemma_zero_and_negative_always();
    lemma_read_then_has_applied(
        s,
        mode,
        |s: CpuState, m: u8| s.load_y(m),
    );
}

proof fn lemma_flags_follow_lax(s: CpuState, mode: AddressingMode)
    requires
        s.lax(mode).1 is Ok,
    ensures
        flags_tell_of(s.lax(mode).0, s.lax(mode).0.a),
{
    reveal(CpuState::lax);
    lemma_zero_and_negative_always();
    lemma_read_then_has_applied(
        s,
        mode,
        |s: CpuState, m: u8| s.load_a(m).load_x(m),
    );
}

proof fn lemma_flags_follow_lar(s: CpuState, mode: AddressingMode)
    requires
        s.lar(mode).1 is Ok,
    ensures
        flags_tell_of(s.lar(mode).0, s.lar(mode).0.a),
{
    reveal(CpuState::lar);
    lemma_zero_and_negative_always();
    lemma_read_then_has_applied(
        s,
        mode,
        |s: CpuState, m: u8| s.and_stack(m),
    );
}

proof fn lemma_flags_follow_and(s: CpuState, mode: AddressingMode)
    requires
        s.and(mode).1 is Ok,
    ensures
        flags_tell_of(s.and(mode).0, s.and(mode).0.a),
{
    reveal(CpuState::and);
    lemma_zero_and_negative_always();
    lemma_read_then_has_applied(
        s,
        mode,
        |s: CpuState, m: u8| s.load_a(s.a & m),
    );
}

proof fn lemma_flags_follow_ora(s: CpuState, mode: AddressingMode)
    requires
        s.ora(mode).1 is Ok,
    ensures
        flags_tell_of(s.ora(mode).0, s.ora(mode).0.a),
{
    reveal(CpuState::ora);
    lemma_zero_and_negative_always();
    lemma_read_then_has_applied(
        s,
        mode,
        |s: CpuState, m: u8| s.load_a(s.a | m),
    );
}

proof fn lemma_flags_follow_eor(s: CpuState, mode: AddressingMode)
    requires
        s.eor(mode).1 is Ok,
    ensures
        flags_tell_of(s.eor(mode).0, s.eor(mode).0.a),
{
    reveal(CpuState::eor);
    lemma_zero_and_negative_always();
    lemma_read_then_has_applied(
        s,
        mode,
        |s: CpuState, m: u8| s.load_a(s.a ^ m),
    );
}

proof fn lemma_flags_follow_adc(s: CpuState, mode: AddressingMode)
    requires
        s.adc(mode).1 is Ok,
    ensures
        flags_tell_of(s.adc(mode).0, s.adc(mode).0.a),
{
    reveal(CpuState::adc);
    lemma_zero_and_negative_always();
    lemma_read_then_has_applied(
        s,
        mode,
        |s: CpuState, m: u8| s.add_to_a(m),
    );
}

proof fn lemma_flags_follow_sbc(s: CpuState, mode: AddressingMode)
    requires
        s.sbc(mode).1 is Ok,
    ensures
        flags_tell_of(s.sbc(mode).0, s.sbc(mode).0.a),
{
    reveal(CpuState::sbc);
    lemma_zero_and_negative_always();
    lemma_read_then_has_applied(
        s,
        mode,
        |s: CpuState, m: u8| s.subtract_from_a(m),
    );
}

proof fn lemma_flags_follow_axs(s: CpuState, mode: AddressingMode)
    requires
        s.axs(mode).1 is Ok,
    ensures
        flags_tell_of(s.axs(mode).0, s.axs(mode).0.x),
{
    reveal(CpuState::axs);
    lemma_zero_and_negative_always();
    lemma_read_then_has_applied(
        s,
        mode,
        |s: CpuState, m: u8| s.and_x_minus(m),
    );
}

proof fn lemma_flags_follow_atx(s: CpuState, mode: AddressingMode)
    requires
        s.atx(mode).1 is Ok,
    ensures
        flags_tell_of(s.atx(mode).0, s.atx(mode).0.a),
{
    reveal(CpuState::atx);
    lemma_zero_and_negative_always();
    lemma_read_then_has_applied(
        s,
        mode,
        |s: CpuState, m: u8| CpuState { x: s.a & m, ..s.load_a(s.a & m) },
    );
}

proof fn lemma_flags_follow_alr(s: CpuState, mode: AddressingMode)
    requires
        s.alr(mode).1 is Ok,
    ensures
        flags_tell_of(s.alr(mode).0, s.alr(mode).0.a),
{
    reveal(CpuState::alr);
    lemma_zero_and_negative_always();
    lemma_read_then_has_applied(
        s,
        mode,
        |s: CpuState, m: u8| s.load_a(s.a & m).shift_a(shift_right(s.a & m)),
    );
}

proof fn lemma_flags_follow_anc(s: CpuState, mode: AddressingMode)
    requires
        s.anc(mode).1 is Ok,
    ensures
        flags_tell_of(s.anc(mode).0, s.anc(mode).0.a),
{
    reveal(CpuState::anc);
    lemma_zero_and_negative_always();
    lemma_read_then_has_applied(
        s,
        mode,
        |s: CpuState, m: u8|
            s.load_a(s.a & m).with_flag(CARRY, s.load_a(s.a & m).flag(NEGATIVE)),
    );
}

proof fn lemma_flags_follow_arr(s: CpuState, mode: AddressingMode)
    requires
        s.arr(mode).1 is Ok,
    ensures
        flags_tell_of(s.arr(mode).0, s.arr(mode).0.a),
{
    reveal(CpuState::arr);
    lemma_zero_and_negative_always();
    lemma_read_then_has_applied(
        s,
        mode,
        |s: CpuState, m: u8| s.load_a(s.a & m).rotate_after_and(),
    );
}

proof fn lemma_flags_follow_isb(s: CpuState, mode: AddressingMode)
    requires
        s.isb(mode).1 is Ok,
    ensures
        flags_tell_of(s.isb(mode).0, s.isb(mode).0.a),
{
    reveal(CpuState::isb);
    lemma_zero_and_negative_always();
    lemma_modify_has_worked(
        s,
        mode,
        |s: CpuState, v: u8| v.wrapping_add(1),
        |s: CpuState, v: u8, n: u8| s.subtract_from_a(n),
    );
}

proof fn lemma_flags_follow_slo(s: CpuState, mode: AddressingMode)
    requires
        s.slo(mode).1 is Ok,
    ensures
        flags_tell_of(s.slo(mode).0, s.slo(mode).0.a),
{
    reveal(CpuState::slo);
    lemma_zero_and_negative_always();
    lemma_modify_has_worked(
        s,
        mode,
        |s: CpuState, v: u8| shift_left(v).result,
        |s: CpuState, v: u8, n: u8| s.with_shift(shift_left(v)).load_a(s.a | n),
    );
}

proof fn lemma_flags_follow_rla(s: CpuState, mode: AddressingMode)
    requires
        s.rla(mode).1 is Ok,
    ensures
        flags_tell_of(s.rla(mode).0, s.rla(mode).0.a),
{
    reveal(CpuState::rla);
    lemma_zero_and_negative_always();
    lemma_modify_has_worked(
        s,
        mode,
        |s: CpuState, v: u8| rotate_left(v, s.flag(CARRY)).result,
        |s: CpuState, v: u8, n: u8|
            s.with_shift(rotate_left(v, s.flag(CARRY))).load_a(s.a & n),
    );
}

proof fn lemma_flags_follow_sre(s: CpuState, mode: AddressingMode)
    requires
        s.sre(mode).1 is Ok,
    ensures
        flags_tell_of(s.sre(mode).0, s.sre(mode).0.a),
{
    reveal(CpuState::sre);
    lemma_zero_and_negative_always();
    lemma_modify_has_worked(
        s,
        mode,
        |s: CpuState, v: u8| shift_right(v).result,
        |s: CpuState, v: u8, n: u8| s.with_shift(shift_right(v)).load_a(s.a ^ n),
    );
}

proof fn lemma_flags_follow_rra(s: CpuState, mode: AddressingMode)
    requires
        s.rra(mode).1 is Ok,
    ensures
        flags_tell_of(s.rra(mode).0, s.rra(mode).0.a),
{
    reveal(CpuState::rra);
    lemma_zero_and_negative_always();
    lemma_modify_has_worked(
        s,
        mode,
        |s: CpuState, v: u8| rotate_right(v, s.flag(CARRY)).result,
        |s: CpuState, v: u8, n: u8|
            s.with_shift(rotate_right(v, s.flag(CARRY))).add_to_a(n),
    );
}

proof fn lemma_flags_follow_written_inc(s: CpuState, mode: AddressingMode)
    requires
        mode.has_operand(),
        s.inc(mode).1 is Ok,
    ensures
        flags_tell_of(s.inc(mode).0, byte_written(s, Operation::Inc, mode)),
{
    reveal(CpuState::inc);
    lemma_zero_and_negative_always();
    lemma_modify_has_worked(
        s,
        mode,
        |s: CpuState, v: u8| v.wrapping_add(1),
        |s: CpuState, v: u8, n: u8| s.set_zn(n),
    );
}

proof fn lemma_flags_follow_written_dec(s: CpuState, mode: AddressingMode)
    requires
        mode.has_operand(),
        s.dec(mode).1 is Ok,
    ensures
        flags_tell_of(s.dec(mode).0, byte_written(s, Operation::Dec, mode)),
{
    reveal(CpuState::dec);
    lemma_zero_and_negative_always();
    lemma_modify_has_worked(
        s,
        mode,
        |s: CpuState, v: u8| v.wrapping_sub(1),
        |s: CpuState, v: u8, n: u8| s.set_zn(n),
    );
}

proof fn lemma_flags_follow_written_asl(s: CpuState, mode: AddressingMode)
    requires
        mode.has_operand(),
        s.asl(mode).1 is Ok,
    ensures
        flags_tell_of(s.asl(mode).0, byte_written(s, Operation::Asl, mode)),
{
    reveal(CpuState::asl);
    lemma_zero_and_negative_always();
    lemma_modify_has_worked(
        s,
        mode,
        |s: CpuState, v: u8| shift_left(v).result,
        |s: CpuState, v: u8, n: u8| s.with_shift(shift_left(v)),
    );
}

proof fn lemma_flags_follow_written_lsr(s: CpuState, mode: AddressingMode)
    requires
        mode.has_operand(),
        s.lsr(mode).1 is Ok,
    ensures
        flags_tell_of(s.lsr(mode).0, byte_written(s, Operation::Lsr, mode)),
{
    reveal(CpuState::lsr);
    lemma_zero_and_negative_always();
    lemma_modify_has_worked(
        s,
        mode,
        |s: CpuState, v: u8| shift_right(v).result,
        |s: CpuState, v: u8, n: u8| s.with_shift(shift_right(v)),
    );
}

proof fn lemma_flags_follow_written_rol(s: CpuState, mode: AddressingMode)
    requires
        mode.has_operand(),
        s.rol(mode).1 is Ok,
    ensures
        flags_tell_of(s.rol(mode).0, byte_written(s, Operation::Rol, mode)),
{
    reveal(CpuState::rol);
    lemma_zero_and_negative_always();
    lemma_modify_has_worked(
        s,
        mode,
        |s: CpuState, v: u8| rotate_left(v, s.flag(CARRY)).result,
        |s: CpuState, v: u8, n: u8| s.with_shift(rotate_left(v, s.flag(CARRY))),
    );
}

proof fn lemma_flags_follow_written_ror(s: CpuState, mode: AddressingMode)
    requires
        mode.has_operand(),
        s.ror(mode).1 is Ok,
    ensures
        flags_tell_of(s.ror(mode).0, byte_written(s, Operation::Ror, mode)),
{
    reveal(CpuState::ror);
    lemma_zero_and_negative_always();
    lemma_modify_has_worked(
        s,
        mode,
        |s: CpuState, v: u8| rotate_right(v, s.flag(CARRY)).result,
        |s: CpuState, v: u8, n: u8| s.with_shift(rotate_right(v, s.flag(CARRY))),
    );
}

proof fn lemma_flags_follow_accumulator_asl(s: CpuState, mode: AddressingMode)
    requires
        !mode.has_operand(),
    ensures
        s.asl(mode).1 is Ok,
        flags_tell_of(s.asl(mode).0, s.asl(mode).0.a),
{
    reveal(CpuState::asl);
    lemma_zero_and_negative_always();
}

proof fn lemma_flags_follow_accumulator_lsr(s: CpuState, mode: AddressingMode)
    requires
        !mode.has_operand(),
    ensures
        s.lsr(mode).1 is Ok,
        flags_tell_of(s.lsr(mode).0, s.lsr(mode).0.a),
{
    reveal(CpuState::lsr);
    lemma_zero_and_negative_always();
}

proof fn lemma_flags_follow_accumulator_rol(s: CpuState, mode: AddressingMode)
    requires
        !mode.has_operand(),
    ensures
        s.rol(mode).1 is Ok,
        flags_tell_of(s.rol(mode).0, s.rol(mode).0.a),
{
    reveal(CpuState::rol);
    lemma_zero_and_negative_always();
}

proof fn lemma_flags_follow_accumulator_ror(s: CpuState, mode: AddressingMode)
    requires
        !mode.has_operand(),
    ensures
        s.ror(mode).1 is Ok,
        flags_tell_of(s.ror(mode).0, s.ror(mode).0.a),
{
    reveal(CpuState::ror);
    lemma_zero_and_negative_always();
}

/// After a load, a transfer, a pull, an increment or a decrement of a
/// register, zero and negative tell of the register.
pub proof fn law_flags_follow_loads(s: CpuState, operation: Operation, mode: AddressingMode)
    requires
        operation is Lda || operation is Ldx || operation is Ldy || operation is Lax
            || operation is Tax || operation is Tay || operation is Tsx || operation is Txa
            || operation is Tya || operation is Pla || operation is Inx || operation is Iny
            || operation is Dex || operation is Dey || operation is Lar,
        s.execute(operation, mode).1 is Ok,
    ensures
        flags_tell_of(
            s.execute(operation, mode).0,
            register_result(operation, mode, s.execute(operation, mode).0)->Some_0,
        ),
{
    reveal(CpuState::execute);
    match operation {
        Operation::Lda => lemma_flags_follow_lda(s, mode),
        Operation::Ldx => lemma_flags_follow_ldx(s, mode),
        Operation::Ldy => lemma_flags_follow_ldy(s, mode),
        Operation::Lax => lemma_flags_follow_lax(s, mode),
        Operation::Lar => lemma_flags_follow_lar(s, mode),
        _ => {
            reveal(CpuState::pla);
            lemma_zero_and_negative_always();
        },
    }
}

/// After AND, ORA, EOR, ADC and SBC, in binary and in decimal, and after
/// AXS and ATX, zero and negative tell of the register that took the
/// result.
pub proof fn law_flags_follow_arithmetic(s: CpuState, operation: Operation, mode: AddressingMode)
    requires
        operation is And || operation is Ora || operation is Eor || operation is Adc
            || operation is Sbc || operation is Axs || operation is Atx,
        s.execute(operation, mode).1 is Ok,
    ensures
        flags_tell_of(
            s.execute(operation, mode).0,
            register_result(operation, mode, s.execute(operation, mode).0)->Some_0,
        ),
{
    reveal(CpuState::execute);
    match operation {
        Operation::And => lemma_flags_follow_and(s, mode),
        Operation::Ora => lemma_flags_follow_ora(s, mode),
        Operation::Eor => lemma_flags_follow_eor(s, mode),
        Operation::Adc => lemma_flags_follow_adc(s, mode),
        Operation::Sbc => lemma_flags_follow_sbc(s, mode),
        Operation::Axs => lemma_flags_follow_axs(s, mode),
        _ => lemma_flags_follow_atx(s, mode),
    }
}

/// After a shift or a rotation of the accumulator, zero and negative tell
/// of the accumulator.
pub proof fn law_flags_follow_shifts(s: CpuState, operation: Operation, mode: AddressingMode)
    requires
        operation is Asl || operation is Lsr || operation is Rol || operation is Ror,
        !mode.has_operand(),
    ensures
        s.execute(operation, mode).1 is Ok,
        flags_tell_of(s.execute(operation, mode).0, s.execute(operation, mode).0.a),
{
    reveal(CpuState::execute);
    match operation {
        Operation::Asl => lemma_flags_follow_accumulator_asl(s, mode),
        Operation::Lsr => lemma_flags_follow_accumulator_lsr(s, mode),
        Operation::Rol => lemma_flags_follow_accumulator_rol(s, mode),
        _ => lemma_flags_follow_accumulator_ror(s, mode),
    }
}

/// After the undocumented instructions that end in work on the
/// accumulator, zero and negative tell of the accumulator.
pub proof fn law_flags_follow_combined(s: CpuState, operation: Operation, mode: AddressingMode)
    requires
        operation is Isb || operation is Slo || operation is Rla || operation is Sre
            || operation is Rra || operation is Alr || operation is Anc || operation is Arr,
        s.execute(operation, mode).1 is Ok,
    ensures
        flags_tell_of(s.execute(operation, mode).0, s.execute(operation, mode).0.a),
{
    reveal(CpuState::execute);
    match operation {
        Operation::Isb => lemma_flags_follow_isb(s, mode),
        Operation::Slo => lemma_flags_follow_slo(s, mode),
        Operation::Rla => lemma_flags_follow_rla(s, mode),
        Operation::Sre => lemma_flags_follow_sre(s, mode),
        Operation::Rra => lemma_flags_follow_rra(s, mode),
        Operation::Alr => lemma_flags_follow_alr(s, mode),
        Operation::Anc => lemma_flags_follow_anc(s, mode),
        _ => lemma_flags_follow_arr(s, mode),
    }
}

/// After an increment, a decrement, a shift or a rotation of a byte of
/// memory, zero and negative tell of the byte written, not of the
/// accumulator.
pub proof fn law_flags_follow_memory_results(
    s: CpuState,
    operation: Operation,
    mode: AddressingMode,
)
    requires
        operation is Inc || operation is Dec || operation is Asl || operation is Lsr
            || operation is Rol || operation is Ror,
        mode.has_operand(),
        s.execute(operation, mode).1 is Ok,
    ensures
        flags_tell_of(s.execute(operation, mode).0, byte_written(s, operation, mode)),
{
    reveal(CpuState::execute);
    match operation {
        Operation::Inc => lemma_flags_follow_written_inc(s, mode),
        Operation::Dec => lemma_flags_follow_written_dec(s, mode),
        Operation::Asl => lemma_flags_follow_written_asl(s, mode),
        Operation::Lsr => lemma_flags_follow_written_lsr(s, mode),
        Operation::Rol => lemma_flags_follow_written_rol(s, mode),
        _ => lemma_flags_follow_written_ror(s, mode),
    }
}

} // verus!
