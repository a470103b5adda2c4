//! The addressing modes: where they wrap and what they cross.

use vstd::prelude::*;
use crate::bus::BusState;
use crate::cpu::state::{indexed, next_in_page, CpuState};
use crate::cpu::AddressingMode;
use crate::error::CpuError;
use crate::mem::word;

verus! {

/// The zero-page modes never leave the zero page: the index is added
/// modulo 256.
pub proof fn law_zero_page_modes_stay_in_page(s: CpuState, mode: AddressingMode, base: u16)
    requires
        mode is ZeroPage || mode is ZeroPage_X || mode is ZeroPage_Y,
        s.resolve(mode, base).1 is Ok,
    ensures
        s.resolve(mode, base).1->Ok_0.0 < 0x100,
        !s.resolve(mode, base).1->Ok_0.1,
        s.read(base).1 is Ok,
        mode is ZeroPage_X ==> s.resolve(mode, base).1->Ok_0.0 == (s.read(base).1->Ok_0 + s.x)
            % 256,
        mode is ZeroPage_Y ==> s.resolve(mode, base).1->Ok_0.0 == (s.read(base).1->Ok_0 + s.y)
            % 256,
{
    reveal(CpuState::resolve);
}

/// The target of an indirect jump is fetched within one page: the address
/// of its high byte lies in the page of its low byte, and behind `0x..FF`
/// comes `0x..00`.
pub proof fn law_indirect_fetch_stays_in_page(ptr: u16)
    ensures
        next_in_page(ptr) / 256 == ptr / 256,
        ptr % 256 == 0xFF ==> next_in_page(ptr) == ptr - 0xFF,
        ptr % 256 != 0xFF ==> next_in_page(ptr) == ptr + 1,
{
}

/// A page is crossed exactly where adding the index carries into the high
/// byte of the address.
pub proof fn law_page_crossing(base: u16, index: u8)
    ensures
        indexed(base, index).1 == (base % 256 + index >= 256),
{
}

/// A word of the zero page is read inside the zero page: its high byte
/// comes from the address after its low byte modulo 256, and the read
/// changes nothing.
pub proof fn law_zero_page_word_stays_in_page(s: CpuState, ptr: u8)
    ensures
        s.read_zero_page_word(ptr) == (
            s,
            Ok::<u16, CpuError>(
                word(s.bus.ram[ptr as int], s.bus.ram[((ptr + 1) % 256) as int]),
            ),
        ),
{
    reveal(BusState::read);
}

/// The pointer of `(Indirect,X)` is the operand byte plus X modulo 256, and
/// the address is the zero-page word at the pointer.
pub proof fn law_indirect_x_stays_in_zero_page(s: CpuState, base: u16)
    requires
        s.read(base).1 is Ok,
    ensures
        ({
            let ptr = ((s.read(base).1->Ok_0 + s.x) % 256) as u8;
            let ram = s.read(base).0.bus.ram;
            s.resolve(AddressingMode::Indirect_X, base) == (
                s.read(base).0,
                Ok::<(u16, bool), CpuError>(
                    (word(ram[ptr as int], ram[((ptr + 1) % 256) as int]), false),
                ),
            )
        }),
{
    reveal(CpuState::resolve);
    let ptr = ((s.read(base).1->Ok_0 + s.x) % 256) as u8;
    law_zero_page_word_stays_in_page(s.read(base).0, ptr);
}

/// An indirect jump takes the low byte of its target from the pointer and
/// the high byte from the address after it within the page of the pointer:
/// for a pointer at `0x..FF`, from `0x..00` of the same page.
pub proof fn law_indirect_jump_fetches_within_the_page(s: CpuState, base: u16)
    requires
        s.resolve(AddressingMode::Indirect, base).1 is Ok,
    ensures
        ({
            let pointer = s.read_u16(base);
            let ptr = pointer.1->Ok_0;
            let low = pointer.0.read(ptr);
            let high = low.0.read(next_in_page(ptr));
            &&& pointer.1 is Ok && low.1 is Ok && high.1 is Ok
            &&& s.resolve(AddressingMode::Indirect, base) == (
                high.0,
                Ok::<(u16, bool), CpuError>((word(low.1->Ok_0, high.1->Ok_0), false)),
            )
            &&& next_in_page(ptr) / 256 == ptr / 256
        }),
{
    reveal(CpuState::resolve);
}

} // verus!
