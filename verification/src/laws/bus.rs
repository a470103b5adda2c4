//! The memory map: mirrors, read-only regions and what accesses leave
//! alone.

use vstd::prelude::*;
use crate::bus::BusState;
use crate::error::CpuError;
use crate::mem::{next_addr, word};
use crate::rom::PRG_ROM_PAGE_SIZE;

verus! {

/// RAM answers under every address of its window: an address and the
/// address `0x0800` above it read alike.
pub proof fn law_ram_is_mirrored(bus: BusState, addr: u16)
    requires
        addr < 0x1800,
    ensures
        bus.read(addr) == bus.read((addr + 0x0800) as u16),
        bus.read(addr) == (bus, Ok::<u8, CpuError>(bus.ram[(addr % 0x0800) as int])),
{
    reveal(BusState::read);
}

/// A byte written to RAM is read back, under the address written and under
/// its mirrors.
pub proof fn law_ram_keeps_what_is_written(bus: BusState, addr: u16, data: u8, other: u16)
    requires
        bus.wf(),
        addr < 0x2000,
        other < 0x2000,
        addr % 0x0800 == other % 0x0800,
    ensures
        bus.write(addr, data).1 is Ok,
        bus.write(addr, data).0.wf(),
        bus.write(addr, data).0.read(other).1 == Ok::<u8, CpuError>(data),
{
    reveal(BusState::read);
    reveal(BusState::write);
}

/// A single bank of program ROM appears twice: an address in the lower half
/// of the ROM window and the address `0x4000` above it read alike.
pub proof fn law_single_bank_is_mirrored(bus: BusState, addr: u16)
    requires
        bus.prg_rom.len() == PRG_ROM_PAGE_SIZE,
        0x8000 <= addr < 0xC000,
    ensures
        bus.read(addr) == bus.read((addr + 0x4000) as u16),
        bus.read(addr) == (bus, Ok::<u8, CpuError>(bus.prg_rom[addr - 0x8000])),
{
    reveal(BusState::read);
}

/// Reading program ROM changes nothing and never fails, and looking at it
/// shows what reading gives.
pub proof fn law_rom_reads_are_pure(bus: BusState, addr: u16)
    requires
        addr >= 0x8000,
    ensures
        bus.read(addr) == (bus, Ok::<u8, CpuError>(bus.peek(addr))),
{
    reveal(BusState::read);
    reveal(BusState::peek);
}

/// Program ROM refuses writes unless they were allowed, and is then
/// unchanged.
pub proof fn law_rom_is_read_only(bus: BusState, addr: u16, data: u8)
    requires
        addr >= 0x8000,
        !bus.allow_rom_writes,
    ensures
        bus.write(addr, data) == (bus, Err::<(), CpuError>(CpuError::RomWrite(addr))),
{
    reveal(BusState::write);
}

/// The write-only registers of the PPU, and the DMA register, refuse reads.
pub proof fn law_write_only_registers_refuse_reads(bus: BusState, addr: u16)
    requires
        (0x2000 <= addr < 0x4000 && (addr % 8 == 0 || addr % 8 == 1 || addr % 8 == 3 || addr % 8
            == 5 || addr % 8 == 6)) || addr == 0x4014,
    ensures
        bus.read(addr) == (bus, Err::<u8, CpuError>(CpuError::WriteOnlyRead(addr))),
{
    reveal(BusState::read);
}

/// No access of the bus touches RAM except a write to the RAM window, and
/// none changes whether ROM may be written.
pub proof fn law_reads_leave_ram(bus: BusState, addr: u16)
    ensures
        bus.read(addr).0.ram == bus.ram,
        bus.read(addr).0.prg_rom == bus.prg_rom,
        bus.read(addr).0.allow_rom_writes == bus.allow_rom_writes,
        bus.read(addr).0.cycles == bus.cycles,
{
    reveal(BusState::read);
}

/// The cycle count never goes back.
pub proof fn law_cycles_never_go_back(bus: BusState, cycles: u8, addr: u16, data: u8)
    ensures
        bus.tick(cycles).cycles >= bus.cycles,
        bus.write(addr, data).0.cycles >= bus.cycles,
        bus.read(addr).0.cycles == bus.cycles,
{
    reveal(BusState::read);
    reveal(BusState::write);
    reveal(BusState::tick);
    reveal(BusState::oam_dma);
}

/// A read of a word leaves RAM as it is.
pub proof fn lemma_read_u16_leaves_ram(bus: BusState, pos: u16)
    ensures
        bus.read_u16(pos).0.ram == bus.ram,
{
    law_reads_leave_ram(bus, pos);
    law_reads_leave_ram(bus.read(pos).0, next_addr(pos));
}

/// Where no read has an effect, looking gives what reading gives: in RAM
/// and in program ROM a look and a read agree, and the read changes
/// nothing.
pub proof fn law_peek_agrees_with_read(bus: BusState, addr: u16)
    requires
        addr < 0x2000 || addr >= 0x8000,
    ensures
        bus.read(addr) == (bus, Ok::<u8, CpuError>(bus.peek(addr))),
{
    reveal(BusState::read);
    reveal(BusState::peek);
}

} // verus!
