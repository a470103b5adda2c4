//! The PPU: nametable mirroring, the write toggle and the frame clock.

use vstd::prelude::*;
use crate::bits::{has_flag, lemma_with_flag_reads_back};
use crate::mem::word;
use crate::ppu::statusreg::StatusRegister;
use crate::ppu::{nametable_index, palette_index, PpuState};
use crate::rom::Mirroring;

verus! {

/// With horizontal mirroring the nametables 0 and 1 share their bytes, and
/// so do 2 and 3, while 0 and 2 do not.
pub proof fn law_horizontal_nametables_share(addr: u16)
    requires
        0x2000 <= addr < 0x2400,
    ensures
        nametable_index(Mirroring::Horizontal, addr) == addr - 0x2000,
        nametable_index(Mirroring::Horizontal, (addr + 0x400) as u16) == addr - 0x2000,
        nametable_index(Mirroring::Horizontal, (addr + 0x800) as u16) == addr - 0x2000 + 0x400,
        nametable_index(Mirroring::Horizontal, (addr + 0xC00) as u16) == addr - 0x2000 + 0x400,
{
    let i = (addr - 0x2000) as int;
    assert(addr % 0x1000 == i);
    assert((addr + 0x400) % 0x1000 == i + 0x400);
    assert((addr + 0x800) % 0x1000 == i + 0x800);
    assert((addr + 0xC00) % 0x1000 == i + 0xC00);
    assert(i / 0x800 == 0 && (i + 0x400) / 0x800 == 0);
    assert((i + 0x800) / 0x800 == 1 && (i + 0xC00) / 0x800 == 1);
    assert(i % 0x400 == i && (i + 0x400) % 0x400 == i);
    assert((i + 0x800) % 0x400 == i && (i + 0xC00) % 0x400 == i);
}

/// With vertical mirroring the nametables 0 and 2 share their bytes, and
/// so do 1 and 3, while 0 and 1 do not.
pub proof fn law_vertical_nametables_share(addr: u16)
    requires
        0x2000 <= addr < 0x2400,
    ensures
        nametable_index(Mirroring::Vertical, addr) == addr - 0x2000,
        nametable_index(Mirroring::Vertical, (addr + 0x800) as u16) == addr - 0x2000,
        nametable_index(Mirroring::Vertical, (addr + 0x400) as u16) == addr - 0x2000 + 0x400,
        nametable_index(Mirroring::Vertical, (addr + 0xC00) as u16) == addr - 0x2000 + 0x400,
{
    let i = (addr - 0x2000) as int;
    assert(addr % 0x1000 == i);
    assert((addr + 0x400) % 0x1000 == i + 0x400);
    assert((addr + 0x800) % 0x1000 == i + 0x800);
    assert((addr + 0xC00) % 0x1000 == i + 0xC00);
    assert(i % 0x800 == i && (i + 0x400) % 0x800 == i + 0x400);
    assert((i + 0x800) % 0x800 == i && (i + 0xC00) % 0x800 == i + 0x400);
}

/// A folded nametable address lies inside the 2 KiB of VRAM unless the
/// cartridge has four screens.
pub proof fn law_nametable_index_is_in_vram(mirroring: Mirroring, addr: u16)
    requires
        mirroring != Mirroring::FourScreen,
    ensures
        nametable_index(mirroring, addr) < 2048,
{
}

/// The clock stays inside the frame, and the memories keep their sizes,
/// whatever is done to the PPU.
pub proof fn law_ppu_stays_well_formed(ppu: PpuState, value: u8)
    requires
        ppu.wf(),
    ensures
        ppu.tick(value).0.wf(),
        ppu.write_ctrl(value).wf(),
        ppu.write_mask(value).wf(),
        ppu.read_status().0.wf(),
        ppu.write_oam_addr(value).wf(),
        ppu.write_oam_data(value).wf(),
        ppu.write_scroll(value).wf(),
        ppu.write_addr(value).wf(),
        ppu.read_data().0.wf(),
        ppu.write_data(value).0.wf(),
        ppu.take_nmi().0.wf(),
{
}

/// The PPU runs three dots to the CPU cycle. Where three times the cycles
/// are a byte, ticking the PPU three times by the cycles is ticking it
/// once by three times the cycles.
pub proof fn law_three_ticks_are_one(ppu: PpuState, cycles: u8)
    requires
        ppu.wf(),
        3 * cycles <= 255,
    ensures
        ppu.tick(cycles).0.tick(cycles).0.tick(cycles).0 == ppu.tick((3 * cycles) as u8).0,
        (ppu.tick(cycles).1 || ppu.tick(cycles).0.tick(cycles).1 || ppu.tick(cycles).0.tick(
            cycles,
        ).0.tick(cycles).1) == ppu.tick((3 * cycles) as u8).1,
{
}

/// A read of STATUS leaves the write toggle at the first write of a pair
/// and vertical blank cleared.
pub proof fn law_status_read_resets_the_toggle(ppu: PpuState)
    ensures
        !ppu.read_status().0.w,
        !has_flag(ppu.read_status().0.status, StatusRegister::VBLANK_FLAG),
{
    lemma_with_flag_reads_back(
        ppu.status,
        StatusRegister::VBLANK_FLAG,
        false,
    );
}

/// Two writes to ADDR after a read of STATUS set the VRAM address to the
/// word they spell, cut to 14 bits.
pub proof fn law_addr_takes_two_writes(ppu: PpuState, hi: u8, lo: u8)
    ensures
        ppu.read_status().0.write_addr(hi).write_addr(lo).addr == (hi % 64) * 256 + lo,
        !ppu.read_status().0.write_addr(hi).write_addr(lo).w,
{
}

/// A frame has 262 scanlines of 341 dots: a tick that passes the end of
/// the last scanline completes the frame, and no other tick does.
pub proof fn law_frame_completes_at_the_last_scanline(ppu: PpuState, cycles: u8)
    requires
        ppu.wf(),
    ensures
        ppu.tick(cycles).1 == (ppu.scanline == 261 && ppu.dot + cycles >= 341),
        ppu.tick(cycles).0.scanline * 341 + ppu.tick(cycles).0.dot == (ppu.scanline * 341
            + ppu.dot + cycles) % 89342int,
{
}

/// The palette has 32 entries and answers under every address of its
/// window; the entries `0x10`, `0x14`, `0x18` and `0x1C` are those at
/// `0x00`, `0x04`, `0x08` and `0x0C`.
pub proof fn law_palette_is_mirrored(addr: u16)
    requires
        0x3F00 <= addr < 0x3FE0,
    ensures
        palette_index(addr) < 32,
        palette_index(addr) == palette_index((addr + 32) as u16),
        palette_index(0x3F10) == 0x00,
        palette_index(0x3F14) == 0x04,
        palette_index(0x3F18) == 0x08,
        palette_index(0x3F1C) == 0x0C,
        palette_index(0x3F11) == 0x11,
{
}

} // verus!
