//! The register face of the picture processing unit: nine memory-mapped
//! registers over 2 KiB of VRAM, 256 bytes of sprite memory and a 32-byte
//! palette, and the scanline clock that raises the vertical-blank NMI.

use vstd::prelude::*;
use crate::bits::{has_flag, with_flag};
use crate::error::CpuError;
use crate::rom::Mirroring;
use self::addrreg::{addr_after_step, addr_after_write, AddressRegister};
use self::ctrlreg::{vram_step, ControlFlags, ControlRegister};
use self::maskreg::MaskRegister;
use self::scrollreg::{scroll_after_write, ScrollRegister};
use self::statusreg::StatusRegister;

pub mod addrreg;
pub mod ctrlreg;
pub mod maskreg;
pub mod scrollreg;
pub mod statusreg;

verus! {

/// Dots in one scanline.
pub const DOTS_PER_SCANLINE: u16 = 341;

/// Scanlines in one frame.
pub const SCANLINES_PER_FRAME: u16 = 262;

/// The scanline on which vertical blank starts.
pub const VBLANK_SCANLINE: u16 = 241;

/// The byte at `index`, or zero where the sequence has none.
pub open spec fn byte_at(bytes: Seq<u8>, index: int) -> u8 {
    if 0 <= index < bytes.len() {
        bytes[index]
    } else {
        0
    }
}

/// `bytes` with the byte at `index` replaced, or unchanged where the
/// sequence has no such place.
pub open spec fn with_byte_at(bytes: Seq<u8>, index: int, value: u8) -> Seq<u8> {
    if 0 <= index < bytes.len() {
        bytes.update(index, value)
    } else {
        bytes
    }
}

/// Where in VRAM a nametable address lands. The address is taken modulo the
/// 4 KiB nametable space and then folded: with horizontal mirroring tables 0
/// and 1 share the first KiB and tables 2 and 3 the second; with vertical
/// mirroring tables 0 and 2 share the first and 1 and 3 the second; with
/// four screens nothing is folded.
pub open spec fn nametable_index(mirroring: Mirroring, addr: u16) -> u16 {
    let index = addr % 0x1000;
    match mirroring {
        Mirroring::Horizontal => ((index / 0x800) * 0x400 + index % 0x400) as u16,
        Mirroring::Vertical => index % 0x800,
        Mirroring::FourScreen => index,
    }
}

/// Where in the palette a palette address lands: the address modulo 32, with
/// the entries `0x10`, `0x14`, `0x18` and `0x1C` folded onto `0x00`, `0x04`,
/// `0x08` and `0x0C`.
pub open spec fn palette_index(addr: u16) -> u16 {
    let index = addr % 32;
    if index >= 16 && index % 4 == 0 {
        (index - 16) as u16
    } else {
        index
    }
}

/// The PPU as the contracts see it.
pub struct PpuState {
    pub chr_rom: Seq<u8>,
    pub palette_table: Seq<u8>,
    pub vram: Seq<u8>,
    pub oam_data: Seq<u8>,
    pub mirroring: Mirroring,
    /// The 14-bit VRAM address.
    pub addr: u16,
    pub ctrl: u8,
    pub mask: u8,
    pub status: u8,
    /// The scroll position, horizontal first.
    pub scroll: (u8, u8),
    pub oam_addr: u8,
    pub dot: u16,
    pub scanline: u16,
    pub read_buffer: u8,
    /// The write toggle shared by SCROLL and ADDR: clear before the first
    /// write of a pair, set before the second.
    pub w: bool,
    pub nmi_pending: bool,
}

impl PpuState {
    /// A PPU at power-on over the given pattern table.
    pub open spec fn power_on(chr_rom: Seq<u8>, mirroring: Mirroring) -> PpuState {
        PpuState {
            chr_rom,
            palette_table: Seq::new(32, |i: int| 0u8),
            vram: Seq::new(2048, |i: int| 0u8),
            oam_data: Seq::new(256, |i: int| 0u8),
            mirroring,
            addr: 0,
            ctrl: 0,
            mask: 0,
            status: 0,
            scroll: (0, 0),
            oam_addr: 0,
            dot: 0,
            scanline: 0,
            read_buffer: 0,
            w: true,
            nmi_pending: false,
        }
    }

    /// The memories have their sizes and the clock is inside the frame.
    pub open spec fn wf(self) -> bool {
        &&& self.palette_table.len() == 32
        &&& self.vram.len() == 2048
        &&& self.oam_data.len() == 256
        &&& self.addr < 0x4000
        &&& self.dot < DOTS_PER_SCANLINE
        &&& self.scanline < SCANLINES_PER_FRAME
    }

    /// A write to CTRL stores the byte; NMI becomes pending when the write
    /// switches NMI generation on during vertical blank.
    pub open spec fn write_ctrl(self, value: u8) -> PpuState {
        let rising = !has_flag(self.ctrl, ControlFlags::GENERATE_NMI) && has_flag(
            value,
            ControlFlags::GENERATE_NMI,
        ) && has_flag(self.status, StatusRegister::VBLANK_FLAG);
        PpuState { ctrl: value, nmi_pending: self.nmi_pending || rising, ..self }
    }

    /// A write to MASK stores the byte.
    pub open spec fn write_mask(self, value: u8) -> PpuState {
        PpuState { mask: value, ..self }
    }

    /// A read of STATUS gives the register as it stands, then clears the
    /// vertical-blank flag and the write toggle.
    pub open spec fn read_status(self) -> (PpuState, u8) {
        (
            PpuState {
                status: with_flag(self.status, StatusRegister::VBLANK_FLAG, false),
                w: false,
                ..self
            },
            self.status,
        )
    }

    /// A write to OAMADDR stores the byte.
    pub open spec fn write_oam_addr(self, value: u8) -> PpuState {
        PpuState { oam_addr: value, ..self }
    }

    /// A read of OAMDATA gives the sprite byte addressed, and moves nothing.
    pub open spec fn read_oam_data(self) -> u8 {
        byte_at(self.oam_data, self.oam_addr as int)
    }

    /// A write to OAMDATA stores the byte and moves the sprite address on by
    /// one, modulo 256.
    pub open spec fn write_oam_data(self, value: u8) -> PpuState {
        PpuState {
            oam_data: with_byte_at(self.oam_data, self.oam_addr as int, value),
            oam_addr: ((self.oam_addr + 1) % 256) as u8,
            ..self
        }
    }

    /// Sprite DMA lays the 256 bytes of `page` into sprite memory from the
    /// sprite address on, wrapping; the sprite address ends where it began.
    pub open spec fn write_oam_dma(self, page: Seq<u8>) -> PpuState {
        PpuState {
            oam_data: Seq::new(256, |i: int| page[(i - self.oam_addr + 256) % 256]),
            ..self
        }
    }

    /// A write to SCROLL sets the horizontal position on the first write of
    /// a pair and the vertical on the second, and flips the write toggle.
    pub open spec fn write_scroll(self, value: u8) -> PpuState {
        PpuState { scroll: scroll_after_write(self.scroll, value, self.w), w: !self.w, ..self }
    }

    /// A write to ADDR sets the high byte of the VRAM address on the first
    /// write of a pair and the low byte on the second, and flips the write
    /// toggle.
    pub open spec fn write_addr(self, value: u8) -> PpuState {
        PpuState { addr: addr_after_write(self.addr, value, self.w), w: !self.w, ..self }
    }

    /// The VRAM address moved on as after an access of DATA.
    pub open spec fn step_addr(self) -> PpuState {
        PpuState { addr: addr_after_step(self.addr, vram_step(self.ctrl)), ..self }
    }

    /// The nametable byte that `addr` names.
    pub open spec fn nametable_byte(self, addr: u16) -> u8 {
        byte_at(self.vram, nametable_index(self.mirroring, addr) as int)
    }

    /// A read of DATA moves the VRAM address on and answers for the address
    /// as it stood. Below the palette the answer is the read buffer, which
    /// is then refilled from pattern table or nametable; in the palette the
    /// answer is the palette entry itself, and the buffer is refilled from
    /// the nametable lying underneath. The window `0x3000..=0x3EFF` is
    /// refused.
    pub open spec fn read_data(self) -> (PpuState, Result<u8, CpuError>) {
        let addr = self.addr;
        let moved = self.step_addr();
        if addr < 0x2000 {
            (PpuState { read_buffer: byte_at(self.chr_rom, addr as int), ..moved }, Ok(
                self.read_buffer,
            ))
        } else if addr < 0x3000 {
            (PpuState { read_buffer: self.nametable_byte(addr), ..moved }, Ok(self.read_buffer))
        } else if addr < 0x3F00 {
            (moved, Err(CpuError::PpuIllegalRegion(addr)))
        } else {
            (PpuState { read_buffer: self.nametable_byte(addr), ..moved }, Ok(
                byte_at(self.palette_table, palette_index(addr) as int),
            ))
        }
    }

    /// A write to DATA stores the byte at the VRAM address and then moves
    /// the address on. Writes to the pattern table are dropped; the window
    /// `0x3000..=0x3EFF` is refused, and the address then stays.
    pub open spec fn write_data(self, value: u8) -> (PpuState, Result<(), CpuError>) {
        let addr = self.addr;
        if addr < 0x2000 {
            (self.step_addr(), Ok(()))
        } else if addr < 0x3000 {
            (
                PpuState {
                    vram: with_byte_at(
                        self.vram,
                        nametable_index(self.mirroring, addr) as int,
                        value,
                    ),
                    ..self
                }.step_addr(),
                Ok(()),
            )
        } else if addr < 0x3F00 {
            (self, Err(CpuError::PpuIllegalRegion(addr)))
        } else {
            (
                PpuState {
                    palette_table: with_byte_at(
                        self.palette_table,
                        palette_index(addr) as int,
                        value,
                    ),
                    ..self
                }.step_addr(),
                Ok(()),
            )
        }
    }

    /// The clock after `cycles` more dots, and whether a frame was completed.
    /// Passing the end of a scanline starts the next one. Entering the
    /// vertical-blank scanline sets the vertical-blank flag and, where CTRL
    /// asks for it, makes NMI pending. Passing the last scanline starts the
    /// frame anew: vertical blank and sprite-0 hit are cleared.
    pub open spec fn tick(self, cycles: u8) -> (PpuState, bool) {
        let total = self.dot + cycles;
        if total < DOTS_PER_SCANLINE {
            (PpuState { dot: total as u16, ..self }, false)
        } else {
            let dot = (total - DOTS_PER_SCANLINE) as u16;
            if self.scanline + 1 >= SCANLINES_PER_FRAME {
                (
                    PpuState {
                        dot,
                        scanline: 0,
                        status: with_flag(
                            with_flag(self.status, StatusRegister::VBLANK_FLAG, false),
                            StatusRegister::SPRITE_ZERO_HIT,
                            false,
                        ),
                        ..self
                    },
                    true,
                )
            } else if self.scanline + 1 == VBLANK_SCANLINE {
                (
                    PpuState {
                        dot,
                        scanline: VBLANK_SCANLINE,
                        status: with_flag(self.status, StatusRegister::VBLANK_FLAG, true),
                        nmi_pending: self.nmi_pending || has_flag(
                            self.ctrl,
                            ControlFlags::GENERATE_NMI,
                        ),
                        ..self
                    },
                    false,
                )
            } else {
                (PpuState { dot, scanline: (self.scanline + 1) as u16, ..self }, false)
            }
        }
    }

    /// Taking the NMI signal gives whether one was pending and leaves none.
    pub open spec fn take_nmi(self) -> (PpuState, bool) {
        (PpuState { nmi_pending: false, ..self }, self.nmi_pending)
    }

    /// What a register reads as when merely looked at: STATUS, OAMDATA and
    /// the read buffer of DATA as they stand, zero for the write-only ones.
    pub open spec fn peek_register(self, register: u8) -> u8 {
        if register % 8 == 2 {
            self.status
        } else if register % 8 == 4 {
            self.read_oam_data()
        } else if register % 8 == 7 {
            self.read_buffer
        } else {
            0
        }
    }
}

pub struct PPU {
    pub chr_rom: Vec<u8>,
    pub palette_table: [u8; 32],
    pub vram: [u8; 2048],
    pub oam_data: [u8; 256],
    pub mirroring: Mirroring,
    pub addr: AddressRegister,
    pub ctrl: ControlRegister,
    pub mask: MaskRegister,
    pub status: StatusRegister,
    pub scroll: ScrollRegister,
    pub oam_addr: u8,
    dot: u16,
    scanline: u16,
    internal_data_buf: u8,
    w: bool,
    nmi_interrupt: bool,
}

impl PPU {
    /// The PPU as the contracts see it.
    pub closed spec fn view(&self) -> PpuState {
        PpuState {
            chr_rom: self.chr_rom@,
            palette_table: self.palette_table@,
            vram: self.vram@,
            oam_data: self.oam_data@,
            mirroring: self.mirroring,
            addr: self.addr@,
            ctrl: self.ctrl@,
            mask: self.mask@,
            status: self.status@,
            scroll: self.scroll@,
            oam_addr: self.oam_addr,
            dot: self.dot,
            scanline: self.scanline,
            read_buffer: self.internal_data_buf,
            w: self.w,
            nmi_pending: self.nmi_interrupt,
        }
    }

    pub fn new(chr_rom: Vec<u8>, mirroring: Mirroring) -> (ppu: Self)
        ensures
            ppu@ == PpuState::power_on(chr_rom@, mirroring),
    {
        let ppu = PPU {
            chr_rom,
            mirroring,
            vram: [0; 2048],
            oam_data: [0; 256],
            oam_addr: 0,
            palette_table: [0; 32],
            dot: 0,
            scanline: 0,
            internal_data_buf: 0,
            addr: AddressRegister::new(),
            ctrl: ControlRegister::new(),
            mask: MaskRegister::new(),
            status: StatusRegister::new(),
            scroll: ScrollRegister::new(),
            w: true,
            nmi_interrupt: false,
        };
        assert(ppu.vram@ =~= Seq::new(2048, |i: int| 0u8));
        assert(ppu.oam_data@ =~= Seq::new(256, |i: int| 0u8));
        assert(ppu.palette_table@ =~= Seq::new(32, |i: int| 0u8));
        ppu
    }

    pub fn write_to_ppu_scroll(&mut self, value: u8)
        ensures
            final(self)@ == old(self)@.write_scroll(value),
    {
        self.scroll.update(value, self.w);
        self.w = !self.w;
    }

    pub fn write_to_ppu_addr(&mut self, value: u8)
        ensures
            final(self)@ == old(self)@.write_addr(value),
    {
        self.addr.update(value, self.w);
        self.w = !self.w;
    }

    pub fn write_to_ppu_ctrl(&mut self, value: u8)
        ensures
            final(self)@ == old(self)@.write_ctrl(value),
    {
        let before_nmi_status = self.ctrl.flags.contains(ControlFlags::GENERATE_NMI);
        self.ctrl.flags = ControlFlags::from_bits_truncate(value);
        if !before_nmi_status && self.ctrl.flags.contains(ControlFlags::GENERATE_NMI)
            && self.status.contains(StatusRegister::VBLANK_FLAG) {
            self.nmi_interrupt = true;
        }
    }

    pub fn write_to_ppu_mask(&mut self, value: u8)
        ensures
            final(self)@ == old(self)@.write_mask(value),
    {
        self.mask.write(value);
    }

    pub fn write_to_oam_addr(&mut self, value: u8)
        ensures
            final(self)@ == old(self)@.write_oam_addr(value),
    {
        self.oam_addr = value;
    }

    fn inc_vram_addr(&mut self)
        ensures
            final(self)@ == old(self)@.step_addr(),
    {
        self.addr.increment(self.ctrl.vram_addr_inc());
    }

    fn mirror_vram_addr(&self, addr: u16) -> (index: u16)
        ensures
            index == nametable_index(self@.mirroring, addr),
    {
        let vram_index = addr % 0x1000;
        match self.mirroring {
            Mirroring::Horizontal => (vram_index / 0x800) * 0x400 + vram_index % 0x400,
            Mirroring::Vertical => vram_index % 0x800,
            Mirroring::FourScreen => vram_index,
        }
    }

    fn read_nametable(&self, addr: u16) -> (value: u8)
        ensures
            value == self@.nametable_byte(addr),
    {
        let index = self.mirror_vram_addr(addr) as usize;
        if index < 2048 {
            self.vram[index]
        } else {
            0
        }
    }

    fn read_pattern(&self, addr: u16) -> (value: u8)
        ensures
            value == byte_at(self@.chr_rom, addr as int),
    {
        if (addr as usize) < self.chr_rom.len() {
            self.chr_rom[addr as usize]
        } else {
            0
        }
    }

    fn mirror_palette_addr(addr: u16) -> (index: usize)
        ensures
            index == palette_index(addr),
            index < 32,
    {
        let index = addr % 32;
        if index >= 16 && index % 4 == 0 {
            (index - 16) as usize
        } else {
            index as usize
        }
    }

    pub fn read_data(&mut self) -> (r: Result<u8, CpuError>)
        ensures
            (final(self)@, r) == old(self)@.read_data(),
    {
        let addr = self.addr.get_addr();
        self.inc_vram_addr();
        if addr < 0x2000 {
            let result = self.internal_data_buf;
            self.internal_data_buf = self.read_pattern(addr);
            Ok(result)
        } else if addr < 0x3000 {
            let result = self.internal_data_buf;
            self.internal_data_buf = self.read_nametable(addr);
            Ok(result)
        } else if addr < 0x3F00 {
            Err(CpuError::PpuIllegalRegion(addr))
        } else {
            self.internal_data_buf = self.read_nametable(addr);
            Ok(self.palette_table[Self::mirror_palette_addr(addr)])
        }
    }

    pub fn write_data(&mut self, value: u8) -> (r: Result<(), CpuError>)
        ensures
            (final(self)@, r) == old(self)@.write_data(value),
    {
        let addr = self.addr.get_addr();
        if addr < 0x2000 {
        } else if addr < 0x3000 {
            let index = self.mirror_vram_addr(addr) as usize;
            if index < 2048 {
                self.vram[index] = value;
            }
        } else if addr < 0x3F00 {
            return Err(CpuError::PpuIllegalRegion(addr));
        } else {
            let index = Self::mirror_palette_addr(addr);
            self.palette_table[index] = value;
        }
        self.inc_vram_addr();
        Ok(())
    }

    pub fn read_status(&mut self) -> (status: u8)
        ensures
            (final(self)@, status) == old(self)@.read_status(),
    {
        self.w = false;
        let status = self.status.bits();
        self.status.reset_vblank_status();
        status
    }

    pub fn read_oam_data(&self) -> (value: u8)
        ensures
            value == self@.read_oam_data(),
    {
        self.oam_data[self.oam_addr as usize]
    }

    pub fn write_oam_data(&mut self, value: u8)
        ensures
            final(self)@ == old(self)@.write_oam_data(value),
    {
        self.oam_data[self.oam_addr as usize] = value;
        self.oam_addr = self.oam_addr.wrapping_add(1);
    }

    /// Sprite DMA: takes a page of CPU memory into sprite memory.
    pub fn write_oam_dma(&mut self, page: &[u8; 256])
        ensures
            final(self)@ == old(self)@.write_oam_dma(page@),
    {
        let start = self.oam_addr;
        let mut i: usize = 0;
        while i < 256
            invariant
                i <= 256,
                self.oam_addr == start,
                forall|k: int|
                    0 <= k < i ==> self.oam_data@[(start + k) % 256] == #[trigger] page@[k],
                self@ == (PpuState { oam_data: self.oam_data@, ..old(self)@ }),
            decreases 256 - i,
        {
            let at: usize = (start as usize + i) % 256;
            self.oam_data[at] = page[i];
            i = i + 1;
        }
        assert(self.oam_data@ =~= old(self)@.write_oam_dma(page@).oam_data) by {
            assert forall|j: int| 0 <= j < 256 implies self.oam_data@[j] == page@[(j - start
                + 256) % 256] by {
                let k = (j - start + 256) % 256;
                assert((start + k) % 256 == j);
            }
        }
    }

    /// Whether NMI is pending; the signal is taken, so that none is pending
    /// afterwards.
    pub fn take_nmi(&mut self) -> (pending: bool)
        ensures
            (final(self)@, pending) == old(self)@.take_nmi(),
    {
        let pending = self.nmi_interrupt;
        self.nmi_interrupt = false;
        pending
    }

    /// What the register at `register` (its low three bits count) shows
    /// without being read.
    pub fn peek_register(&self, register: u8) -> (value: u8)
        ensures
            value == self@.peek_register(register),
    {
        let which = register % 8;
        if which == 2 {
            self.status.bits()
        } else if which == 4 {
            self.read_oam_data()
        } else if which == 7 {
            self.internal_data_buf
        } else {
            0
        }
    }

    pub fn tick(&mut self, cycles: u8) -> (frame_complete: bool)
        ensures
            (final(self)@, frame_complete) == old(self)@.tick(cycles),
    {
        let total: u32 = self.dot as u32 + cycles as u32;
        if total < DOTS_PER_SCANLINE as u32 {
            self.dot = total as u16;
            return false;
        }
        self.dot = (total - DOTS_PER_SCANLINE as u32) as u16;
        if self.scanline >= SCANLINES_PER_FRAME - 1 {
            self.scanline = 0;
            self.status.reset_vblank_status();
            self.status.set(StatusRegister::SPRITE_ZERO_HIT, false);
            return true;
        }
        self.scanline = self.scanline + 1;
        if self.scanline == VBLANK_SCANLINE {
            self.status.set_vblank_status(true);
            if self.ctrl.flags.contains(ControlFlags::GENERATE_NMI) {
                self.nmi_interrupt = true;
            }
        }
        false
    }
}

} // verus!
