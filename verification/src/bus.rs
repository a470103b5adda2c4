//! The memory bus: what each CPU address reaches.
//!
//! ```text
//! 0x0000..=0x1FFF  2 KiB of RAM, mirrored every 0x0800
//! 0x2000..=0x3FFF  the eight PPU registers, mirrored every 8
//! 0x4014           sprite DMA (write-only)
//! 0x4000..=0x7FFF  otherwise unmapped: reads give 0, writes are dropped
//! 0x8000..=0xFFFF  program ROM; a single 16 KiB bank appears twice
//! ```

use vstd::prelude::*;
use crate::error::CpuError;
use crate::mem::Mem;
use crate::ppu::{byte_at, with_byte_at, PpuState, PPU};
use crate::rom::{Rom, RomState, PRG_ROM_PAGE_SIZE};

verus! {

/// One past the last address of the RAM window.
pub const RAM_END: u16 = 0x2000;

/// Bytes of RAM.
pub const RAM_SIZE: u16 = 0x0800;

/// One past the last address of the PPU register window.
pub const PPU_END: u16 = 0x4000;

/// The sprite DMA register.
pub const OAM_DMA: u16 = 0x4014;

/// The first address of program ROM.
pub const ROM_START: u16 = 0x8000;

/// CPU cycles that a sprite DMA takes when it starts on an even cycle; one
/// more when it starts on an odd one.
pub const OAM_DMA_CYCLES: u64 = 513;

/// A cycle count moved on, staying at the top once it is reached.
pub open spec fn cycles_after(cycles: u64, more: u64) -> u64 {
    if cycles + more > u64::MAX {
        u64::MAX
    } else {
        (cycles + more) as u64
    }
}

/// The bus as the contracts see it.
pub struct BusState {
    pub ram: Seq<u8>,
    pub cycles: u64,
    pub prg_rom: Seq<u8>,
    pub ppu: PpuState,
    pub allow_rom_writes: bool,
}

impl BusState {
    /// A bus at power-on with the given cartridge in the slot.
    pub open spec fn power_on(rom: RomState) -> BusState {
        BusState {
            ram: Seq::new(2048, |i: int| 0u8),
            cycles: 0,
            prg_rom: rom.prg_rom,
            ppu: PpuState::power_on(rom.chr_rom, rom.screen_mirroring),
            allow_rom_writes: false,
        }
    }

    /// RAM has its size and the PPU is well formed.
    pub open spec fn wf(self) -> bool {
        &&& self.ram.len() == RAM_SIZE
        &&& self.ppu.wf()
    }

    /// Where in program ROM an address of the ROM window lands: the address
    /// modulo 32 KiB, and modulo 16 KiB where the ROM is a single bank.
    pub open spec fn prg_index(self, addr: u16) -> int {
        if self.prg_rom.len() == PRG_ROM_PAGE_SIZE {
            (addr % 0x4000) as int
        } else {
            (addr % 0x8000) as int
        }
    }

    /// The bus with another PPU.
    pub open spec fn with_ppu(self, ppu: PpuState) -> BusState {
        BusState { ppu, ..self }
    }

    /// The bus after a read of `addr`, and what the read gives.
    #[verifier::opaque]
    pub open spec fn read(self, addr: u16) -> (BusState, Result<u8, CpuError>) {
        if addr < RAM_END {
            (self, Ok(self.ram[(addr % 0x0800) as int]))
        } else if addr < PPU_END {
            if addr % 8 == 2 {
                let (ppu, status) = self.ppu.read_status();
                (self.with_ppu(ppu), Ok(status))
            } else if addr % 8 == 4 {
                (self, Ok(self.ppu.read_oam_data()))
            } else if addr % 8 == 7 {
                let (ppu, data) = self.ppu.read_data();
                (self.with_ppu(ppu), data)
            } else {
                (self, Err(CpuError::WriteOnlyRead(addr)))
            }
        } else if addr == OAM_DMA {
            (self, Err(CpuError::WriteOnlyRead(addr)))
        } else if addr < ROM_START {
            (self, Ok(0))
        } else {
            (self, Ok(byte_at(self.prg_rom, self.prg_index(addr))))
        }
    }

    /// What a read of `addr` would give, as far as that can be told without
    /// reading: RAM and ROM as they are, the PPU registers as they stand,
    /// zero elsewhere.
    #[verifier::opaque]
    pub open spec fn peek(self, addr: u16) -> u8 {
        if addr < RAM_END {
            self.ram[(addr % 0x0800) as int]
        } else if addr < PPU_END {
            self.ppu.peek_register((addr % 8) as u8)
        } else if addr < ROM_START {
            0
        } else {
            byte_at(self.prg_rom, self.prg_index(addr))
        }
    }

    /// The 256 bytes of CPU page `page`, as `peek` shows them.
    pub open spec fn page(self, page: u8) -> Seq<u8> {
        Seq::new(256, |i: int| self.peek((page * 256 + i) as u16))
    }

    /// The bus after a sprite DMA from CPU page `page`: the page lies in
    /// sprite memory, and the cycle count has moved on by 513, or by 514
    /// from an odd count.
    #[verifier::opaque]
    pub open spec fn oam_dma(self, page: u8) -> BusState {
        BusState {
            ppu: self.ppu.write_oam_dma(self.page(page)),
            cycles: cycles_after(self.cycles, (OAM_DMA_CYCLES + self.cycles % 2) as u64),
            ..self
        }
    }

    /// The bus after a write of `data` to `addr`, and whether the write was
    /// taken.
    #[verifier::opaque]
    pub open spec fn write(self, addr: u16, data: u8) -> (BusState, Result<(), CpuError>) {
        if addr < RAM_END {
            (BusState { ram: self.ram.update((addr % 0x0800) as int, data), ..self }, Ok(()))
        } else if addr < PPU_END {
            if addr % 8 == 0 {
                (self.with_ppu(self.ppu.write_ctrl(data)), Ok(()))
            } else if addr % 8 == 1 {
                (self.with_ppu(self.ppu.write_mask(data)), Ok(()))
            } else if addr % 8 == 2 {
                (self, Ok(()))
            } else if addr % 8 == 3 {
                (self.with_ppu(self.ppu.write_oam_addr(data)), Ok(()))
            } else if addr % 8 == 4 {
                (self.with_ppu(self.ppu.write_oam_data(data)), Ok(()))
            } else if addr % 8 == 5 {
                (self.with_ppu(self.ppu.write_scroll(data)), Ok(()))
            } else if addr % 8 == 6 {
                (self.with_ppu(self.ppu.write_addr(data)), Ok(()))
            } else {
                let (ppu, r) = self.ppu.write_data(data);
                (self.with_ppu(ppu), r)
            }
        } else if addr == OAM_DMA {
            (self.oam_dma(data), Ok(()))
        } else if addr < ROM_START {
            (self, Ok(()))
        } else if self.allow_rom_writes {
            (
                BusState {
                    prg_rom: with_byte_at(self.prg_rom, self.prg_index(addr), data),
                    ..self
                },
                Ok(()),
            )
        } else {
            (self, Err(CpuError::RomWrite(addr)))
        }
    }

    /// The bus after a read of the word at `pos`, low byte first, and what
    /// the read gives; a refused read ends the access.
    pub open spec fn read_u16(self, pos: u16) -> (BusState, Result<u16, CpuError>) {
        crate::mem::read_u16_through(|m: BusState, addr: u16| m.read(addr), self, pos)
    }

    /// The bus after a write of the word `data` at `pos`, low byte first,
    /// and whether the write was taken; a refused write ends the access.
    pub open spec fn write_u16(self, pos: u16, data: u16) -> (BusState, Result<(), CpuError>) {
        crate::mem::write_u16_through(
            |m: BusState, addr: u16, byte: u8| m.write(addr, byte),
            self,
            pos,
            data,
        )
    }

    /// The bus after `cycles` CPU cycles: the count has moved on, and the
    /// PPU has moved on by three dots for each cycle.
    #[verifier::opaque]
    pub open spec fn tick(self, cycles: u8) -> BusState {
        BusState {
            cycles: cycles_after(self.cycles, cycles as u64),
            ppu: self.ppu.tick(cycles).0.tick(cycles).0.tick(cycles).0,
            ..self
        }
    }

    /// Taking the NMI signal gives whether one was pending and leaves none.
    pub open spec fn poll_nmi(self) -> (BusState, bool) {
        let (ppu, pending) = self.ppu.take_nmi();
        (self.with_ppu(ppu), pending)
    }
}

pub struct Bus {
    cpu_vram: [u8; 2048],
    cycles: u64,
    prg_rom: Vec<u8>,
    ppu: PPU,
    pub allow_rom_writes: bool,
}

impl Bus {
    /// The bus as the contracts see it.
    pub closed spec fn view(&self) -> BusState {
        BusState {
            ram: self.cpu_vram@,
            cycles: self.cycles,
            prg_rom: self.prg_rom@,
            ppu: self.ppu@,
            allow_rom_writes: self.allow_rom_writes,
        }
    }

    /// A bus with the cartridge in the slot, its RAM cleared and writes to
    /// program ROM forbidden.
    pub fn new(rom: Rom) -> (bus: Self)
        ensures
            bus@ == BusState::power_on(rom@),
    {
        let ppu = PPU::new(rom.chr_rom, rom.screen_mirroring);
        let bus = Bus {
            cpu_vram: [0; 2048],
            cycles: 0,
            prg_rom: rom.prg_rom,
            ppu,
            allow_rom_writes: false,
        };
        assert(bus.cpu_vram@ =~= Seq::new(2048, |i: int| 0u8));
        bus
    }

    /// Allows or forbids writes to program ROM.
    pub fn set_allow_rom_writes(&mut self, allow: bool)
        ensures
            final(self)@ == (BusState { allow_rom_writes: allow, ..old(self)@ }),
    {
        self.allow_rom_writes = allow;
    }

    /// CPU cycles counted so far.
    pub fn cycles(&self) -> (n: u64)
        ensures
            n == self@.cycles,
    {
        self.cycles
    }

    fn prg_index(&self, addr: u16) -> (index: usize)
        ensures
            index == self@.prg_index(addr),
    {
        if self.prg_rom.len() == PRG_ROM_PAGE_SIZE {
            (addr % 0x4000) as usize
        } else {
            (addr % 0x8000) as usize
        }
    }

    fn read_prg(&self, addr: u16) -> (value: u8)
        ensures
            value == byte_at(self@.prg_rom, self@.prg_index(addr)),
    {
        let index = self.prg_index(addr);
        if index < self.prg_rom.len() {
            self.prg_rom[index]
        } else {
            0
        }
    }

    fn add_cycles(&mut self, more: u64)
        ensures
            final(self)@ == (BusState {
                cycles: cycles_after(old(self)@.cycles, more),
                ..old(self)@
            }),
    {
        if more > u64::MAX - self.cycles {
            self.cycles = u64::MAX;
        } else {
            self.cycles = self.cycles + more;
        }
    }

    /// What a read of `addr` would give, read without side effects.
    pub fn peek(&self, addr: u16) -> (value: u8)
        ensures
            value == self@.peek(addr),
    {
        proof {
            reveal(BusState::peek);
        }
        if addr < RAM_END {
            self.cpu_vram[(addr % 0x0800) as usize]
        } else if addr < PPU_END {
            self.ppu.peek_register((addr % 8) as u8)
        } else if addr < ROM_START {
            0
        } else {
            self.read_prg(addr)
        }
    }

    fn read_page(&self, page: u8) -> (bytes: [u8; 256])
        ensures
            bytes@ == self@.page(page),
    {
        let mut bytes: [u8; 256] = [0; 256];
        let base: u16 = page as u16 * 256;
        let mut i: usize = 0;
        while i < 256
            invariant
                i <= 256,
                base == page * 256,
                forall|k: int| 0 <= k < i ==> bytes@[k] == self@.peek((base + k) as u16),
            decreases 256 - i,
        {
            bytes[i] = self.peek(base + i as u16);
            i = i + 1;
        }
        assert(bytes@ =~= self@.page(page));
        bytes
    }

    fn oam_dma(&mut self, page: u8)
        ensures
            final(self)@ == old(self)@.oam_dma(page),
    {
        proof {
            reveal(BusState::oam_dma);
        }
        let bytes = self.read_page(page);
        self.ppu.write_oam_dma(&bytes);
        let odd = self.cycles % 2;
        self.add_cycles(OAM_DMA_CYCLES + odd);
    }

    /// Whether the PPU asks for an NMI; the signal is taken, so that it is
    /// seen once.
    pub fn poll_nmi_status(&mut self) -> (pending: bool)
        ensures
            (final(self)@, pending) == old(self)@.poll_nmi(),
    {
        self.ppu.take_nmi()
    }

    /// Lets `cycles` CPU cycles pass: the cycle count moves on, and the PPU
    /// by three dots for each cycle.
    pub fn tick(&mut self, cycles: u8)
        ensures
            final(self)@ == old(self)@.tick(cycles),
    {
        proof {
            reveal(BusState::tick);
        }
        self.add_cycles(cycles as u64);
        self.ppu.tick(cycles);
        self.ppu.tick(cycles);
        self.ppu.tick(cycles);
    }
}

impl Mem for Bus {
    type Model = BusState;

    open spec fn model(&self) -> BusState {
        self@
    }

    open spec fn read_model(m: BusState, addr: u16) -> (BusState, Result<u8, CpuError>) {
        m.read(addr)
    }

    open spec fn write_model(m: BusState, addr: u16, data: u8) -> (BusState, Result<
        (),
        CpuError,
    >) {
        m.write(addr, data)
    }

    fn mem_read(&mut self, addr: u16) -> (r: Result<u8, CpuError>) {
        proof {
            reveal(BusState::read);
        }
        if addr < RAM_END {
            Ok(self.cpu_vram[(addr % 0x0800) as usize])
        } else if addr < PPU_END {
            let register = addr % 8;
            if register == 2 {
                Ok(self.ppu.read_status())
            } else if register == 4 {
                Ok(self.ppu.read_oam_data())
            } else if register == 7 {
                self.ppu.read_data()
            } else {
                Err(CpuError::WriteOnlyRead(addr))
            }
        } else if addr == OAM_DMA {
            Err(CpuError::WriteOnlyRead(addr))
        } else if addr < ROM_START {
            Ok(0)
        } else {
            Ok(self.read_prg(addr))
        }
    }

    fn mem_write(&mut self, addr: u16, data: u8) -> (r: Result<(), CpuError>) {
        proof {
            reveal(BusState::write);
        }
        if addr < RAM_END {
            self.cpu_vram[(addr % 0x0800) as usize] = data;
            Ok(())
        } else if addr < PPU_END {
            let register = addr % 8;
            if register == 0 {
                self.ppu.write_to_ppu_ctrl(data);
                Ok(())
            } else if register == 1 {
                self.ppu.write_to_ppu_mask(data);
                Ok(())
            } else if register == 2 {
                Ok(())
            } else if register == 3 {
                self.ppu.write_to_oam_addr(data);
                Ok(())
            } else if register == 4 {
                self.ppu.write_oam_data(data);
                Ok(())
            } else if register == 5 {
                self.ppu.write_to_ppu_scroll(data);
                Ok(())
            } else if register == 6 {
                self.ppu.write_to_ppu_addr(data);
                Ok(())
            } else {
                self.ppu.write_data(data)
            }
        } else if addr == OAM_DMA {
            self.oam_dma(data);
            Ok(())
        } else if addr < ROM_START {
            Ok(())
        } else if self.allow_rom_writes {
            let index = self.prg_index(addr);
            if index < self.prg_rom.len() {
                self.prg_rom[index] = data;
            }
            Ok(())
        } else {
            Err(CpuError::RomWrite(addr))
        }
    }
}

} // verus!
