//! Cartridges: the iNES image format and what is taken from it.

use vstd::prelude::*;
use crate::error::LoadError;

verus! {

/// Bytes in one bank of program ROM.
pub const PRG_ROM_PAGE_SIZE: usize = 16384;

/// Bytes in one bank of pattern ROM.
pub const CHR_ROM_PAGE_SIZE: usize = 8192;

/// Bytes in the header of an image.
pub const HEADER_SIZE: usize = 16;

/// Bytes in a trainer, where the image has one.
pub const TRAINER_SIZE: usize = 512;

/// How the cartridge wires the four logical nametables onto VRAM.
#[derive(Clone, Copy, Debug, PartialEq, Eq, Structural)]
pub enum Mirroring {
    Vertical,
    Horizontal,
    FourScreen,
}

/// A cartridge as the contracts see it.
pub struct RomState {
    pub prg_rom: Seq<u8>,
    pub chr_rom: Seq<u8>,
    pub mapper: u8,
    pub screen_mirroring: Mirroring,
}

/// The image starts with the four bytes `NES\x1A`.
pub open spec fn has_magic(raw: Seq<u8>) -> bool {
    raw.len() >= 4 && raw[0] == 0x4E && raw[1] == 0x45 && raw[2] == 0x53 && raw[3] == 0x1A
}

/// The mapper number: its low nibble is the high nibble of flags 6, its high
/// nibble that of flags 7.
pub open spec fn mapper_number(flags6: u8, flags7: u8) -> u8 {
    (flags7 & 0xF0) | (flags6 >> 4)
}

/// The mirroring that flags 6 asks for: four screens where bit 3 is set,
/// else vertical where bit 0 is set, else horizontal.
pub open spec fn mirroring_of(flags6: u8) -> Mirroring {
    if flags6 & 0b1000 != 0 {
        Mirroring::FourScreen
    } else if flags6 & 0b1 != 0 {
        Mirroring::Vertical
    } else {
        Mirroring::Horizontal
    }
}

/// Flags 7 marks the image as NES 2.0.
pub open spec fn is_nes2(flags7: u8) -> bool {
    flags7 & 0b1100 == 0b1000
}

/// Where program ROM starts: behind the header, and behind the trainer where
/// bit 2 of flags 6 announces one.
pub open spec fn prg_start(flags6: u8) -> int {
    if flags6 & 0b100 != 0 {
        HEADER_SIZE + TRAINER_SIZE
    } else {
        HEADER_SIZE as int
    }
}

/// What an iNES image holds, or why it is refused.
///
/// Byte 4 counts the banks of program ROM and byte 5 those of pattern ROM;
/// program ROM is followed by pattern ROM. An image without pattern ROM
/// stands for a cartridge with pattern RAM, which is one zeroed bank.
pub open spec fn parse_ines(raw: Seq<u8>) -> Result<RomState, LoadError> {
    if !has_magic(raw) {
        Err(LoadError::BadMagic)
    } else if raw.len() < HEADER_SIZE {
        Err(LoadError::Truncated)
    } else if is_nes2(raw[7]) {
        Err(LoadError::UnsupportedFormat("NES2.0"))
    } else {
        let prg_size = raw[4] * PRG_ROM_PAGE_SIZE;
        let chr_size = raw[5] * CHR_ROM_PAGE_SIZE;
        let start = prg_start(raw[6]);
        if raw.len() < start + prg_size + chr_size {
            Err(LoadError::Truncated)
        } else {
            Ok(
                RomState {
                    prg_rom: raw.subrange(start, start + prg_size),
                    chr_rom: if raw[5] == 0 {
                        Seq::new(CHR_ROM_PAGE_SIZE as nat, |i: int| 0u8)
                    } else {
                        raw.subrange(start + prg_size, start + prg_size + chr_size)
                    },
                    mapper: mapper_number(raw[6], raw[7]),
                    screen_mirroring: mirroring_of(raw[6]),
                },
            )
        }
    }
}

/// What `Rom::load` makes of an image: what it holds, where that is a
/// cartridge on mapper 0.
pub open spec fn load_ines(raw: Seq<u8>) -> Result<RomState, LoadError> {
    match parse_ines(raw) {
        Ok(rom) => if rom.mapper == 0 {
            Ok(rom)
        } else {
            Err(LoadError::UnsupportedMapper(rom.mapper))
        },
        Err(e) => Err(e),
    }
}

/// What a result of the loader stands for.
pub open spec fn loaded(r: Result<Rom, LoadError>) -> Result<RomState, LoadError> {
    match r {
        Ok(rom) => Ok(rom@),
        Err(e) => Err(e),
    }
}

pub struct Rom {
    pub prg_rom: Vec<u8>,
    pub chr_rom: Vec<u8>,
    pub mapper: u8,
    pub screen_mirroring: Mirroring,
}

/// A cartridge is what a ROM image holds.
pub type Cartridge = Rom;

fn copy_range(raw: &Vec<u8>, start: usize, len: usize) -> (out: Vec<u8>)
    requires
        start + len <= raw.len(),
    ensures
        out@ == raw@.subrange(start as int, start + len),
{
    let mut out: Vec<u8> = Vec::new();
    let mut i: usize = 0;
    while i < len
        invariant
            i <= len,
            start + len <= raw.len(),
            out@ == raw@.subrange(start as int, start + i),
        decreases len - i,
    {
        out.push(raw[start + i]);
        i = i + 1;
        assert(out@ =~= raw@.subrange(start as int, start + i));
    }
    out
}

impl Rom {
    /// The cartridge as the contracts see it.
    pub open spec fn view(&self) -> RomState {
        RomState {
            prg_rom: self.prg_rom@,
            chr_rom: self.chr_rom@,
            mapper: self.mapper,
            screen_mirroring: self.screen_mirroring,
        }
    }

    /// Reads an iNES image, whatever its mapper.
    pub fn new(raw: &Vec<u8>) -> (r: Result<Rom, LoadError>)
        ensures
            loaded(r) == parse_ines(raw@),
    {
        if raw.len() < 4 || raw[0] != 0x4E || raw[1] != 0x45 || raw[2] != 0x53 || raw[3] != 0x1A {
            return Err(LoadError::BadMagic);
        }
        if raw.len() < HEADER_SIZE {
            return Err(LoadError::Truncated);
        }
        let flags6 = raw[6];
        let flags7 = raw[7];
        if flags7 & 0b1100 == 0b1000 {
            return Err(LoadError::UnsupportedFormat("NES2.0"));
        }
        let mapper = (flags7 & 0xF0) | (flags6 >> 4);
        let screen_mirroring = if flags6 & 0b1000 != 0 {
            Mirroring::FourScreen
        } else if flags6 & 0b1 != 0 {
            Mirroring::Vertical
        } else {
            Mirroring::Horizontal
        };
        let prg_rom_size = raw[4] as usize * PRG_ROM_PAGE_SIZE;
        let chr_rom_size = raw[5] as usize * CHR_ROM_PAGE_SIZE;
        let prg_rom_start = if flags6 & 0b100 != 0 {
            HEADER_SIZE + TRAINER_SIZE
        } else {
            HEADER_SIZE
        };
        let chr_rom_start = prg_rom_start + prg_rom_size;
        if raw.len() < chr_rom_start + chr_rom_size {
            return Err(LoadError::Truncated);
        }
        let prg_rom = copy_range(raw, prg_rom_start, prg_rom_size);
        let chr_rom = if raw[5] == 0 {
            vec![0u8; CHR_ROM_PAGE_SIZE]
        } else {
            copy_range(raw, chr_rom_start, chr_rom_size)
        };
        assert(raw[5] == 0 ==> chr_rom@ =~= Seq::new(CHR_ROM_PAGE_SIZE as nat, |i: int| 0u8));
        Ok(Rom { prg_rom, chr_rom, mapper, screen_mirroring })
    }

    /// Reads an iNES image for this core, which emulates mapper 0 alone.
    pub fn load(raw: &Vec<u8>) -> (r: Result<Rom, LoadError>)
        ensures
            loaded(r) == load_ines(raw@),
    {
        match Rom::new(raw) {
            Ok(rom) => {
                if rom.mapper == 0 {
                    Ok(rom)
                } else {
                    Err(LoadError::UnsupportedMapper(rom.mapper))
                }
            },
            Err(e) => Err(e),
        }
    }

    /// An empty cartridge on mapper 0: two zeroed banks of program ROM and
    /// one of pattern ROM, mirrored horizontally.
    pub fn blank() -> (rom: Rom)
        ensures
            rom@ == (RomState {
                prg_rom: Seq::new(2 * PRG_ROM_PAGE_SIZE as nat, |i: int| 0u8),
                chr_rom: Seq::new(CHR_ROM_PAGE_SIZE as nat, |i: int| 0u8),
                mapper: 0,
                screen_mirroring: Mirroring::Horizontal,
            }),
    {
        let prg_rom = vec![0u8; 2 * PRG_ROM_PAGE_SIZE];
        let chr_rom = vec![0u8; CHR_ROM_PAGE_SIZE];
        assert(prg_rom@ =~= Seq::new(2 * PRG_ROM_PAGE_SIZE as nat, |i: int| 0u8));
        assert(chr_rom@ =~= Seq::new(CHR_ROM_PAGE_SIZE as nat, |i: int| 0u8));
        Rom { prg_rom, chr_rom, mapper: 0, screen_mirroring: Mirroring::Horizontal }
    }
}

} // verus!
