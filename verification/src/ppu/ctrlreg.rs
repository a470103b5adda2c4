//! PPUCTRL (`$2000`).
//!
//! ```text
//! 7  bit  0
//! ---- ----
//! VPHB SINN
//! |||| ||||
//! |||| ||++- base nametable (0 = $2000; 1 = $2400; 2 = $2800; 3 = $2C00)
//! |||| |+--- VRAM address step per access of PPUDATA (0: 1; 1: 32)
//! |||| +---- sprite pattern table for 8x8 sprites
//! |||+------ background pattern table
//! ||+------- sprite size (0: 8x8; 1: 8x16)
//! |+-------- master/slave select
//! +--------- raise NMI at the start of vertical blank
//! ```

use vstd::prelude::*;
use crate::bits::has_flag;

verus! {

#[derive(Clone, Copy, Debug, PartialEq, Eq)]
pub struct ControlFlags {
    bits: u8,
}

impl ControlFlags {
    pub const NAMETABLE1: u8 = 0b0000_0001;

    pub const NAMETABLE2: u8 = 0b0000_0010;

    pub const VRAM_ADDR_INC: u8 = 0b0000_0100;

    pub const SPRITE_PTRN_ADDR: u8 = 0b0000_1000;

    pub const BGRND_PTRN_ADDR: u8 = 0b0001_0000;

    pub const SPRITE_SIZE: u8 = 0b0010_0000;

    pub const MASTER_SLAVE: u8 = 0b0100_0000;

    pub const GENERATE_NMI: u8 = 0b1000_0000;

    /// The flags as a byte.
    pub closed spec fn view(&self) -> u8 {
        self.bits
    }

    pub fn from_bits_truncate(bits: u8) -> (r: Self)
        ensures
            r@ == bits,
    {
        ControlFlags { bits }
    }

    pub fn bits(&self) -> (r: u8)
        ensures
            r == self@,
    {
        self.bits
    }

    pub fn contains(&self, flag: u8) -> (r: bool)
        ensures
            r == has_flag(self@, flag),
    {
        self.bits & flag == flag
    }
}

/// By how much the VRAM address moves after an access of PPUDATA, for a
/// control byte.
pub open spec fn vram_step(ctrl: u8) -> u8 {
    if has_flag(ctrl, ControlFlags::VRAM_ADDR_INC) {
        32
    } else {
        1
    }
}

pub struct ControlRegister {
    pub flags: ControlFlags,
}

impl ControlRegister {
    /// The register as a byte.
    pub open spec fn view(&self) -> u8 {
        self.flags@
    }

    pub fn new() -> (r: Self)
        ensures
            r@ == 0,
    {
        ControlRegister { flags: ControlFlags::from_bits_truncate(0) }
    }

    pub fn vram_addr_inc(&self) -> (r: u8)
        ensures
            r == vram_step(self@),
    {
        if self.flags.contains(ControlFlags::VRAM_ADDR_INC) {
            32
        } else {
            1
        }
    }
}

} // verus!
