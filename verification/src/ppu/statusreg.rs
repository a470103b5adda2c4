//! PPUSTATUS (`$2002`).
//!
//! ```text
//! 7  bit  0
//! ---- ----
//! VSOx xxxx
//! |||| ||||
//! |||+-++++- unused
//! ||+------- sprite overflow
//! |+-------- sprite 0 hit
//! +--------- vertical blank has started; cleared on read
//! ```

use vstd::prelude::*;
use crate::bits::{has_flag, with_flag};

verus! {

#[derive(Clone, Copy, Debug, PartialEq, Eq)]
pub struct StatusRegister {
    bits: u8,
}

impl StatusRegister {
    pub const UNUSED0: u8 = 0b0000_0001;

    pub const UNUSED1: u8 = 0b0000_0010;

    pub const UNUSED2: u8 = 0b0000_0100;

    pub const UNUSED3: u8 = 0b0000_1000;

    pub const UNUSED4: u8 = 0b0001_0000;

    pub const SPRITE_OVERFLOW: u8 = 0b0010_0000;

    pub const SPRITE_ZERO_HIT: u8 = 0b0100_0000;

    pub const VBLANK_FLAG: u8 = 0b1000_0000;

    /// The register as a byte.
    pub closed spec fn view(&self) -> u8 {
        self.bits
    }

    pub fn new() -> (r: Self)
        ensures
            r@ == 0,
    {
        StatusRegister { bits: 0 }
    }

    pub fn from_bits_truncate(bits: u8) -> (r: Self)
        ensures
            r@ == bits,
    {
        StatusRegister { bits }
    }

    pub fn bits(&self) -> (r: u8)
        ensures
            r == self@,
    {
        self.bits
    }

    pub fn contains(&self, flag: u8) -> (r: bool)
        ensures
            r == has_flag(self@, flag),
    {
        self.bits & flag == flag
    }

    pub fn set(&mut self, flag: u8, value: bool)
        ensures
            final(self)@ == with_flag(old(self)@, flag, value),
    {
        if value {
            self.bits = self.bits | flag;
        } else {
            self.bits = self.bits & !flag;
        }
    }

    pub fn set_vblank_status(&mut self, vblank: bool)
        ensures
            final(self)@ == with_flag(old(self)@, Self::VBLANK_FLAG, vblank),
    {
        self.set(Self::VBLANK_FLAG, vblank);
    }

    pub fn reset_vblank_status(&mut self)
        ensures
            final(self)@ == with_flag(old(self)@, Self::VBLANK_FLAG, false),
    {
        self.set(Self::VBLANK_FLAG, false);
    }
}

} // verus!
