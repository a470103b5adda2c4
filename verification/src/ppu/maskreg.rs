//! PPUMASK (`$2001`).
//!
//! ```text
//! 7  bit  0
//! ---- ----
//! BGRs bMmG
//! |||| ||||
//! |||| |||+- greyscale
//! |||| ||+-- show background in the leftmost 8 pixels
//! |||| |+--- show sprites in the leftmost 8 pixels
//! |||| +---- show background
//! |||+------ show sprites
//! ||+------- emphasize red
//! |+-------- emphasize green
//! +--------- emphasize blue
//! ```

use vstd::prelude::*;
use crate::bits::has_flag;

verus! {

#[derive(Clone, Copy, Debug, PartialEq, Eq)]
pub struct MaskFlags {
    bits: u8,
}

impl MaskFlags {
    pub const GREYSCALE: u8 = 0b0000_0001;

    pub const SH_BKGD_LEFT: u8 = 0b0000_0010;

    pub const SH_SPR_LEFT: u8 = 0b0000_0100;

    pub const SH_BACKGROUND: u8 = 0b0000_1000;

    pub const SH_SPRITES: u8 = 0b0001_0000;

    pub const EM_RED: u8 = 0b0010_0000;

    pub const EM_GREEN: u8 = 0b0100_0000;

    pub const EM_BLUE: u8 = 0b1000_0000;

    /// The flags as a byte.
    pub closed spec fn view(&self) -> u8 {
        self.bits
    }

    pub fn from_bits_truncate(bits: u8) -> (r: Self)
        ensures
            r@ == bits,
    {
        MaskFlags { bits }
    }

    pub fn bits(&self) -> (r: u8)
        ensures
            r == self@,
    {
        self.bits
    }

    pub fn contains(&self, flag: u8) -> (r: bool)
        ensures
            r == has_flag(self@, flag),
    {
        self.bits & flag == flag
    }
}

pub struct MaskRegister {
    pub flags: MaskFlags,
    enabled: bool,
}

impl MaskRegister {
    /// The register as a byte.
    pub closed spec fn view(&self) -> u8 {
        self.flags@
    }

    /// Whether `enable` has been called.
    pub closed spec fn is_enabled(&self) -> bool {
        self.enabled
    }

    pub fn new() -> (r: Self)
        ensures
            r@ == 0,
            !r.is_enabled(),
    {
        MaskRegister { flags: MaskFlags::from_bits_truncate(0), enabled: false }
    }

    pub fn enable(&mut self)
        ensures
            final(self).is_enabled(),
            final(self)@ == old(self)@,
    {
        self.enabled = true;
    }

    pub fn write(&mut self, value: u8)
        ensures
            final(self)@ == value,
            final(self).is_enabled() == old(self).is_enabled(),
    {
        self.flags = MaskFlags::from_bits_truncate(value);
    }
}

} // verus!
