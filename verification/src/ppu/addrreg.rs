//! PPUADDR (`$2006`): the 14-bit VRAM address, written a byte at a time.

use vstd::prelude::*;

verus! {

/// One past the highest VRAM address.
pub const VRAM_SPACE: u16 = 0x4000;

pub struct AddressRegister {
    hi_value: u8,
    lo_value: u8,
}

/// The VRAM address after a write of `part` with the write toggle at `w`:
/// the first write of a pair gives the high byte, cut to six bits, the
/// second the low byte.
pub open spec fn addr_after_write(addr: u16, part: u8, w: bool) -> u16 {
    if w {
        ((addr / 256) * 256 + part) as u16
    } else {
        ((part % 64) * 256 + addr % 256) as u16
    }
}

/// The VRAM address `step` further on, wrapping at the end of the 14-bit
/// space.
pub open spec fn addr_after_step(addr: u16, step: u8) -> u16 {
    ((addr + step) % 0x4000) as u16
}

impl AddressRegister {
    #[verifier::type_invariant]
    spec fn fits_fourteen_bits(&self) -> bool {
        self.hi_value < 64
    }

    /// The address held.
    pub closed spec fn view(&self) -> u16 {
        (self.hi_value * 256 + self.lo_value) as u16
    }

    pub fn new() -> (r: Self)
        ensures
            r@ == 0,
    {
        AddressRegister { hi_value: 0, lo_value: 0 }
    }

    fn set(&mut self, addr: u16)
        requires
            addr < VRAM_SPACE,
        ensures
            final(self)@ == addr,
    {
        proof {
            use_type_invariant(&*self);
        }
        self.hi_value = (addr / 256) as u8;
        self.lo_value = (addr % 256) as u8;
    }

    /// The high and the low byte of the address.
    pub fn value(&self) -> (r: (u8, u8))
        ensures
            r.0 == self@ / 256,
            r.1 == self@ % 256,
    {
        proof {
            use_type_invariant(self);
        }
        (self.hi_value, self.lo_value)
    }

    /// Takes one write. `w` is the write toggle as it stands before the
    /// write: clear for the first write of a pair, set for the second.
    pub fn update(&mut self, addr_part: u8, w: bool)
        ensures
            final(self)@ == addr_after_write(old(self)@, addr_part, w),
    {
        proof {
            use_type_invariant(&*self);
        }
        if w {
            self.lo_value = addr_part;
        } else {
            self.hi_value = addr_part % 64;
        }
    }

    pub fn increment(&mut self, inc: u8)
        ensures
            final(self)@ == addr_after_step(old(self)@, inc),
    {
        let next: u16 = (self.get_addr() + inc as u16) % VRAM_SPACE;
        self.set(next);
    }

    pub fn get_addr(&self) -> (r: u16)
        ensures
            r == self@,
            r < VRAM_SPACE,
    {
        proof {
            use_type_invariant(self);
        }
        (self.hi_value as u16) * 256 + self.lo_value as u16
    }
}

} // verus!
