//! PPUSCROLL (`$2005`): two writes, first the horizontal and then the
//! vertical scroll position.

use vstd::prelude::*;

verus! {

pub struct ScrollRegister {
    x: u8,
    y: u8,
}

impl ScrollRegister {
    /// The scroll position, horizontal first.
    pub closed spec fn view(&self) -> (u8, u8) {
        (self.x, self.y)
    }

    pub fn new() -> (r: Self)
        ensures
            r@ == (0u8, 0u8),
    {
        ScrollRegister { x: 0, y: 0 }
    }

    /// Takes one write. `w` is the write toggle as it stands before the
    /// write: clear for the first write of a pair, set for the second.
    pub fn update(&mut self, value: u8, w: bool)
        ensures
            final(self)@ == scroll_after_write(old(self)@, value, w),
    {
        if w {
            self.y = value;
        } else {
            self.x = value;
        }
    }

    pub fn get_pos(&self) -> (r: (u8, u8))
        ensures
            r == self@,
    {
        (self.x, self.y)
    }
}

/// The scroll position after a write of `value` with the write toggle at `w`.
pub open spec fn scroll_after_write(pos: (u8, u8), value: u8, w: bool) -> (u8, u8) {
    if w {
        (pos.0, value)
    } else {
        (value, pos.1)
    }
}

} // verus!
