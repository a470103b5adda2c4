//! Byte-addressed memory as the CPU sees it.

use vstd::prelude::*;
use crate::error::CpuError;

verus! {

/// The 16-bit word whose low byte is `lo` and whose high byte is `hi`.
pub open spec fn word(lo: u8, hi: u8) -> u16 {
    (hi * 256 + lo) as u16
}

/// The low byte of a word.
pub open spec fn low_byte(value: u16) -> u8 {
    (value % 256) as u8
}

/// The high byte of a word.
pub open spec fn high_byte(value: u16) -> u8 {
    (value / 256) as u8
}

/// The address after `addr`, wrapping at the end of the address space.
pub open spec fn next_addr(addr: u16) -> u16 {
    if addr == 0xFFFF {
        0
    } else {
        (addr + 1) as u16
    }
}

/// The word made of two bytes, low byte first.
pub fn make_word(lo: u8, hi: u8) -> (value: u16)
    ensures
        value == word(lo, hi),
{
    (hi as u16) * 256 + lo as u16
}

/// The low and the high byte of a word.
pub fn split_word(value: u16) -> (bytes: (u8, u8))
    ensures
        bytes.0 == low_byte(value),
        bytes.1 == high_byte(value),
        word(bytes.0, bytes.1) == value,
{
    ((value % 256) as u8, (value / 256) as u8)
}

/// The memory after a read of the word at `pos`, and what the read gives:
/// the low byte is read at `pos`, then the high byte at the address after
/// it; a refused read ends the access.
pub open spec fn read_u16_through<M>(
    read: spec_fn(M, u16) -> (M, Result<u8, CpuError>),
    m: M,
    pos: u16,
) -> (M, Result<u16, CpuError>) {
    let (m1, lo) = read(m, pos);
    match lo {
        Err(e) => (m1, Err(e)),
        Ok(lo) => {
            let (m2, hi) = read(m1, next_addr(pos));
            match hi {
                Err(e) => (m2, Err(e)),
                Ok(hi) => (m2, Ok(word(lo, hi))),
            }
        },
    }
}

/// The memory after a write of the word `data` at `pos`, and whether the
/// write was taken: the low byte is written at `pos`, then the high byte at
/// the address after it; a refused write ends the access.
pub open spec fn write_u16_through<M>(
    write: spec_fn(M, u16, u8) -> (M, Result<(), CpuError>),
    m: M,
    pos: u16,
    data: u16,
) -> (M, Result<(), CpuError>) {
    let (m1, lo) = write(m, pos, low_byte(data));
    match lo {
        Err(e) => (m1, Err(e)),
        Ok(_) => write(m1, next_addr(pos), high_byte(data)),
    }
}

/// A memory that is read and written a byte at a time. Reads may change the
/// memory, as reads of device registers do, and both reads and writes may be
/// refused.
pub trait Mem: Sized {
    /// The memory as the contracts see it.
    type Model;

    /// The memory as the contracts see it.
    spec fn model(&self) -> Self::Model;

    /// The memory after a read of `addr`, and what the read gives.
    spec fn read_model(m: Self::Model, addr: u16) -> (Self::Model, Result<u8, CpuError>);

    /// The memory after a write of `data` to `addr`, and whether the write
    /// was taken.
    spec fn write_model(m: Self::Model, addr: u16, data: u8) -> (Self::Model, Result<
        (),
        CpuError,
    >);

    fn mem_read(&mut self, addr: u16) -> (r: Result<u8, CpuError>)
        ensures
            (final(self).model(), r) == Self::read_model(old(self).model(), addr),
    ;

    fn mem_write(&mut self, addr: u16, data: u8) -> (r: Result<(), CpuError>)
        ensures
            (final(self).model(), r) == Self::write_model(old(self).model(), addr, data),
    ;

    fn mem_read_u16(&mut self, pos: u16) -> (r: Result<u16, CpuError>)
        ensures
            (final(self).model(), r) == read_u16_through(
                |m: Self::Model, addr: u16| Self::read_model(m, addr),
                old(self).model(),
                pos,
            ),
    {
        let lo = match self.mem_read(pos) {
            Ok(lo) => lo,
            Err(e) => return Err(e),
        };
        let hi = match self.mem_read(pos.wrapping_add(1)) {
            Ok(hi) => hi,
            Err(e) => return Err(e),
        };
        Ok(make_word(lo, hi))
    }

    fn mem_write_u16(&mut self, pos: u16, data: u16) -> (r: Result<(), CpuError>)
        ensures
            (final(self).model(), r) == write_u16_through(
                |m: Self::Model, addr: u16, byte: u8| Self::write_model(m, addr, byte),
                old(self).model(),
                pos,
                data,
            ),
    {
        let (lo, hi) = split_word(data);
        match self.mem_write(pos, lo) {
            Ok(()) => self.mem_write(pos.wrapping_add(1), hi),
            Err(e) => Err(e),
        }
    }
}

} // verus!
