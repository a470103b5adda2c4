//! The typed failures of the core.

use vstd::prelude::*;
use vstd::string::*;

verus! {

/// A fatal condition met while executing an instruction.
#[derive(Clone, Copy, Debug, PartialEq, Eq)]
pub enum CpuError {
    /// The opcode byte has no table entry.
    UnknownOpcode(u8),
    /// A halting (KIL/JAM) opcode was executed.
    IllegalHalt,
    /// A write-only PPU register was read at this address.
    WriteOnlyRead(u16),
    /// Program ROM was written at this address while ROM writes are off.
    RomWrite(u16),
    /// PPU DATA was accessed with the VRAM address in `0x3000..=0x3EFF`.
    PpuIllegalRegion(u16),
}

/// A reason for which a cartridge image is refused.
#[derive(Clone, Copy, Debug, PartialEq, Eq)]
pub enum LoadError {
    /// The image does not start with `NES\x1A`.
    BadMagic,
    /// The image is in a format of this name, which is not read.
    UnsupportedFormat(&'static str),
    /// The image asks for this mapper, which is not emulated.
    UnsupportedMapper(u8),
    /// The image is shorter than its header announces.
    Truncated,
}

impl LoadError {
    /// The text of `message`.
    pub open spec fn message_spec(self) -> Seq<char> {
        match self {
            LoadError::BadMagic => "File is not in iNES file format"@,
            LoadError::UnsupportedFormat(name) => name@ + " format is not supported"@,
            LoadError::UnsupportedMapper(_) => "Mapper is not supported"@,
            LoadError::Truncated => "File is shorter than its header announces"@,
        }
    }

    /// A sentence for people that says what went wrong.
    pub fn message(&self) -> (text: String)
        ensures
            text@ == self.message_spec(),
    {
        match self {
            LoadError::BadMagic => String::from_str("File is not in iNES file format"),
            LoadError::UnsupportedFormat(name) => {
                let mut text = String::from_str(name);
                text.append(" format is not supported");
                text
            },
            LoadError::UnsupportedMapper(_) => String::from_str("Mapper is not supported"),
            LoadError::Truncated => String::from_str("File is shorter than its header announces"),
        }
    }
}

} // verus!
