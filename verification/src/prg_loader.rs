//! PRG program images: two little-endian bytes of load address followed by
//! the payload.

use vstd::prelude::*;
use crate::EmuError;
use crate::plus4::word16;

verus! {

/// A program image: its 16-bit load address and the payload that goes to
/// RAM starting there.
#[derive(Debug, Clone)]
pub struct PrgFile {
    pub load_address: u16,
    pub data: Vec<u8>,
}

impl PrgFile {
    /// Build an image from its two parts.
    pub fn from_data(load_address: u16, data: Vec<u8>) -> (p: PrgFile)
        ensures
            p.load_address == load_address,
            p.data@ == data@,
    {
        PrgFile { load_address, data }
    }

    /// Parse a PRG byte stream: the first two bytes are the little-endian
    /// load address, the rest is the payload.  A stream shorter than two
    /// bytes is refused, and only then.
    pub fn parse(bytes: &[u8]) -> (r: Result<PrgFile, EmuError>)
        ensures
            bytes@.len() >= 2 ==> (r matches Ok(p) && p.load_address == word16(
                bytes@[0],
                bytes@[1],
            ) && p.data@ == bytes@.subrange(2, bytes@.len() as int)),
            bytes@.len() < 2 ==> r == Err::<PrgFile, EmuError>(EmuError::BadPrg),
    {
        if bytes.len() < 2 {
            return Err(EmuError::BadPrg);
        }
        let lo: u16 = bytes[0] as u16;
        let hi: u16 = bytes[1] as u16;
        let data: Vec<u8> = vstd::slice::slice_to_vec(
            vstd::slice::slice_subrange(bytes, 2, bytes.len()),
        );
        Ok(PrgFile { load_address: lo + hi * 256, data })
    }

    /// One past the last RAM address the payload covers, wrapping at the
    /// top of the address space as a copy there would.
    pub fn end_address(&self) -> (r: u16)
        ensures
            r == self.load_address.wrapping_add(self.data@.len() as u16),
    {
        self.load_address.wrapping_add(self.data.len() as u16)
    }

    /// Whether the image loads at the BASIC program start.
    pub fn is_basic_program(&self) -> (r: bool)
        ensures
            r == (self.load_address == 0x1001),
    {
        self.load_address == 0x1001
    }
}

} // verus!
