//! The program image of a cartridge.
use vstd::prelude::*;

verus! {

/// A read-only buffer of bytes.
pub struct Rom {
    pub bytes: Vec<u8>,
}

impl View for Rom {
    type V = Seq<u8>;

    open spec fn view(&self) -> Seq<u8> {
        self.bytes@
    }
}

/// The byte of `rom` at `index`; past the end of the image every byte reads as 0.
pub open spec fn spec_rom_byte(rom: Seq<u8>, index: int) -> u8 {
    if 0 <= index < rom.len() {
        rom[index]
    } else {
        0
    }
}

impl Rom {
    /// The byte at `address`, or 0 past the end of the image.
    pub fn read(&self, address: u16) -> (r: u8)
        ensures
            r == spec_rom_byte(self@, address as int),
    {
        if address as usize >= self.bytes.len() {
            0
        } else {
            self.bytes[address as usize]
        }
    }

    /// The byte at `index`, or 0 past the end of the image.
    pub fn read_at(&self, index: usize) -> (r: u8)
        ensures
            r == spec_rom_byte(self@, index as int),
    {
        if index >= self.bytes.len() {
            0
        } else {
            self.bytes[index]
        }
    }

    /// The image with the contents of a program file.
    pub fn from_file(contents: Vec<u8>) -> (r: Rom)
        ensures
            r@ == contents@,
    {
        Rom { bytes: contents }
    }

    /// An image of one hundred zero bytes.
    pub fn from_playdate_bodge_zeroes() -> (r: Rom)
        ensures
            r@ == Seq::new(100, |i: int| 0u8),
    {
        let bytes: Vec<u8> = vec![0u8; 100];
        assert(bytes@ =~= Seq::new(100, |i: int| 0u8));
        Rom { bytes }
    }
}

} // verus!
