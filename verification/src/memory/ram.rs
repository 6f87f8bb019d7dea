//! A byte buffer that can be read and written.
use vstd::prelude::*;

verus! {

/// A fixed-size buffer of bytes.
pub struct Ram {
    pub bytes: Vec<u8>,
    pub size: usize,
}

impl View for Ram {
    type V = Seq<u8>;

    open spec fn view(&self) -> Seq<u8> {
        self.bytes@
    }
}

/// A buffer of `size` zero bytes.
pub open spec fn spec_zeroes(size: nat) -> Seq<u8> {
    Seq::new(size, |i: int| 0u8)
}

impl Ram {
    /// The recorded size is the length of the buffer.
    pub open spec fn wf(&self) -> bool {
        self.size == self.bytes@.len()
    }

    /// The byte at `address`.
    pub fn read(&self, address: u16) -> (r: u8)
        requires
            address < self@.len(),
        ensures
            r == self@[address as int],
    {
        self.bytes[address as usize]
    }

    /// Replaces the byte at `address`.
    pub fn write(&mut self, address: u16, value: u8)
        requires
            address < old(self)@.len(),
        ensures
            final(self)@ == old(self)@.update(address as int, value),
            final(self).size == old(self).size,
    {
        self.bytes[address as usize] = value;
    }

    /// A buffer of `size` zero bytes.
    pub fn new(size: usize) -> (r: Ram)
        ensures
            r@ == spec_zeroes(size as nat),
            r.size == size,
            r.wf(),
    {
        let bytes: Vec<u8> = vec![0u8; size];
        assert(bytes@ =~= spec_zeroes(size as nat));
        Ram { bytes, size }
    }

    /// A buffer that holds the contents of a save file, which must have the
    /// expected size.
    pub fn from_file(contents: Vec<u8>, expected_size: usize) -> (r: Ram)
        requires
            contents@.len() == expected_size,
        ensures
            r@ == contents@,
            r.size == expected_size,
            r.wf(),
    {
        Ram { bytes: contents, size: expected_size }
    }
}

} // verus!
