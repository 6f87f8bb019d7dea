//! A cartridge without a controller.
use vstd::prelude::*;
use crate::memory::mbcs::{MbcView, MBC};
use crate::memory::rom::Rom;

verus! {

/// A bare program image of at most 32 KiB.
pub struct MBCNone {
    pub rom: Rom,
}

impl MBC for MBCNone {
    open spec fn model(&self) -> MbcView {
        MbcView::Bare(self.rom@)
    }

    open spec fn wf(&self) -> bool {
        true
    }

    fn read(&self, address: u16) -> (r: u8) {
        self.rom.read(address)
    }

    fn write(&mut self, address: u16, value: u8) {
    }

    fn ram_read(&self, address: u16) -> (r: u8) {
        0xFF
    }

    fn ram_write(&mut self, address: u16, value: u8) {
    }

    fn step(&mut self) {
    }
}

impl MBCNone {
    /// A cartridge that maps `rom` as it is.
    pub fn new(rom: Rom) -> (r: MBCNone)
        ensures
            r.model() == MbcView::Bare(rom@),
            r.rom == rom,
    {
        MBCNone { rom }
    }
}

} // verus!
