//! Cartridge RAM that a battery may keep alive: it remembers whether it has
//! changed since the host last saved it.
use vstd::prelude::*;
use crate::memory::ram::{spec_zeroes, Ram};

verus! {

/// Cartridge RAM with its save state.
pub struct BatteryBackedRam {
    pub ram: Ram,
    pub size: usize,
    pub battery_enabled: bool,
    pub changed_since_last_save: bool,
}

/// The model of a `BatteryBackedRam`.
pub struct BatteryBackedRamView {
    pub bytes: Seq<u8>,
    pub battery_enabled: bool,
    pub changed_since_last_save: bool,
}

impl View for BatteryBackedRam {
    type V = BatteryBackedRamView;

    open spec fn view(&self) -> BatteryBackedRamView {
        BatteryBackedRamView {
            bytes: self.ram@,
            battery_enabled: self.battery_enabled,
            changed_since_last_save: self.changed_since_last_save,
        }
    }
}

impl BatteryBackedRamView {
    /// This RAM after a write of `value` at `address`.
    pub open spec fn spec_write(self, address: u16, value: u8) -> BatteryBackedRamView {
        BatteryBackedRamView {
            bytes: self.bytes.update(address as int, value),
            changed_since_last_save: true,
            ..self
        }
    }

    /// Whether the host should save the contents: they have changed and a
    /// battery backs them.
    pub open spec fn spec_needs_save(self) -> bool {
        self.changed_since_last_save && self.battery_enabled
    }
}

impl BatteryBackedRam {
    /// The recorded sizes are the length of the buffer.
    pub open spec fn wf(&self) -> bool {
        self.ram.wf() && self.size == self.ram@.len()
    }

    /// The byte at `address`.
    pub fn read(&self, address: u16) -> (r: u8)
        requires
            address < self@.bytes.len(),
        ensures
            r == self@.bytes[address as int],
    {
        self.ram.read(address)
    }

    /// Replaces the byte at `address` and marks the contents as changed.
    pub fn write(&mut self, address: u16, value: u8)
        requires
            address < old(self)@.bytes.len(),
            old(self).wf(),
        ensures
            final(self)@ == old(self)@.spec_write(address, value),
            final(self).size == old(self).size,
            final(self).wf(),
    {
        self.ram.write(address, value);
        self.changed_since_last_save = true;
    }

    /// Called once per instruction. Saving is the host's work, so nothing changes.
    pub fn step(&mut self)
        ensures
            final(self)@ == old(self)@,
            final(self).size == old(self).size,
            final(self).wf() == old(self).wf(),
    {
    }

    /// Whether the host should save the contents now.
    pub fn needs_save(&self) -> (r: bool)
        ensures
            r == self@.spec_needs_save(),
    {
        self.changed_since_last_save && self.battery_enabled
    }

    /// Records that the host has saved the contents.
    pub fn mark_saved(&mut self)
        ensures
            final(self)@ == (BatteryBackedRamView { changed_since_last_save: false, ..old(self)@ }),
            final(self).size == old(self).size,
            final(self).wf() == old(self).wf(),
    {
        self.changed_since_last_save = false;
    }

    /// Unchanged RAM of `size` zero bytes.
    pub fn new(size: usize, battery_enabled: bool) -> (r: BatteryBackedRam)
        ensures
            r@ == (BatteryBackedRamView {
                bytes: spec_zeroes(size as nat),
                battery_enabled,
                changed_since_last_save: false,
            }),
            r.size == size,
            r.wf(),
    {
        BatteryBackedRam { ram: Ram::new(size), size, battery_enabled, changed_since_last_save: false }
    }
}

} // verus!
