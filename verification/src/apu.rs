//! The audio registers. Nothing is synthesised: the unit stores the master
//! volume, the channel routing, the power register and the wave pattern RAM.
use vstd::prelude::*;
use crate::constants::{WAVE_RAM_END, WAVE_RAM_SIZE, WAVE_RAM_START};
use crate::memory::ram::{spec_zeroes, Ram};

verus! {

/// The highest volume level of an output.
pub const MAX_VOLUME: u8 = 7;

/// The audio register bank.
pub struct APU {
    /// Volume of the left output in sevenths, 0 to 7.
    pub stereo_left_volume: u8,
    /// Volume of the right output in sevenths, 0 to 7.
    pub stereo_right_volume: u8,
    pub stereo_channel_control: u8,
    pub sound_on_register: u8,
    pub wave_ram: Ram,
}

/// The model of an `APU`.
pub struct ApuView {
    pub stereo_left_volume: u8,
    pub stereo_right_volume: u8,
    pub stereo_channel_control: u8,
    pub sound_on_register: u8,
    pub wave_ram: Seq<u8>,
}

impl View for APU {
    type V = ApuView;

    open spec fn view(&self) -> ApuView {
        ApuView {
            stereo_left_volume: self.stereo_left_volume,
            stereo_right_volume: self.stereo_right_volume,
            stereo_channel_control: self.stereo_channel_control,
            sound_on_register: self.sound_on_register,
            wave_ram: self.wave_ram@,
        }
    }
}

impl ApuView {
    /// The wave RAM has its size and both volumes are levels.
    pub open spec fn wf(self) -> bool {
        &&& self.wave_ram.len() == WAVE_RAM_SIZE
        &&& self.stereo_left_volume <= MAX_VOLUME
        &&& self.stereo_right_volume <= MAX_VOLUME
    }

    /// The byte read at `address`. The routing and power registers and the wave
    /// RAM read back what was written; every other register, the master volume
    /// among them, reads as 0.
    pub open spec fn spec_read(self, address: u16) -> u8 {
        if address == 0xFF25 {
            self.stereo_channel_control
        } else if address == 0xFF26 {
            self.sound_on_register
        } else if WAVE_RAM_START <= address <= WAVE_RAM_END {
            self.wave_ram[address - WAVE_RAM_START]
        } else {
            0
        }
    }

    /// The unit after a write of `value` at `address`. A write to the master
    /// volume register sets the right volume from bits 0 to 2 and the left
    /// volume from bits 4 to 6; writes to the channel registers are dropped.
    pub open spec fn spec_write(self, address: u16, value: u8) -> ApuView {
        if address == 0xFF24 {
            ApuView {
                stereo_right_volume: value % 8,
                stereo_left_volume: (value / 16) % 8,
                ..self
            }
        } else if address == 0xFF25 {
            ApuView { stereo_channel_control: value, ..self }
        } else if address == 0xFF26 {
            ApuView { sound_on_register: value, ..self }
        } else if WAVE_RAM_START <= address <= WAVE_RAM_END {
            ApuView { wave_ram: self.wave_ram.update(address - WAVE_RAM_START, value), ..self }
        } else {
            self
        }
    }
}

impl APU {
    /// The buffers have their recorded sizes and the model is well formed.
    pub open spec fn wf(&self) -> bool {
        self.wave_ram.wf() && self@.wf()
    }

    /// A read of an audio register or of the wave RAM.
    pub fn read(&self, address: u16) -> (r: u8)
        requires
            self.wf(),
        ensures
            r == self@.spec_read(address),
    {
        if address == 0xFF24 {
            self.serialise_nr50()
        } else if address == 0xFF25 {
            self.stereo_channel_control
        } else if address == 0xFF26 {
            self.sound_on_register
        } else if WAVE_RAM_START <= address && address <= WAVE_RAM_END {
            self.wave_ram.read(address - WAVE_RAM_START)
        } else {
            0
        }
    }

    /// A write to an audio register or to the wave RAM.
    pub fn write(&mut self, address: u16, value: u8)
        requires
            old(self).wf(),
        ensures
            final(self)@ == old(self)@.spec_write(address, value),
            final(self).wf(),
    {
        if address == 0xFF24 {
            self.deserialise_nr50(value);
        } else if address == 0xFF25 {
            self.stereo_channel_control = value;
        } else if address == 0xFF26 {
            self.sound_on_register = value;
        } else if WAVE_RAM_START <= address && address <= WAVE_RAM_END {
            self.wave_ram.write(address - WAVE_RAM_START, value);
        }
    }

    /// Takes both volumes from a write to the master volume register.
    pub fn deserialise_nr50(&mut self, nr50: u8)
        ensures
            final(self)@ == (ApuView {
                stereo_right_volume: nr50 % 8,
                stereo_left_volume: (nr50 / 16) % 8,
                ..old(self)@
            }),
            final(self).wave_ram == old(self).wave_ram,
    {
        self.stereo_right_volume = nr50 % 8;
        self.stereo_left_volume = (nr50 / 16) % 8;
    }

    /// The master volume register does not read back: it reads as 0.
    pub fn serialise_nr50(&self) -> (r: u8)
        ensures
            r == 0,
    {
        0
    }

    /// Both outputs at full volume, every register and the wave RAM zero.
    pub fn new() -> (r: APU)
        ensures
            r@ == (ApuView {
                stereo_left_volume: MAX_VOLUME,
                stereo_right_volume: MAX_VOLUME,
                stereo_channel_control: 0,
                sound_on_register: 0,
                wave_ram: spec_zeroes(WAVE_RAM_SIZE as nat),
            }),
            r.wf(),
    {
        APU {
            stereo_left_volume: MAX_VOLUME,
            stereo_right_volume: MAX_VOLUME,
            stereo_channel_control: 0,
            sound_on_register: 0,
            wave_ram: Ram::new(WAVE_RAM_SIZE),
        }
    }
}

} // verus!
