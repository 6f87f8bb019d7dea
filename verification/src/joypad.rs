//! The joypad register.
use vstd::prelude::*;

verus! {

/// Which group of keys the register reports.
#[derive(Clone, Copy, PartialEq, Eq, Structural, Debug)]
pub enum JoypadReadoutMode {
    Buttons,
    Directions,
    Neither,
}

/// The joypad: the selected group and the state of the eight keys. The host
/// sets the keys between frames.
#[derive(Clone, Copy, Debug)]
pub struct Joypad {
    pub readout_mode: JoypadReadoutMode,
    pub up_pressed: bool,
    pub down_pressed: bool,
    pub left_pressed: bool,
    pub right_pressed: bool,
    pub a_pressed: bool,
    pub b_pressed: bool,
    pub start_pressed: bool,
    pub select_pressed: bool,
}

/// Four key states as a nibble, lowest bit first; a pressed key reads as 0.
pub open spec fn spec_key_nibble(k0: bool, k1: bool, k2: bool, k3: bool) -> u8 {
    (if k0 { 0u8 } else { 1u8 }) | (if k1 { 0u8 } else { 2u8 }) | (if k2 { 0u8 } else { 4u8 }) | (if k3 {
        0u8
    } else {
        8u8
    })
}

impl Joypad {
    /// The group that a write of `n` selects: bits 5 and 4 are the selectors, and
    /// a selector that is low selects its group.
    pub open spec fn spec_mode_of(n: u8) -> JoypadReadoutMode {
        if (n / 16) % 4 == 1 {
            JoypadReadoutMode::Buttons
        } else if (n / 16) % 4 == 2 {
            JoypadReadoutMode::Directions
        } else {
            JoypadReadoutMode::Neither
        }
    }

    /// Right, left, up, down in bits 0 to 3.
    pub open spec fn spec_direction_bits(self) -> u8 {
        spec_key_nibble(self.right_pressed, self.left_pressed, self.up_pressed, self.down_pressed)
    }

    /// A, B, select, start in bits 0 to 3.
    pub open spec fn spec_button_bits(self) -> u8 {
        spec_key_nibble(self.a_pressed, self.b_pressed, self.select_pressed, self.start_pressed)
    }

    /// The selector bits as they read back: the selector of the selected group
    /// is low, the other one high.
    pub open spec fn spec_selection_bits(self) -> u8 {
        match self.readout_mode {
            JoypadReadoutMode::Buttons => 0x10,
            JoypadReadoutMode::Directions => 0x20,
            JoypadReadoutMode::Neither => 0,
        }
    }

    /// The byte that the register reads as.
    pub open spec fn spec_read(self) -> u8 {
        (match self.readout_mode {
            JoypadReadoutMode::Buttons => self.spec_button_bits(),
            JoypadReadoutMode::Directions => self.spec_direction_bits(),
            JoypadReadoutMode::Neither => 0xF,
        }) | self.spec_selection_bits()
    }

    /// A write to the register selects the group to report.
    pub fn write(&mut self, n: u8)
        ensures
            *final(self) == (Joypad { readout_mode: Joypad::spec_mode_of(n), ..*old(self) }),
    {
        let masked: u8 = (n / 16) % 4;
        self.readout_mode = if masked == 1 {
            JoypadReadoutMode::Buttons
        } else if masked == 2 {
            JoypadReadoutMode::Directions
        } else {
            JoypadReadoutMode::Neither
        };
    }

    /// Right, left, up, down in bits 0 to 3; a pressed key reads as 0.
    pub fn direction_bits(&self) -> (r: u8)
        ensures
            r == self.spec_direction_bits(),
    {
        let b0: u8 = if self.right_pressed { 0 } else { 1 };
        let b1: u8 = if self.left_pressed { 0 } else { 2 };
        let b2: u8 = if self.up_pressed { 0 } else { 4 };
        let b3: u8 = if self.down_pressed { 0 } else { 8 };
        b0 | b1 | b2 | b3
    }

    /// A, B, select, start in bits 0 to 3; a pressed key reads as 0.
    pub fn button_bits(&self) -> (r: u8)
        ensures
            r == self.spec_button_bits(),
    {
        let b0: u8 = if self.a_pressed { 0 } else { 1 };
        let b1: u8 = if self.b_pressed { 0 } else { 2 };
        let b2: u8 = if self.select_pressed { 0 } else { 4 };
        let b3: u8 = if self.start_pressed { 0 } else { 8 };
        b0 | b1 | b2 | b3
    }

    /// The selector bits as they read back.
    pub fn selection_bits(&self) -> (r: u8)
        ensures
            r == self.spec_selection_bits(),
    {
        match self.readout_mode {
            JoypadReadoutMode::Buttons => 0x10,
            JoypadReadoutMode::Directions => 0x20,
            JoypadReadoutMode::Neither => 0,
        }
    }

    /// A read of the register: the key nibble of the selected group, or 0xF when
    /// no group is selected, together with the selector bits.
    pub fn read(&self) -> (r: u8)
        ensures
            r == self.spec_read(),
    {
        let n: u8 = match self.readout_mode {
            JoypadReadoutMode::Buttons => self.button_bits(),
            JoypadReadoutMode::Directions => self.direction_bits(),
            JoypadReadoutMode::Neither => 0xF,
        };
        n | self.selection_bits()
    }

    /// Buttons selected, no key pressed.
    pub fn new() -> (r: Joypad)
        ensures
            r == (Joypad {
                readout_mode: JoypadReadoutMode::Buttons,
                up_pressed: false,
                down_pressed: false,
                left_pressed: false,
                right_pressed: false,
                a_pressed: false,
                b_pressed: false,
                start_pressed: false,
                select_pressed: false,
            }),
    {
        Joypad {
            readout_mode: JoypadReadoutMode::Buttons,
            up_pressed: false,
            down_pressed: false,
            left_pressed: false,
            right_pressed: false,
            a_pressed: false,
            b_pressed: false,
            start_pressed: false,
            select_pressed: false,
        }
    }
}

} // verus!
