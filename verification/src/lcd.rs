//! The shades of the screen and the control and status registers of the
//! pixel-processing unit.
use vstd::prelude::*;
use crate::interrupts::{InterruptReason, Interrupts};

verus! {

/// One of the four shades the screen can show.
#[derive(Clone, Copy, PartialEq, Eq, Structural, Debug)]
pub enum GreyShade {
    White,
    LightGrey,
    DarkGrey,
    Black,
}

impl GreyShade {
    /// The shade with number `n`, from lightest (0) to darkest (3).
    pub open spec fn spec_from_u8(n: u8) -> GreyShade {
        if n == 0 {
            GreyShade::White
        } else if n == 1 {
            GreyShade::LightGrey
        } else if n == 2 {
            GreyShade::DarkGrey
        } else {
            GreyShade::Black
        }
    }

    /// The shade with number `n`, from lightest (0) to darkest (3).
    pub fn from_u8(n: u8) -> (r: GreyShade)
        requires
            n <= 3,
        ensures
            r == GreyShade::spec_from_u8(n),
    {
        match n {
            0 => GreyShade::White,
            1 => GreyShade::LightGrey,
            2 => GreyShade::DarkGrey,
            _ => GreyShade::Black,
        }
    }
}

/// The LCD control register, one field per bit.
#[derive(Clone, Copy, Debug)]
pub struct LcdControl {
    pub display_enable: bool,
    pub window_tile_map_display_select: bool,
    pub window_enable: bool,
    pub bg_and_window_data_select: bool,
    pub bg_tile_map_display_select: bool,
    pub obj_size: bool,
    pub obj_enable: bool,
    pub bg_display: bool,
}

impl LcdControl {
    /// The register read out of a byte: bit 0 is `bg_display`, bit 7 is
    /// `display_enable`.
    pub open spec fn spec_from_byte(n: u8) -> LcdControl {
        LcdControl {
            bg_display: n % 2 == 1,
            obj_enable: (n / 2) % 2 == 1,
            obj_size: (n / 4) % 2 == 1,
            bg_tile_map_display_select: (n / 8) % 2 == 1,
            bg_and_window_data_select: (n / 16) % 2 == 1,
            window_enable: (n / 32) % 2 == 1,
            window_tile_map_display_select: (n / 64) % 2 == 1,
            display_enable: (n / 128) % 2 == 1,
        }
    }

    /// The byte that the register reads as.
    pub open spec fn spec_to_byte(self) -> u8 {
        (if self.bg_display { 1u8 } else { 0u8 }) | (if self.obj_enable { 2u8 } else { 0u8 }) | (if self.obj_size {
            4u8
        } else {
            0u8
        }) | (if self.bg_tile_map_display_select { 8u8 } else { 0u8 }) | (if self.bg_and_window_data_select {
            16u8
        } else {
            0u8
        }) | (if self.window_enable { 32u8 } else { 0u8 }) | (if self.window_tile_map_display_select {
            64u8
        } else {
            0u8
        }) | (if self.display_enable { 128u8 } else { 0u8 })
    }

    /// The register after power-up: display on, both tile maps at the high base.
    pub fn new() -> (r: LcdControl)
        ensures
            r == LcdControl::spec_from_byte(0xC8),
    {
        LcdControl::from(0xC8)
    }
}

impl From<u8> for LcdControl {
    fn from(n: u8) -> (r: LcdControl) {
        LcdControl {
            bg_display: n % 2 == 1,
            obj_enable: (n / 2) % 2 == 1,
            obj_size: (n / 4) % 2 == 1,
            bg_tile_map_display_select: (n / 8) % 2 == 1,
            bg_and_window_data_select: (n / 16) % 2 == 1,
            window_enable: (n / 32) % 2 == 1,
            window_tile_map_display_select: (n / 64) % 2 == 1,
            display_enable: (n / 128) % 2 == 1,
        }
    }
}

impl vstd::std_specs::convert::FromSpecImpl<u8> for LcdControl {
    open spec fn obeys_from_spec() -> bool {
        true
    }

    open spec fn from_spec(n: u8) -> LcdControl {
        LcdControl::spec_from_byte(n)
    }
}

impl From<LcdControl> for u8 {
    fn from(lcd: LcdControl) -> (r: u8) {
        let b0: u8 = if lcd.bg_display { 1 } else { 0 };
        let b1: u8 = if lcd.obj_enable { 2 } else { 0 };
        let b2: u8 = if lcd.obj_size { 4 } else { 0 };
        let b3: u8 = if lcd.bg_tile_map_display_select { 8 } else { 0 };
        let b4: u8 = if lcd.bg_and_window_data_select { 16 } else { 0 };
        let b5: u8 = if lcd.window_enable { 32 } else { 0 };
        let b6: u8 = if lcd.window_tile_map_display_select { 64 } else { 0 };
        let b7: u8 = if lcd.display_enable { 128 } else { 0 };
        b0 | b1 | b2 | b3 | b4 | b5 | b6 | b7
    }
}

impl vstd::std_specs::convert::FromSpecImpl<LcdControl> for u8 {
    open spec fn obeys_from_spec() -> bool {
        true
    }

    open spec fn from_spec(lcd: LcdControl) -> u8 {
        lcd.spec_to_byte()
    }
}

/// The four modes of the pixel-processing unit.
#[derive(Clone, Copy, PartialEq, Eq, Structural, Debug)]
pub enum LcdMode {
    HBlank,
    VBlank,
    OAMSearch,
    Transfer,
}

impl LcdMode {
    /// The number that the status register shows for this mode.
    pub open spec fn spec_number(self) -> u8 {
        match self {
            LcdMode::HBlank => 0,
            LcdMode::VBlank => 1,
            LcdMode::OAMSearch => 2,
            LcdMode::Transfer => 3,
        }
    }

    /// The mode that the status register shows as `n`.
    pub open spec fn spec_from_number(n: u8) -> LcdMode {
        if n == 0 {
            LcdMode::HBlank
        } else if n == 1 {
            LcdMode::VBlank
        } else if n == 2 {
            LcdMode::OAMSearch
        } else {
            LcdMode::Transfer
        }
    }

    /// The number that the status register shows for this mode.
    pub fn number(self) -> (r: u8)
        ensures
            r == self.spec_number(),
            r <= 3,
            LcdMode::spec_from_number(r) == self,
    {
        match self {
            LcdMode::HBlank => 0,
            LcdMode::VBlank => 1,
            LcdMode::OAMSearch => 2,
            LcdMode::Transfer => 3,
        }
    }
}

/// The LCD status register.
#[derive(Clone, Copy, Debug)]
pub struct LcdStatus {
    /// Interrupt when the scanline equals the compare register.
    pub lyc: bool,
    /// Interrupt on entering object search.
    pub oam_interrupt: bool,
    /// Interrupt on entering vertical blanking.
    pub vblank_interrupt: bool,
    /// Interrupt on entering horizontal blanking.
    pub hblank_interrupt: bool,
    /// The scanline has matched the compare register.
    pub coincidence_flag: bool,
    /// The number of the current mode.
    pub mode_flag: u8,
}

impl LcdStatus {
    /// The mode number is one of the four modes.
    pub open spec fn wf(self) -> bool {
        self.mode_flag <= 3
    }

    /// The register read out of a byte: bits 0 and 1 are the mode, bit 6 the
    /// compare-interrupt enable.
    pub open spec fn spec_from_byte(n: u8) -> LcdStatus {
        LcdStatus {
            lyc: (n / 64) % 2 == 1,
            oam_interrupt: (n / 32) % 2 == 1,
            vblank_interrupt: (n / 16) % 2 == 1,
            hblank_interrupt: (n / 8) % 2 == 1,
            coincidence_flag: (n / 4) % 2 == 1,
            mode_flag: n % 4,
        }
    }

    /// The byte that the register reads as.
    pub open spec fn spec_to_byte(self) -> u8 {
        self.mode_flag | (if self.coincidence_flag { 4u8 } else { 0u8 }) | (if self.hblank_interrupt {
            8u8
        } else {
            0u8
        }) | (if self.vblank_interrupt { 16u8 } else { 0u8 }) | (if self.oam_interrupt { 32u8 } else { 0u8 })
            | (if self.lyc { 64u8 } else { 0u8 })
    }

    /// The current mode.
    pub open spec fn spec_get_mode(self) -> LcdMode {
        LcdMode::spec_from_number(self.mode_flag)
    }

    /// The register after a write of `data`: the four interrupt enables are
    /// taken from `data`, the coincidence flag and the mode are kept.
    pub open spec fn spec_set_data(self, data: u8) -> LcdStatus {
        LcdStatus {
            lyc: (data / 64) % 2 == 1,
            oam_interrupt: (data / 32) % 2 == 1,
            vblank_interrupt: (data / 16) % 2 == 1,
            hblank_interrupt: (data / 8) % 2 == 1,
            coincidence_flag: self.coincidence_flag,
            mode_flag: self.mode_flag,
        }
    }

    /// Whether a write to the register raises a status interrupt: it does during
    /// either blanking mode while the compare interrupt is enabled.
    pub open spec fn spec_write_raises(self) -> bool {
        (self.mode_flag == 0 || self.mode_flag == 1) && self.lyc
    }

    /// The current mode.
    pub fn get_mode(&self) -> (r: LcdMode)
        requires
            self.wf(),
        ensures
            r == self.spec_get_mode(),
            r.spec_number() == self.mode_flag,
    {
        match self.mode_flag {
            0 => LcdMode::HBlank,
            1 => LcdMode::VBlank,
            2 => LcdMode::OAMSearch,
            _ => LcdMode::Transfer,
        }
    }

    /// A write to the register. The interrupt enables are replaced; the
    /// coincidence flag and the mode are read-only. A write during a blanking
    /// mode with the compare interrupt enabled raises a status interrupt.
    pub fn set_data(&mut self, data: u8, ints: &mut Interrupts)
        requires
            old(self).wf(),
        ensures
            *final(self) == old(self).spec_set_data(data),
            *final(ints) == old(ints).spec_raise_if(old(self).spec_write_raises(), InterruptReason::LCDStat),
            final(self).wf(),
    {
        if (self.mode_flag == 0 || self.mode_flag == 1) && self.lyc {
            ints.raise_interrupt(InterruptReason::LCDStat);
        }
        let new_stat: LcdStatus = LcdStatus::from(data);
        self.lyc = new_stat.lyc;
        self.oam_interrupt = new_stat.oam_interrupt;
        self.vblank_interrupt = new_stat.vblank_interrupt;
        self.hblank_interrupt = new_stat.hblank_interrupt;
    }

    /// Records `mode` as the current mode.
    pub fn set_mode(&mut self, mode: LcdMode)
        ensures
            *final(self) == (LcdStatus { mode_flag: mode.spec_number(), ..*old(self) }),
            final(self).wf(),
            final(self).spec_get_mode() == mode,
    {
        self.mode_flag = mode.number();
    }

    /// The register after power-up: object search, nothing enabled.
    pub fn new() -> (r: LcdStatus)
        ensures
            r == LcdStatus::spec_from_byte(2),
            r.wf(),
    {
        LcdStatus::from(2)
    }
}

impl From<u8> for LcdStatus {
    fn from(n: u8) -> (r: LcdStatus) {
        LcdStatus {
            lyc: (n / 64) % 2 == 1,
            oam_interrupt: (n / 32) % 2 == 1,
            vblank_interrupt: (n / 16) % 2 == 1,
            hblank_interrupt: (n / 8) % 2 == 1,
            coincidence_flag: (n / 4) % 2 == 1,
            mode_flag: n % 4,
        }
    }
}

impl vstd::std_specs::convert::FromSpecImpl<u8> for LcdStatus {
    open spec fn obeys_from_spec() -> bool {
        true
    }

    open spec fn from_spec(n: u8) -> LcdStatus {
        LcdStatus::spec_from_byte(n)
    }
}

impl From<LcdStatus> for u8 {
    fn from(lcd: LcdStatus) -> (r: u8) {
        let b2: u8 = if lcd.coincidence_flag { 4 } else { 0 };
        let b3: u8 = if lcd.hblank_interrupt { 8 } else { 0 };
        let b4: u8 = if lcd.vblank_interrupt { 16 } else { 0 };
        let b5: u8 = if lcd.oam_interrupt { 32 } else { 0 };
        let b6: u8 = if lcd.lyc { 64 } else { 0 };
        lcd.mode_flag | b2 | b3 | b4 | b5 | b6
    }
}

impl vstd::std_specs::convert::FromSpecImpl<LcdStatus> for u8 {
    open spec fn obeys_from_spec() -> bool {
        true
    }

    open spec fn from_spec(lcd: LcdStatus) -> u8 {
        lcd.spec_to_byte()
    }
}

} // verus!
