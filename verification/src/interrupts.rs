//! The interrupt controller: the enable and request registers and the master
//! enable flag.
use vstd::prelude::*;

verus! {

/// Number of interrupt sources.
pub const INTERRUPT_COUNT: u8 = 5;

/// One bit per interrupt source, in priority order.
#[derive(Clone, Copy, Debug)]
pub struct InterruptFields {
    pub v_blank: bool,
    pub lcd_stat: bool,
    pub timer: bool,
    pub serial: bool,
    pub joypad: bool,
}

/// The interrupt sources, highest priority first.
#[derive(Clone, Copy, Debug)]
pub enum InterruptReason {
    VBlank,
    LCDStat,
    Timer,
    Serial,
    Joypad,
}

/// The register bit that stands for `reason`.
pub open spec fn spec_interrupt_reason_bitmask(reason: InterruptReason) -> u8 {
    match reason {
        InterruptReason::VBlank => 1,
        InterruptReason::LCDStat => 2,
        InterruptReason::Timer => 4,
        InterruptReason::Serial => 8,
        InterruptReason::Joypad => 16,
    }
}

/// The address that the processor jumps to when it serves source `index`.
pub open spec fn spec_interrupt_vector(index: int) -> u16 {
    (0x40 + 8 * index) as u16
}

/// The register bit that stands for `reason`.
pub fn get_interrupt_reason_bitmask(reason: InterruptReason) -> (r: u8)
    ensures
        r == spec_interrupt_reason_bitmask(reason),
{
    match reason {
        InterruptReason::VBlank => 1,
        InterruptReason::LCDStat => 2,
        InterruptReason::Timer => 4,
        InterruptReason::Serial => 8,
        InterruptReason::Joypad => 16,
    }
}

/// The address that the processor jumps to when it serves source `index`.
pub fn interrupt_vector(index: u8) -> (r: u16)
    requires
        index < INTERRUPT_COUNT,
    ensures
        r == spec_interrupt_vector(index as int),
{
    0x40 + 8 * (index as u16)
}

impl InterruptFields {
    /// The five bits read out of the low bits of a register byte.
    pub open spec fn spec_from_byte(n: u8) -> InterruptFields {
        InterruptFields {
            v_blank: n % 2 == 1,
            lcd_stat: (n / 2) % 2 == 1,
            timer: (n / 4) % 2 == 1,
            serial: (n / 8) % 2 == 1,
            joypad: (n / 16) % 2 == 1,
        }
    }

    /// The five bits packed into the low bits of a byte; the high bits are zero.
    pub open spec fn spec_to_byte(self) -> u8 {
        spec_pack_bits(self.v_blank, self.lcd_stat, self.timer, self.serial, self.joypad)
    }

    /// The bit of source `index`, counted from the highest priority.
    pub open spec fn spec_bit(self, index: int) -> bool {
        if index == 0 {
            self.v_blank
        } else if index == 1 {
            self.lcd_stat
        } else if index == 2 {
            self.timer
        } else if index == 3 {
            self.serial
        } else if index == 4 {
            self.joypad
        } else {
            false
        }
    }

    /// These fields with the bit of source `index` replaced by `value`.
    pub open spec fn spec_with_bit(self, index: int, value: bool) -> InterruptFields {
        InterruptFields {
            v_blank: if index == 0 { value } else { self.v_blank },
            lcd_stat: if index == 1 { value } else { self.lcd_stat },
            timer: if index == 2 { value } else { self.timer },
            serial: if index == 3 { value } else { self.serial },
            joypad: if index == 4 { value } else { self.joypad },
        }
    }

    /// Whether any of the five bits is set.
    pub open spec fn spec_any(self) -> bool {
        self.v_blank || self.lcd_stat || self.timer || self.serial || self.joypad
    }

    /// Whether any of the five bits is set.
    pub fn any(&self) -> (r: bool)
        ensures
            r == self.spec_any(),
    {
        self.v_blank || self.lcd_stat || self.timer || self.serial || self.joypad
    }

    /// No source is set.
    pub fn new() -> (r: InterruptFields)
        ensures
            r == InterruptFields::spec_from_byte(0),
            r.spec_to_byte() == 0,
    {
        proof {
            lemma_unpack_bits(0);
        }
        InterruptFields { v_blank: false, lcd_stat: false, timer: false, serial: false, joypad: false }
    }

    /// The bit of source `index`.
    pub fn bit(&self, index: u8) -> (r: bool)
        ensures
            r == self.spec_bit(index as int),
    {
        match index {
            0 => self.v_blank,
            1 => self.lcd_stat,
            2 => self.timer,
            3 => self.serial,
            4 => self.joypad,
            _ => false,
        }
    }

    /// Replaces the bit of source `index` by `value`.
    pub fn set_bit(&mut self, index: u8, value: bool)
        ensures
            *final(self) == old(self).spec_with_bit(index as int, value),
    {
        match index {
            0 => self.v_blank = value,
            1 => self.lcd_stat = value,
            2 => self.timer = value,
            3 => self.serial = value,
            4 => self.joypad = value,
            _ => {},
        }
    }
}

impl From<u8> for InterruptFields {
    fn from(n: u8) -> (r: InterruptFields) {
        InterruptFields {
            v_blank: n % 2 == 1,
            lcd_stat: (n / 2) % 2 == 1,
            timer: (n / 4) % 2 == 1,
            serial: (n / 8) % 2 == 1,
            joypad: (n / 16) % 2 == 1,
        }
    }
}

impl vstd::std_specs::convert::FromSpecImpl<u8> for InterruptFields {
    open spec fn obeys_from_spec() -> bool {
        true
    }

    open spec fn from_spec(n: u8) -> InterruptFields {
        InterruptFields::spec_from_byte(n)
    }
}

impl From<InterruptFields> for u8 {
    fn from(f: InterruptFields) -> (r: u8) {
        let b1: u8 = if f.v_blank { 1 } else { 0 };
        let b2: u8 = if f.lcd_stat { 2 } else { 0 };
        let b3: u8 = if f.timer { 4 } else { 0 };
        let b4: u8 = if f.serial { 8 } else { 0 };
        let b5: u8 = if f.joypad { 16 } else { 0 };
        b1 | b2 | b3 | b4 | b5
    }
}

impl vstd::std_specs::convert::FromSpecImpl<InterruptFields> for u8 {
    open spec fn obeys_from_spec() -> bool {
        true
    }

    open spec fn from_spec(f: InterruptFields) -> u8 {
        f.spec_to_byte()
    }
}

/// The byte whose low five bits are the given bits, lowest first.
pub open spec fn spec_pack_bits(b0: bool, b1: bool, b2: bool, b3: bool, b4: bool) -> u8 {
    (if b0 { 1u8 } else { 0u8 }) | (if b1 { 2u8 } else { 0u8 }) | (if b2 { 4u8 } else { 0u8 }) | (if b3 {
        8u8
    } else {
        0u8
    }) | (if b4 { 16u8 } else { 0u8 })
}

/// Five packed bits can be read back one by one.
pub proof fn lemma_pack_bits(b0: bool, b1: bool, b2: bool, b3: bool, b4: bool)
    by (bit_vector)
    ensures
        spec_pack_bits(b0, b1, b2, b3, b4) < 32u8,
        (spec_pack_bits(b0, b1, b2, b3, b4) % 2u8 == 1u8) == b0,
        ((spec_pack_bits(b0, b1, b2, b3, b4) / 2u8) % 2u8 == 1u8) == b1,
        ((spec_pack_bits(b0, b1, b2, b3, b4) / 4u8) % 2u8 == 1u8) == b2,
        ((spec_pack_bits(b0, b1, b2, b3, b4) / 8u8) % 2u8 == 1u8) == b3,
        ((spec_pack_bits(b0, b1, b2, b3, b4) / 16u8) % 2u8 == 1u8) == b4,
{
}

/// A byte's five low bits pack to the byte modulo 32.
pub proof fn lemma_unpack_bits(n: u8)
    by (bit_vector)
    ensures
        ((if n % 2u8 == 1u8 { 1u8 } else { 0u8 }) | (if (n / 2u8) % 2u8 == 1u8 { 2u8 } else { 0u8 }) | (if (n
            / 4u8) % 2u8 == 1u8 {
            4u8
        } else {
            0u8
        }) | (if (n / 8u8) % 2u8 == 1u8 { 8u8 } else { 0u8 }) | (if (n / 16u8) % 2u8 == 1u8 {
            16u8
        } else {
            0u8
        })) == n % 32u8,
{
}

/// Packing five bits and reading them back gives the same five bits; a byte
/// read and packed again keeps its low five bits.
pub proof fn lemma_interrupt_fields_round_trip(f: InterruptFields, n: u8)
    ensures
        InterruptFields::spec_from_byte(f.spec_to_byte()) == f,
        InterruptFields::spec_from_byte(n).spec_to_byte() == n % 32,
{
    lemma_pack_bits(f.v_blank, f.lcd_stat, f.timer, f.serial, f.joypad);
    lemma_unpack_bits(n);
}

/// The interrupt controller.
#[derive(Clone, Copy, Debug)]
pub struct Interrupts {
    /// Which sources may interrupt the processor.
    pub enable: InterruptFields,
    /// Which sources have asked for service.
    pub flag: InterruptFields,
    /// The master enable flag.
    pub ime: bool,
}

impl Interrupts {
    /// This controller after source `reason` has asked for service.
    pub open spec fn spec_raise(self, reason: InterruptReason) -> Interrupts {
        Interrupts {
            flag: match reason {
                InterruptReason::VBlank => InterruptFields { v_blank: true, ..self.flag },
                InterruptReason::LCDStat => InterruptFields { lcd_stat: true, ..self.flag },
                InterruptReason::Timer => InterruptFields { timer: true, ..self.flag },
                InterruptReason::Serial => InterruptFields { serial: true, ..self.flag },
                InterruptReason::Joypad => InterruptFields { joypad: true, ..self.flag },
            },
            ..self
        }
    }

    /// This controller after `reason` has asked for service, if `condition` holds.
    pub open spec fn spec_raise_if(self, condition: bool, reason: InterruptReason) -> Interrupts {
        if condition {
            self.spec_raise(reason)
        } else {
            self
        }
    }

    /// The byte that the enable register reads as.
    pub open spec fn spec_enable_read(self) -> u8 {
        self.enable.spec_to_byte()
    }

    /// The byte that the request register reads as: the three unused high bits
    /// read as one.
    pub open spec fn spec_flag_read(self) -> u8 {
        224u8 | self.flag.spec_to_byte()
    }

    /// The highest-priority source that is both requested and enabled, if any.
    pub open spec fn spec_pending(self) -> Option<int> {
        if self.flag.v_blank && self.enable.v_blank {
            Some(0int)
        } else if self.flag.lcd_stat && self.enable.lcd_stat {
            Some(1int)
        } else if self.flag.timer && self.enable.timer {
            Some(2int)
        } else if self.flag.serial && self.enable.serial {
            Some(3int)
        } else if self.flag.joypad && self.enable.joypad {
            Some(4int)
        } else {
            None
        }
    }

    /// Records that source `reason` asks for service.
    pub fn raise_interrupt(&mut self, reason: InterruptReason)
        ensures
            *final(self) == old(self).spec_raise(reason),
    {
        match reason {
            InterruptReason::VBlank => self.flag.v_blank = true,
            InterruptReason::LCDStat => self.flag.lcd_stat = true,
            InterruptReason::Timer => self.flag.timer = true,
            InterruptReason::Serial => self.flag.serial = true,
            InterruptReason::Joypad => self.flag.joypad = true,
        }
    }

    /// A write to the enable register: its low five bits become the enabled set.
    pub fn enable_write(&mut self, value: u8)
        ensures
            *final(self) == (Interrupts { enable: InterruptFields::spec_from_byte(value), ..*old(self) }),
    {
        self.enable = InterruptFields::from(value)
    }

    /// A write to the request register: its low five bits become the requested set.
    pub fn flag_write(&mut self, value: u8)
        ensures
            *final(self) == (Interrupts { flag: InterruptFields::spec_from_byte(value), ..*old(self) }),
    {
        self.flag = InterruptFields::from(value)
    }

    /// A read of the enable register.
    pub fn enable_read(&self) -> (r: u8)
        ensures
            r == self.spec_enable_read(),
            r < 32,
    {
        proof {
            lemma_pack_bits(
                self.enable.v_blank,
                self.enable.lcd_stat,
                self.enable.timer,
                self.enable.serial,
                self.enable.joypad,
            );
        }
        u8::from(self.enable)
    }

    /// A read of the request register.
    pub fn flag_read(&self) -> (r: u8)
        ensures
            r == self.spec_flag_read(),
    {
        224u8 | u8::from(self.flag)
    }

    /// The highest-priority source that is both requested and enabled, if any.
    pub fn pending(&self) -> (r: Option<u8>)
        ensures
            match r {
                Some(index) => self.spec_pending() == Some(index as int) && index < INTERRUPT_COUNT,
                None => self.spec_pending().is_none(),
            },
    {
        if self.flag.v_blank && self.enable.v_blank {
            Some(0)
        } else if self.flag.lcd_stat && self.enable.lcd_stat {
            Some(1)
        } else if self.flag.timer && self.enable.timer {
            Some(2)
        } else if self.flag.serial && self.enable.serial {
            Some(3)
        } else if self.flag.joypad && self.enable.joypad {
            Some(4)
        } else {
            None
        }
    }

    /// Nothing enabled, nothing requested, master enable off.
    pub fn new() -> (r: Interrupts)
        ensures
            r == (Interrupts {
                enable: InterruptFields::spec_from_byte(0),
                flag: InterruptFields::spec_from_byte(0),
                ime: false,
            }),
    {
        Interrupts { enable: InterruptFields::new(), flag: InterruptFields::new(), ime: false }
    }
}

} // verus!
