//! The timer block: the divider and the programmable counter.
use vstd::prelude::*;
use crate::interrupts::{InterruptReason, Interrupts};

verus! {

/// The amount of counter fraction that makes one tick of the counter.
pub const COUNTER_TICK: u32 = 262144;

/// The divider, the counter with its fraction, the reload value and the control
/// register.
#[derive(Clone, Copy, Debug)]
pub struct Timer {
    /// The 16-bit divider; its high byte is the DIV register.
    pub divider: u16,
    /// The part of a counter tick that has been accumulated.
    pub counter_increase: u32,
    /// The TIMA register.
    pub counter: u8,
    /// The TMA register.
    pub modulo: u8,
    /// The TAC register.
    pub control: u8,
}

impl Timer {
    /// The accumulated fraction is less than one tick.
    pub open spec fn wf(self) -> bool {
        self.counter_increase < COUNTER_TICK
    }

    /// Whether the counter runs: bit 2 of the control register.
    pub open spec fn spec_enabled(self) -> bool {
        (self.control / 4) % 2 == 1
    }

    /// The fraction added per cycle, chosen by the two low bits of the control
    /// register: a tick every 1024, 16, 64 or 256 cycles, that is 4096, 262144,
    /// 65536 or 16384 ticks per second.
    pub open spec fn spec_counter_increase(self) -> u32 {
        if !self.spec_enabled() {
            0
        } else if self.control % 4 == 0 {
            256
        } else if self.control % 4 == 1 {
            16384
        } else if self.control % 4 == 2 {
            4096
        } else {
            1024
        }
    }

    /// Whether the counter ticks in the next cycle.
    pub open spec fn spec_ticks(self) -> bool {
        self.counter_increase + self.spec_counter_increase() >= COUNTER_TICK
    }

    /// Whether the counter overflows in the next cycle.
    pub open spec fn spec_overflows(self) -> bool {
        self.spec_ticks() && self.counter == 255
    }

    /// The timer one cycle later.
    pub open spec fn spec_step(self) -> Timer {
        Timer {
            divider: if self.divider == 0xFFFF { 0 } else { (self.divider + 1) as u16 },
            counter_increase: if self.spec_ticks() {
                0
            } else {
                (self.counter_increase + self.spec_counter_increase()) as u32
            },
            counter: if self.spec_overflows() {
                self.modulo
            } else if self.spec_ticks() {
                (self.counter + 1) as u8
            } else {
                self.counter
            },
            ..self
        }
    }

    /// The timer `cycles` cycles later.
    pub open spec fn spec_steps(self, cycles: nat) -> Timer
        decreases cycles,
    {
        if cycles == 0 {
            self
        } else {
            self.spec_step().spec_steps((cycles - 1) as nat)
        }
    }

    /// The byte read at one of the four timer addresses 0xFF04 to 0xFF07.
    pub open spec fn spec_read(self, address: u16) -> u8 {
        if address == 0xFF04 {
            (self.divider / 256) as u8
        } else if address == 0xFF05 {
            self.counter
        } else if address == 0xFF06 {
            self.modulo
        } else {
            self.control
        }
    }

    /// The timer after a write at one of the four timer addresses. A write to
    /// the divider clears it; a write to the counter clears the counter.
    pub open spec fn spec_write(self, address: u16, value: u8) -> Timer {
        if address == 0xFF04 {
            Timer { divider: 0, ..self }
        } else if address == 0xFF05 {
            Timer { counter: 0, ..self }
        } else if address == 0xFF06 {
            Timer { modulo: value, ..self }
        } else {
            Timer { control: value, ..self }
        }
    }

    /// The fraction added per cycle.
    pub fn get_counter_increase(&self) -> (r: u32)
        ensures
            r == self.spec_counter_increase(),
            r <= 16384,
    {
        let enabled: bool = (self.control / 4) % 2 == 1;
        if !enabled {
            return 0;
        }
        match self.control % 4 {
            0 => 256,
            1 => 16384,
            2 => 4096,
            _ => 1024,
        }
    }

    /// Advances the timer by one cycle: the divider counts up, and the counter
    /// gains its fraction. A counter that overflows is reloaded from the modulo
    /// register and raises the timer interrupt.
    pub fn step(&mut self, ints: &mut Interrupts)
        requires
            old(self).wf(),
        ensures
            *final(self) == old(self).spec_step(),
            *final(ints) == old(ints).spec_raise_if(old(self).spec_overflows(), InterruptReason::Timer),
            final(self).wf(),
    {
        self.divider = self.divider.wrapping_add(1);
        let inc: u32 = self.get_counter_increase();
        self.counter_increase += inc;
        if self.counter_increase >= COUNTER_TICK {
            self.counter_increase = 0;
            self.counter = self.counter.wrapping_add(1);
            if self.counter == 0 {
                self.counter = self.modulo;
                ints.raise_interrupt(InterruptReason::Timer);
            }
        }
    }

    /// A read at one of the four timer addresses.
    pub fn read(&self, address: u16) -> (r: u8)
        requires
            0xFF04 <= address <= 0xFF07,
        ensures
            r == self.spec_read(address),
    {
        match address {
            0xFF04 => (self.divider / 256) as u8,
            0xFF05 => self.counter,
            0xFF06 => self.modulo,
            _ => self.control,
        }
    }

    /// A write at one of the four timer addresses.
    pub fn write(&mut self, address: u16, value: u8)
        requires
            0xFF04 <= address <= 0xFF07,
            old(self).wf(),
        ensures
            *final(self) == old(self).spec_write(address, value),
            final(self).wf(),
    {
        match address {
            0xFF04 => self.divider = 0,
            0xFF05 => self.counter = 0,
            0xFF06 => self.modulo = value,
            _ => self.control = value,
        }
    }

    /// A stopped timer with every register zero.
    pub fn new() -> (r: Timer)
        ensures
            r == (Timer { divider: 0, counter_increase: 0, counter: 0, modulo: 0, control: 0 }),
            r.wf(),
    {
        Timer { divider: 0, counter_increase: 0, counter: 0, modulo: 0, control: 0 }
    }
}

} // verus!
