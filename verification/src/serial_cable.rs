//! The serial link with nothing at the other end: transfers complete after a
//! fixed delay and receive 0xFF.
use vstd::prelude::*;
use crate::constants::{LINK_CABLE_SB, LINK_CABLE_SC};
use crate::interrupts::{InterruptReason, Interrupts};

verus! {

/// Cycles that a transfer takes.
pub const TRANSFER_CYCLES: usize = 512;

/// The serial data and control registers and the transfer in progress.
#[derive(Clone, Copy, Debug)]
pub struct SerialCable {
    pub transfer_data_byte: u8,
    pub transfer_control_byte: u8,
    pub counter: usize,
    pub transfer_in_progress: bool,
}

impl SerialCable {
    /// A running transfer has not yet reached its end.
    pub open spec fn wf(self) -> bool {
        self.transfer_in_progress ==> self.counter < TRANSFER_CYCLES
    }

    /// The byte read at `address`: the data register as it is, the control
    /// register with bits 1 to 6 set.
    pub open spec fn spec_read(self, address: u16) -> u8 {
        if address == LINK_CABLE_SB {
            self.transfer_data_byte
        } else {
            self.transfer_control_byte | 0x7E
        }
    }

    /// The link after a write of `value` at `address`. Writing 0x81 to the
    /// control register starts a transfer.
    pub open spec fn spec_write(self, address: u16, value: u8) -> SerialCable {
        if address == LINK_CABLE_SB {
            SerialCable { transfer_data_byte: value, ..self }
        } else if value == 0x81 {
            SerialCable { transfer_control_byte: value, transfer_in_progress: true, counter: 0, ..self }
        } else {
            SerialCable { transfer_control_byte: value, ..self }
        }
    }

    /// Whether the transfer completes in the next cycle.
    pub open spec fn spec_completes(self) -> bool {
        self.transfer_in_progress && self.counter + 1 >= TRANSFER_CYCLES
    }

    /// The link one cycle later.
    pub open spec fn spec_step(self) -> SerialCable {
        if !self.transfer_in_progress {
            self
        } else if self.counter + 1 >= TRANSFER_CYCLES {
            SerialCable {
                counter: (self.counter + 1) as usize,
                transfer_in_progress: false,
                transfer_data_byte: 0xFF,
                ..self
            }
        } else {
            SerialCable { counter: (self.counter + 1) as usize, ..self }
        }
    }

    /// A read of the data register (0xFF01) or the control register (0xFF02).
    pub fn read(&self, address: u16) -> (r: u8)
        requires
            address == LINK_CABLE_SB || address == LINK_CABLE_SC,
        ensures
            r == self.spec_read(address),
    {
        if address == LINK_CABLE_SB {
            self.transfer_data_byte
        } else {
            self.transfer_control_byte | 0x7E
        }
    }

    /// A write to the data register (0xFF01) or the control register (0xFF02).
    pub fn write(&mut self, address: u16, value: u8)
        requires
            address == LINK_CABLE_SB || address == LINK_CABLE_SC,
            old(self).wf(),
        ensures
            *final(self) == old(self).spec_write(address, value),
            final(self).wf(),
    {
        if address == LINK_CABLE_SB {
            self.transfer_data_byte = value;
        } else {
            self.transfer_control_byte = value;
            if value == 0x81 {
                self.transfer_in_progress = true;
                self.counter = 0;
            }
        }
    }

    /// Advances the link by one cycle. A transfer that reaches its end puts 0xFF
    /// in the data register and raises the serial interrupt.
    pub fn step(&mut self, ints: &mut Interrupts)
        requires
            old(self).wf(),
        ensures
            *final(self) == old(self).spec_step(),
            *final(ints) == old(ints).spec_raise_if(old(self).spec_completes(), InterruptReason::Serial),
            final(self).wf(),
    {
        if !self.transfer_in_progress {
            return ;
        }
        self.counter += 1;
        if self.counter >= TRANSFER_CYCLES {
            self.transfer_in_progress = false;
            self.transfer_data_byte = 0xFF;
            ints.raise_interrupt(InterruptReason::Serial);
        }
    }

    /// An idle link with both registers zero.
    pub fn new() -> (r: SerialCable)
        ensures
            r == (SerialCable {
                transfer_data_byte: 0,
                transfer_control_byte: 0,
                counter: 0,
                transfer_in_progress: false,
            }),
            r.wf(),
    {
        SerialCable { transfer_data_byte: 0, transfer_control_byte: 0, counter: 0, transfer_in_progress: false }
    }
}

} // verus!
