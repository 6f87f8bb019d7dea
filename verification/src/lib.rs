//! An emulation core for an 8-bit handheld console: processor, interconnect,
//! pixel-processing unit, timer, interrupt controller, joypad register, serial
//! stub and cartridge memory bank controllers.
//!
//! Every component carries a mathematical model (its view) and every operation
//! states, over those models, exactly what it returns and how it changes the
//! machine.
use vstd::prelude::*;

pub mod apu;
pub mod cartridge;
pub mod constants;
pub mod cpu;
pub mod gpu;
pub mod helpers;
pub mod interrupts;
pub mod joypad;
pub mod laws;
pub mod lcd;
pub mod memory;
pub mod registers;
pub mod rom_picker;
pub mod screen;
pub mod serial_cable;
pub mod timer;

verus! {

} // verus!
