//! Sizes, clock rates and the address map of the console.
use vstd::prelude::*;

pub mod gpu_timing;

verus! {

/// Size of the work RAM in bytes.
pub const WRAM_SIZE: usize = 8192;

/// Size of the video RAM in bytes.
pub const VRAM_SIZE: usize = 8192;

/// Size of the high RAM in bytes.
pub const HRAM_SIZE: usize = 127;

/// Size of the object attribute memory in bytes.
pub const OAM_SIZE: usize = 160;

/// Size of the wave pattern RAM in bytes.
pub const WAVE_RAM_SIZE: usize = 16;

/// Visible screen width in pixels.
pub const SCREEN_WIDTH: usize = 160;

/// Visible screen height in pixels.
pub const SCREEN_HEIGHT: usize = 144;

/// Number of pixels in one frame.
pub const SCREEN_BUFFER_SIZE: usize = 23040;

/// Number of bytes in one frame rendered as RGBA.
pub const SCREEN_RGBA_SLICE_SIZE: usize = 92160;

/// Master clock in cycles per second.
pub const CLOCK_SPEED: usize = 4194304;

/// Frames per second of the console, rounded.
pub const FRAME_RATE: usize = 60;

/// Cycles in one frame at `FRAME_RATE`.
pub const CYCLES_PER_FRAME: usize = 69905;

pub const MBC_ROM_END: u16 = 0x7FFF;

pub const MBC_RAM_START: u16 = 0xA000;

pub const MBC_RAM_END: u16 = 0xBFFF;

pub const VRAM_START: u16 = 0x8000;

pub const VRAM_END: u16 = 0x9FFF;

pub const WRAM_START: u16 = 0xC000;

pub const WRAM_END: u16 = 0xDFFF;

pub const ECHO_RAM_START: u16 = 0xE000;

pub const ECHO_RAM_END: u16 = 0xFDFF;

pub const OAM_START: u16 = 0xFE00;

pub const OAM_END: u16 = 0xFE9F;

pub const UNUSABLE_MEMORY_START: u16 = 0xFEA0;

pub const UNUSABLE_MEMORY_END: u16 = 0xFEFF;

pub const LINK_CABLE_SB: u16 = 0xFF01;

pub const LINK_CABLE_SC: u16 = 0xFF02;

pub const APU_START: u16 = 0xFF10;

pub const APU_END: u16 = 0xFF3F;

pub const WAVE_RAM_START: u16 = 0xFF30;

pub const WAVE_RAM_END: u16 = 0xFF3F;

pub const HRAM_START: u16 = 0xFF80;

pub const HRAM_END: u16 = 0xFFFE;

pub const LCD_DATA_START: u16 = 0xFF40;

pub const LCD_DATA_END: u16 = 0xFF4F;

pub const INTERRUPT_ENABLE_ADDRESS: u16 = 0xFFFF;

pub const INTERRUPT_FLAG_ADDRESS: u16 = 0xFF0F;

} // verus!
