//! Dot-clock timing of the pixel-processing unit.
use vstd::prelude::*;

verus! {

/// Dots in one scanline, horizontal blanking included.
pub const HTOTAL: u16 = 456;

/// Dot at which pixel transfer begins.
pub const HTRANSFER_ON: u16 = 80;

/// Dot at which horizontal blanking begins.
pub const HBLANK_ON: u16 = 252;

/// Scanlines in one frame, vertical blanking included.
pub const VTOTAL: u8 = 154;

/// Cycles in one frame of the display: 154 scanlines of 456 dots.
pub const FRAME_CYCLES: usize = 70224;

/// Scanline at which vertical blanking begins.
pub const VBLANK_ON: u8 = 144;

/// Cycles between the start of an object-memory transfer and the copy.
pub const DMA_CYCLES: u8 = 160;

} // verus!
