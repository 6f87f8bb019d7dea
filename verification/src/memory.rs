//! Memory: plain buffers, the cartridge controllers and the interconnect that
//! routes every address.
pub mod battery_backed_ram;
pub mod mbcs;
pub mod ram;
pub mod rom;
pub mod memory;
