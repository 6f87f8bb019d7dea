//! The memory bank controllers of a cartridge.
use vstd::prelude::*;
use crate::cartridge::Cartridge;
use crate::constants::MBC_ROM_END;
use crate::memory::battery_backed_ram::BatteryBackedRamView;
use crate::memory::mbcs::mbc1::{Mbc1View, MBC1};
use crate::memory::mbcs::none::MBCNone;
use crate::memory::rom::{spec_rom_byte, Rom};

pub mod mbc1;
pub mod none;

verus! {

/// The model of a controller.
pub enum MbcView {
    /// No controller: the image is mapped as it is.
    Bare(Seq<u8>),
    /// A controller with banked ROM and one bank of RAM.
    Mbc1(Mbc1View),
}

impl MbcView {
    /// The byte read at `address` of the cartridge ROM area.
    pub open spec fn spec_read(self, address: u16) -> u8 {
        match self {
            MbcView::Bare(rom) => spec_rom_byte(rom, address as int),
            MbcView::Mbc1(m) => m.spec_read(address),
        }
    }

    /// The controller after a write of `value` at `address` of the ROM area.
    pub open spec fn spec_write(self, address: u16, value: u8) -> MbcView {
        match self {
            MbcView::Bare(rom) => self,
            MbcView::Mbc1(m) => MbcView::Mbc1(m.spec_write(address, value)),
        }
    }

    /// The byte read at offset `address` of the cartridge RAM area.
    pub open spec fn spec_ram_read(self, address: u16) -> u8 {
        match self {
            MbcView::Bare(rom) => 0xFF,
            MbcView::Mbc1(m) => m.spec_ram_read(address),
        }
    }

    /// The controller after a write of `value` at offset `address` of the
    /// cartridge RAM area.
    pub open spec fn spec_ram_write(self, address: u16, value: u8) -> MbcView {
        match self {
            MbcView::Bare(rom) => self,
            MbcView::Mbc1(m) => MbcView::Mbc1(m.spec_ram_write(address, value)),
        }
    }
}

/// What the interconnect asks of a cartridge controller.
pub trait MBC: Sized {
    /// The model of this controller.
    spec fn model(&self) -> MbcView;

    /// The controller's buffers have their recorded sizes.
    spec fn wf(&self) -> bool;

    /// A read in the cartridge ROM area, 0x0000 to 0x7FFF.
    fn read(&self, address: u16) -> (r: u8)
        requires
            self.wf(),
            address <= MBC_ROM_END,
        ensures
            r == self.model().spec_read(address),
    ;

    /// A write in the cartridge ROM area: a control write.
    fn write(&mut self, address: u16, value: u8)
        requires
            old(self).wf(),
        ensures
            final(self).wf(),
            final(self).model() == old(self).model().spec_write(address, value),
    ;

    /// A read at offset `address` of the cartridge RAM area.
    fn ram_read(&self, address: u16) -> (r: u8)
        requires
            self.wf(),
        ensures
            r == self.model().spec_ram_read(address),
    ;

    /// A write at offset `address` of the cartridge RAM area.
    fn ram_write(&mut self, address: u16, value: u8)
        requires
            old(self).wf(),
        ensures
            final(self).wf(),
            final(self).model() == old(self).model().spec_ram_write(address, value),
    ;

    /// Called once per instruction; the model does not change.
    fn step(&mut self)
        requires
            old(self).wf(),
        ensures
            final(self).wf(),
            final(self).model() == old(self).model(),
    ;
}

/// The controller of a cartridge: one of the supported kinds.
pub enum MbcDevice {
    Bare(MBCNone),
    Mbc1(MBC1),
}

impl MBC for MbcDevice {
    open spec fn model(&self) -> MbcView {
        match self {
            MbcDevice::Bare(m) => m.model(),
            MbcDevice::Mbc1(m) => m.model(),
        }
    }

    open spec fn wf(&self) -> bool {
        match self {
            MbcDevice::Bare(m) => m.wf(),
            MbcDevice::Mbc1(m) => m.wf(),
        }
    }

    fn read(&self, address: u16) -> (r: u8) {
        match self {
            MbcDevice::Bare(m) => m.read(address),
            MbcDevice::Mbc1(m) => m.read(address),
        }
    }

    fn write(&mut self, address: u16, value: u8) {
        match self {
            MbcDevice::Bare(m) => m.write(address, value),
            MbcDevice::Mbc1(m) => m.write(address, value),
        }
    }

    fn ram_read(&self, address: u16) -> (r: u8) {
        match self {
            MbcDevice::Bare(m) => m.ram_read(address),
            MbcDevice::Mbc1(m) => m.ram_read(address),
        }
    }

    fn ram_write(&mut self, address: u16, value: u8) {
        match self {
            MbcDevice::Bare(m) => m.ram_write(address, value),
            MbcDevice::Mbc1(m) => m.ram_write(address, value),
        }
    }

    fn step(&mut self) {
        match self {
            MbcDevice::Bare(m) => m.step(),
            MbcDevice::Mbc1(m) => m.step(),
        }
    }
}

/// What a cartridge of type `cart_type` carries besides its ROM, for the types
/// that have a name.
pub open spec fn spec_cart_type_string(cart_type: u8) -> Option<Seq<char>> {
    if cart_type == 0x00 {
        Some("None"@)
    } else if cart_type == 0x01 {
        Some("MBC1"@)
    } else if cart_type == 0x02 {
        Some("MBC1 + RAM"@)
    } else if cart_type == 0x03 {
        Some("MBC1 + RAM + BATTERY"@)
    } else if cart_type == 0x05 {
        Some("MBC2"@)
    } else if cart_type == 0x06 {
        Some("MBC2 + BATTERY"@)
    } else if cart_type == 0x08 {
        Some("ROM + RAM (Unofficial)"@)
    } else if cart_type == 0x09 {
        Some("ROM + RAM + BATTERY (Unofficial)"@)
    } else if cart_type == 0x0B {
        Some("MMM01"@)
    } else if cart_type == 0x0C {
        Some("MMM01 + RAM"@)
    } else if cart_type == 0x0D {
        Some("MMM01 + RAM + BATTERY"@)
    } else if cart_type == 0x0F {
        Some("MBC3 + TIMER + BATTERY"@)
    } else if cart_type == 0x10 {
        Some("MBC3 + TIMER + RAM + BATTERY"@)
    } else if cart_type == 0x11 {
        Some("MBC3"@)
    } else if cart_type == 0x12 {
        Some("MBC3 + RAM"@)
    } else if cart_type == 0x13 {
        Some("MBC3 + RAM + BATTERY"@)
    } else {
        None
    }
}

/// What the cartridge carries besides its ROM, as text.
pub fn get_cart_type_string(cart_info: &Cartridge) -> (r: &'static str)
    requires
        spec_cart_type_string(cart_info.cart_type).is_some(),
    ensures
        spec_cart_type_string(cart_info.cart_type) == Some(r@),
{
    match cart_info.cart_type {
        0x00 => "None",
        0x01 => "MBC1",
        0x02 => "MBC1 + RAM",
        0x03 => "MBC1 + RAM + BATTERY",
        0x05 => "MBC2",
        0x06 => "MBC2 + BATTERY",
        0x08 => "ROM + RAM (Unofficial)",
        0x09 => "ROM + RAM + BATTERY (Unofficial)",
        0x0B => "MMM01",
        0x0C => "MMM01 + RAM",
        0x0D => "MMM01 + RAM + BATTERY",
        0x0F => "MBC3 + TIMER + BATTERY",
        0x10 => "MBC3 + TIMER + RAM + BATTERY",
        0x11 => "MBC3",
        0x12 => "MBC3 + RAM",
        _ => "MBC3 + RAM + BATTERY",
    }
}

/// Whether a controller can be built for a cartridge of type `cart_type` with
/// `ram_size` bytes of RAM: types 0 to 3 are supported, with at most one bank
/// of RAM behind a controller.
pub open spec fn spec_mbc_supported(cart_type: u8, ram_size: usize) -> bool {
    cart_type == 0 || (1 <= cart_type <= 3 && ram_size <= 8192)
}

/// The model of the controller that is built for the given cartridge.
pub open spec fn spec_mbc_from_info(cart_type: u8, ram_size: usize, rom: Seq<u8>) -> MbcView {
    if cart_type == 0 {
        MbcView::Bare(rom)
    } else {
        MbcView::Mbc1(Mbc1View::spec_new(cart_type, ram_size, rom))
    }
}

/// Builds the controller that the cartridge type asks for.
pub fn mbc_from_info(cart_info: Cartridge, rom: Rom) -> (r: MbcDevice)
    requires
        spec_mbc_supported(cart_info.cart_type, cart_info.ram_size),
    ensures
        r.model() == spec_mbc_from_info(cart_info.cart_type, cart_info.ram_size, rom@),
        r.wf(),
{
    if cart_info.cart_type == 0 {
        MbcDevice::Bare(MBCNone::new(rom))
    } else {
        MbcDevice::Mbc1(MBC1::new(cart_info, rom))
    }
}

} // verus!
