//! The first-generation bank controller: up to 32 ROM banks of 16 KiB and one
//! bank of RAM.
use vstd::prelude::*;
use crate::cartridge::Cartridge;
use crate::memory::battery_backed_ram::{BatteryBackedRam, BatteryBackedRamView};
use crate::memory::mbcs::{MbcView, MBC};
use crate::memory::ram::spec_zeroes;
use crate::memory::rom::{spec_rom_byte, Rom};

verus! {

/// Size of one ROM bank in bytes.
pub const KB_16: usize = 16384;

/// A cartridge with a bank controller.
pub struct MBC1 {
    pub rom: Rom,
    /// The bank mapped at 0x4000 to 0x7FFF.
    pub rom_bank: u8,
    pub ram: BatteryBackedRam,
    pub ram_enabled: bool,
    /// Whether RAM has been written while it was disabled.
    pub has_shown_ram_warning: bool,
}

/// The model of an `MBC1`.
pub struct Mbc1View {
    pub rom: Seq<u8>,
    pub rom_bank: u8,
    pub ram: BatteryBackedRamView,
    pub ram_enabled: bool,
    pub has_shown_ram_warning: bool,
}

impl View for MBC1 {
    type V = Mbc1View;

    open spec fn view(&self) -> Mbc1View {
        Mbc1View {
            rom: self.rom@,
            rom_bank: self.rom_bank,
            ram: self.ram@,
            ram_enabled: self.ram_enabled,
            has_shown_ram_warning: self.has_shown_ram_warning,
        }
    }
}

impl Mbc1View {
    /// The byte at offset `address` of bank `bank`.
    pub open spec fn spec_read_bank(self, bank: u8, address: u16) -> u8 {
        spec_rom_byte(self.rom, KB_16 * bank + address)
    }

    /// The byte read at `address`: bank 0 below 0x4000, the selected bank from
    /// there to 0x7FFF.
    pub open spec fn spec_read(self, address: u16) -> u8 {
        if address < 0x4000 {
            self.spec_read_bank(0, address)
        } else {
            self.spec_read_bank(self.rom_bank, (address - 0x4000) as u16)
        }
    }

    /// The bank that a write of `value` to the bank register selects: the low
    /// five bits, with 1 in place of 0.
    pub open spec fn spec_bank_of(value: u8) -> u8 {
        if value % 32 == 0 {
            1
        } else {
            value % 32
        }
    }

    /// The controller after a control write. Below 0x2000 the low nibble 0xA
    /// enables RAM and any other disables it; from 0x2000 to 0x3FFF the ROM bank
    /// is selected; other writes are ignored.
    pub open spec fn spec_write(self, address: u16, value: u8) -> Mbc1View {
        if address < 0x2000 {
            Mbc1View { ram_enabled: value % 16 == 0x0A, ..self }
        } else if address < 0x4000 {
            Mbc1View { rom_bank: Mbc1View::spec_bank_of(value), ..self }
        } else {
            self
        }
    }

    /// Whether offset `address` can be accessed: RAM is enabled and the offset
    /// lies in it.
    pub open spec fn spec_ram_accessible(self, address: u16) -> bool {
        self.ram_enabled && address < self.ram.bytes.len()
    }

    /// The byte read at offset `address` of the RAM area; 0xFF where RAM cannot
    /// be accessed.
    pub open spec fn spec_ram_read(self, address: u16) -> u8 {
        if self.spec_ram_accessible(address) {
            self.ram.bytes[address as int]
        } else {
            0xFF
        }
    }

    /// The controller after a write at offset `address` of the RAM area. A write
    /// while RAM is disabled is dropped and remembered as a warning; a write
    /// past the end of RAM is dropped.
    pub open spec fn spec_ram_write(self, address: u16, value: u8) -> Mbc1View {
        if !self.ram_enabled {
            Mbc1View { has_shown_ram_warning: true, ..self }
        } else if address < self.ram.bytes.len() {
            Mbc1View { ram: self.ram.spec_write(address, value), ..self }
        } else {
            self
        }
    }

    /// The controller of a fresh cartridge: bank 1 selected, RAM disabled and
    /// zeroed, battery-backed if the cartridge type is 3.
    pub open spec fn spec_new(cart_type: u8, ram_size: usize, rom: Seq<u8>) -> Mbc1View {
        Mbc1View {
            rom,
            rom_bank: 1,
            ram: BatteryBackedRamView {
                bytes: spec_zeroes(ram_size as nat),
                battery_enabled: cart_type == 3,
                changed_since_last_save: false,
            },
            ram_enabled: false,
            has_shown_ram_warning: false,
        }
    }
}

impl MBC for MBC1 {
    open spec fn model(&self) -> MbcView {
        MbcView::Mbc1(self@)
    }

    open spec fn wf(&self) -> bool {
        self.ram.wf()
    }

    fn read(&self, address: u16) -> (r: u8) {
        if address < 0x4000 {
            self.read_bank(0, address)
        } else {
            self.read_bank(self.rom_bank, address - 0x4000)
        }
    }

    fn write(&mut self, address: u16, value: u8) {
        if address < 0x2000 {
            self.ram_enabled = value % 16 == 0x0A;
        } else if address < 0x4000 {
            let mut n: u8 = value % 32;
            if n == 0 {
                n = 1;
            }
            self.rom_bank = n;
        }
    }

    fn ram_read(&self, address: u16) -> (r: u8) {
        if !self.ram_enabled || address as usize >= self.ram.size {
            return 0xFF;
        }
        self.ram.read(address)
    }

    fn ram_write(&mut self, address: u16, value: u8) {
        if !self.ram_enabled {
            self.has_shown_ram_warning = true;
            return ;
        }
        if address as usize >= self.ram.size {
            return ;
        }
        self.ram.write(address, value)
    }

    fn step(&mut self) {
        self.ram.step()
    }
}

impl MBC1 {
    /// The byte at offset `address` of ROM bank `bank`, or 0 past the end of
    /// the image.
    pub fn read_bank(&self, bank: u8, address: u16) -> (r: u8)
        ensures
            r == self@.spec_read_bank(bank, address),
    {
        let ub: usize = bank as usize;
        let ua: usize = address as usize;
        self.rom.read_at(KB_16 * ub + ua)
    }

    /// The controller of a fresh cartridge with at most one bank of RAM.
    pub fn new(cart_info: Cartridge, rom: Rom) -> (r: MBC1)
        requires
            cart_info.ram_size <= 8192,
        ensures
            r@ == Mbc1View::spec_new(cart_info.cart_type, cart_info.ram_size, rom@),
            r.wf(),
    {
        let has_battery: bool = cart_info.cart_type == 0x03;
        MBC1 {
            rom,
            ram_enabled: false,
            rom_bank: 1,
            ram: BatteryBackedRam::new(cart_info.ram_size, has_battery),
            has_shown_ram_warning: false,
        }
    }
}

} // verus!
