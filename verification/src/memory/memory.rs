//! The interconnect: it owns the memories and the small peripherals and routes
//! every 16-bit address to the component behind it.
use vstd::prelude::*;
use crate::apu::{ApuView, APU};
use crate::cartridge::Cartridge;
use crate::constants::{
    APU_END, APU_START, ECHO_RAM_END, ECHO_RAM_START, HRAM_END, HRAM_SIZE, HRAM_START,
    INTERRUPT_ENABLE_ADDRESS, INTERRUPT_FLAG_ADDRESS, LCD_DATA_END, LCD_DATA_START, LINK_CABLE_SB,
    LINK_CABLE_SC, MBC_RAM_END, MBC_RAM_START, MBC_ROM_END, OAM_END, OAM_START, VRAM_END, VRAM_SIZE,
    VRAM_START, WRAM_END, WRAM_SIZE, WRAM_START,
};
use crate::gpu::{Gpu, GpuView};
use crate::helpers::{combine_u8, spec_combine_u8, spec_high_byte, spec_low_byte, split_u16};
use crate::interrupts::{InterruptFields, InterruptReason, Interrupts};
use crate::joypad::Joypad;
use crate::memory::mbcs::{mbc_from_info, spec_mbc_from_info, spec_mbc_supported, MbcDevice, MbcView, MBC};
use crate::memory::ram::{spec_zeroes, Ram};
use crate::memory::rom::Rom;
use crate::serial_cable::SerialCable;
use crate::timer::Timer;

verus! {

/// The interconnect with everything it owns.
pub struct Memory {
    pub mbc: MbcDevice,
    pub vram: Ram,
    pub wram: Ram,
    pub hram: Ram,
    pub serial_cable: SerialCable,
    pub timer: Timer,
    pub joypad: Joypad,
    pub apu: APU,
}

/// The model of a `Memory`.
pub struct MemoryView {
    pub mbc: MbcView,
    pub vram: Seq<u8>,
    pub wram: Seq<u8>,
    pub hram: Seq<u8>,
    pub serial_cable: SerialCable,
    pub timer: Timer,
    pub joypad: Joypad,
    pub apu: ApuView,
}

impl View for Memory {
    type V = MemoryView;

    open spec fn view(&self) -> MemoryView {
        MemoryView {
            mbc: self.mbc.model(),
            vram: self.vram@,
            wram: self.wram@,
            hram: self.hram@,
            serial_cable: self.serial_cable,
            timer: self.timer,
            joypad: self.joypad,
            apu: self.apu@,
        }
    }
}

/// Everything that a memory access can read or change: the interconnect, the
/// interrupt controller and the pixel-processing unit.
pub struct BusView {
    pub mem: MemoryView,
    pub ints: Interrupts,
    pub gpu: GpuView,
}

impl MemoryView {
    /// The three memories have their sizes and the peripherals are well formed.
    pub open spec fn wf(self) -> bool {
        &&& self.vram.len() == VRAM_SIZE
        &&& self.wram.len() == WRAM_SIZE
        &&& self.hram.len() == HRAM_SIZE
        &&& self.serial_cable.wf()
        &&& self.timer.wf()
        &&& self.apu.wf()
    }

    /// The interconnect and the interrupt controller one cycle later: the timer
    /// and the serial link each advance by one cycle.
    pub open spec fn spec_tick(self, ints: Interrupts) -> (MemoryView, Interrupts) {
        (
            MemoryView {
                timer: self.timer.spec_step(),
                serial_cable: self.serial_cable.spec_step(),
                ..self
            },
            ints.spec_raise_if(self.timer.spec_overflows(), InterruptReason::Timer).spec_raise_if(
                self.serial_cable.spec_completes(),
                InterruptReason::Serial,
            ),
        )
    }

    /// The interconnect and the interrupt controller `cycles` cycles later.
    pub open spec fn spec_step(self, ints: Interrupts, cycles: nat) -> (MemoryView, Interrupts)
        decreases cycles,
    {
        if cycles == 0 {
            (self, ints)
        } else {
            let next = self.spec_tick(ints);
            next.0.spec_step(next.1, (cycles - 1) as nat)
        }
    }

    /// The interconnect of a fresh machine with the given cartridge.
    pub open spec fn spec_from_info(cart_type: u8, ram_size: usize, rom: Seq<u8>) -> MemoryView {
        MemoryView {
            mbc: spec_mbc_from_info(cart_type, ram_size, rom),
            vram: spec_zeroes(VRAM_SIZE as nat),
            wram: spec_zeroes(WRAM_SIZE as nat),
            hram: spec_zeroes(HRAM_SIZE as nat),
            serial_cable: SerialCable {
                transfer_data_byte: 0,
                transfer_control_byte: 0,
                counter: 0,
                transfer_in_progress: false,
            },
            timer: Timer { divider: 0, counter_increase: 0, counter: 0, modulo: 0, control: 0 },
            joypad: Joypad {
                readout_mode: crate::joypad::JoypadReadoutMode::Buttons,
                up_pressed: false,
                down_pressed: false,
                left_pressed: false,
                right_pressed: false,
                a_pressed: false,
                b_pressed: false,
                start_pressed: false,
                select_pressed: false,
            },
            apu: ApuView {
                stereo_left_volume: 7,
                stereo_right_volume: 7,
                stereo_channel_control: 0,
                sound_on_register: 0,
                wave_ram: spec_zeroes(16),
            },
        }
    }
}

impl BusView {
    /// The interconnect and the pixel-processing unit are well formed.
    pub open spec fn wf(self) -> bool {
        self.mem.wf() && self.gpu.wf()
    }

    /// The byte read at `address`.
    ///
    /// | addresses | component |
    /// |---|---|
    /// | 0x0000 - 0x7FFF | cartridge ROM |
    /// | 0x8000 - 0x9FFF | video RAM |
    /// | 0xA000 - 0xBFFF | cartridge RAM |
    /// | 0xC000 - 0xDFFF | work RAM |
    /// | 0xE000 - 0xFDFF | the work RAM once more |
    /// | 0xFE00 - 0xFE9F | object attribute memory |
    /// | 0xFF00 | joypad |
    /// | 0xFF01 - 0xFF02 | serial link |
    /// | 0xFF04 - 0xFF07 | timer |
    /// | 0xFF0F | interrupt requests |
    /// | 0xFF10 - 0xFF3F | audio |
    /// | 0xFF40 - 0xFF4F | pixel-processing unit |
    /// | 0xFF80 - 0xFFFE | high RAM |
    /// | 0xFFFF | interrupt enables |
    ///
    /// Every other address reads as 0xFF.
    #[verifier::opaque]
    pub open spec fn spec_read(self, address: u16) -> u8 {
        if address <= MBC_ROM_END {
            self.mem.mbc.spec_read(address)
        } else if address <= VRAM_END {
            self.mem.vram[address - VRAM_START]
        } else if address <= MBC_RAM_END {
            self.mem.mbc.spec_ram_read((address - MBC_RAM_START) as u16)
        } else if address <= WRAM_END {
            self.mem.wram[address - WRAM_START]
        } else if address <= ECHO_RAM_END {
            self.mem.wram[address - ECHO_RAM_START]
        } else if address <= OAM_END {
            self.gpu.spec_raw_read(address)
        } else if address < 0xFF00 {
            0xFF
        } else if address == 0xFF00 {
            self.mem.joypad.spec_read()
        } else if address == LINK_CABLE_SB || address == LINK_CABLE_SC {
            self.mem.serial_cable.spec_read(address)
        } else if 0xFF04 <= address <= 0xFF07 {
            self.mem.timer.spec_read(address)
        } else if address == INTERRUPT_FLAG_ADDRESS {
            self.ints.spec_flag_read()
        } else if APU_START <= address <= APU_END {
            self.mem.apu.spec_read(address)
        } else if LCD_DATA_START <= address <= LCD_DATA_END {
            self.gpu.spec_raw_read(address)
        } else if HRAM_START <= address <= HRAM_END {
            self.mem.hram[address - HRAM_START]
        } else if address == INTERRUPT_ENABLE_ADDRESS {
            self.ints.spec_enable_read()
        } else {
            0xFF
        }
    }

    /// The machine after a write of `value` at `address`: the component behind
    /// the address takes the write, and a write anywhere else is ignored.
    #[verifier::opaque]
    pub open spec fn spec_write(self, address: u16, value: u8) -> BusView {
        if address <= MBC_ROM_END {
            BusView { mem: MemoryView { mbc: self.mem.mbc.spec_write(address, value), ..self.mem }, ..self }
        } else if address <= VRAM_END {
            BusView {
                mem: MemoryView { vram: self.mem.vram.update(address - VRAM_START, value), ..self.mem },
                ..self
            }
        } else if address <= MBC_RAM_END {
            BusView {
                mem: MemoryView {
                    mbc: self.mem.mbc.spec_ram_write((address - MBC_RAM_START) as u16, value),
                    ..self.mem
                },
                ..self
            }
        } else if address <= WRAM_END {
            BusView {
                mem: MemoryView { wram: self.mem.wram.update(address - WRAM_START, value), ..self.mem },
                ..self
            }
        } else if address <= ECHO_RAM_END {
            BusView {
                mem: MemoryView { wram: self.mem.wram.update(address - ECHO_RAM_START, value), ..self.mem },
                ..self
            }
        } else if address <= OAM_END {
            BusView { gpu: self.gpu.spec_raw_write(address, value), ..self }
        } else if address < 0xFF00 {
            self
        } else if address == 0xFF00 {
            BusView {
                mem: MemoryView {
                    joypad: Joypad { readout_mode: Joypad::spec_mode_of(value), ..self.mem.joypad },
                    ..self.mem
                },
                ..self
            }
        } else if address == LINK_CABLE_SB || address == LINK_CABLE_SC {
            BusView {
                mem: MemoryView { serial_cable: self.mem.serial_cable.spec_write(address, value), ..self.mem },
                ..self
            }
        } else if 0xFF04 <= address <= 0xFF07 {
            BusView { mem: MemoryView { timer: self.mem.timer.spec_write(address, value), ..self.mem }, ..self }
        } else if address == INTERRUPT_FLAG_ADDRESS {
            BusView { ints: Interrupts { flag: InterruptFields::spec_from_byte(value), ..self.ints }, ..self }
        } else if APU_START <= address <= APU_END {
            BusView { mem: MemoryView { apu: self.mem.apu.spec_write(address, value), ..self.mem }, ..self }
        } else if LCD_DATA_START <= address <= LCD_DATA_END {
            BusView {
                gpu: self.gpu.spec_raw_write(address, value),
                ints: self.ints.spec_raise_if(self.gpu.spec_raw_write_raises(address), InterruptReason::LCDStat),
                ..self
            }
        } else if HRAM_START <= address <= HRAM_END {
            BusView {
                mem: MemoryView { hram: self.mem.hram.update(address - HRAM_START, value), ..self.mem },
                ..self
            }
        } else if address == INTERRUPT_ENABLE_ADDRESS {
            BusView { ints: Interrupts { enable: InterruptFields::spec_from_byte(value), ..self.ints }, ..self }
        } else {
            self
        }
    }

    /// The address after `address`; the address space wraps around.
    pub open spec fn spec_next(address: u16) -> u16 {
        if address == 0xFFFF {
            0
        } else {
            (address + 1) as u16
        }
    }

    /// The 16-bit value read at `address`: the low byte is stored first.
    pub open spec fn spec_read_16(self, address: u16) -> u16 {
        spec_combine_u8(self.spec_read(BusView::spec_next(address)), self.spec_read(address))
    }

    /// The machine after a 16-bit write at `address`: the low byte is written
    /// first.
    pub open spec fn spec_write_16(self, address: u16, value: u16) -> BusView {
        self.spec_write(address, spec_low_byte(value)).spec_write(
            BusView::spec_next(address),
            spec_high_byte(value),
        )
    }
}

/// A write keeps the machine well formed.
pub proof fn lemma_write_keeps_wf(bus: BusView, address: u16, value: u8)
    requires
        bus.wf(),
    ensures
        bus.spec_write(address, value).wf(),
{
    reveal(BusView::spec_write);
}

impl Memory {
    /// Every buffer has its recorded size and the model is well formed.
    pub open spec fn wf(&self) -> bool {
        &&& self.mbc.wf()
        &&& self.vram.wf()
        &&& self.wram.wf()
        &&& self.hram.wf()
        &&& self.apu.wf()
        &&& self@.wf()
    }

    /// Advances the timer and the serial link by `cycles` cycles, then lets the
    /// cartridge controller know that an instruction has passed.
    pub fn step(&mut self, cycles: usize, ints: &mut Interrupts)
        requires
            old(self).wf(),
        ensures
            (final(self)@, *final(ints)) == old(self)@.spec_step(*old(ints), cycles as nat),
            final(self).wf(),
    {
        let ghost start = (self@, *ints);
        let mut done: usize = 0;
        while done < cycles
            invariant
                done <= cycles,
                self.wf(),
                self@.spec_step(*ints, (cycles - done) as nat) == start.0.spec_step(start.1, cycles as nat),
            decreases cycles - done,
        {
            self.timer.step(ints);
            self.serial_cable.step(ints);
            done = done + 1;
        }
        self.mbc.step();
    }

    /// A read at `address`.
    pub fn read(&self, ints: &Interrupts, gpu: &Gpu, address: u16) -> (r: u8)
        requires
            self.wf(),
            gpu.wf(),
        ensures
            r == (BusView { mem: self@, ints: *ints, gpu: gpu@ }).spec_read(address),
    {
        reveal(BusView::spec_read);
        if address <= MBC_ROM_END {
            self.mbc.read(address)
        } else if address <= VRAM_END {
            self.vram.read(address - VRAM_START)
        } else if address <= MBC_RAM_END {
            self.mbc.ram_read(address - MBC_RAM_START)
        } else if address <= WRAM_END {
            self.wram.read(address - WRAM_START)
        } else if address <= ECHO_RAM_END {
            self.wram.read(address - ECHO_RAM_START)
        } else if address <= OAM_END {
            gpu.raw_read(address)
        } else if address < 0xFF00 {
            0xFF
        } else if address == 0xFF00 {
            self.joypad.read()
        } else if address == LINK_CABLE_SB || address == LINK_CABLE_SC {
            self.serial_cable.read(address)
        } else if 0xFF04 <= address && address <= 0xFF07 {
            self.timer.read(address)
        } else if address == INTERRUPT_FLAG_ADDRESS {
            ints.flag_read()
        } else if APU_START <= address && address <= APU_END {
            self.apu.read(address)
        } else if LCD_DATA_START <= address && address <= LCD_DATA_END {
            gpu.raw_read(address)
        } else if HRAM_START <= address && address <= HRAM_END {
            self.hram.read(address - HRAM_START)
        } else if address == INTERRUPT_ENABLE_ADDRESS {
            ints.enable_read()
        } else {
            0xFF
        }
    }

    /// A write of `value` at `address`.
    pub fn write(&mut self, ints: &mut Interrupts, gpu: &mut Gpu, address: u16, value: u8)
        requires
            old(self).wf(),
            old(gpu).wf(),
        ensures
            (BusView { mem: final(self)@, ints: *final(ints), gpu: final(gpu)@ }) == (BusView {
                mem: old(self)@,
                ints: *old(ints),
                gpu: old(gpu)@,
            }).spec_write(address, value),
            final(self).wf(),
            final(gpu).wf(),
    {
        reveal(BusView::spec_write);
        if address <= ECHO_RAM_END {
            self.write_memory(Ghost(*ints), Ghost(gpu@), address, value);
        } else if address <= OAM_END || (LCD_DATA_START <= address && address <= LCD_DATA_END) {
            gpu.raw_write(address, value, ints);
        } else if address == INTERRUPT_FLAG_ADDRESS {
            ints.flag_write(value);
        } else if address == INTERRUPT_ENABLE_ADDRESS {
            ints.enable_write(value);
        } else {
            self.write_io(Ghost(*ints), Ghost(gpu@), address, value);
        }
    }

    /// A write to the cartridge, the video RAM or the work RAM.
    fn write_memory(&mut self, ints: Ghost<Interrupts>, gpu: Ghost<GpuView>, address: u16, value: u8)
        requires
            old(self).wf(),
            address <= ECHO_RAM_END,
        ensures
            (BusView { mem: final(self)@, ints: ints@, gpu: gpu@ }) == (BusView {
                mem: old(self)@,
                ints: ints@,
                gpu: gpu@,
            }).spec_write(address, value),
            final(self).wf(),
    {
        reveal(BusView::spec_write);
        if address <= MBC_ROM_END {
            self.mbc.write(address, value);
        } else if address <= VRAM_END {
            self.vram.write(address - VRAM_START, value);
        } else if address <= MBC_RAM_END {
            self.mbc.ram_write(address - MBC_RAM_START, value);
        } else if address <= WRAM_END {
            self.wram.write(address - WRAM_START, value);
        } else {
            self.wram.write(address - ECHO_RAM_START, value);
        }
    }

    /// A write to one of the small peripherals or to the high RAM.
    fn write_io(&mut self, ints: Ghost<Interrupts>, gpu: Ghost<GpuView>, address: u16, value: u8)
        requires
            old(self).wf(),
            address > OAM_END,
            !(LCD_DATA_START <= address <= LCD_DATA_END),
            address != INTERRUPT_FLAG_ADDRESS,
            address != INTERRUPT_ENABLE_ADDRESS,
        ensures
            (BusView { mem: final(self)@, ints: ints@, gpu: gpu@ }) == (BusView {
                mem: old(self)@,
                ints: ints@,
                gpu: gpu@,
            }).spec_write(address, value),
            final(self).wf(),
    {
        reveal(BusView::spec_write);
        if address < 0xFF00 {
        } else if address == 0xFF00 {
            self.joypad.write(value);
        } else if address == LINK_CABLE_SB || address == LINK_CABLE_SC {
            self.serial_cable.write(address, value);
        } else if 0xFF04 <= address && address <= 0xFF07 {
            self.timer.write(address, value);
        } else if APU_START <= address && address <= APU_END {
            self.apu.write(address, value);
        } else if HRAM_START <= address && address <= HRAM_END {
            self.hram.write(address - HRAM_START, value);
        }
    }

    /// The byte at offset `offset` of the video RAM.
    pub fn read_video(&self, offset: u16) -> (r: u8)
        requires
            self.wf(),
            offset < VRAM_SIZE,
        ensures
            r == self@.vram[offset as int],
    {
        self.vram.read(offset)
    }

    /// The 16-bit value at offset `offset` of the video RAM, low byte first.
    pub fn read_video_16(&self, offset: u16) -> (r: u16)
        requires
            self.wf(),
            offset + 1 < VRAM_SIZE,
        ensures
            r == spec_combine_u8(self@.vram[offset + 1], self@.vram[offset as int]),
    {
        combine_u8(self.vram.read(offset + 1), self.vram.read(offset))
    }

    /// A 16-bit read at `address`: the low byte is stored first.
    pub fn read_16(&self, ints: &Interrupts, gpu: &Gpu, address: u16) -> (r: u16)
        requires
            self.wf(),
            gpu.wf(),
        ensures
            r == (BusView { mem: self@, ints: *ints, gpu: gpu@ }).spec_read_16(address),
    {
        combine_u8(self.read(ints, gpu, address.wrapping_add(1)), self.read(ints, gpu, address))
    }

    /// A 16-bit write at `address`: the low byte is written first.
    pub fn write_16(&mut self, ints: &mut Interrupts, gpu: &mut Gpu, address: u16, value: u16)
        requires
            old(self).wf(),
            old(gpu).wf(),
        ensures
            (BusView { mem: final(self)@, ints: *final(ints), gpu: final(gpu)@ }) == (BusView {
                mem: old(self)@,
                ints: *old(ints),
                gpu: old(gpu)@,
            }).spec_write_16(address, value),
            final(self).wf(),
            final(gpu).wf(),
    {
        let (b1, b2) = split_u16(value);
        self.write(ints, gpu, address, b1);
        self.write(ints, gpu, address.wrapping_add(1), b2);
    }

    /// The interconnect of a fresh machine with the given cartridge.
    pub fn from_info(cart_info: Cartridge, rom: Rom) -> (r: Memory)
        requires
            spec_mbc_supported(cart_info.cart_type, cart_info.ram_size),
        ensures
            r@ == MemoryView::spec_from_info(cart_info.cart_type, cart_info.ram_size, rom@),
            r.wf(),
    {
        Memory {
            mbc: mbc_from_info(cart_info, rom),
            vram: Ram::new(VRAM_SIZE),
            wram: Ram::new(WRAM_SIZE),
            hram: Ram::new(HRAM_SIZE),
            serial_cable: SerialCable::new(),
            timer: Timer::new(),
            joypad: Joypad::new(),
            apu: APU::new(),
        }
    }
}

} // verus!
