//! The processor and the machine around it.
use vstd::prelude::*;
use crate::cartridge::{spec_parse, Cartridge, CartridgeView, LoadError};
use crate::constants::{CLOCK_SPEED, FRAME_RATE};
use crate::cpu::alu::{spec_wrap16, spec_wrap8};
use crate::cpu::execute::{lemma_execute_cycles, opcode_defined, spec_opcode_defined};
use crate::gpu::{Gpu, GpuView};
use crate::memory::mbcs::spec_mbc_supported;
use crate::memory::memory::MemoryView;
use crate::memory::rom::Rom;
use crate::helpers::{spec_combine_u8, spec_high_byte, spec_low_byte};
use crate::interrupts::{interrupt_vector, spec_interrupt_vector, InterruptFields, Interrupts};
use crate::memory::memory::{BusView, Memory};
use crate::registers::Registers;

pub mod alu;
pub mod execute;
pub mod instructions;

verus! {

/// The whole machine: the processor with its registers, the interconnect, the
/// pixel-processing unit and the interrupt controller.
pub struct Cpu {
    pub cart_info: Cartridge,
    pub mem: Memory,
    pub regs: Registers,
    pub gpu: Gpu,
    pub ints: Interrupts,
    /// Interrupts are to be enabled once the next instruction has completed.
    pub ime_on_pending: bool,
    /// Frames per second that the host asks for.
    pub frame_rate: usize,
}

/// The model of a `Cpu`.
pub struct CpuView {
    pub cart_info: CartridgeView,
    pub bus: BusView,
    pub regs: Registers,
    pub ime_on_pending: bool,
    pub frame_rate: usize,
}

impl View for Cpu {
    type V = CpuView;

    open spec fn view(&self) -> CpuView {
        CpuView {
            cart_info: self.cart_info@,
            bus: BusView { mem: self.mem@, ints: self.ints, gpu: self.gpu@ },
            regs: self.regs,
            ime_on_pending: self.ime_on_pending,
            frame_rate: self.frame_rate,
        }
    }
}

impl CpuView {
    /// The machine behind the bus and the registers are well formed.
    pub open spec fn wf(self) -> bool {
        self.bus.wf() && self.regs.wf()
    }

    /// The byte at `address`.
    pub open spec fn spec_read(self, address: u16) -> u8 {
        self.bus.spec_read(address)
    }

    /// The 16-bit value at `address`.
    pub open spec fn spec_read_16(self, address: u16) -> u16 {
        self.bus.spec_read_16(address)
    }

    /// The machine after a write of `value` at `address`.
    pub open spec fn spec_write(self, address: u16, value: u8) -> CpuView {
        CpuView { bus: self.bus.spec_write(address, value), ..self }
    }

    /// The machine after a 16-bit write at `address`.
    pub open spec fn spec_write_16(self, address: u16, value: u16) -> CpuView {
        CpuView { bus: self.bus.spec_write_16(address, value), ..self }
    }

    /// The machine with other registers.
    pub open spec fn spec_with_regs(self, regs: Registers) -> CpuView {
        CpuView { regs, ..self }
    }

    /// The byte that the program counter points to.
    pub open spec fn spec_imm8(self) -> u8 {
        self.spec_read(self.regs.pc)
    }

    /// The 16-bit value that the program counter points to.
    pub open spec fn spec_imm16(self) -> u16 {
        self.spec_read_16(self.regs.pc)
    }

    /// The machine with the program counter moved on by `count` bytes.
    pub open spec fn spec_skip(self, count: int) -> CpuView {
        CpuView { regs: Registers { pc: spec_wrap16(self.regs.pc + count), ..self.regs }, ..self }
    }

    /// The machine with the program counter at `target`.
    pub open spec fn spec_jump(self, target: u16) -> CpuView {
        CpuView { regs: Registers { pc: target, ..self.regs }, ..self }
    }

    /// The operand that the three-bit field `register` names.
    pub open spec fn spec_get_d(self, register: u8) -> u8 {
        self.regs.spec_singular_register(self.bus, register)
    }

    /// The machine after the operand that the three-bit field `register` names
    /// has been replaced.
    pub open spec fn spec_set_d(self, register: u8, value: u8) -> CpuView {
        CpuView {
            regs: self.regs.spec_set_singular_register(register, value),
            bus: self.regs.spec_set_singular_register_bus(self.bus, register, value),
            ..self
        }
    }

    /// The machine after `value` has been pushed: the stack pointer goes down
    /// by two and the value is stored where it then points.
    pub open spec fn spec_push(self, value: u16) -> CpuView {
        CpuView {
            regs: Registers { sp: spec_wrap16(self.regs.sp - 2), ..self.regs },
            ..self
        }.spec_write_16(spec_wrap16(self.regs.sp - 2), value)
    }

    /// The value on top of the stack.
    pub open spec fn spec_top(self) -> u16 {
        self.spec_read_16(self.regs.sp)
    }

    /// The machine after the top of the stack has been popped: the stack
    /// pointer goes up by two.
    pub open spec fn spec_pop(self) -> CpuView {
        CpuView { regs: Registers { sp: spec_wrap16(self.regs.sp + 2), ..self.regs }, ..self }
    }

    /// The machine after pending interrupts have been looked at. With the
    /// master enable set, the highest-priority source that is requested and
    /// enabled is served: the master enable and the request are cleared, the
    /// program counter is pushed, and execution continues at the source's
    /// vector.
    pub open spec fn spec_process_interrupts(self) -> CpuView {
        if !self.bus.ints.ime || self.bus.ints.spec_pending().is_none() {
            self
        } else {
            let index = self.bus.ints.spec_pending().unwrap();
            CpuView {
                bus: BusView {
                    ints: Interrupts {
                        ime: false,
                        flag: self.bus.ints.flag.spec_with_bit(index, false),
                        ..self.bus.ints
                    },
                    ..self.bus
                },
                ..self
            }.spec_push(self.regs.pc).spec_jump(spec_interrupt_vector(index))
        }
    }
}

impl CpuView {
    /// Whether the byte that the program counter points to is the first byte
    /// of an instruction.
    pub open spec fn spec_next_defined(self) -> bool {
        spec_opcode_defined(self.spec_imm8())
    }

    /// The machine after a pending enable of interrupts has taken effect. An
    /// enable that was pending before the instruction, and still is after it,
    /// sets the master enable.
    pub open spec fn spec_arm(self, was_pending: bool) -> CpuView {
        if was_pending && self.ime_on_pending {
            CpuView {
                bus: BusView { ints: Interrupts { ime: true, ..self.bus.ints }, ..self.bus },
                ime_on_pending: false,
                ..self
            }
        } else {
            self
        }
    }

    /// The machine after the peripherals have run for `cycles` cycles: first
    /// the timer and the serial link, then the pixel-processing unit.
    pub open spec fn spec_run_peripherals(self, cycles: nat) -> CpuView {
        CpuView {
            bus: BusView {
                mem: self.bus.mem.spec_step(self.bus.ints, cycles).0,
                ints: self.bus.mem.spec_step(self.bus.ints, cycles).1,
                gpu: self.bus.gpu,
            }.spec_gpu_steps(cycles),
            ..self
        }
    }

    /// The machine after one instruction, and the cycles that the instruction
    /// took. The instruction is fetched and executed; a pending enable of
    /// interrupts takes effect; the peripherals run for the cycles of the
    /// instruction; at last a pending interrupt is served.
    #[verifier::opaque]
    pub open spec fn spec_step(self) -> (CpuView, usize) {
        let done = self.spec_skip(1).spec_execute(self.spec_imm8());
        (
            done.0.spec_arm(self.ime_on_pending).spec_run_peripherals(done.1 as nat).spec_process_interrupts(),
            done.1,
        )
    }

    /// The cycles that are left of `budget` after `cycles` of them have passed.
    pub open spec fn spec_left(budget: nat, cycles: usize) -> nat {
        if cycles >= budget {
            0
        } else {
            (budget - cycles) as nat
        }
    }

    /// The machine after it has run for at least `budget` cycles, and whether
    /// it got that far: it stops early, and says so, before a byte that is not
    /// the first byte of an instruction.
    pub open spec fn spec_run(self, budget: nat) -> (CpuView, bool)
        decreases budget,
    {
        if budget == 0 {
            (self, true)
        } else if !self.spec_next_defined() {
            (self, false)
        } else {
            proof {
                lemma_step_cycles(self);
            }
            self.spec_step().0.spec_run(CpuView::spec_left(budget, self.spec_step().1))
        }
    }

    /// The machine right after power-up with the given cartridge.
    pub open spec fn spec_power_on(cart_info: CartridgeView, rom: Seq<u8>) -> CpuView {
        CpuView {
            cart_info,
            bus: BusView {
                mem: MemoryView::spec_from_info(cart_info.cart_type, cart_info.ram_size, rom),
                ints: Interrupts {
                    enable: InterruptFields::spec_from_byte(0),
                    flag: InterruptFields::spec_from_byte(0),
                    ime: false,
                },
                gpu: GpuView::spec_new(),
            },
            regs: Registers {
                a: 0x01,
                b: 0x00,
                c: 0x13,
                d: 0x00,
                e: 0xD8,
                f: 0xB0,
                h: 0x01,
                l: 0x4D,
                sp: 0xFFFE,
                pc: 0x100,
            },
            ime_on_pending: false,
            frame_rate: FRAME_RATE,
        }
    }

    /// The machine that loading the program image `bytes` gives, or why the
    /// image cannot be loaded.
    pub open spec fn spec_load(bytes: Seq<u8>, rom_path: Seq<char>) -> Result<CpuView, LoadError> {
        match spec_parse(bytes, rom_path) {
            Err(error) => Err(error),
            Ok(cart_info) => if cart_info.cart_type > 3 {
                Err(LoadError::UnsupportedController)
            } else if !spec_mbc_supported(cart_info.cart_type, cart_info.ram_size) {
                Err(LoadError::BankedRam)
            } else {
                Ok(CpuView::spec_power_on(cart_info, bytes))
            },
        }
    }
}

/// An instruction takes at least 4 and at most 24 cycles, and a whole number
/// of machine cycles of 4.
pub proof fn lemma_step_cycles(cpu: CpuView)
    ensures
        4 <= cpu.spec_step().1 <= 24,
        cpu.spec_step().1 % 4 == 0,
{
    reveal(CpuView::spec_step);
    lemma_execute_cycles(cpu.spec_skip(1), cpu.spec_imm8());
}

impl Cpu {
    /// Every component is well formed.
    pub open spec fn wf(&self) -> bool {
        self.mem.wf() && self.gpu.wf() && self.regs.wf()
    }

    /// Reads the byte that the program counter points to and moves on.
    pub fn read_next(&mut self) -> (r: u8)
        requires
            old(self).wf(),
        ensures
            r == old(self)@.spec_imm8(),
            final(self)@ == old(self)@.spec_skip(1),
            final(self).wf(),
    {
        let byte: u8 = self.mem_read(self.regs.pc);
        self.regs.pc = self.regs.pc.wrapping_add(1);
        byte
    }

    /// Reads the 16-bit value that the program counter points to and moves on.
    pub fn read_next_16(&mut self) -> (r: u16)
        requires
            old(self).wf(),
        ensures
            r == old(self)@.spec_imm16(),
            final(self)@ == old(self)@.spec_skip(2),
            final(self).wf(),
    {
        let value: u16 = self.mem_read_16(self.regs.pc);
        self.regs.pc = self.regs.pc.wrapping_add(2);
        value
    }

    /// Writes `value` at `address`.
    pub fn mem_write(&mut self, address: u16, value: u8)
        requires
            old(self).wf(),
        ensures
            final(self)@ == old(self)@.spec_write(address, value),
            final(self).wf(),
    {
        self.mem.write(&mut self.ints, &mut self.gpu, address, value)
    }

    /// Reads the byte at `address`.
    pub fn mem_read(&self, address: u16) -> (r: u8)
        requires
            self.wf(),
        ensures
            r == self@.spec_read(address),
    {
        self.mem.read(&self.ints, &self.gpu, address)
    }

    /// Writes the 16-bit `value` at `address`, low byte first.
    pub fn mem_write_16(&mut self, address: u16, value: u16)
        requires
            old(self).wf(),
        ensures
            final(self)@ == old(self)@.spec_write_16(address, value),
            final(self).wf(),
    {
        self.mem.write_16(&mut self.ints, &mut self.gpu, address, value)
    }

    /// Reads the 16-bit value at `address`, low byte first.
    pub fn mem_read_16(&self, address: u16) -> (r: u16)
        requires
            self.wf(),
        ensures
            r == self@.spec_read_16(address),
    {
        self.mem.read_16(&self.ints, &self.gpu, address)
    }

    /// Replaces the operand that the three-bit field `register` names.
    pub fn set_singular_register(&mut self, register: u8, value: u8)
        requires
            old(self).wf(),
            register <= 7,
        ensures
            final(self)@ == old(self)@.spec_set_d(register, value),
            final(self).wf(),
    {
        self.regs.set_singular_register(register, value, &mut self.mem, &mut self.ints, &mut self.gpu)
    }

    /// The operand that the three-bit field `register` names.
    pub fn get_singular_register(&self, register: u8) -> (r: u8)
        requires
            self.wf(),
            register <= 7,
        ensures
            r == self@.spec_get_d(register),
    {
        self.regs.get_singular_register(register, &self.mem, &self.ints, &self.gpu)
    }

    /// Pushes `value` on the stack.
    pub fn stack_push(&mut self, value: u16)
        requires
            old(self).wf(),
        ensures
            final(self)@ == old(self)@.spec_push(value),
            final(self).wf(),
    {
        self.regs.sp = self.regs.sp.wrapping_sub(2);
        self.mem_write_16(self.regs.sp, value);
    }

    /// Pops the top of the stack.
    pub fn stack_pop(&mut self) -> (r: u16)
        requires
            old(self).wf(),
        ensures
            r == old(self)@.spec_top(),
            final(self)@ == old(self)@.spec_pop(),
            final(self).wf(),
    {
        let val: u16 = self.mem_read_16(self.regs.sp);
        self.regs.sp = self.regs.sp.wrapping_add(2);
        val
    }

    /// Serves the highest-priority pending interrupt, if the master enable is
    /// set and there is one.
    pub fn process_interrupts(&mut self)
        requires
            old(self).wf(),
        ensures
            final(self)@ == old(self)@.spec_process_interrupts(),
            final(self).wf(),
    {
        if !self.ints.ime {
            return ;
        }
        match self.ints.pending() {
            None => {},
            Some(index) => {
                self.ints.ime = false;
                self.ints.flag.set_bit(index, false);
                self.stack_push(self.regs.pc);
                self.regs.pc = interrupt_vector(index);
            },
        }
    }

    /// Runs the pixel-processing unit for `cycles` cycles.
    pub fn step_gpu(&mut self, cycles: usize)
        requires
            old(self).wf(),
        ensures
            final(self)@ == (CpuView { bus: old(self)@.bus.spec_gpu_steps(cycles as nat), ..old(self)@ }),
            final(self).wf(),
    {
        let mut done: usize = 0;
        while done < cycles
            invariant
                done <= cycles,
                self.wf(),
                self@ == (CpuView { bus: self@.bus, ..old(self)@ }),
                self@.bus.spec_gpu_steps((cycles - done) as nat) == old(self)@.bus.spec_gpu_steps(cycles as nat),
            decreases cycles - done,
        {
            self.gpu.step(&mut self.ints, &self.mem);
            done = done + 1;
        }
    }

    /// Executes one instruction and returns the cycles that it took. The
    /// peripherals run for those cycles, and a pending interrupt is served
    /// after them.
    pub fn step(&mut self) -> (cycles: usize)
        requires
            old(self).wf(),
            old(self)@.spec_next_defined(),
        ensures
            (final(self)@, cycles) == old(self)@.spec_step(),
            final(self).wf(),
            4 <= cycles <= 24,
            cycles % 4 == 0,
    {
        proof {
            reveal(CpuView::spec_step);
        }
        let p: bool = self.ime_on_pending;
        let op: u8 = self.read_next();
        let cycles: usize = self.execute(op);
        if p && self.ime_on_pending {
            self.ints.ime = true;
            self.ime_on_pending = false;
        }
        self.mem.step(cycles, &mut self.ints);
        self.step_gpu(cycles);
        self.process_interrupts();
        cycles
    }

    /// Executes one instruction if the program counter points to one, and
    /// returns the cycles that it took; does nothing if it does not.
    pub fn try_step(&mut self) -> (r: Option<usize>)
        requires
            old(self).wf(),
        ensures
            match r {
                Some(cycles) => old(self)@.spec_next_defined() && (final(self)@, cycles) == old(self)@.spec_step()
                    && cycles >= 4,
                None => !old(self)@.spec_next_defined() && final(self)@ == old(self)@,
            },
            final(self).wf(),
    {
        let op: u8 = self.mem_read(self.regs.pc);
        if opcode_defined(op) {
            Some(self.step())
        } else {
            None
        }
    }

    /// Executes instructions until at least `budget` cycles have passed.
    /// Returns whether it got that far; the machine stops early before a byte
    /// that is not the first byte of an instruction.
    pub fn run_cycles(&mut self, budget: usize) -> (completed: bool)
        requires
            old(self).wf(),
        ensures
            (final(self)@, completed) == old(self)@.spec_run(budget as nat),
            final(self).wf(),
    {
        let mut remaining: usize = budget;
        while remaining > 0
            invariant
                self.wf(),
                self@.spec_run(remaining as nat) == old(self)@.spec_run(budget as nat),
            decreases remaining,
        {
            match self.try_step() {
                Some(taken) => {
                    remaining = if taken >= remaining {
                        0
                    } else {
                        remaining - taken
                    };
                },
                None => {
                    return false;
                },
            }
        }
        true
    }

    /// Runs one frame of the host: instructions are executed until the cycles
    /// of one frame, the clock rate divided by the frame rate, have passed.
    /// Returns whether the frame was completed; the machine stops early before
    /// a byte that is not the first byte of an instruction.
    pub fn step_one_frame(&mut self) -> (completed: bool)
        requires
            old(self).wf(),
            old(self).frame_rate > 0,
        ensures
            (final(self)@, completed) == old(self)@.spec_run((CLOCK_SPEED / old(self).frame_rate) as nat),
            final(self).wf(),
    {
        self.run_cycles(CLOCK_SPEED / self.frame_rate)
    }

    /// The machine right after power-up with the program image `contents`,
    /// which was read from `rom_path`.
    pub fn from_rom(rom_path: String, contents: Vec<u8>) -> (r: Result<Cpu, LoadError>)
        ensures
            match r {
                Ok(cpu) => CpuView::spec_load(contents@, rom_path@) == Ok::<CpuView, LoadError>(cpu@) && cpu.wf(),
                Err(error) => CpuView::spec_load(contents@, rom_path@) == Err::<CpuView, LoadError>(error),
            },
    {
        let rom: Rom = Rom::from_file(contents);
        let cart_info: Cartridge = match Cartridge::try_parse(&rom.bytes, rom_path) {
            Ok(cart_info) => cart_info,
            Err(error) => {
                return Err(error);
            },
        };
        if cart_info.cart_type > 3 {
            return Err(LoadError::UnsupportedController);
        }
        if cart_info.cart_type != 0 && cart_info.ram_size > 8192 {
            return Err(LoadError::BankedRam);
        }
        Ok(Cpu::power_on(cart_info, rom))
    }

    /// The machine right after power-up with the program image `bytes`.
    pub fn from_rom_bytes(bytes: Vec<u8>) -> (r: Result<Cpu, LoadError>)
        ensures
            match r {
                Ok(cpu) => CpuView::spec_load(bytes@, Seq::<char>::empty()) == Ok::<CpuView, LoadError>(cpu@)
                    && cpu.wf(),
                Err(error) => CpuView::spec_load(bytes@, Seq::<char>::empty()) == Err::<CpuView, LoadError>(
                    error,
                ),
            },
    {
        Cpu::from_rom(String::new(), bytes)
    }

    /// The machine right after power-up with a test cartridge of one hundred
    /// zero bytes.
    pub fn from_hardcoded_zeroes() -> (r: Cpu)
        ensures
            r@ == CpuView::spec_power_on(
                (CartridgeView {
                    title: "PLAYBOYTEST"@,
                    rom_path: Seq::<char>::empty(),
                    cart_type: 0,
                    rom_size: 100,
                    ram_size: 0,
                }),
                Seq::new(100, |i: int| 0u8),
            ),
            r.wf(),
    {
        let rom: Rom = Rom::from_playdate_bodge_zeroes();
        let cart_info: Cartridge = Cartridge::playdate_bodge_noop();
        Cpu::power_on(cart_info, rom)
    }

    /// The machine right after power-up with the given cartridge: the
    /// registers as the boot program leaves them, object search on line 0,
    /// interrupts off.
    pub fn power_on(cart_info: Cartridge, rom: Rom) -> (r: Cpu)
        requires
            spec_mbc_supported(cart_info.cart_type, cart_info.ram_size),
        ensures
            r@ == CpuView::spec_power_on(cart_info@, rom@),
            r.wf(),
    {
        Cpu {
            mem: Memory::from_info(cart_info.clone(), rom),
            cart_info,
            regs: Registers::new(),
            gpu: Gpu::new(),
            ints: Interrupts::new(),
            ime_on_pending: false,
            frame_rate: FRAME_RATE,
        }
    }
}

} // verus!
