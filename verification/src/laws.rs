//! What holds of the machine whatever its state: plain memory keeps what is
//! written to it, the echo area mirrors the work RAM, the registers of the
//! pixel-processing unit read back what was written, and a pop undoes a push.
use vstd::prelude::*;
use crate::constants::gpu_timing::FRAME_CYCLES;
use crate::constants::{
    ECHO_RAM_END, ECHO_RAM_START, HRAM_END, HRAM_START, VRAM_END, VRAM_START, WRAM_END, WRAM_START,
};
use crate::cpu::alu::{spec_flag_of, spec_wrap16, spec_wrap8, ALU_ADD};
use crate::registers::Registers;
use crate::cpu::CpuView;
use crate::helpers::{spec_combine_u8, spec_high_byte, spec_low_byte};
use crate::gpu::lemma_move_keeps_wf;
use crate::lcd::{LcdControl, LcdStatus};
use crate::interrupts::Interrupts;
use crate::memory::memory::{lemma_write_keeps_wf, BusView, MemoryView};
use crate::timer::Timer;

verus! {

/// Whether `address` lies in plain memory: the video RAM, the work RAM, its
/// echo or the high RAM.
pub open spec fn spec_is_ram(address: u16) -> bool {
    ||| VRAM_START <= address <= VRAM_END
    ||| WRAM_START <= address <= ECHO_RAM_END
    ||| HRAM_START <= address <= HRAM_END
}

/// A number for the byte of plain memory behind `address`. An address of the
/// work RAM and the address 0x2000 above it, in the echo, name the same byte.
pub open spec fn spec_ram_cell(address: u16) -> int {
    if address <= VRAM_END {
        address - VRAM_START
    } else if address <= WRAM_END {
        0x2000 + (address - WRAM_START)
    } else if address <= ECHO_RAM_END {
        0x2000 + (address - ECHO_RAM_START)
    } else {
        0x4000 + (address - HRAM_START)
    }
}

/// A byte written to plain memory is the byte read back from the same address.
pub proof fn lemma_ram_write_then_read(bus: BusView, address: u16, value: u8)
    requires
        bus.wf(),
        spec_is_ram(address),
    ensures
        bus.spec_write(address, value).spec_read(address) == value,
{
    reveal(BusView::spec_read);
    reveal(BusView::spec_write);
}

/// A write to plain memory changes no other byte of plain memory.
pub proof fn lemma_ram_write_keeps_others(bus: BusView, written: u16, value: u8, other: u16)
    requires
        bus.wf(),
        spec_is_ram(written),
        spec_is_ram(other),
        spec_ram_cell(written) != spec_ram_cell(other),
    ensures
        bus.spec_write(written, value).spec_read(other) == bus.spec_read(other),
{
    reveal(BusView::spec_read);
    reveal(BusView::spec_write);
}

/// The echo area reads as the work RAM does 0x2000 below it.
pub proof fn lemma_echo_reads_work_ram(bus: BusView, k: u16)
    requires
        k < 0x1E00,
    ensures
        bus.spec_read((ECHO_RAM_START + k) as u16) == bus.spec_read((WRAM_START + k) as u16),
{
    reveal(BusView::spec_read);
}

/// A byte packed from the eight bits of `n` is `n`.
proof fn lemma_byte_of_bits(n: u8)
    by (bit_vector)
    ensures
        ((if n % 2u8 == 1u8 { 1u8 } else { 0u8 }) | (if (n / 2u8) % 2u8 == 1u8 { 2u8 } else { 0u8 }) | (if (n
            / 4u8) % 2u8 == 1u8 {
            4u8
        } else {
            0u8
        }) | (if (n / 8u8) % 2u8 == 1u8 { 8u8 } else { 0u8 }) | (if (n / 16u8) % 2u8 == 1u8 {
            16u8
        } else {
            0u8
        }) | (if (n / 32u8) % 2u8 == 1u8 { 32u8 } else { 0u8 }) | (if (n / 64u8) % 2u8 == 1u8 {
            64u8
        } else {
            0u8
        }) | (if (n / 128u8) % 2u8 == 1u8 { 128u8 } else { 0u8 })) == n,
{
}

/// A control register read out of a byte reads as that byte.
pub proof fn lemma_lcd_control_round_trip(n: u8)
    ensures
        LcdControl::spec_from_byte(n).spec_to_byte() == n,
{
    lemma_byte_of_bits(n);
}

/// The status byte packed from a mode and five bits: the low three bits are
/// the mode and the first bit, bits 3 to 6 the other four, and bit 7 is zero.
proof fn lemma_status_byte(mode: u8, b2: u8, b3: u8, b4: u8, b5: u8, b6: u8)
    by (bit_vector)
    requires
        mode <= 3,
        b2 == 0 || b2 == 4,
        b3 == 0 || b3 == 8,
        b4 == 0 || b4 == 16,
        b5 == 0 || b5 == 32,
        b6 == 0 || b6 == 64,
    ensures
        (mode | b2 | b3 | b4 | b5 | b6) % 8u8 == mode | b2,
        (mode | b2 | b3 | b4 | b5 | b6) / 8u8 == (b3 | b4 | b5 | b6) / 8u8,
        (mode | b2 | b3 | b4 | b5 | b6) < 128u8,
{
}

/// Bits 3 to 6 of a byte, read one by one, make up those four bits.
proof fn lemma_enable_bits(n: u8)
    by (bit_vector)
    ensures
        ((if (n / 8u8) % 2u8 == 1u8 { 8u8 } else { 0u8 }) | (if (n / 16u8) % 2u8 == 1u8 { 16u8 } else { 0u8 }) | (
        if (n / 32u8) % 2u8 == 1u8 {
            32u8
        } else {
            0u8
        }) | (if (n / 64u8) % 2u8 == 1u8 { 64u8 } else { 0u8 })) / 8u8 == (n / 8u8) % 16u8,
{
}

/// After a write of `data` the status register reads with bits 3 to 6 of
/// `data`, with its own low three bits, which are read-only, and with bit 7
/// clear.
pub proof fn lemma_lcd_status_write_then_read(status: LcdStatus, data: u8)
    requires
        status.wf(),
    ensures
        status.spec_set_data(data).spec_to_byte() % 8 == status.spec_to_byte() % 8,
        (status.spec_set_data(data).spec_to_byte() / 8) % 16 == (data / 8) % 16,
        status.spec_set_data(data).spec_to_byte() < 128,
{
    let after = status.spec_set_data(data);
    lemma_status_byte(
        status.mode_flag,
        if status.coincidence_flag { 4u8 } else { 0u8 },
        if status.hblank_interrupt { 8u8 } else { 0u8 },
        if status.vblank_interrupt { 16u8 } else { 0u8 },
        if status.oam_interrupt { 32u8 } else { 0u8 },
        if status.lyc { 64u8 } else { 0u8 },
    );
    lemma_status_byte(
        after.mode_flag,
        if after.coincidence_flag { 4u8 } else { 0u8 },
        if after.hblank_interrupt { 8u8 } else { 0u8 },
        if after.vblank_interrupt { 16u8 } else { 0u8 },
        if after.oam_interrupt { 32u8 } else { 0u8 },
        if after.lyc { 64u8 } else { 0u8 },
    );
    lemma_enable_bits(data);
}

/// Whether `address` is a register of the pixel-processing unit that keeps
/// the byte written to it: every register from 0xFF40 to 0xFF4B but the status
/// register and the scanline register.
pub open spec fn spec_is_plain_gpu_register(address: u16) -> bool {
    0xFF40 <= address <= 0xFF4B && address != 0xFF41 && address != 0xFF44
}

/// A byte written to a register of the pixel-processing unit, other than the
/// status and the scanline register, is the byte read back.
pub proof fn lemma_gpu_register_write_then_read(bus: BusView, address: u16, value: u8)
    requires
        spec_is_plain_gpu_register(address),
    ensures
        bus.spec_write(address, value).spec_read(address) == value,
{
    reveal(BusView::spec_read);
    reveal(BusView::spec_write);
    lemma_lcd_control_round_trip(value);
}

/// After a write of `value` the status register reads with bits 3 to 6 of
/// `value`, with the low three bits that it had, and with bit 7 clear.
pub proof fn lemma_gpu_status_write_then_read(bus: BusView, value: u8)
    requires
        bus.wf(),
    ensures
        bus.spec_write(0xFF41, value).spec_read(0xFF41) % 8 == bus.spec_read(0xFF41) % 8,
        (bus.spec_write(0xFF41, value).spec_read(0xFF41) / 8) % 16 == (value / 8) % 16,
        bus.spec_write(0xFF41, value).spec_read(0xFF41) < 128,
{
    reveal(BusView::spec_read);
    reveal(BusView::spec_write);
    lemma_lcd_status_write_then_read(bus.gpu.status, value);
}

/// A write to the scanline register is ignored.
pub proof fn lemma_gpu_scanline_is_read_only(bus: BusView, value: u8)
    ensures
        bus.spec_write(0xFF44, value) == bus,
{
    reveal(BusView::spec_write);
}

/// With the two bytes below the stack pointer in plain memory, a push followed
/// by a pop gives the pushed value back and leaves every register, the stack
/// pointer among them, as it was; and the push changes no byte of plain memory
/// but those two.
pub proof fn lemma_push_then_pop(cpu: CpuView, value: u16, other: u16)
    requires
        cpu.wf(),
        spec_is_ram(spec_wrap16(cpu.regs.sp - 2)),
        spec_is_ram(spec_wrap16(cpu.regs.sp - 1)),
    ensures
        cpu.spec_push(value).spec_top() == value,
        cpu.spec_push(value).spec_pop().regs == cpu.regs,
        spec_is_ram(other) && spec_ram_cell(other) != spec_ram_cell(spec_wrap16(cpu.regs.sp - 2))
            && spec_ram_cell(other) != spec_ram_cell(spec_wrap16(cpu.regs.sp - 1)) ==> cpu.spec_push(
            value,
        ).spec_read(other) == cpu.spec_read(other),
{
    let low = spec_wrap16(cpu.regs.sp - 2);
    let high = spec_wrap16(cpu.regs.sp - 1);
    let first = cpu.bus.spec_write(low, spec_low_byte(value));
    let second = first.spec_write(high, spec_high_byte(value));
    assert(BusView::spec_next(low) == high);
    assert(cpu.spec_push(value).bus == second);
    lemma_write_keeps_wf(cpu.bus, low, spec_low_byte(value));
    lemma_ram_write_then_read(cpu.bus, low, spec_low_byte(value));
    lemma_ram_write_then_read(first, high, spec_high_byte(value));
    lemma_ram_write_keeps_others(first, high, spec_high_byte(value), low);
    assert(spec_combine_u8(spec_high_byte(value), spec_low_byte(value)) == value);
    if spec_is_ram(other) && spec_ram_cell(other) != spec_ram_cell(low) && spec_ram_cell(other)
        != spec_ram_cell(high) {
        lemma_ram_write_keeps_others(cpu.bus, low, spec_low_byte(value), other);
        lemma_ram_write_keeps_others(first, high, spec_high_byte(value), other);
    }
}

/// A cycle of the pixel-processing unit keeps the machine well formed: the
/// scanline stays below 154, the dot below 456, and the mode is the mode of
/// that dot.
pub proof fn lemma_gpu_step_keeps_wf(bus: BusView)
    requires
        bus.wf(),
    ensures
        bus.spec_gpu_step().wf(),
{
    lemma_move_keeps_wf(bus.spec_dma_tick());
}

/// The completed frame changes only when vertical blanking begins, and then
/// it becomes the frame in progress.
pub proof fn lemma_finished_frame_changes_at_vblank(bus: BusView)
    ensures
        bus.spec_gpu_step().gpu.finished_frame == (if bus.gpu.control.display_enable
            && bus.gpu.spec_enters_vblank() {
            bus.gpu.frame
        } else {
            bus.gpu.finished_frame
        }),
{
}

/// With the timer enabled at its fastest rate and `ticks` sixteenths of a
/// tick accumulated, the counter stays as it is until the sixteenth is full
/// and ticks then: it goes up by one, or, from 255, is reloaded from the
/// modulo register.
pub proof fn lemma_timer_fast_rate_from(timer: Timer, ticks: nat, cycles: nat)
    requires
        timer.control % 8 == 5,
        timer.counter_increase == 16384 * ticks,
        ticks + cycles <= 16,
        ticks < 16,
    ensures
        timer.spec_steps(cycles).counter == (if ticks + cycles < 16 {
            timer.counter
        } else if timer.counter == 255 {
            timer.modulo
        } else {
            (timer.counter + 1) as u8
        }),
        timer.spec_steps(cycles).counter_increase == (if ticks + cycles < 16 {
            16384 * (ticks + cycles)
        } else {
            0
        }),
    decreases cycles,
{
    if cycles > 0 {
        let next = timer.spec_step();
        if ticks + 1 < 16 {
            lemma_timer_fast_rate_from(next, ticks + 1, (cycles - 1) as nat);
        } else {
            assert(cycles == 1);
            assert(next.spec_steps(0) == next);
        }
    }
}

/// With the timer enabled at its fastest rate, 262144 ticks per second, and
/// no fraction accumulated, the counter ticks once every 16 cycles: it stays
/// as it is for fifteen cycles and in the sixteenth goes up by one, or, from
/// 255, is reloaded from the modulo register.
pub proof fn lemma_timer_fast_rate(timer: Timer, cycles: nat)
    requires
        timer.control % 8 == 5,
        timer.counter_increase == 0,
        cycles <= 16,
    ensures
        timer.spec_steps(cycles).counter == (if cycles < 16 {
            timer.counter
        } else if timer.counter == 255 {
            timer.modulo
        } else {
            (timer.counter + 1) as u8
        }),
{
    lemma_timer_fast_rate_from(timer, 0, cycles);
}

/// The timer overflows, and raises its interrupt, exactly in a cycle in which
/// the counter ticks from 255; the counter is then reloaded from the modulo
/// register.
pub proof fn lemma_timer_overflow(timer: Timer)
    ensures
        timer.spec_overflows() ==> timer.spec_step().counter == timer.modulo,
        !timer.spec_ticks() ==> timer.spec_step().counter == timer.counter,
        timer.spec_overflows() == (timer.spec_ticks() && timer.counter == 255),
{
}

/// While the interconnect runs for `cycles` cycles, its timer runs for
/// `cycles` cycles.
pub proof fn lemma_memory_steps_timer(mem: MemoryView, ints: Interrupts, cycles: nat)
    ensures
        mem.spec_step(ints, cycles).0.timer == mem.timer.spec_steps(cycles),
    decreases cycles,
{
    if cycles > 0 {
        let next = mem.spec_tick(ints);
        lemma_memory_steps_timer(next.0, next.1, (cycles - 1) as nat);
    }
}

/// Dots in one frame: 154 scanlines of 456 dots.
pub open spec fn spec_frame_dots() -> int {
    FRAME_CYCLES as int
}

/// The number of the current dot in its frame.
pub open spec fn spec_position(bus: BusView) -> int {
    bus.gpu.ly * 456 + bus.gpu.lx
}

/// While the display is enabled, every cycle of the pixel-processing unit
/// moves it on by one dot, and the dot after the last one of a frame is the
/// first one of the next.
pub proof fn lemma_gpu_position(bus: BusView, cycles: nat)
    requires
        bus.wf(),
        bus.gpu.control.display_enable,
    ensures
        spec_position(bus.spec_gpu_steps(cycles)) == (spec_position(bus) + cycles) % spec_frame_dots(),
        bus.spec_gpu_steps(cycles).gpu.control == bus.gpu.control,
        bus.spec_gpu_steps(cycles).wf(),
    decreases cycles,
{
    if cycles > 0 {
        let next = bus.spec_gpu_step();
        lemma_gpu_step_keeps_wf(bus);
        assert(spec_position(next) == (if spec_position(bus) + 1 == spec_frame_dots() {
            0
        } else {
            spec_position(bus) + 1
        }));
        lemma_gpu_position(next, (cycles - 1) as nat);
        vstd::arithmetic::div_mod::lemma_add_mod_noop(
            spec_position(bus) + 1,
            cycles - 1,
            spec_frame_dots(),
        );
        vstd::arithmetic::div_mod::lemma_add_mod_noop(spec_position(next), cycles - 1, spec_frame_dots());
        vstd::arithmetic::div_mod::lemma_small_mod(spec_position(next) as nat, spec_frame_dots() as nat);
    } else {
        vstd::arithmetic::div_mod::lemma_small_mod(spec_position(bus) as nat, spec_frame_dots() as nat);
    }
}

/// After the cycles of one frame, with the display enabled, the scanline and
/// the dot are what they were.
pub proof fn lemma_gpu_frame_period(bus: BusView)
    requires
        bus.wf(),
        bus.gpu.control.display_enable,
    ensures
        bus.spec_gpu_steps(FRAME_CYCLES as nat).gpu.ly == bus.gpu.ly,
        bus.spec_gpu_steps(FRAME_CYCLES as nat).gpu.lx == bus.gpu.lx,
{
    lemma_gpu_position(bus, FRAME_CYCLES as nat);
    lemma_gpu_step_keeps_wf(bus);
    let after = bus.spec_gpu_steps(FRAME_CYCLES as nat);
    vstd::arithmetic::div_mod::lemma_mod_add_multiples_vanish(spec_position(bus), spec_frame_dots());
    vstd::arithmetic::div_mod::lemma_small_mod(spec_position(bus) as nat, spec_frame_dots() as nat);
    assert(spec_position(after) == spec_position(bus));
}

/// The packed decimal byte of a number below 100: the tens in the high
/// nibble, the units in the low nibble.
pub open spec fn spec_bcd(n: int) -> u8 {
    ((n / 10) * 16 + n % 10) as u8
}

/// The arithmetic of decimal adjust after an addition, on the four digits of
/// two packed decimal numbers.
proof fn lemma_daa_digits(ta: u16, ua: u16, tb: u16, ub: u16)
    by (bit_vector)
    requires
        ta < 10,
        ua < 10,
        tb < 10,
        ub < 10,
    ensures
        ({
            let sum = (16u16 * (ta + tb) + ua + ub) as u16;
            let res = sum % 256u16;
            let low = if ua + ub > 15u16 || res % 16u16 > 9u16 {
                6u16
            } else {
                0u16
            };
            let high = if sum > 255u16 || res > 0x99u16 {
                0x60u16
            } else {
                0u16
            };
            let total = (10u16 * (ta + tb) + ua + ub) as u16;
            &&& ((res + low + high) as u16) % 256u16 == ((total % 100u16) / 10u16) * 16u16 + (total % 100u16)
                % 10u16
            &&& (high == 0x60u16) == (total >= 100u16)
        }),
{
}

/// The accumulator and the flags after an addition.
proof fn lemma_addition(regs: Registers, n: u8)
    ensures
        regs.spec_alu(ALU_ADD, n).a == spec_wrap8(regs.a + n),
        regs.spec_alu(ALU_ADD, n).spec_operation_flag() == 0,
        regs.spec_alu(ALU_ADD, n).spec_half_carry_flag() == spec_flag_of(regs.a % 16 + n % 16 > 15),
        regs.spec_alu(ALU_ADD, n).spec_carry_flag() == spec_flag_of(regs.a + n > 255),
{
}

/// The accumulator and the carry flag after decimal adjust.
proof fn lemma_adjust(regs: Registers)
    ensures
        regs.spec_alu_daa().spec_carry_flag() == spec_flag_of(regs.spec_daa_adjust() >= 0x60),
        regs.spec_operation_flag() == 0 ==> regs.spec_alu_daa().a == spec_wrap8(regs.a + regs.spec_daa_adjust()),
{
}

/// The accumulator and the flags after two packed decimal numbers, given by
/// their digits, have been added.
proof fn lemma_digits_added(regs: Registers, ta: u16, ua: u16, tb: u16, ub: u16)
    requires
        ta < 10,
        ua < 10,
        tb < 10,
        ub < 10,
        regs.a == 16 * ta + ua,
    ensures
        regs.spec_alu(ALU_ADD, (16 * tb + ub) as u8).a == (16 * (ta + tb) + ua + ub) % 256,
        regs.spec_alu(ALU_ADD, (16 * tb + ub) as u8).spec_operation_flag() == 0,
        regs.spec_alu(ALU_ADD, (16 * tb + ub) as u8).spec_half_carry_flag() == spec_flag_of(ua + ub > 15),
        regs.spec_alu(ALU_ADD, (16 * tb + ub) as u8).spec_carry_flag() == spec_flag_of(
            16 * (ta + tb) + ua + ub > 255,
        ),
{
    lemma_addition(regs, (16 * tb + ub) as u8);
}

/// Decimal adjust of the sum of two packed decimal numbers, given by their
/// digits.
proof fn lemma_digits_adjusted(added: Registers, ta: u16, ua: u16, tb: u16, ub: u16)
    requires
        ta < 10,
        ua < 10,
        tb < 10,
        ub < 10,
        added.a == (16 * (ta + tb) + ua + ub) % 256,
        added.spec_operation_flag() == 0,
        added.spec_half_carry_flag() == spec_flag_of(ua + ub > 15),
        added.spec_carry_flag() == spec_flag_of(16 * (ta + tb) + ua + ub > 255),
    ensures
        added.spec_alu_daa().a == (((10 * (ta + tb) + ua + ub) % 100) / 10) * 16 + ((10 * (ta + tb) + ua
            + ub) % 100) % 10,
        added.spec_alu_daa().spec_carry_flag() == spec_flag_of(10 * (ta + tb) + ua + ub >= 100),
{
    lemma_adjust(added);
    lemma_daa_digits(ta, ua, tb, ub);
}

/// Adding two packed decimal numbers, with the digits `ta`, `ua` and `tb`,
/// `ub`, and adjusting the sum gives the packed decimal sum modulo 100, with
/// the carry flag set exactly when the sum is 100 or more.
pub proof fn lemma_daa_after_addition(regs: Registers, ta: u16, ua: u16, tb: u16, ub: u16)
    requires
        ta < 10,
        ua < 10,
        tb < 10,
        ub < 10,
        regs.a == 16 * ta + ua,
    ensures
        regs.spec_alu(ALU_ADD, (16 * tb + ub) as u8).spec_alu_daa().a == spec_bcd(
            (10 * (ta + tb) + ua + ub) % 100,
        ),
        regs.spec_alu(ALU_ADD, (16 * tb + ub) as u8).spec_alu_daa().spec_carry_flag() == spec_flag_of(
            10 * (ta + tb) + ua + ub >= 100,
        ),
{
    lemma_digits_added(regs, ta, ua, tb, ub);
    lemma_digits_adjusted(regs.spec_alu(ALU_ADD, (16 * tb + ub) as u8), ta, ua, tb, ub);
}

} // verus!
