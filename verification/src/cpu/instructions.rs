//! The instructions of the processor, one function each: what the
//! instruction does to the machine and how many cycles it takes. Every function
//! starts from the machine as it is once the opcode has been fetched.
//!
//! Every access to memory takes 4 cycles: each byte of the instruction, and
//! each byte that is read or written through a register pair or an address.
//! Jumps that are taken, pushes and 16-bit arithmetic take 4 cycles more for
//! work inside the processor. So an operand behind HL costs 4 cycles where it
//! is read or written, and 8 where it is read and written back.
use vstd::prelude::*;
use crate::cpu::alu::{offset_address, spec_offset, spec_wrap16, spec_wrap8, Shift};
use crate::cpu::{Cpu, CpuView};
use crate::helpers::{set_bit, spec_set_bit};
use crate::interrupts::Interrupts;
use crate::memory::memory::BusView;
use crate::registers::Registers;

verus! {

/// The cycles of an instruction with the 8-bit operand `d`: `indirect` if the
/// operand is the byte that HL points to, else `plain`.
pub open spec fn spec_cycles_d(d: u8, plain: usize, indirect: usize) -> usize {
    if d == 6 {
        indirect
    } else {
        plain
    }
}

/// The cycles of an instruction with the 8-bit operand `d`.
pub fn cycles_d(d: u8, plain: usize, indirect: usize) -> (r: usize)
    ensures
        r == spec_cycles_d(d, plain, indirect),
{
    if d == 6 {
        indirect
    } else {
        plain
    }
}

impl CpuView {
    /// NOP and STOP: nothing happens.
    pub open spec fn spec_nop(self) -> (CpuView, usize) {
        (self, 4)
    }

    /// LD (nn),SP: stores the stack pointer at the address that follows the
    /// opcode.
    pub open spec fn spec_ld_nn_sp(self) -> (CpuView, usize) {
        (self.spec_skip(2).spec_write_16(self.spec_imm16(), self.regs.sp), 20)
    }

    /// LD rr,nn: loads a register pair, or the stack pointer, with the value
    /// that follows the opcode.
    pub open spec fn spec_ld_rr_nn(self, r: u8) -> (CpuView, usize) {
        (
            self.spec_skip(2).spec_with_regs(
                self.spec_skip(2).regs.spec_set_combined_register_base(r, self.spec_imm16(), true),
            ),
            12,
        )
    }

    /// ADD HL,rr: adds a register pair, or the stack pointer, to HL.
    pub open spec fn spec_add_hl_rr(self, r: u8) -> (CpuView, usize) {
        (self.spec_with_regs(self.regs.spec_alu_add_hl(self.regs.spec_combined_register_base(r, true))), 8)
    }

    /// LD (BC),A and LD (DE),A: stores the accumulator where the pair points.
    pub open spec fn spec_ld_rr_a(self, r: u8) -> (CpuView, usize) {
        (self.spec_write(self.regs.spec_combined_register_base(r, true), self.regs.a), 8)
    }

    /// LD A,(BC) and LD A,(DE): loads the accumulator from where the pair
    /// points.
    pub open spec fn spec_ld_a_rr(self, r: u8) -> (CpuView, usize) {
        (
            self.spec_with_regs(
                Registers { a: self.spec_read(self.regs.spec_combined_register_base(r, true)), ..self.regs },
            ),
            8,
        )
    }

    /// INC rr: adds one to a register pair or to the stack pointer; no flag
    /// changes.
    pub open spec fn spec_inc_rr(self, r: u8) -> (CpuView, usize) {
        (
            self.spec_with_regs(
                self.regs.spec_set_combined_register_base(
                    r,
                    spec_wrap16(self.regs.spec_combined_register_base(r, true) + 1),
                    true,
                ),
            ),
            8,
        )
    }

    /// DEC rr: takes one from a register pair or from the stack pointer; no
    /// flag changes.
    pub open spec fn spec_dec_rr(self, r: u8) -> (CpuView, usize) {
        (
            self.spec_with_regs(
                self.regs.spec_set_combined_register_base(
                    r,
                    spec_wrap16(self.regs.spec_combined_register_base(r, true) - 1),
                    true,
                ),
            ),
            8,
        )
    }

    /// INC d: adds one to an 8-bit operand.
    pub open spec fn spec_inc_d(self, d: u8) -> (CpuView, usize) {
        (
            self.spec_with_regs(self.regs.spec_alu_inc(self.spec_get_d(d))).spec_set_d(
                d,
                spec_wrap8(self.spec_get_d(d) + 1),
            ),
            spec_cycles_d(d, 4, 12),
        )
    }

    /// DEC d: takes one from an 8-bit operand.
    pub open spec fn spec_dec_d(self, d: u8) -> (CpuView, usize) {
        (
            self.spec_with_regs(self.regs.spec_alu_dec(self.spec_get_d(d))).spec_set_d(
                d,
                spec_wrap8(self.spec_get_d(d) - 1),
            ),
            spec_cycles_d(d, 4, 12),
        )
    }

    /// LD d,n: loads an 8-bit operand with the byte that follows the opcode.
    pub open spec fn spec_ld_d_n(self, d: u8) -> (CpuView, usize) {
        (self.spec_skip(1).spec_set_d(d, self.spec_imm8()), spec_cycles_d(d, 8, 12))
    }

    /// RLCA, RRCA, RLA, RRA: rotates the accumulator; the zero flag becomes 0.
    pub open spec fn spec_rotate_a(self, shift: Shift) -> (CpuView, usize) {
        (self.spec_with_regs(self.regs.spec_alu_rotate(shift)), 4)
    }

    /// JR e: jumps by the signed byte that follows the opcode.
    pub open spec fn spec_jr(self) -> (CpuView, usize) {
        (self.spec_skip(1).spec_jump(spec_offset(self.spec_skip(1).regs.pc, self.spec_imm8())), 12)
    }

    /// JR cc,e: jumps by the signed byte that follows the opcode if the
    /// condition holds.
    pub open spec fn spec_jr_cc(self, condition: u8) -> (CpuView, usize) {
        if self.regs.spec_condition_met(condition) {
            self.spec_jr()
        } else {
            (self.spec_skip(1), 8)
        }
    }

    /// LD (HL+),A and LD (HL-),A: stores the accumulator where HL points, then
    /// moves HL by one.
    pub open spec fn spec_ld_hl_step_a(self, increment: bool) -> (CpuView, usize) {
        (
            self.spec_write(self.regs.spec_hl(), self.regs.a).spec_with_regs(
                self.regs.spec_set_hl(spec_wrap16(self.regs.spec_hl() + (if increment { 1int } else { -1 }))),
            ),
            8,
        )
    }

    /// LD A,(HL+) and LD A,(HL-): loads the accumulator from where HL points,
    /// then moves HL by one.
    pub open spec fn spec_ld_a_hl_step(self, increment: bool) -> (CpuView, usize) {
        (
            self.spec_with_regs(
                Registers { a: self.spec_read(self.regs.spec_hl()), ..self.regs }.spec_set_hl(
                    spec_wrap16(self.regs.spec_hl() + (if increment { 1int } else { -1 })),
                ),
            ),
            8,
        )
    }

    /// DAA: decimal adjust of the accumulator.
    pub open spec fn spec_daa(self) -> (CpuView, usize) {
        (self.spec_with_regs(self.regs.spec_alu_daa()), 4)
    }

    /// SCF: sets the carry flag; operation and half-carry become 0.
    pub open spec fn spec_scf(self) -> (CpuView, usize) {
        (self.spec_with_regs(self.regs.spec_set_flags(self.regs.spec_zero_flag(), 0, 0, 1)), 4)
    }

    /// CCF: inverts the carry flag; operation and half-carry become 0.
    pub open spec fn spec_ccf(self) -> (CpuView, usize) {
        (
            self.spec_with_regs(
                self.regs.spec_set_flags(
                    self.regs.spec_zero_flag(),
                    0,
                    0,
                    (1 - self.regs.spec_carry_flag()) as u8,
                ),
            ),
            4,
        )
    }

    /// CPL: inverts every bit of the accumulator; operation and half-carry
    /// become 1.
    pub open spec fn spec_cpl(self) -> (CpuView, usize) {
        (
            self.spec_with_regs(
                Registers { a: (255 - self.regs.a) as u8, ..self.regs }.spec_set_flags(
                    self.regs.spec_zero_flag(),
                    1,
                    1,
                    self.regs.spec_carry_flag(),
                ),
            ),
            4,
        )
    }

    /// LD d,d: copies one 8-bit operand to another.
    pub open spec fn spec_ld_d_d(self, target: u8, source: u8) -> (CpuView, usize) {
        (
            self.spec_set_d(target, self.spec_get_d(source)),
            if target == 6 || source == 6 {
                8
            } else {
                4
            },
        )
    }

    /// HALT: waits until any interrupt is requested. While none is, the program
    /// counter stays on the instruction, so that it runs again.
    pub open spec fn spec_halt(self) -> (CpuView, usize) {
        if self.bus.ints.flag.spec_any() {
            (self, 4)
        } else {
            (self.spec_skip(-1), 4)
        }
    }

    /// An accumulator operation with an 8-bit operand.
    pub open spec fn spec_alu_a_d(self, operation: u8, d: u8) -> (CpuView, usize) {
        (self.spec_with_regs(self.regs.spec_alu(operation, self.spec_get_d(d))), spec_cycles_d(d, 4, 8))
    }

    /// An accumulator operation with the byte that follows the opcode.
    pub open spec fn spec_alu_a_n(self, operation: u8) -> (CpuView, usize) {
        (self.spec_skip(1).spec_with_regs(self.spec_skip(1).regs.spec_alu(operation, self.spec_imm8())), 8)
    }

    /// POP rr: pops a register pair, where 3 names AF.
    pub open spec fn spec_pop_rr(self, r: u8) -> (CpuView, usize) {
        (
            self.spec_pop().spec_with_regs(
                self.spec_pop().regs.spec_set_combined_register_base(r, self.spec_top(), false),
            ),
            12,
        )
    }

    /// PUSH rr: pushes a register pair, where 3 names AF.
    pub open spec fn spec_push_rr(self, r: u8) -> (CpuView, usize) {
        (self.spec_push(self.regs.spec_combined_register_base(r, false)), 16)
    }

    /// RST n: calls the fixed address `target`.
    pub open spec fn spec_rst(self, target: u8) -> (CpuView, usize) {
        (self.spec_push(self.regs.pc).spec_jump(target as u16), 16)
    }

    /// RET: returns to the address on top of the stack.
    pub open spec fn spec_ret(self) -> (CpuView, usize) {
        (self.spec_pop().spec_jump(self.spec_top()), 16)
    }

    /// RET cc: returns if the condition holds.
    pub open spec fn spec_ret_cc(self, condition: u8) -> (CpuView, usize) {
        if self.regs.spec_condition_met(condition) {
            (self.spec_pop().spec_jump(self.spec_top()), 20)
        } else {
            (self, 8)
        }
    }

    /// RETI: returns and sets the master interrupt enable at once.
    pub open spec fn spec_reti(self) -> (CpuView, usize) {
        (
            CpuView {
                bus: BusView { ints: Interrupts { ime: true, ..self.bus.ints }, ..self.bus },
                ..self.spec_pop().spec_jump(self.spec_top())
            },
            16,
        )
    }

    /// JP nn: jumps to the address that follows the opcode.
    pub open spec fn spec_jp(self) -> (CpuView, usize) {
        (self.spec_jump(self.spec_imm16()), 16)
    }

    /// JP cc,nn: jumps to the address that follows the opcode if the condition
    /// holds.
    pub open spec fn spec_jp_cc(self, condition: u8) -> (CpuView, usize) {
        if self.regs.spec_condition_met(condition) {
            (self.spec_jump(self.spec_imm16()), 16)
        } else {
            (self.spec_skip(2), 12)
        }
    }

    /// CALL nn: pushes the address of the next instruction and jumps to the
    /// address that follows the opcode.
    pub open spec fn spec_call(self) -> (CpuView, usize) {
        (self.spec_skip(2).spec_push(self.spec_skip(2).regs.pc).spec_jump(self.spec_imm16()), 24)
    }

    /// CALL cc,nn: calls if the condition holds.
    pub open spec fn spec_call_cc(self, condition: u8) -> (CpuView, usize) {
        if self.regs.spec_condition_met(condition) {
            self.spec_call()
        } else {
            (self.spec_skip(2), 12)
        }
    }

    /// ADD SP,e: adds the signed byte that follows the opcode to the stack
    /// pointer.
    pub open spec fn spec_add_sp_n(self) -> (CpuView, usize) {
        (
            self.spec_skip(1).spec_with_regs(
                Registers {
                    sp: spec_offset(self.regs.sp, self.spec_imm8()),
                    ..self.spec_skip(1).regs.spec_alu_sp_flags(self.spec_imm8())
                },
            ),
            16,
        )
    }

    /// LD HL,SP+e: loads HL with the stack pointer plus the signed byte that
    /// follows the opcode.
    pub open spec fn spec_ld_hl_sp_n(self) -> (CpuView, usize) {
        (
            self.spec_skip(1).spec_with_regs(
                self.spec_skip(1).regs.spec_alu_sp_flags(self.spec_imm8()).spec_set_hl(
                    spec_offset(self.regs.sp, self.spec_imm8()),
                ),
            ),
            12,
        )
    }

    /// LD (FF00+n),A: stores the accumulator in the high page.
    pub open spec fn spec_ldh_n_a(self) -> (CpuView, usize) {
        (self.spec_skip(1).spec_write((0xFF00 + self.spec_imm8()) as u16, self.regs.a), 12)
    }

    /// LD A,(FF00+n): loads the accumulator from the high page.
    pub open spec fn spec_ldh_a_n(self) -> (CpuView, usize) {
        (
            self.spec_skip(1).spec_with_regs(
                Registers { a: self.spec_read((0xFF00 + self.spec_imm8()) as u16), ..self.spec_skip(1).regs },
            ),
            12,
        )
    }

    /// LD (FF00+C),A: stores the accumulator in the high page at offset C.
    pub open spec fn spec_ldh_c_a(self) -> (CpuView, usize) {
        (self.spec_write((0xFF00 + self.regs.c) as u16, self.regs.a), 8)
    }

    /// LD A,(FF00+C): loads the accumulator from the high page at offset C.
    pub open spec fn spec_ldh_a_c(self) -> (CpuView, usize) {
        (self.spec_with_regs(Registers { a: self.spec_read((0xFF00 + self.regs.c) as u16), ..self.regs }), 8)
    }

    /// LD (nn),A: stores the accumulator at the address that follows the
    /// opcode.
    pub open spec fn spec_ld_nn_a(self) -> (CpuView, usize) {
        (self.spec_skip(2).spec_write(self.spec_imm16(), self.regs.a), 16)
    }

    /// LD A,(nn): loads the accumulator from the address that follows the
    /// opcode.
    pub open spec fn spec_ld_a_nn(self) -> (CpuView, usize) {
        (
            self.spec_skip(2).spec_with_regs(
                Registers { a: self.spec_read(self.spec_imm16()), ..self.spec_skip(2).regs },
            ),
            16,
        )
    }

    /// JP HL: jumps to the address in HL.
    pub open spec fn spec_jp_hl(self) -> (CpuView, usize) {
        (self.spec_jump(self.regs.spec_hl()), 4)
    }

    /// LD SP,HL: loads the stack pointer with HL.
    pub open spec fn spec_ld_sp_hl(self) -> (CpuView, usize) {
        (self.spec_with_regs(Registers { sp: self.regs.spec_hl(), ..self.regs }), 8)
    }

    /// DI: clears the master interrupt enable and a pending enable at once.
    pub open spec fn spec_di(self) -> (CpuView, usize) {
        (
            CpuView {
                bus: BusView { ints: Interrupts { ime: false, ..self.bus.ints }, ..self.bus },
                ime_on_pending: false,
                ..self
            },
            4,
        )
    }

    /// EI: asks for interrupts to be enabled once the next instruction has
    /// completed.
    pub open spec fn spec_ei(self) -> (CpuView, usize) {
        (CpuView { ime_on_pending: true, ..self }, 4)
    }

    /// A rotate, shift or swap of an 8-bit operand.
    pub open spec fn spec_shift_d(self, shift: Shift, d: u8) -> (CpuView, usize) {
        (
            self.spec_with_regs(self.regs.spec_alu_shift(shift, self.spec_get_d(d))).spec_set_d(
                d,
                shift.spec_value(self.spec_get_d(d), self.regs.spec_carry_flag()),
            ),
            spec_cycles_d(d, 8, 16),
        )
    }

    /// BIT n,d: tests a bit of an 8-bit operand.
    pub open spec fn spec_bit_d(self, bit: u8, d: u8) -> (CpuView, usize) {
        (self.spec_with_regs(self.regs.spec_alu_bit(bit, self.spec_get_d(d))), spec_cycles_d(d, 8, 12))
    }

    /// RES n,d and SET n,d: clears or sets a bit of an 8-bit operand.
    pub open spec fn spec_set_bit_d(self, bit: u8, d: u8, value: u8) -> (CpuView, usize) {
        (self.spec_set_d(d, spec_set_bit(self.spec_get_d(d), bit, value)), spec_cycles_d(d, 8, 16))
    }
}

impl Cpu {
    /// NOP and STOP: nothing happens.
    pub fn nop(&mut self) -> (cycles: usize)
        requires
            old(self).wf(),
        ensures
            (final(self)@, cycles) == old(self)@.spec_nop(),
            final(self).wf(),
    {
        4
    }

    /// LD (nn),SP: stores the stack pointer at the address that follows the
    /// opcode.
    pub fn ld_nn_sp(&mut self) -> (cycles: usize)
        requires
            old(self).wf(),
        ensures
            (final(self)@, cycles) == old(self)@.spec_ld_nn_sp(),
            final(self).wf(),
    {
        let addr: u16 = self.read_next_16();
        self.mem_write_16(addr, self.regs.sp);
        20
    }

    /// LD rr,nn: loads a register pair, or the stack pointer, with the value
    /// that follows the opcode.
    pub fn ld_rr_nn(&mut self, r: u8) -> (cycles: usize)
        requires
            old(self).wf(),
            r <= 3,
        ensures
            (final(self)@, cycles) == old(self)@.spec_ld_rr_nn(r),
            final(self).wf(),
    {
        let n: u16 = self.read_next_16();
        self.regs.set_combined_register(r, n);
        12
    }

    /// ADD HL,rr: adds a register pair, or the stack pointer, to HL.
    pub fn add_hl_rr(&mut self, r: u8) -> (cycles: usize)
        requires
            old(self).wf(),
            r <= 3,
        ensures
            (final(self)@, cycles) == old(self)@.spec_add_hl_rr(r),
            final(self).wf(),
    {
        let reg: u16 = self.regs.get_combined_register(r);
        self.regs.alu_add_hl(reg);
        8
    }

    /// LD (BC),A and LD (DE),A: stores the accumulator where the pair points.
    pub fn ld_rr_a(&mut self, r: u8) -> (cycles: usize)
        requires
            old(self).wf(),
            r <= 3,
        ensures
            (final(self)@, cycles) == old(self)@.spec_ld_rr_a(r),
            final(self).wf(),
    {
        let reg_val: u16 = self.regs.get_combined_register(r);
        self.mem_write(reg_val, self.regs.a);
        8
    }

    /// LD A,(BC) and LD A,(DE): loads the accumulator from where the pair
    /// points.
    pub fn ld_a_rr(&mut self, r: u8) -> (cycles: usize)
        requires
            old(self).wf(),
            r <= 3,
        ensures
            (final(self)@, cycles) == old(self)@.spec_ld_a_rr(r),
            final(self).wf(),
    {
        let reg_val: u16 = self.regs.get_combined_register(r);
        let memval: u8 = self.mem_read(reg_val);
        self.regs.a = memval;
        8
    }

    /// INC rr: adds one to a register pair or to the stack pointer; no flag
    /// changes.
    pub fn inc_rr(&mut self, r: u8) -> (cycles: usize)
        requires
            old(self).wf(),
            r <= 3,
        ensures
            (final(self)@, cycles) == old(self)@.spec_inc_rr(r),
            final(self).wf(),
    {
        let reg_val: u16 = self.regs.get_combined_register(r);
        self.regs.set_combined_register(r, reg_val.wrapping_add(1));
        8
    }

    /// DEC rr: takes one from a register pair or from the stack pointer; no
    /// flag changes.
    pub fn dec_rr(&mut self, r: u8) -> (cycles: usize)
        requires
            old(self).wf(),
            r <= 3,
        ensures
            (final(self)@, cycles) == old(self)@.spec_dec_rr(r),
            final(self).wf(),
    {
        let reg_val: u16 = self.regs.get_combined_register(r);
        self.regs.set_combined_register(r, reg_val.wrapping_sub(1));
        8
    }

    /// INC d: adds one to an 8-bit operand.
    pub fn inc_d(&mut self, d: u8) -> (cycles: usize)
        requires
            old(self).wf(),
            d <= 7,
        ensures
            (final(self)@, cycles) == old(self)@.spec_inc_d(d),
            final(self).wf(),
    {
        let mut val: u8 = self.get_singular_register(d);
        val = self.regs.alu_inc(val);
        self.set_singular_register(d, val);
        cycles_d(d, 4, 12)
    }

    /// DEC d: takes one from an 8-bit operand.
    pub fn dec_d(&mut self, d: u8) -> (cycles: usize)
        requires
            old(self).wf(),
            d <= 7,
        ensures
            (final(self)@, cycles) == old(self)@.spec_dec_d(d),
            final(self).wf(),
    {
        let mut val: u8 = self.get_singular_register(d);
        val = self.regs.alu_dec(val);
        self.set_singular_register(d, val);
        cycles_d(d, 4, 12)
    }

    /// LD d,n: loads an 8-bit operand with the byte that follows the opcode.
    pub fn ld_d_n(&mut self, d: u8) -> (cycles: usize)
        requires
            old(self).wf(),
            d <= 7,
        ensures
            (final(self)@, cycles) == old(self)@.spec_ld_d_n(d),
            final(self).wf(),
    {
        let val: u8 = self.read_next();
        self.set_singular_register(d, val);
        cycles_d(d, 8, 12)
    }

    /// RLCA, RRCA, RLA, RRA: rotates the accumulator; the zero flag becomes 0.
    pub fn rotate_a(&mut self, shift: Shift) -> (cycles: usize)
        requires
            old(self).wf(),
        ensures
            (final(self)@, cycles) == old(self)@.spec_rotate_a(shift),
            final(self).wf(),
    {
        self.regs.alu_rotate(shift);
        4
    }

    /// JR e: jumps by the signed byte that follows the opcode.
    pub fn jr(&mut self) -> (cycles: usize)
        requires
            old(self).wf(),
        ensures
            (final(self)@, cycles) == old(self)@.spec_jr(),
            final(self).wf(),
    {
        let disp: u8 = self.read_next();
        self.regs.pc = offset_address(self.regs.pc, disp);
        12
    }

    /// JR cc,e: jumps by the signed byte that follows the opcode if the
    /// condition holds.
    pub fn jr_cc(&mut self, condition: u8) -> (cycles: usize)
        requires
            old(self).wf(),
            condition <= 3,
        ensures
            (final(self)@, cycles) == old(self)@.spec_jr_cc(condition),
            final(self).wf(),
    {
        if self.regs.condition_met(condition) {
            self.jr()
        } else {
            let _disp: u8 = self.read_next();
            8
        }
    }

    /// LD (HL+),A and LD (HL-),A: stores the accumulator where HL points, then
    /// moves HL by one.
    pub fn ld_hl_step_a(&mut self, increment: bool) -> (cycles: usize)
        requires
            old(self).wf(),
        ensures
            (final(self)@, cycles) == old(self)@.spec_ld_hl_step_a(increment),
            final(self).wf(),
    {
        let mut hl: u16 = self.regs.get_hl();
        self.mem_write(hl, self.regs.a);
        if increment {
            hl = hl.wrapping_add(1)
        } else {
            hl = hl.wrapping_sub(1)
        }
        self.regs.set_hl(hl);
        8
    }

    /// LD A,(HL+) and LD A,(HL-): loads the accumulator from where HL points,
    /// then moves HL by one.
    pub fn ld_a_hl_step(&mut self, increment: bool) -> (cycles: usize)
        requires
            old(self).wf(),
        ensures
            (final(self)@, cycles) == old(self)@.spec_ld_a_hl_step(increment),
            final(self).wf(),
    {
        let mut hl: u16 = self.regs.get_hl();
        self.regs.a = self.mem_read(hl);
        if increment {
            hl = hl.wrapping_add(1)
        } else {
            hl = hl.wrapping_sub(1)
        }
        self.regs.set_hl(hl);
        8
    }

    /// DAA: decimal adjust of the accumulator.
    pub fn daa(&mut self) -> (cycles: usize)
        requires
            old(self).wf(),
        ensures
            (final(self)@, cycles) == old(self)@.spec_daa(),
            final(self).wf(),
    {
        self.regs.alu_daa();
        4
    }

    /// SCF: sets the carry flag; operation and half-carry become 0.
    pub fn scf(&mut self) -> (cycles: usize)
        requires
            old(self).wf(),
        ensures
            (final(self)@, cycles) == old(self)@.spec_scf(),
            final(self).wf(),
    {
        let zero: u8 = self.regs.get_zero_flag();
        self.regs.set_flags(zero, 0, 0, 1);
        4
    }

    /// CCF: inverts the carry flag; operation and half-carry become 0.
    pub fn ccf(&mut self) -> (cycles: usize)
        requires
            old(self).wf(),
        ensures
            (final(self)@, cycles) == old(self)@.spec_ccf(),
            final(self).wf(),
    {
        let zero: u8 = self.regs.get_zero_flag();
        let carry: u8 = self.regs.get_carry_flag();
        self.regs.set_flags(zero, 0, 0, 1 - carry);
        4
    }

    /// CPL: inverts every bit of the accumulator; operation and half-carry
    /// become 1.
    pub fn cpl(&mut self) -> (cycles: usize)
        requires
            old(self).wf(),
        ensures
            (final(self)@, cycles) == old(self)@.spec_cpl(),
            final(self).wf(),
    {
        let zero: u8 = self.regs.get_zero_flag();
        let carry: u8 = self.regs.get_carry_flag();
        self.regs.a = 255 - self.regs.a;
        self.regs.set_flags(zero, 1, 1, carry);
        4
    }

    /// LD d,d: copies one 8-bit operand to another.
    pub fn ld_d_d(&mut self, target: u8, source: u8) -> (cycles: usize)
        requires
            old(self).wf(),
            target <= 7,
            source <= 7,
        ensures
            (final(self)@, cycles) == old(self)@.spec_ld_d_d(target, source),
            final(self).wf(),
    {
        let reg_val: u8 = self.get_singular_register(source);
        self.set_singular_register(target, reg_val);
        if target == 6 || source == 6 {
            8
        } else {
            4
        }
    }

    /// HALT: waits until any interrupt is requested. While none is, the program
    /// counter stays on the instruction, so that it runs again.
    pub fn halt(&mut self) -> (cycles: usize)
        requires
            old(self).wf(),
        ensures
            (final(self)@, cycles) == old(self)@.spec_halt(),
            final(self).wf(),
    {
        if !self.ints.flag.any() {
            self.regs.pc = self.regs.pc.wrapping_sub(1);
        }
        4
    }

    /// An accumulator operation with an 8-bit operand.
    pub fn alu_a_d(&mut self, operation: u8, d: u8) -> (cycles: usize)
        requires
            old(self).wf(),
            operation <= 7,
            d <= 7,
        ensures
            (final(self)@, cycles) == old(self)@.spec_alu_a_d(operation, d),
            final(self).wf(),
    {
        let val: u8 = self.get_singular_register(d);
        self.regs.alu(operation, val);
        cycles_d(d, 4, 8)
    }

    /// An accumulator operation with the byte that follows the opcode.
    pub fn alu_a_n(&mut self, operation: u8) -> (cycles: usize)
        requires
            old(self).wf(),
            operation <= 7,
        ensures
            (final(self)@, cycles) == old(self)@.spec_alu_a_n(operation),
            final(self).wf(),
    {
        let val: u8 = self.read_next();
        self.regs.alu(operation, val);
        8
    }

    /// POP rr: pops a register pair, where 3 names AF.
    pub fn pop_rr(&mut self, r: u8) -> (cycles: usize)
        requires
            old(self).wf(),
            r <= 3,
        ensures
            (final(self)@, cycles) == old(self)@.spec_pop_rr(r),
            final(self).wf(),
    {
        let val: u16 = self.stack_pop();
        self.regs.set_combined_register_alt(r, val);
        12
    }

    /// PUSH rr: pushes a register pair, where 3 names AF.
    pub fn push_rr(&mut self, r: u8) -> (cycles: usize)
        requires
            old(self).wf(),
            r <= 3,
        ensures
            (final(self)@, cycles) == old(self)@.spec_push_rr(r),
            final(self).wf(),
    {
        let val: u16 = self.regs.get_combined_register_alt(r);
        self.stack_push(val);
        16
    }

    /// RST n: calls the fixed address `target`.
    pub fn rst(&mut self, target: u8) -> (cycles: usize)
        requires
            old(self).wf(),
        ensures
            (final(self)@, cycles) == old(self)@.spec_rst(target),
            final(self).wf(),
    {
        self.stack_push(self.regs.pc);
        self.regs.pc = target as u16;
        16
    }

    /// RET: returns to the address on top of the stack.
    pub fn ret(&mut self) -> (cycles: usize)
        requires
            old(self).wf(),
        ensures
            (final(self)@, cycles) == old(self)@.spec_ret(),
            final(self).wf(),
    {
        self.regs.pc = self.stack_pop();
        16
    }

    /// RET cc: returns if the condition holds.
    pub fn ret_cc(&mut self, condition: u8) -> (cycles: usize)
        requires
            old(self).wf(),
            condition <= 3,
        ensures
            (final(self)@, cycles) == old(self)@.spec_ret_cc(condition),
            final(self).wf(),
    {
        if self.regs.condition_met(condition) {
            self.regs.pc = self.stack_pop();
            20
        } else {
            8
        }
    }

    /// RETI: returns and sets the master interrupt enable at once.
    pub fn reti(&mut self) -> (cycles: usize)
        requires
            old(self).wf(),
        ensures
            (final(self)@, cycles) == old(self)@.spec_reti(),
            final(self).wf(),
    {
        self.regs.pc = self.stack_pop();
        self.ints.ime = true;
        16
    }

    /// JP nn: jumps to the address that follows the opcode.
    pub fn jp(&mut self) -> (cycles: usize)
        requires
            old(self).wf(),
        ensures
            (final(self)@, cycles) == old(self)@.spec_jp(),
            final(self).wf(),
    {
        let address: u16 = self.read_next_16();
        self.regs.pc = address;
        16
    }

    /// JP cc,nn: jumps to the address that follows the opcode if the condition
    /// holds.
    pub fn jp_cc(&mut self, condition: u8) -> (cycles: usize)
        requires
            old(self).wf(),
            condition <= 3,
        ensures
            (final(self)@, cycles) == old(self)@.spec_jp_cc(condition),
            final(self).wf(),
    {
        let address: u16 = self.read_next_16();
        if self.regs.condition_met(condition) {
            self.regs.pc = address;
            16
        } else {
            12
        }
    }

    /// CALL nn: pushes the address of the next instruction and jumps to the
    /// address that follows the opcode.
    pub fn call(&mut self) -> (cycles: usize)
        requires
            old(self).wf(),
        ensures
            (final(self)@, cycles) == old(self)@.spec_call(),
            final(self).wf(),
    {
        let address: u16 = self.read_next_16();
        self.stack_push(self.regs.pc);
        self.regs.pc = address;
        24
    }

    /// CALL cc,nn: calls if the condition holds.
    pub fn call_cc(&mut self, condition: u8) -> (cycles: usize)
        requires
            old(self).wf(),
            condition <= 3,
        ensures
            (final(self)@, cycles) == old(self)@.spec_call_cc(condition),
            final(self).wf(),
    {
        if self.regs.condition_met(condition) {
            self.call()
        } else {
            let _address: u16 = self.read_next_16();
            12
        }
    }

    /// ADD SP,e: adds the signed byte that follows the opcode to the stack
    /// pointer.
    pub fn add_sp_n(&mut self) -> (cycles: usize)
        requires
            old(self).wf(),
        ensures
            (final(self)@, cycles) == old(self)@.spec_add_sp_n(),
            final(self).wf(),
    {
        let imm: u8 = self.read_next();
        let sum: u16 = self.regs.alu_add_sp(imm);
        self.regs.sp = sum;
        16
    }

    /// LD HL,SP+e: loads HL with the stack pointer plus the signed byte that
    /// follows the opcode.
    pub fn ld_hl_sp_n(&mut self) -> (cycles: usize)
        requires
            old(self).wf(),
        ensures
            (final(self)@, cycles) == old(self)@.spec_ld_hl_sp_n(),
            final(self).wf(),
    {
        let imm: u8 = self.read_next();
        let sum: u16 = self.regs.alu_add_sp(imm);
        self.regs.set_hl(sum);
        12
    }

    /// LD (FF00+n),A: stores the accumulator in the high page.
    pub fn ldh_n_a(&mut self) -> (cycles: usize)
        requires
            old(self).wf(),
        ensures
            (final(self)@, cycles) == old(self)@.spec_ldh_n_a(),
            final(self).wf(),
    {
        let imm: u8 = self.read_next();
        let a: u8 = self.regs.a;
        self.mem_write(0xFF00 + imm as u16, a);
        12
    }

    /// LD A,(FF00+n): loads the accumulator from the high page.
    pub fn ldh_a_n(&mut self) -> (cycles: usize)
        requires
            old(self).wf(),
        ensures
            (final(self)@, cycles) == old(self)@.spec_ldh_a_n(),
            final(self).wf(),
    {
        let imm: u8 = self.read_next();
        let val: u8 = self.mem_read(0xFF00 + imm as u16);
        self.regs.a = val;
        12
    }

    /// LD (FF00+C),A: stores the accumulator in the high page at offset C.
    pub fn ldh_c_a(&mut self) -> (cycles: usize)
        requires
            old(self).wf(),
        ensures
            (final(self)@, cycles) == old(self)@.spec_ldh_c_a(),
            final(self).wf(),
    {
        self.mem_write(0xFF00 + self.regs.c as u16, self.regs.a);
        8
    }

    /// LD A,(FF00+C): loads the accumulator from the high page at offset C.
    pub fn ldh_a_c(&mut self) -> (cycles: usize)
        requires
            old(self).wf(),
        ensures
            (final(self)@, cycles) == old(self)@.spec_ldh_a_c(),
            final(self).wf(),
    {
        self.regs.a = self.mem_read(0xFF00 + self.regs.c as u16);
        8
    }

    /// LD (nn),A: stores the accumulator at the address that follows the
    /// opcode.
    pub fn ld_nn_a(&mut self) -> (cycles: usize)
        requires
            old(self).wf(),
        ensures
            (final(self)@, cycles) == old(self)@.spec_ld_nn_a(),
            final(self).wf(),
    {
        let imm: u16 = self.read_next_16();
        self.mem_write(imm, self.regs.a);
        16
    }

    /// LD A,(nn): loads the accumulator from the address that follows the
    /// opcode.
    pub fn ld_a_nn(&mut self) -> (cycles: usize)
        requires
            old(self).wf(),
        ensures
            (final(self)@, cycles) == old(self)@.spec_ld_a_nn(),
            final(self).wf(),
    {
        let imm: u16 = self.read_next_16();
        self.regs.a = self.mem_read(imm);
        16
    }

    /// JP HL: jumps to the address in HL.
    pub fn jp_hl(&mut self) -> (cycles: usize)
        requires
            old(self).wf(),
        ensures
            (final(self)@, cycles) == old(self)@.spec_jp_hl(),
            final(self).wf(),
    {
        self.regs.pc = self.regs.get_hl();
        4
    }

    /// LD SP,HL: loads the stack pointer with HL.
    pub fn ld_sp_hl(&mut self) -> (cycles: usize)
        requires
            old(self).wf(),
        ensures
            (final(self)@, cycles) == old(self)@.spec_ld_sp_hl(),
            final(self).wf(),
    {
        self.regs.sp = self.regs.get_hl();
        8
    }

    /// DI: clears the master interrupt enable and a pending enable at once.
    pub fn di(&mut self) -> (cycles: usize)
        requires
            old(self).wf(),
        ensures
            (final(self)@, cycles) == old(self)@.spec_di(),
            final(self).wf(),
    {
        self.ints.ime = false;
        self.ime_on_pending = false;
        4
    }

    /// EI: asks for interrupts to be enabled once the next instruction has
    /// completed.
    pub fn ei(&mut self) -> (cycles: usize)
        requires
            old(self).wf(),
        ensures
            (final(self)@, cycles) == old(self)@.spec_ei(),
            final(self).wf(),
    {
        self.ime_on_pending = true;
        4
    }

    /// A rotate, shift or swap of an 8-bit operand.
    pub fn shift_d(&mut self, shift: Shift, d: u8) -> (cycles: usize)
        requires
            old(self).wf(),
            d <= 7,
        ensures
            (final(self)@, cycles) == old(self)@.spec_shift_d(shift, d),
            final(self).wf(),
    {
        let reg_val: u8 = self.get_singular_register(d);
        let result: u8 = self.regs.alu_shift(shift, reg_val);
        self.set_singular_register(d, result);
        cycles_d(d, 8, 16)
    }

    /// BIT n,d: tests a bit of an 8-bit operand.
    pub fn bit_d(&mut self, bit: u8, d: u8) -> (cycles: usize)
        requires
            old(self).wf(),
            bit <= 7,
            d <= 7,
        ensures
            (final(self)@, cycles) == old(self)@.spec_bit_d(bit, d),
            final(self).wf(),
    {
        let val: u8 = self.get_singular_register(d);
        self.regs.alu_bit(bit, val);
        cycles_d(d, 8, 12)
    }

    /// RES n,d and SET n,d: clears or sets a bit of an 8-bit operand.
    pub fn set_bit_d(&mut self, bit: u8, d: u8, value: u8) -> (cycles: usize)
        requires
            old(self).wf(),
            bit <= 7,
            d <= 7,
            value <= 1,
        ensures
            (final(self)@, cycles) == old(self)@.spec_set_bit_d(bit, d, value),
            final(self).wf(),
    {
        let mut val: u8 = self.get_singular_register(d);
        set_bit(&mut val, bit, value);
        self.set_singular_register(d, val);
        cycles_d(d, 8, 16)
    }
}

} // verus!
