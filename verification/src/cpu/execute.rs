//! Decoding: which instruction an opcode names.
//!
//! The two high bits of the opcode choose one of four blocks. Inside a block
//! bits 5 to 3 name an 8-bit operand, an operation or a condition, bits 5 and 4
//! a register pair, and bits 2 to 0 an 8-bit operand or the instruction itself.
use vstd::prelude::*;
use crate::cpu::alu::Shift;
use crate::cpu::{Cpu, CpuView};

verus! {

/// Whether `op` is the first byte of an instruction. Eleven opcodes are not.
pub open spec fn spec_opcode_defined(op: u8) -> bool {
    op != 0xD3 && op != 0xDB && op != 0xDD && op != 0xE3 && op != 0xE4 && op != 0xEB && op != 0xEC && op
        != 0xED && op != 0xF4 && op != 0xFC && op != 0xFD
}

/// Whether `op` is the first byte of an instruction.
pub fn opcode_defined(op: u8) -> (r: bool)
    ensures
        r == spec_opcode_defined(op),
{
    op != 0xD3 && op != 0xDB && op != 0xDD && op != 0xE3 && op != 0xE4 && op != 0xEB && op != 0xEC && op
        != 0xED && op != 0xF4 && op != 0xFC && op != 0xFD
}

impl CpuView {
    /// The machine and the cycles after the instruction with opcode `op` below
    /// 0x40: loads of constants, 16-bit arithmetic, increments and decrements,
    /// relative jumps and the operations on the accumulator alone.
    pub open spec fn spec_execute_block0(self, op: u8) -> (CpuView, usize) {
        let low = op % 8;
        let r = (op / 16) % 4;
        let d = (op / 8) % 8;
        let odd = (op / 8) % 2 == 1;
        if low == 0 {
            if op == 0x00 || op == 0x10 {
                self.spec_nop()
            } else if op == 0x08 {
                self.spec_ld_nn_sp()
            } else if op == 0x18 {
                self.spec_jr()
            } else {
                self.spec_jr_cc(d % 4)
            }
        } else if low == 1 {
            if !odd {
                self.spec_ld_rr_nn(r)
            } else {
                self.spec_add_hl_rr(r)
            }
        } else if low == 2 {
            if op < 0x20 {
                if !odd {
                    self.spec_ld_rr_a(r)
                } else {
                    self.spec_ld_a_rr(r)
                }
            } else if !odd {
                self.spec_ld_hl_step_a(op < 0x30)
            } else {
                self.spec_ld_a_hl_step(op < 0x30)
            }
        } else if low == 3 {
            if !odd {
                self.spec_inc_rr(r)
            } else {
                self.spec_dec_rr(r)
            }
        } else if low == 4 {
            self.spec_inc_d(d)
        } else if low == 5 {
            self.spec_dec_d(d)
        } else if low == 6 {
            self.spec_ld_d_n(d)
        } else if op < 0x20 {
            self.spec_rotate_a(Shift::spec_from_code(d))
        } else if op == 0x27 {
            self.spec_daa()
        } else if op == 0x2F {
            self.spec_cpl()
        } else if op == 0x37 {
            self.spec_scf()
        } else {
            self.spec_ccf()
        }
    }

    /// The machine and the cycles after the instruction with opcode `op` from
    /// 0x40 to 0xBF: the loads between 8-bit operands, HALT in the place of the
    /// load from the byte at HL to itself, and the accumulator operations.
    pub open spec fn spec_execute_block12(self, op: u8) -> (CpuView, usize) {
        if op == 0x76 {
            self.spec_halt()
        } else if op < 0x80 {
            self.spec_ld_d_d((op / 8) % 8, op % 8)
        } else {
            self.spec_alu_a_d((op / 8) % 8, op % 8)
        }
    }

    /// The machine and the cycles after the instruction with opcode `op` from
    /// 0xC0 on, for the opcodes whose three low bits are at most 2: returns,
    /// pops, absolute jumps and the loads through an address.
    pub open spec fn spec_execute_block3_low(self, op: u8) -> (CpuView, usize) {
        let low = op % 8;
        if low == 0 {
            if op < 0xE0 {
                self.spec_ret_cc((op / 8) % 4)
            } else if op == 0xE0 {
                self.spec_ldh_n_a()
            } else if op == 0xE8 {
                self.spec_add_sp_n()
            } else if op == 0xF0 {
                self.spec_ldh_a_n()
            } else {
                self.spec_ld_hl_sp_n()
            }
        } else if low == 1 {
            if (op / 8) % 2 == 0 {
                self.spec_pop_rr((op / 16) % 4)
            } else if op == 0xC9 {
                self.spec_ret()
            } else if op == 0xD9 {
                self.spec_reti()
            } else if op == 0xE9 {
                self.spec_jp_hl()
            } else {
                self.spec_ld_sp_hl()
            }
        } else if op < 0xE0 {
            self.spec_jp_cc((op / 8) % 4)
        } else if op == 0xE2 {
            self.spec_ldh_c_a()
        } else if op == 0xEA {
            self.spec_ld_nn_a()
        } else if op == 0xF2 {
            self.spec_ldh_a_c()
        } else {
            self.spec_ld_a_nn()
        }
    }

    /// The machine and the cycles after the instruction with the defined
    /// opcode `op` from 0xC0 on, for the opcodes whose three low bits are at
    /// least 3: the unconditional jump, the extended instructions, the
    /// interrupt switches, calls, pushes, accumulator operations with a
    /// constant and restarts.
    pub open spec fn spec_execute_block3_high(self, op: u8) -> (CpuView, usize) {
        let low = op % 8;
        if low == 3 {
            if op == 0xC3 {
                self.spec_jp()
            } else if op == 0xCB {
                self.spec_skip(1).spec_execute_cb(self.spec_imm8())
            } else if op == 0xF3 {
                self.spec_di()
            } else {
                self.spec_ei()
            }
        } else if low == 4 {
            self.spec_call_cc((op / 8) % 4)
        } else if low == 5 {
            if op == 0xCD {
                self.spec_call()
            } else {
                self.spec_push_rr((op / 16) % 4)
            }
        } else if low == 6 {
            self.spec_alu_a_n((op / 8) % 8)
        } else {
            self.spec_rst((op - 0xC7) as u8)
        }
    }

    /// The machine and the cycles after the extended instruction with second
    /// byte `op`: a shift, a bit test, a bit clear or a bit set, by its two high
    /// bits; bits 5 to 3 name the shift or the bit, bits 2 to 0 the operand.
    pub open spec fn spec_execute_cb(self, op: u8) -> (CpuView, usize) {
        if op < 0x40 {
            self.spec_shift_d(Shift::spec_from_code((op / 8) % 8), op % 8)
        } else if op < 0x80 {
            self.spec_bit_d((op / 8) % 8, op % 8)
        } else if op < 0xC0 {
            self.spec_set_bit_d((op / 8) % 8, op % 8, 0)
        } else {
            self.spec_set_bit_d((op / 8) % 8, op % 8, 1)
        }
    }

    /// The machine and the cycles after the instruction with the defined
    /// opcode `op`, whose opcode byte has been fetched.
    pub open spec fn spec_execute(self, op: u8) -> (CpuView, usize) {
        if op < 0x40 {
            self.spec_execute_block0(op)
        } else if op < 0xC0 {
            self.spec_execute_block12(op)
        } else if op % 8 <= 2 {
            self.spec_execute_block3_low(op)
        } else {
            self.spec_execute_block3_high(op)
        }
    }
}

/// An instruction takes at least 4 and at most 24 cycles, and a whole number
/// of machine cycles of 4.
pub proof fn lemma_execute_cycles(cpu: CpuView, op: u8)
    ensures
        4 <= cpu.spec_execute(op).1 <= 24,
        cpu.spec_execute(op).1 % 4 == 0,
{
    if op < 0x40 {
        assert(4 <= cpu.spec_execute_block0(op).1 <= 24 && cpu.spec_execute_block0(op).1 % 4 == 0);
    } else if op < 0xC0 {
        assert(4 <= cpu.spec_execute_block12(op).1 <= 24 && cpu.spec_execute_block12(op).1 % 4 == 0);
    } else if op % 8 <= 2 {
        assert(4 <= cpu.spec_execute_block3_low(op).1 <= 24 && cpu.spec_execute_block3_low(op).1 % 4 == 0);
    } else {
        assert(4 <= cpu.spec_execute_block3_high(op).1 <= 24 && cpu.spec_execute_block3_high(op).1 % 4
            == 0);
    }
}

impl Cpu {
    /// Executes the instruction with opcode `op` below 0x40.
    pub fn execute_block0(&mut self, op: u8) -> (cycles: usize)
        requires
            old(self).wf(),
            op < 0x40,
        ensures
            (final(self)@, cycles) == old(self)@.spec_execute_block0(op),
            final(self).wf(),
            4 <= cycles <= 24,
            cycles % 4 == 0,
    {
        let low: u8 = op % 8;
        let r: u8 = (op / 16) % 4;
        let d: u8 = (op / 8) % 8;
        let odd: bool = (op / 8) % 2 == 1;
        if low == 0 {
            if op == 0x00 || op == 0x10 {
                self.nop()
            } else if op == 0x08 {
                self.ld_nn_sp()
            } else if op == 0x18 {
                self.jr()
            } else {
                self.jr_cc(d % 4)
            }
        } else if low == 1 {
            if !odd {
                self.ld_rr_nn(r)
            } else {
                self.add_hl_rr(r)
            }
        } else if low == 2 {
            if op < 0x20 {
                if !odd {
                    self.ld_rr_a(r)
                } else {
                    self.ld_a_rr(r)
                }
            } else if !odd {
                self.ld_hl_step_a(op < 0x30)
            } else {
                self.ld_a_hl_step(op < 0x30)
            }
        } else if low == 3 {
            if !odd {
                self.inc_rr(r)
            } else {
                self.dec_rr(r)
            }
        } else if low == 4 {
            self.inc_d(d)
        } else if low == 5 {
            self.dec_d(d)
        } else if low == 6 {
            self.ld_d_n(d)
        } else if op < 0x20 {
            self.rotate_a(Shift::from_code(d))
        } else if op == 0x27 {
            self.daa()
        } else if op == 0x2F {
            self.cpl()
        } else if op == 0x37 {
            self.scf()
        } else {
            self.ccf()
        }
    }

    /// Executes the instruction with opcode `op` from 0x40 to 0xBF.
    pub fn execute_block12(&mut self, op: u8) -> (cycles: usize)
        requires
            old(self).wf(),
            0x40 <= op < 0xC0,
        ensures
            (final(self)@, cycles) == old(self)@.spec_execute_block12(op),
            final(self).wf(),
            4 <= cycles <= 24,
            cycles % 4 == 0,
    {
        if op == 0x76 {
            self.halt()
        } else if op < 0x80 {
            self.ld_d_d((op / 8) % 8, op % 8)
        } else {
            self.alu_a_d((op / 8) % 8, op % 8)
        }
    }

    /// Executes the instruction with opcode `op` from 0xC0 on whose three low
    /// bits are at most 2.
    pub fn execute_block3_low(&mut self, op: u8) -> (cycles: usize)
        requires
            old(self).wf(),
            op >= 0xC0,
            op % 8 <= 2,
        ensures
            (final(self)@, cycles) == old(self)@.spec_execute_block3_low(op),
            final(self).wf(),
            4 <= cycles <= 24,
            cycles % 4 == 0,
    {
        let low: u8 = op % 8;
        if low == 0 {
            if op < 0xE0 {
                self.ret_cc((op / 8) % 4)
            } else if op == 0xE0 {
                self.ldh_n_a()
            } else if op == 0xE8 {
                self.add_sp_n()
            } else if op == 0xF0 {
                self.ldh_a_n()
            } else {
                self.ld_hl_sp_n()
            }
        } else if low == 1 {
            if (op / 8) % 2 == 0 {
                self.pop_rr((op / 16) % 4)
            } else if op == 0xC9 {
                self.ret()
            } else if op == 0xD9 {
                self.reti()
            } else if op == 0xE9 {
                self.jp_hl()
            } else {
                self.ld_sp_hl()
            }
        } else if op < 0xE0 {
            self.jp_cc((op / 8) % 4)
        } else if op == 0xE2 {
            self.ldh_c_a()
        } else if op == 0xEA {
            self.ld_nn_a()
        } else if op == 0xF2 {
            self.ldh_a_c()
        } else {
            self.ld_a_nn()
        }
    }

    /// Executes the instruction with the defined opcode `op` from 0xC0 on
    /// whose three low bits are at least 3.
    pub fn execute_block3_high(&mut self, op: u8) -> (cycles: usize)
        requires
            old(self).wf(),
            op >= 0xC0,
            op % 8 >= 3,
            spec_opcode_defined(op),
        ensures
            (final(self)@, cycles) == old(self)@.spec_execute_block3_high(op),
            final(self).wf(),
            4 <= cycles <= 24,
            cycles % 4 == 0,
    {
        let low: u8 = op % 8;
        if low == 3 {
            if op == 0xC3 {
                self.jp()
            } else if op == 0xCB {
                let op2: u8 = self.read_next();
                self.execute_cb(op2)
            } else if op == 0xF3 {
                self.di()
            } else {
                self.ei()
            }
        } else if low == 4 {
            self.call_cc((op / 8) % 4)
        } else if low == 5 {
            if op == 0xCD {
                self.call()
            } else {
                self.push_rr((op / 16) % 4)
            }
        } else if low == 6 {
            self.alu_a_n((op / 8) % 8)
        } else {
            self.rst(op - 0xC7)
        }
    }

    /// Executes the extended instruction with second byte `op`.
    pub fn execute_cb(&mut self, op: u8) -> (cycles: usize)
        requires
            old(self).wf(),
        ensures
            (final(self)@, cycles) == old(self)@.spec_execute_cb(op),
            final(self).wf(),
            8 <= cycles <= 16,
            cycles % 4 == 0,
    {
        let v_n: u8 = (op / 8) % 8;
        let v_d: u8 = op % 8;
        if op < 0x40 {
            self.shift_d(Shift::from_code(v_n), v_d)
        } else if op < 0x80 {
            self.bit_d(v_n, v_d)
        } else if op < 0xC0 {
            self.set_bit_d(v_n, v_d, 0)
        } else {
            self.set_bit_d(v_n, v_d, 1)
        }
    }

    /// Executes the instruction with the defined opcode `op`, whose opcode
    /// byte has been fetched, and returns the cycles that it takes.
    pub fn execute(&mut self, op: u8) -> (cycles: usize)
        requires
            old(self).wf(),
            spec_opcode_defined(op),
        ensures
            (final(self)@, cycles) == old(self)@.spec_execute(op),
            final(self).wf(),
            4 <= cycles <= 24,
            cycles % 4 == 0,
    {
        if op < 0x40 {
            self.execute_block0(op)
        } else if op < 0xC0 {
            self.execute_block12(op)
        } else if op % 8 <= 2 {
            self.execute_block3_low(op)
        } else {
            self.execute_block3_high(op)
        }
    }
}

} // verus!
