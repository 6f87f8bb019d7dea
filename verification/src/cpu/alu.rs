//! The arithmetic and logic of the processor: what each operation computes and
//! how it sets the four flags.
use vstd::prelude::*;
use crate::helpers::{set_bit, spec_set_bit};
use crate::registers::Registers;

verus! {

pub const ALU_ADD: u8 = 0;

pub const ALU_ADC: u8 = 1;

pub const ALU_SUB: u8 = 2;

pub const ALU_SBC: u8 = 3;

pub const ALU_AND: u8 = 4;

pub const ALU_XOR: u8 = 5;

pub const ALU_OR: u8 = 6;

pub const ALU_CP: u8 = 7;

/// 1 if `condition` holds, else 0.
pub open spec fn spec_flag_of(condition: bool) -> u8 {
    if condition {
        1
    } else {
        0
    }
}

/// 1 if `condition` holds, else 0.
pub fn flag_of(condition: bool) -> (r: u8)
    ensures
        r == spec_flag_of(condition),
        r <= 1,
{
    if condition {
        1
    } else {
        0
    }
}

/// `value` reduced to a byte: its remainder modulo 256.
pub open spec fn spec_wrap8(value: int) -> u8 {
    (value % 256) as u8
}

/// `value` reduced to 16 bits: its remainder modulo 65536.
pub open spec fn spec_wrap16(value: int) -> u16 {
    (value % 65536) as u16
}

/// The signed value of a byte in two's complement.
pub open spec fn spec_signed(byte: u8) -> int {
    if byte < 128 {
        byte as int
    } else {
        byte - 256
    }
}

/// `base` moved by the signed byte `offset`, wrapping around.
pub open spec fn spec_offset(base: u16, offset: u8) -> u16 {
    spec_wrap16(base + spec_signed(offset))
}

/// `base` moved by the signed byte `offset`, wrapping around.
pub fn offset_address(base: u16, offset: u8) -> (r: u16)
    ensures
        r == spec_offset(base, offset),
{
    if offset < 128 {
        base.wrapping_add(offset as u16)
    } else {
        base.wrapping_sub(256 - offset as u16)
    }
}

/// What a rotate or shift of the extended instruction set computes.
#[derive(Clone, Copy, PartialEq, Eq, Structural, Debug)]
pub enum Shift {
    /// Rotate left; bit 7 goes to bit 0 and to carry.
    Rlc,
    /// Rotate right; bit 0 goes to bit 7 and to carry.
    Rrc,
    /// Rotate left through carry.
    Rl,
    /// Rotate right through carry.
    Rr,
    /// Shift left; bit 0 becomes 0.
    Sla,
    /// Shift right; bit 7 is kept.
    Sra,
    /// Exchange the two nibbles.
    Swap,
    /// Shift right; bit 7 becomes 0.
    Srl,
}

impl Shift {
    /// The shift that field `code` (bits 5 to 3 of the second opcode byte) names.
    pub open spec fn spec_from_code(code: u8) -> Shift {
        if code == 0 {
            Shift::Rlc
        } else if code == 1 {
            Shift::Rrc
        } else if code == 2 {
            Shift::Rl
        } else if code == 3 {
            Shift::Rr
        } else if code == 4 {
            Shift::Sla
        } else if code == 5 {
            Shift::Sra
        } else if code == 6 {
            Shift::Swap
        } else {
            Shift::Srl
        }
    }

    /// The result of this shift of `n` with carry flag `carry`.
    pub open spec fn spec_value(self, n: u8, carry: u8) -> u8 {
        match self {
            Shift::Rlc => ((n % 128) * 2 + n / 128) as u8,
            Shift::Rrc => (n / 2 + (n % 2) * 128) as u8,
            Shift::Rl => ((n % 128) * 2 + carry) as u8,
            Shift::Rr => (n / 2 + carry * 128) as u8,
            Shift::Sla => ((n % 128) * 2) as u8,
            Shift::Sra => (n / 2 + (n / 128) * 128) as u8,
            Shift::Swap => ((n % 16) * 16 + n / 16) as u8,
            Shift::Srl => n / 2,
        }
    }

    /// The carry flag after this shift of `n`: the bit that left the byte, and 0
    /// after a swap.
    pub open spec fn spec_carry(self, n: u8) -> u8 {
        match self {
            Shift::Rlc | Shift::Rl | Shift::Sla => n / 128,
            Shift::Rrc | Shift::Rr | Shift::Sra | Shift::Srl => n % 2,
            Shift::Swap => 0,
        }
    }

    /// The shift that field `code` names.
    pub fn from_code(code: u8) -> (r: Shift)
        ensures
            r == Shift::spec_from_code(code),
    {
        match code {
            0 => Shift::Rlc,
            1 => Shift::Rrc,
            2 => Shift::Rl,
            3 => Shift::Rr,
            4 => Shift::Sla,
            5 => Shift::Sra,
            6 => Shift::Swap,
            _ => Shift::Srl,
        }
    }
}

impl Registers {
    /// The value that the accumulator operation `operation` computes from the
    /// accumulator and `n`. Compare computes a difference that it does not keep.
    pub open spec fn spec_alu_value(self, operation: u8, n: u8) -> u8 {
        if operation == ALU_ADD {
            spec_wrap8(self.a + n)
        } else if operation == ALU_ADC {
            spec_wrap8(self.a + n + self.spec_carry_flag())
        } else if operation == ALU_SUB || operation == ALU_CP {
            spec_wrap8(self.a - n)
        } else if operation == ALU_SBC {
            spec_wrap8(self.a - n - self.spec_carry_flag())
        } else if operation == ALU_AND {
            self.a & n
        } else if operation == ALU_XOR {
            self.a ^ n
        } else {
            self.a | n
        }
    }

    /// The half-carry flag after accumulator operation `operation` with `n`: a
    /// carry out of, or a borrow into, the low nibble; 1 after AND.
    pub open spec fn spec_alu_half_carry(self, operation: u8, n: u8) -> bool {
        if operation == ALU_ADD {
            self.a % 16 + n % 16 > 0x0F
        } else if operation == ALU_ADC {
            self.a % 16 + n % 16 + self.spec_carry_flag() > 0x0F
        } else if operation == ALU_SUB || operation == ALU_CP {
            self.a % 16 < n % 16
        } else if operation == ALU_SBC {
            self.a % 16 < n % 16 + self.spec_carry_flag()
        } else {
            operation == ALU_AND
        }
    }

    /// The carry flag after accumulator operation `operation` with `n`: a carry
    /// out of, or a borrow into, the byte; 0 after a logical operation.
    pub open spec fn spec_alu_carry(self, operation: u8, n: u8) -> bool {
        if operation == ALU_ADD {
            self.a + n > 0xFF
        } else if operation == ALU_ADC {
            self.a + n + self.spec_carry_flag() > 0xFF
        } else if operation == ALU_SUB || operation == ALU_CP {
            self.a < n
        } else if operation == ALU_SBC {
            self.a < n + self.spec_carry_flag()
        } else {
            false
        }
    }

    /// The registers after accumulator operation `operation` with `n`: ADD,
    /// ADC, SUB, SBC, AND, XOR, OR or CP, by number. The zero flag tells whether
    /// the value is 0; the operation flag is set by the three subtractions.
    pub open spec fn spec_alu(self, operation: u8, n: u8) -> Registers {
        Registers {
            a: if operation == ALU_CP {
                self.a
            } else {
                self.spec_alu_value(operation, n)
            },
            ..self.spec_set_flags(
                spec_flag_of(self.spec_alu_value(operation, n) == 0),
                spec_flag_of(operation == ALU_SUB || operation == ALU_SBC || operation == ALU_CP),
                spec_flag_of(self.spec_alu_half_carry(operation, n)),
                spec_flag_of(self.spec_alu_carry(operation, n)),
            )
        }
    }

    /// The flags after an 8-bit increment of `n`; carry is kept.
    pub open spec fn spec_alu_inc(self, n: u8) -> Registers {
        self.spec_set_flags(
            spec_flag_of(spec_wrap8(n + 1) == 0),
            0,
            spec_flag_of(n % 16 + 1 > 0x0F),
            self.spec_carry_flag(),
        )
    }

    /// The flags after an 8-bit decrement of `n`; carry is kept.
    pub open spec fn spec_alu_dec(self, n: u8) -> Registers {
        self.spec_set_flags(
            spec_flag_of(spec_wrap8(n - 1) == 0),
            1,
            spec_flag_of(n % 16 == 0),
            self.spec_carry_flag(),
        )
    }

    /// The registers after `n` has been added to HL; zero is kept, and the
    /// half-carry is the carry out of bit 11.
    pub open spec fn spec_alu_add_hl(self, n: u16) -> Registers {
        self.spec_set_flags(
            self.spec_zero_flag(),
            0,
            spec_flag_of(self.spec_hl() % 0x1000 + n % 0x1000 > 0x0FFF),
            spec_flag_of(self.spec_hl() + n > 0xFFFF),
        ).spec_set_hl(spec_wrap16(self.spec_hl() + n))
    }

    /// The flags after the stack pointer has been added to the signed byte
    /// `imm`: zero and operation are 0, and half-carry and carry are the
    /// carries out of bit 3 and bit 7 of the unsigned sum of the low bytes.
    pub open spec fn spec_alu_sp_flags(self, imm: u8) -> Registers {
        self.spec_set_flags(
            0,
            0,
            spec_flag_of(self.sp % 16 + imm % 16 > 0x0F),
            spec_flag_of(self.sp % 256 + imm > 0xFF),
        )
    }

    /// The flags after a shift of `n` in the extended instruction set.
    pub open spec fn spec_alu_shift(self, shift: Shift, n: u8) -> Registers {
        self.spec_set_flags(
            spec_flag_of(shift.spec_value(n, self.spec_carry_flag()) == 0),
            0,
            0,
            shift.spec_carry(n),
        )
    }

    /// The registers after one of the four rotates of the accumulator: as the
    /// shift, but with the zero flag always 0.
    pub open spec fn spec_alu_rotate(self, shift: Shift) -> Registers {
        Registers {
            a: shift.spec_value(self.a, self.spec_carry_flag()),
            ..self.spec_set_flags(0, 0, 0, shift.spec_carry(self.a))
        }
    }

    /// The correction that decimal adjust applies: 6 for the low digit if
    /// half-carry is set or, after an addition, the digit is above 9; 0x60 for
    /// the high digit if carry is set or, after an addition, the value is above
    /// 0x99.
    pub open spec fn spec_daa_adjust(self) -> u8 {
        ((if self.spec_half_carry_flag() == 1 || (self.spec_operation_flag() == 0 && self.a % 16 > 9) {
            6int
        } else {
            0
        }) + (if self.spec_carry_flag() == 1 || (self.spec_operation_flag() == 0 && self.a > 0x99) {
            0x60int
        } else {
            0
        })) as u8
    }

    /// The registers after decimal adjust: the correction is added after an
    /// addition and subtracted after a subtraction; carry tells whether the high
    /// digit was corrected, half-carry is 0, the operation flag is kept.
    pub open spec fn spec_alu_daa(self) -> Registers {
        let a = if self.spec_operation_flag() == 0 {
            spec_wrap8(self.a + self.spec_daa_adjust())
        } else {
            spec_wrap8(self.a - self.spec_daa_adjust())
        };
        Registers {
            a,
            ..self.spec_set_flags(
                spec_flag_of(a == 0),
                self.spec_operation_flag(),
                0,
                spec_flag_of(self.spec_daa_adjust() >= 0x60),
            )
        }
    }

    /// The flags after a test of bit `bit` of `n`: zero tells that the bit is
    /// clear, operation is 0, half-carry 1, carry is kept.
    pub open spec fn spec_alu_bit(self, bit: u8, n: u8) -> Registers {
        self.spec_set_flags(spec_flag_of(n & (1u8 << bit) == 0), 0, 1, self.spec_carry_flag())
    }

    /// Whether the jump condition that field `condition` names holds: not zero,
    /// zero, no carry, carry.
    pub open spec fn spec_condition_met(self, condition: u8) -> bool {
        if condition == 0 {
            self.spec_zero_flag() == 0
        } else if condition == 1 {
            self.spec_zero_flag() == 1
        } else if condition == 2 {
            self.spec_carry_flag() == 0
        } else {
            self.spec_carry_flag() == 1
        }
    }

    /// One of the eight operations on the accumulator.
    pub fn alu(&mut self, operation: u8, n: u8)
        requires
            operation <= 7,
        ensures
            *final(self) == old(self).spec_alu(operation, n),
            old(self).wf() ==> final(self).wf(),
    {
        if operation == ALU_ADD || operation == ALU_ADC {
            self.alu_addition(operation, n);
        } else if operation == ALU_SUB || operation == ALU_SBC || operation == ALU_CP {
            self.alu_subtraction(operation, n);
        } else {
            self.alu_logic(operation, n);
        }
    }

    /// ADD or ADC.
    fn alu_addition(&mut self, operation: u8, n: u8)
        requires
            operation == ALU_ADD || operation == ALU_ADC,
        ensures
            *final(self) == old(self).spec_alu(operation, n),
            old(self).wf() ==> final(self).wf(),
    {
        let a: u8 = self.a;
        let c: u8 = if operation == ALU_ADC {
            self.get_carry_flag()
        } else {
            0
        };
        let sum: u16 = a as u16 + n as u16 + c as u16;
        let res: u8 = (sum % 256) as u8;
        self.set_flags(flag_of(res == 0), 0, flag_of(a % 16 + n % 16 + c > 0x0F), flag_of(sum > 0xFF));
        self.a = res;
    }

    /// SUB, SBC or CP.
    fn alu_subtraction(&mut self, operation: u8, n: u8)
        requires
            operation == ALU_SUB || operation == ALU_SBC || operation == ALU_CP,
        ensures
            *final(self) == old(self).spec_alu(operation, n),
            old(self).wf() ==> final(self).wf(),
    {
        let a: u8 = self.a;
        let c: u8 = if operation == ALU_SBC {
            self.get_carry_flag()
        } else {
            0
        };
        let taken: u16 = n as u16 + c as u16;
        let res: u8 = if a as u16 >= taken {
            (a as u16 - taken) as u8
        } else {
            (a as u16 + 256 - taken) as u8
        };
        self.set_flags(flag_of(res == 0), 1, flag_of(a % 16 < n % 16 + c), flag_of((a as u16) < taken));
        if operation != ALU_CP {
            self.a = res;
        }
    }

    /// AND, XOR or OR.
    fn alu_logic(&mut self, operation: u8, n: u8)
        requires
            operation == ALU_AND || operation == ALU_XOR || operation == ALU_OR,
        ensures
            *final(self) == old(self).spec_alu(operation, n),
            old(self).wf() ==> final(self).wf(),
    {
        let res: u8 = if operation == ALU_AND {
            self.a & n
        } else if operation == ALU_XOR {
            self.a ^ n
        } else {
            self.a | n
        };
        self.set_flags(flag_of(res == 0), 0, flag_of(operation == ALU_AND), 0);
        self.a = res;
    }

    /// An 8-bit decrement of `n`: returns the value and sets the flags.
    pub fn alu_dec(&mut self, n: u8) -> (r: u8)
        ensures
            r == spec_wrap8(n - 1),
            *final(self) == old(self).spec_alu_dec(n),
            old(self).wf() ==> final(self).wf(),
    {
        let r: u8 = n.wrapping_sub(1);
        let carry: u8 = self.get_carry_flag();
        self.set_flags(flag_of(r == 0), 1, flag_of(n % 16 == 0), carry);
        r
    }

    /// An 8-bit increment of `n`: returns the value and sets the flags.
    pub fn alu_inc(&mut self, n: u8) -> (r: u8)
        ensures
            r == spec_wrap8(n + 1),
            *final(self) == old(self).spec_alu_inc(n),
            old(self).wf() ==> final(self).wf(),
    {
        let r: u8 = n.wrapping_add(1);
        let carry: u8 = self.get_carry_flag();
        self.set_flags(flag_of(r == 0), 0, flag_of(n % 16 + 1 > 0x0F), carry);
        r
    }

    /// Adds `n` to HL.
    pub fn alu_add_hl(&mut self, n: u16)
        ensures
            *final(self) == old(self).spec_alu_add_hl(n),
            old(self).wf() ==> final(self).wf(),
    {
        let hl: u16 = self.get_hl();
        let r: u16 = hl.wrapping_add(n);
        let zero: u8 = self.get_zero_flag();
        self.set_flags(zero, 0, flag_of(hl % 0x1000 + n % 0x1000 > 0x0FFF), flag_of(hl > 0xFFFF - n));
        self.set_hl(r);
    }

    /// Sets the flags for the sum of the stack pointer and the signed byte
    /// `imm`, and returns that sum.
    pub fn alu_add_sp(&mut self, imm: u8) -> (r: u16)
        ensures
            r == spec_offset(old(self).sp, imm),
            *final(self) == old(self).spec_alu_sp_flags(imm),
            old(self).wf() ==> final(self).wf(),
    {
        let sp: u16 = self.sp;
        self.set_flags(0, 0, flag_of(sp % 16 + (imm % 16) as u16 > 0x0F), flag_of(sp % 256 + imm as u16 > 0xFF));
        offset_address(sp, imm)
    }

    /// A shift of `n` in the extended instruction set: returns the value and
    /// sets the flags.
    pub fn alu_shift(&mut self, shift: Shift, n: u8) -> (r: u8)
        ensures
            r == shift.spec_value(n, old(self).spec_carry_flag()),
            *final(self) == old(self).spec_alu_shift(shift, n),
            old(self).wf() ==> final(self).wf(),
    {
        let carry: u8 = self.get_carry_flag();
        let r: u8 = match shift {
            Shift::Rlc => (n % 128) * 2 + n / 128,
            Shift::Rrc => n / 2 + (n % 2) * 128,
            Shift::Rl => (n % 128) * 2 + carry,
            Shift::Rr => n / 2 + carry * 128,
            Shift::Sla => (n % 128) * 2,
            Shift::Sra => n / 2 + (n / 128) * 128,
            Shift::Swap => (n % 16) * 16 + n / 16,
            Shift::Srl => n / 2,
        };
        let c: u8 = match shift {
            Shift::Rlc | Shift::Rl | Shift::Sla => n / 128,
            Shift::Rrc | Shift::Rr | Shift::Sra | Shift::Srl => n % 2,
            Shift::Swap => 0,
        };
        self.set_flags(flag_of(r == 0), 0, 0, c);
        r
    }

    /// One of the four rotates of the accumulator.
    pub fn alu_rotate(&mut self, shift: Shift)
        ensures
            *final(self) == old(self).spec_alu_rotate(shift),
            old(self).wf() ==> final(self).wf(),
    {
        let a: u8 = self.a;
        let r: u8 = self.alu_shift(shift, a);
        let carry: u8 = self.get_carry_flag();
        self.set_flags(0, 0, 0, carry);
        self.a = r;
    }

    /// Decimal adjust of the accumulator after an addition or subtraction of
    /// two packed decimal numbers.
    pub fn alu_daa(&mut self)
        ensures
            *final(self) == old(self).spec_alu_daa(),
            old(self).wf() ==> final(self).wf(),
    {
        let mut a: u8 = self.a;
        let operation: u8 = self.get_operation_flag();
        let mut adjust: u8 = if self.get_carry_flag() == 1 {
            0x60
        } else {
            0
        };
        if self.get_half_carry_flag() == 1 {
            adjust = adjust + 0x06;
        }
        if operation == 0 {
            if a % 16 > 0x09 && adjust % 16 == 0 {
                adjust = adjust + 0x06;
            }
            if a > 0x99 && adjust < 0x60 {
                adjust = adjust + 0x60;
            }
            a = a.wrapping_add(adjust);
        } else {
            a = a.wrapping_sub(adjust);
        }
        self.set_flags(flag_of(a == 0), operation, 0, flag_of(adjust >= 0x60));
        self.a = a;
    }

    /// Tests bit `bit` of `n`.
    pub fn alu_bit(&mut self, bit: u8, n: u8)
        requires
            bit <= 7,
        ensures
            *final(self) == old(self).spec_alu_bit(bit, n),
            old(self).wf() ==> final(self).wf(),
    {
        let mask: u8 = 1u8 << bit;
        let carry: u8 = self.get_carry_flag();
        self.set_flags(flag_of(n & mask == 0), 0, 1, carry);
    }

    /// Whether the jump condition that field `condition` names holds.
    pub fn condition_met(&self, condition: u8) -> (r: bool)
        requires
            condition <= 3,
        ensures
            r == self.spec_condition_met(condition),
    {
        match condition {
            0 => self.get_zero_flag() == 0,
            1 => self.get_zero_flag() == 1,
            2 => self.get_carry_flag() == 0,
            _ => self.get_carry_flag() == 1,
        }
    }
}

} // verus!
