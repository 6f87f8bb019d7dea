//! The register file of the processor.
use vstd::prelude::*;
use crate::gpu::Gpu;
use crate::helpers::{combine_u8, spec_combine_u8, spec_high_byte, spec_low_byte, split_u16};
use crate::interrupts::Interrupts;
use crate::memory::memory::{BusView, Memory};

verus! {

/// The eight 8-bit registers, the stack pointer and the program counter.
///
/// `f` holds the flags in its high nibble: zero in bit 7, operation in bit 6,
/// half-carry in bit 5 and carry in bit 4.
#[derive(Clone, Copy, Debug)]
pub struct Registers {
    pub a: u8,
    pub b: u8,
    pub c: u8,
    pub d: u8,
    pub e: u8,
    pub f: u8,
    pub h: u8,
    pub l: u8,
    pub sp: u16,
    pub pc: u16,
}

/// The lower-case hexadecimal digit of `n`.
pub open spec fn spec_hex_digit(n: int) -> Seq<char> {
    if n == 0 {
        "0"@
    } else if n == 1 {
        "1"@
    } else if n == 2 {
        "2"@
    } else if n == 3 {
        "3"@
    } else if n == 4 {
        "4"@
    } else if n == 5 {
        "5"@
    } else if n == 6 {
        "6"@
    } else if n == 7 {
        "7"@
    } else if n == 8 {
        "8"@
    } else if n == 9 {
        "9"@
    } else if n == 10 {
        "a"@
    } else if n == 11 {
        "b"@
    } else if n == 12 {
        "c"@
    } else if n == 13 {
        "d"@
    } else if n == 14 {
        "e"@
    } else {
        "f"@
    }
}

/// `value` as `0x` and four lower-case hexadecimal digits.
pub open spec fn spec_hex_word(value: u16) -> Seq<char> {
    "0x"@ + spec_hex_digit(value as int / 4096) + spec_hex_digit((value as int / 256) % 16) + spec_hex_digit(
        (value as int / 16) % 16,
    ) + spec_hex_digit(value as int % 16)
}

/// The lower-case hexadecimal digit of `n`.
pub fn hex_digit(n: u16) -> (r: &'static str)
    requires
        n < 16,
    ensures
        r@ == spec_hex_digit(n as int),
{
    match n {
        0 => "0",
        1 => "1",
        2 => "2",
        3 => "3",
        4 => "4",
        5 => "5",
        6 => "6",
        7 => "7",
        8 => "8",
        9 => "9",
        10 => "a",
        11 => "b",
        12 => "c",
        13 => "d",
        14 => "e",
        _ => "f",
    }
}

/// Appends `value` as `0x` and four lower-case hexadecimal digits.
pub fn append_hex_word(text: &mut String, value: u16)
    ensures
        final(text)@ == old(text)@ + spec_hex_word(value),
{
    let ghost before = text@;
    text.append("0x");
    text.append(hex_digit(value / 4096));
    text.append(hex_digit((value / 256) % 16));
    text.append(hex_digit((value / 16) % 16));
    text.append(hex_digit(value % 16));
    assert(text@ =~= before + spec_hex_word(value));
}

/// The flag byte with the given four flags and a zero low nibble.
pub open spec fn spec_flags_byte(zero: u8, operation: u8, half_carry: u8, carry: u8) -> u8 {
    (128 * zero + 64 * operation + 32 * half_carry + 16 * carry) as u8
}

impl Registers {
    /// The low nibble of the flag register is zero.
    pub open spec fn wf(self) -> bool {
        self.f % 16 == 0
    }

    /// The carry flag, 0 or 1.
    pub open spec fn spec_carry_flag(self) -> u8 {
        ((self.f / 16) % 2) as u8
    }

    /// The half-carry flag, 0 or 1.
    pub open spec fn spec_half_carry_flag(self) -> u8 {
        ((self.f / 32) % 2) as u8
    }

    /// The operation flag, 0 or 1.
    pub open spec fn spec_operation_flag(self) -> u8 {
        ((self.f / 64) % 2) as u8
    }

    /// The zero flag, 0 or 1.
    pub open spec fn spec_zero_flag(self) -> u8 {
        (self.f / 128) as u8
    }

    /// Flag `flag_index`: 0 is carry, 1 half-carry, 2 operation, 3 zero.
    pub open spec fn spec_flag(self, flag_index: u8) -> u8 {
        if flag_index == 0 {
            self.spec_carry_flag()
        } else if flag_index == 1 {
            self.spec_half_carry_flag()
        } else if flag_index == 2 {
            self.spec_operation_flag()
        } else {
            self.spec_zero_flag()
        }
    }

    /// These registers with the four flags replaced; the low nibble of `f` is kept.
    pub open spec fn spec_set_flags(self, zero: u8, operation: u8, half_carry: u8, carry: u8) -> Registers {
        Registers { f: (spec_flags_byte(zero, operation, half_carry, carry) + self.f % 16) as u8, ..self }
    }

    /// These registers with flag `flag_index` replaced by `bit`.
    pub open spec fn spec_set_flag(self, flag_index: u8, bit: u8) -> Registers {
        self.spec_set_flags(
            if flag_index == 3 { bit } else { self.spec_zero_flag() },
            if flag_index == 2 { bit } else { self.spec_operation_flag() },
            if flag_index == 1 { bit } else { self.spec_half_carry_flag() },
            if flag_index == 0 { bit } else { self.spec_carry_flag() },
        )
    }

    /// The pair AF.
    pub open spec fn spec_af(self) -> u16 {
        spec_combine_u8(self.a, self.f)
    }

    /// The pair BC.
    pub open spec fn spec_bc(self) -> u16 {
        spec_combine_u8(self.b, self.c)
    }

    /// The pair DE.
    pub open spec fn spec_de(self) -> u16 {
        spec_combine_u8(self.d, self.e)
    }

    /// The pair HL.
    pub open spec fn spec_hl(self) -> u16 {
        spec_combine_u8(self.h, self.l)
    }

    /// These registers with AF replaced; the low nibble of F becomes zero.
    pub open spec fn spec_set_af(self, value: u16) -> Registers {
        Registers { a: spec_high_byte(value), f: (spec_low_byte(value) - spec_low_byte(value) % 16) as u8, ..self }
    }

    /// These registers with BC replaced.
    pub open spec fn spec_set_bc(self, value: u16) -> Registers {
        Registers { b: spec_high_byte(value), c: spec_low_byte(value), ..self }
    }

    /// These registers with DE replaced.
    pub open spec fn spec_set_de(self, value: u16) -> Registers {
        Registers { d: spec_high_byte(value), e: spec_low_byte(value), ..self }
    }

    /// These registers with HL replaced.
    pub open spec fn spec_set_hl(self, value: u16) -> Registers {
        Registers { h: spec_high_byte(value), l: spec_low_byte(value), ..self }
    }

    /// The pair that a two-bit field names: BC, DE, HL, and for 3 the stack
    /// pointer if `sp`, else AF.
    pub open spec fn spec_combined_register_base(self, register: u8, sp: bool) -> u16 {
        if register == 0 {
            self.spec_bc()
        } else if register == 1 {
            self.spec_de()
        } else if register == 2 {
            self.spec_hl()
        } else if sp {
            self.sp
        } else {
            self.spec_af()
        }
    }

    /// These registers with the pair that a two-bit field names replaced.
    pub open spec fn spec_set_combined_register_base(self, register: u8, value: u16, sp: bool) -> Registers {
        if register == 0 {
            self.spec_set_bc(value)
        } else if register == 1 {
            self.spec_set_de(value)
        } else if register == 2 {
            self.spec_set_hl(value)
        } else if sp {
            Registers { sp: value, ..self }
        } else {
            self.spec_set_af(value)
        }
    }

    /// The 8-bit register that a three-bit field names, for every field but 6
    /// (which names the byte that HL points to): B, C, D, E, H, L, -, A.
    pub open spec fn spec_plain_register(self, register: u8) -> u8 {
        if register == 0 {
            self.b
        } else if register == 1 {
            self.c
        } else if register == 2 {
            self.d
        } else if register == 3 {
            self.e
        } else if register == 4 {
            self.h
        } else if register == 5 {
            self.l
        } else {
            self.a
        }
    }

    /// These registers with the 8-bit register that a three-bit field names
    /// replaced, for every field but 6.
    pub open spec fn spec_set_plain_register(self, register: u8, value: u8) -> Registers {
        if register == 0 {
            Registers { b: value, ..self }
        } else if register == 1 {
            Registers { c: value, ..self }
        } else if register == 2 {
            Registers { d: value, ..self }
        } else if register == 3 {
            Registers { e: value, ..self }
        } else if register == 4 {
            Registers { h: value, ..self }
        } else if register == 5 {
            Registers { l: value, ..self }
        } else {
            Registers { a: value, ..self }
        }
    }

    /// Replaces flag `flag_index` (0 carry, 1 half-carry, 2 operation, 3 zero).
    pub fn set_flag(&mut self, flag_index: u8, bit: u8)
        requires
            flag_index <= 3,
            bit <= 1,
        ensures
            *final(self) == old(self).spec_set_flag(flag_index, bit),
            final(self).spec_flag(flag_index) == bit,
            forall|other: u8| other <= 3 && other != flag_index ==> final(self).spec_flag(other) == old(self).spec_flag(other),
            old(self).wf() ==> final(self).wf(),
    {
        let zero: u8 = if flag_index == 3 { bit } else { self.get_zero_flag() };
        let operation: u8 = if flag_index == 2 { bit } else { self.get_operation_flag() };
        let half_carry: u8 = if flag_index == 1 { bit } else { self.get_half_carry_flag() };
        let carry: u8 = if flag_index == 0 { bit } else { self.get_carry_flag() };
        self.set_flags(zero, operation, half_carry, carry);
    }

    /// Replaces the carry flag.
    pub fn set_carry_flag(&mut self, bit: u8)
        requires
            bit <= 1,
        ensures
            *final(self) == old(self).spec_set_flag(0, bit),
            final(self).spec_carry_flag() == bit,
            old(self).wf() ==> final(self).wf(),
    {
        self.set_flag(0, bit)
    }

    /// Replaces the half-carry flag.
    pub fn set_half_carry_flag(&mut self, bit: u8)
        requires
            bit <= 1,
        ensures
            *final(self) == old(self).spec_set_flag(1, bit),
            final(self).spec_half_carry_flag() == bit,
            old(self).wf() ==> final(self).wf(),
    {
        self.set_flag(1, bit)
    }

    /// Replaces the operation flag.
    pub fn set_operation_flag(&mut self, bit: u8)
        requires
            bit <= 1,
        ensures
            *final(self) == old(self).spec_set_flag(2, bit),
            final(self).spec_operation_flag() == bit,
            old(self).wf() ==> final(self).wf(),
    {
        self.set_flag(2, bit)
    }

    /// Replaces the zero flag.
    pub fn set_zero_flag(&mut self, bit: u8)
        requires
            bit <= 1,
        ensures
            *final(self) == old(self).spec_set_flag(3, bit),
            final(self).spec_zero_flag() == bit,
            old(self).wf() ==> final(self).wf(),
    {
        self.set_flag(3, bit)
    }

    /// Replaces all four flags.
    pub fn set_flags(&mut self, zero: u8, operation: u8, half_carry: u8, carry: u8)
        requires
            zero <= 1,
            operation <= 1,
            half_carry <= 1,
            carry <= 1,
        ensures
            *final(self) == old(self).spec_set_flags(zero, operation, half_carry, carry),
            final(self).spec_zero_flag() == zero,
            final(self).spec_operation_flag() == operation,
            final(self).spec_half_carry_flag() == half_carry,
            final(self).spec_carry_flag() == carry,
            old(self).wf() ==> final(self).wf(),
    {
        self.f = 128 * zero + 64 * operation + 32 * half_carry + 16 * carry + self.f % 16;
    }

    /// Flag `flag_index` (0 carry, 1 half-carry, 2 operation, 3 zero), 0 or 1.
    pub fn get_flag(&self, flag_index: u8) -> (r: u8)
        requires
            flag_index <= 3,
        ensures
            r == self.spec_flag(flag_index),
            r <= 1,
    {
        match flag_index {
            0 => (self.f / 16) % 2,
            1 => (self.f / 32) % 2,
            2 => (self.f / 64) % 2,
            _ => self.f / 128,
        }
    }

    /// The carry flag, 0 or 1.
    pub fn get_carry_flag(&self) -> (r: u8)
        ensures
            r == self.spec_carry_flag(),
            r <= 1,
    {
        self.get_flag(0)
    }

    /// The half-carry flag, 0 or 1.
    pub fn get_half_carry_flag(&self) -> (r: u8)
        ensures
            r == self.spec_half_carry_flag(),
            r <= 1,
    {
        self.get_flag(1)
    }

    /// The operation flag, 0 or 1.
    pub fn get_operation_flag(&self) -> (r: u8)
        ensures
            r == self.spec_operation_flag(),
            r <= 1,
    {
        self.get_flag(2)
    }

    /// The zero flag, 0 or 1.
    pub fn get_zero_flag(&self) -> (r: u8)
        ensures
            r == self.spec_zero_flag(),
            r <= 1,
    {
        self.get_flag(3)
    }

    /// The pair AF: A is the high byte.
    pub fn get_af(&self) -> (r: u16)
        ensures
            r == self.spec_af(),
    {
        combine_u8(self.a, self.f)
    }

    /// Replaces AF; the low nibble of F is always written as zero.
    pub fn set_af(&mut self, value: u16)
        ensures
            *final(self) == old(self).spec_set_af(value),
            final(self).wf(),
    {
        let (b1, b2) = split_u16(value);
        self.a = b2;
        self.f = b1 - b1 % 16;
    }

    /// The pair BC: B is the high byte.
    pub fn get_bc(&self) -> (r: u16)
        ensures
            r == self.spec_bc(),
    {
        combine_u8(self.b, self.c)
    }

    /// Replaces BC.
    pub fn set_bc(&mut self, value: u16)
        ensures
            *final(self) == old(self).spec_set_bc(value),
            final(self).spec_bc() == value,
    {
        let (b1, b2) = split_u16(value);
        self.b = b2;
        self.c = b1;
    }

    /// The pair DE: D is the high byte.
    pub fn get_de(&self) -> (r: u16)
        ensures
            r == self.spec_de(),
    {
        combine_u8(self.d, self.e)
    }

    /// Replaces DE.
    pub fn set_de(&mut self, value: u16)
        ensures
            *final(self) == old(self).spec_set_de(value),
            final(self).spec_de() == value,
    {
        let (b1, b2) = split_u16(value);
        self.d = b2;
        self.e = b1;
    }

    /// The pair HL: H is the high byte.
    pub fn get_hl(&self) -> (r: u16)
        ensures
            r == self.spec_hl(),
    {
        combine_u8(self.h, self.l)
    }

    /// Replaces HL.
    pub fn set_hl(&mut self, value: u16)
        ensures
            *final(self) == old(self).spec_set_hl(value),
            final(self).spec_hl() == value,
    {
        let (b1, b2) = split_u16(value);
        self.h = b2;
        self.l = b1;
    }

    /// Replaces the pair that the two-bit field `register` names: BC, DE, HL,
    /// and for 3 the stack pointer if `sp`, else AF.
    pub fn set_combined_register_base(&mut self, register: u8, value: u16, sp: bool)
        requires
            register <= 3,
        ensures
            *final(self) == old(self).spec_set_combined_register_base(register, value, sp),
            old(self).wf() ==> final(self).wf(),
    {
        match register {
            0 => self.set_bc(value),
            1 => self.set_de(value),
            2 => self.set_hl(value),
            _ => if sp {
                self.sp = value
            } else {
                self.set_af(value)
            },
        }
    }

    /// The pair that the two-bit field `register` names.
    pub fn get_combined_register_base(&self, register: u8, sp: bool) -> (r: u16)
        requires
            register <= 3,
        ensures
            r == self.spec_combined_register_base(register, sp),
    {
        match register {
            0 => self.get_bc(),
            1 => self.get_de(),
            2 => self.get_hl(),
            _ => if sp {
                self.sp
            } else {
                self.get_af()
            },
        }
    }

    /// The pair that `register` names, where 3 names the stack pointer.
    pub fn get_combined_register(&self, register: u8) -> (r: u16)
        requires
            register <= 3,
        ensures
            r == self.spec_combined_register_base(register, true),
    {
        self.get_combined_register_base(register, true)
    }

    /// Replaces the pair that `register` names, where 3 names the stack pointer.
    pub fn set_combined_register(&mut self, register: u8, value: u16)
        requires
            register <= 3,
        ensures
            *final(self) == old(self).spec_set_combined_register_base(register, value, true),
            old(self).wf() ==> final(self).wf(),
    {
        self.set_combined_register_base(register, value, true)
    }

    /// The pair that `register` names, where 3 names AF.
    pub fn get_combined_register_alt(&self, register: u8) -> (r: u16)
        requires
            register <= 3,
        ensures
            r == self.spec_combined_register_base(register, false),
    {
        self.get_combined_register_base(register, false)
    }

    /// Replaces the pair that `register` names, where 3 names AF.
    pub fn set_combined_register_alt(&mut self, register: u8, value: u16)
        requires
            register <= 3,
        ensures
            *final(self) == old(self).spec_set_combined_register_base(register, value, false),
            old(self).wf() ==> final(self).wf(),
    {
        self.set_combined_register_base(register, value, false)
    }

    /// The operand that a three-bit field names: a register, or for 6 the byte
    /// that HL points to.
    pub open spec fn spec_singular_register(self, bus: BusView, register: u8) -> u8 {
        if register == 6 {
            bus.spec_read(self.spec_hl())
        } else {
            self.spec_plain_register(register)
        }
    }

    /// The registers after the operand that a three-bit field names has been
    /// replaced.
    pub open spec fn spec_set_singular_register(self, register: u8, value: u8) -> Registers {
        if register == 6 {
            self
        } else {
            self.spec_set_plain_register(register, value)
        }
    }

    /// The machine after the operand that a three-bit field names has been
    /// replaced.
    pub open spec fn spec_set_singular_register_bus(self, bus: BusView, register: u8, value: u8) -> BusView {
        if register == 6 {
            bus.spec_write(self.spec_hl(), value)
        } else {
            bus
        }
    }

    /// Replaces the operand that the three-bit field `register` names: B, C, D,
    /// E, H, L, the byte that HL points to, or A.
    pub fn set_singular_register(
        &mut self,
        register: u8,
        value: u8,
        mem: &mut Memory,
        ints: &mut Interrupts,
        gpu: &mut Gpu,
    )
        requires
            register <= 7,
            old(mem).wf(),
            old(gpu).wf(),
        ensures
            *final(self) == old(self).spec_set_singular_register(register, value),
            (BusView { mem: final(mem)@, ints: *final(ints), gpu: final(gpu)@ })
                == old(self).spec_set_singular_register_bus(
                BusView { mem: old(mem)@, ints: *old(ints), gpu: old(gpu)@ },
                register,
                value,
            ),
            final(mem).wf(),
            final(gpu).wf(),
    {
        match register {
            0 => self.b = value,
            1 => self.c = value,
            2 => self.d = value,
            3 => self.e = value,
            4 => self.h = value,
            5 => self.l = value,
            6 => mem.write(ints, gpu, self.get_hl(), value),
            _ => self.a = value,
        }
    }

    /// The operand that the three-bit field `register` names.
    pub fn get_singular_register(&self, register: u8, mem: &Memory, ints: &Interrupts, gpu: &Gpu) -> (r: u8)
        requires
            register <= 7,
            mem.wf(),
            gpu.wf(),
        ensures
            r == self.spec_singular_register(BusView { mem: mem@, ints: *ints, gpu: gpu@ }, register),
    {
        match register {
            0 => self.b,
            1 => self.c,
            2 => self.d,
            3 => self.e,
            4 => self.h,
            5 => self.l,
            6 => mem.read(ints, gpu, self.get_hl()),
            _ => self.a,
        }
    }

    /// The four register pairs as text, each as `0x` and four hexadecimal
    /// digits.
    pub open spec fn spec_debug_dump(self) -> Seq<char> {
        "AF: "@ + spec_hex_word(self.spec_af()) + " | BC: "@ + spec_hex_word(self.spec_bc()) + " | DE: "@
            + spec_hex_word(self.spec_de()) + " | HL: "@ + spec_hex_word(self.spec_hl())
    }

    /// The four register pairs as text, for a trace.
    pub fn debug_dump(&self) -> (r: String)
        ensures
            r@ == self.spec_debug_dump(),
    {
        let mut text: String = String::new();
        text.append("AF: ");
        append_hex_word(&mut text, self.get_af());
        text.append(" | BC: ");
        append_hex_word(&mut text, self.get_bc());
        text.append(" | DE: ");
        append_hex_word(&mut text, self.get_de());
        text.append(" | HL: ");
        append_hex_word(&mut text, self.get_hl());
        assert(text@ =~= self.spec_debug_dump());
        text
    }

    /// The registers as the boot program leaves them.
    pub fn new() -> (r: Registers)
        ensures
            r == (Registers {
                a: 0x01,
                b: 0x00,
                c: 0x13,
                d: 0x00,
                e: 0xD8,
                f: 0xB0,
                h: 0x01,
                l: 0x4D,
                sp: 0xFFFE,
                pc: 0x100,
            }),
            r.wf(),
    {
        Registers { a: 0x01, b: 0x00, c: 0x13, d: 0x00, e: 0xD8, f: 0xB0, h: 0x01, l: 0x4D, sp: 0xFFFE, pc: 0x100 }
    }
}

} // verus!
