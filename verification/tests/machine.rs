use dmg_core::cpu::alu::{offset_address, Shift};
use dmg_core::cpu::execute::opcode_defined;
use dmg_core::cpu::Cpu;
use dmg_core::registers::Registers;

fn machine(program: &[u8]) -> Cpu {
    let mut bytes = vec![0u8; 0x8000];
    for (i, b) in program.iter().enumerate() {
        bytes[0x100 + i] = *b;
    }
    match Cpu::from_rom_bytes(bytes) {
        Ok(cpu) => cpu,
        Err(_) => panic!("the image has a well-formed header"),
    }
}

fn bcd(n: u32) -> u8 {
    ((n / 10) * 16 + n % 10) as u8
}

#[test]
fn power_on_state() {
    let cpu = machine(&[]);
    assert_eq!(cpu.regs.a, 0x01);
    assert_eq!(cpu.regs.f, 0xB0);
    assert_eq!(cpu.regs.get_bc(), 0x0013);
    assert_eq!(cpu.regs.get_de(), 0x00D8);
    assert_eq!(cpu.regs.get_hl(), 0x014D);
    assert_eq!(cpu.regs.sp, 0xFFFE);
    assert_eq!(cpu.regs.pc, 0x0100);
    assert!(!cpu.ints.ime);
    assert!(!cpu.ime_on_pending);
    assert_eq!(cpu.ints.enable_read(), 0);
    assert_eq!(cpu.gpu.status.mode_flag, 2);
    assert_eq!(cpu.gpu.ly, 0);
    assert_eq!(cpu.frame_rate, 60);
    assert_eq!(cpu.cart_info.title, "");
    let test = Cpu::from_hardcoded_zeroes();
    assert_eq!(test.cart_info.title, "PLAYBOYTEST");
    assert_eq!(test.regs.pc, 0x0100);
    assert_eq!(test.mem_read(0x0050), 0);
    let named = Cpu::from_rom(String::from("a.gb"), vec![0u8; 0x150]);
    match named {
        Ok(cpu) => assert_eq!(cpu.cart_info.rom_path, "a.gb"),
        Err(_) => panic!("the image has a well-formed header"),
    }
}

#[test]
fn daa_round_trip() {
    for a in 0..100u32 {
        for b in 0..100u32 {
            let mut regs = Registers::new();
            regs.a = bcd(a);
            regs.b = bcd(b);
            regs.alu(0, regs.b);
            regs.alu_daa();
            assert_eq!(regs.a, bcd((a + b) % 100), "{} + {}", a, b);
            assert_eq!(regs.get_carry_flag() == 1, a + b >= 100, "{} + {}", a, b);
            assert_eq!(regs.get_half_carry_flag(), 0);
            assert_eq!(regs.get_zero_flag() == 1, (a + b) % 100 == 0);
        }
    }
}

#[test]
fn daa_round_trip_through_the_processor() {
    for (a, b) in [(0u32, 0u32), (9, 1), (45, 55), (99, 99), (50, 49), (8, 8), (19, 28)] {
        let mut cpu = machine(&[0x80, 0x27]);
        cpu.regs.a = bcd(a);
        cpu.regs.b = bcd(b);
        assert_eq!(cpu.step(), 4);
        assert_eq!(cpu.step(), 4);
        assert_eq!(cpu.regs.a, bcd((a + b) % 100));
        assert_eq!(cpu.regs.get_carry_flag() == 1, a + b >= 100);
    }
}

#[test]
fn daa_after_subtraction() {
    for a in 0..100u32 {
        for b in 0..100u32 {
            let mut regs = Registers::new();
            regs.a = bcd(a);
            regs.alu(2, bcd(b));
            regs.alu_daa();
            assert_eq!(regs.a, bcd((100 + a - b) % 100), "{} - {}", a, b);
            assert_eq!(regs.get_carry_flag() == 1, a < b, "{} - {}", a, b);
            assert_eq!(regs.get_operation_flag(), 1);
        }
    }
}

const SAMPLES: [u8; 7] = [0x00, 0x01, 0x0F, 0x10, 0x7F, 0x80, 0xFF];

fn flags(regs: &Registers) -> (bool, bool, bool, bool) {
    (
        regs.get_zero_flag() == 1,
        regs.get_operation_flag() == 1,
        regs.get_half_carry_flag() == 1,
        regs.get_carry_flag() == 1,
    )
}

#[test]
fn alu_flags_match_the_formulas() {
    for &a in SAMPLES.iter() {
        for &n in SAMPLES.iter() {
            for carry in 0..2u8 {
                let (a16, n16, c16) = (a as u16, n as u16, carry as u16);
                let start = || {
                    let mut r = Registers::new();
                    r.a = a;
                    r.set_flags(1, 1, 1, carry);
                    r
                };
                let mut r = start();
                r.alu(0, n);
                assert_eq!(r.a, a.wrapping_add(n));
                assert_eq!(flags(&r), (r.a == 0, false, (a & 0xF) + (n & 0xF) > 0xF, a16 + n16 > 0xFF));
                let mut r = start();
                r.alu(1, n);
                assert_eq!(r.a, a.wrapping_add(n).wrapping_add(carry));
                assert_eq!(
                    flags(&r),
                    (r.a == 0, false, (a & 0xF) + (n & 0xF) + carry > 0xF, a16 + n16 + c16 > 0xFF)
                );
                let mut r = start();
                r.alu(2, n);
                assert_eq!(r.a, a.wrapping_sub(n));
                assert_eq!(flags(&r), (r.a == 0, true, (a & 0xF) < (n & 0xF), a < n));
                let mut r = start();
                r.alu(3, n);
                assert_eq!(r.a, a.wrapping_sub(n).wrapping_sub(carry));
                assert_eq!(flags(&r), (r.a == 0, true, (a & 0xF) < (n & 0xF) + carry, a16 < n16 + c16));
                let mut r = start();
                r.alu(4, n);
                assert_eq!(r.a, a & n);
                assert_eq!(flags(&r), (a & n == 0, false, true, false));
                let mut r = start();
                r.alu(5, n);
                assert_eq!(r.a, a ^ n);
                assert_eq!(flags(&r), (a ^ n == 0, false, false, false));
                let mut r = start();
                r.alu(6, n);
                assert_eq!(r.a, a | n);
                assert_eq!(flags(&r), (a | n == 0, false, false, false));
                let mut r = start();
                r.alu(7, n);
                assert_eq!(r.a, a);
                assert_eq!(flags(&r), (a == n, true, (a & 0xF) < (n & 0xF), a < n));
            }
        }
    }
}

#[test]
fn increment_and_decrement_keep_carry() {
    for &n in SAMPLES.iter() {
        for carry in 0..2u8 {
            let mut r = Registers::new();
            r.set_flags(0, 1, 0, carry);
            let v = r.alu_inc(n);
            assert_eq!(v, n.wrapping_add(1));
            assert_eq!(flags(&r), (v == 0, false, (n & 0xF) + 1 > 0xF, carry == 1));
            let v = r.alu_dec(n);
            assert_eq!(v, n.wrapping_sub(1));
            assert_eq!(flags(&r), (v == 0, true, n & 0xF == 0, carry == 1));
        }
    }
}

#[test]
fn sixteen_bit_add_keeps_zero() {
    let mut r = Registers::new();
    r.set_hl(0x0FFF);
    r.set_flags(1, 1, 0, 0);
    r.alu_add_hl(0x0001);
    assert_eq!(r.get_hl(), 0x1000);
    assert_eq!(flags(&r), (true, false, true, false));
    r.set_hl(0xFFFF);
    r.set_flags(0, 0, 0, 0);
    r.alu_add_hl(0x0001);
    assert_eq!(r.get_hl(), 0x0000);
    assert_eq!(flags(&r), (false, false, true, true));
    r.set_hl(0x8000);
    r.alu_add_hl(0x8000);
    assert_eq!(r.get_hl(), 0x0000);
    assert_eq!(flags(&r), (false, false, false, true));
}

#[test]
fn stack_pointer_offset_flags_come_from_the_low_byte() {
    let mut r = Registers::new();
    r.sp = 0x00FF;
    assert_eq!(r.alu_add_sp(0x01), 0x0100);
    assert_eq!(flags(&r), (false, false, true, true));
    r.sp = 0x0100;
    assert_eq!(r.alu_add_sp(0xFF), 0x00FF);
    assert_eq!(flags(&r), (false, false, false, false));
    r.sp = 0x000F;
    assert_eq!(r.alu_add_sp(0x01), 0x0010);
    assert_eq!(flags(&r), (false, false, true, false));
    r.sp = 0x0000;
    assert_eq!(r.alu_add_sp(0x80), 0xFF80);
    assert_eq!(flags(&r), (false, false, false, false));
    assert_eq!(offset_address(0x0100, 0xFE), 0x00FE);
    assert_eq!(offset_address(0x0000, 0xFF), 0xFFFF);
    assert_eq!(offset_address(0xFFFF, 0x01), 0x0000);
    assert_eq!(offset_address(0x0100, 0x7F), 0x017F);
    assert_eq!(offset_address(0x0100, 0x80), 0x0080);
}

#[test]
fn shifts_and_rotates() {
    let cases: [(Shift, u8, u8, u8, u8); 12] = [
        (Shift::Rlc, 0x85, 0, 0x0B, 1),
        (Shift::Rrc, 0x01, 0, 0x80, 1),
        (Shift::Rl, 0x80, 0, 0x00, 1),
        (Shift::Rl, 0x00, 1, 0x01, 0),
        (Shift::Rr, 0x01, 0, 0x00, 1),
        (Shift::Rr, 0x00, 1, 0x80, 0),
        (Shift::Sla, 0xFF, 0, 0xFE, 1),
        (Shift::Sra, 0x81, 0, 0xC0, 1),
        (Shift::Sra, 0x7E, 1, 0x3F, 0),
        (Shift::Swap, 0xF1, 1, 0x1F, 0),
        (Shift::Srl, 0x81, 0, 0x40, 1),
        (Shift::Srl, 0x01, 0, 0x00, 1),
    ];
    for (shift, n, carry_in, value, carry_out) in cases {
        let mut r = Registers::new();
        r.set_flags(0, 1, 1, carry_in);
        assert_eq!(r.alu_shift(shift, n), value);
        assert_eq!(flags(&r), (value == 0, false, false, carry_out == 1));
    }
    for code in 0..8u8 {
        let expected = [
            Shift::Rlc, Shift::Rrc, Shift::Rl, Shift::Rr, Shift::Sla, Shift::Sra, Shift::Swap, Shift::Srl,
        ];
        assert!(Shift::from_code(code) == expected[code as usize]);
    }
}

#[test]
fn accumulator_rotates_clear_zero() {
    let mut cpu = machine(&[0x07, 0x17, 0x0F, 0x1F]);
    cpu.regs.a = 0x80;
    cpu.regs.set_flags(1, 1, 1, 0);
    assert_eq!(cpu.step(), 4);
    assert_eq!(cpu.regs.a, 0x01);
    assert_eq!(flags(&cpu.regs), (false, false, false, true));
    cpu.regs.a = 0x80;
    cpu.regs.set_flags(1, 0, 0, 0);
    cpu.step();
    assert_eq!(cpu.regs.a, 0x00);
    assert_eq!(flags(&cpu.regs), (false, false, false, true));
    cpu.regs.a = 0x01;
    cpu.step();
    assert_eq!(cpu.regs.a, 0x80);
    assert_eq!(flags(&cpu.regs), (false, false, false, true));
    cpu.regs.a = 0x00;
    cpu.step();
    assert_eq!(cpu.regs.a, 0x80);
    assert_eq!(flags(&cpu.regs), (false, false, false, false));
}

#[test]
fn bit_test_sets_zero_when_the_bit_is_clear() {
    let mut r = Registers::new();
    r.set_flags(0, 1, 0, 1);
    r.alu_bit(7, 0x7F);
    assert_eq!(flags(&r), (true, false, true, true));
    r.alu_bit(0, 0x01);
    assert_eq!(flags(&r), (false, false, true, true));
    r.set_carry_flag(0);
    r.alu_bit(3, 0xF7);
    assert_eq!(flags(&r), (true, false, true, false));
}

#[test]
fn conditions() {
    let mut r = Registers::new();
    r.set_flags(1, 0, 0, 0);
    assert!(!r.condition_met(0) && r.condition_met(1) && r.condition_met(2) && !r.condition_met(3));
    r.set_flags(0, 0, 0, 1);
    assert!(r.condition_met(0) && !r.condition_met(1) && !r.condition_met(2) && r.condition_met(3));
}

#[test]
fn push_then_pop_is_the_identity() {
    for sp in [0xFFFEu16, 0xD000, 0xC003, 0xE000, 0x9000, 0xFF83, 0xE001] {
        let mut cpu = machine(&[]);
        cpu.regs.sp = sp;
        cpu.mem_write(sp.wrapping_sub(3), 0x77);
        cpu.mem_write(sp, 0x66);
        let registers = cpu.regs;
        cpu.stack_push(0xBEEF);
        assert_eq!(cpu.regs.sp, sp.wrapping_sub(2));
        assert_eq!(cpu.mem_read(sp.wrapping_sub(2)), 0xEF);
        assert_eq!(cpu.mem_read(sp.wrapping_sub(1)), 0xBE);
        assert_eq!(cpu.stack_pop(), 0xBEEF);
        assert_eq!(cpu.regs.sp, sp);
        assert_eq!(cpu.regs.get_hl(), registers.get_hl());
        assert_eq!(cpu.regs.pc, registers.pc);
        assert_eq!(cpu.mem_read(sp.wrapping_sub(3)), 0x77);
        assert_eq!(cpu.mem_read(sp), 0x66);
    }
}

#[test]
fn push_and_pop_instructions() {
    let mut cpu = machine(&[0xC5, 0xD1, 0xF5, 0xE1, 0xE5, 0xF1]);
    cpu.regs.set_bc(0x1234);
    assert_eq!(cpu.step(), 16);
    assert_eq!(cpu.regs.sp, 0xFFFC);
    assert_eq!(cpu.step(), 12);
    assert_eq!(cpu.regs.get_de(), 0x1234);
    assert_eq!(cpu.regs.sp, 0xFFFE);
    cpu.regs.set_af(0xAB50);
    cpu.step();
    cpu.step();
    assert_eq!(cpu.regs.get_hl(), 0xAB50);
    cpu.regs.set_hl(0xCDFF);
    cpu.step();
    cpu.step();
    assert_eq!(cpu.regs.get_af(), 0xCDF0);
}

#[test]
fn cycle_counts_follow_the_table() {
    let cases: [(&[u8], usize); 40] = [
        (&[0x00], 4),
        (&[0x10], 4),
        (&[0x08, 0x00, 0xC0], 20),
        (&[0x01, 0x34, 0x12], 12),
        (&[0x09], 8),
        (&[0x02], 8),
        (&[0x0A], 8),
        (&[0x03], 8),
        (&[0x0B], 8),
        (&[0x04], 4),
        (&[0x34], 12),
        (&[0x35], 12),
        (&[0x05], 4),
        (&[0x06, 0x01], 8),
        (&[0x36, 0x01], 12),
        (&[0x18, 0x00], 12),
        (&[0x22], 8),
        (&[0x3A], 8),
        (&[0x27], 4),
        (&[0x37], 4),
        (&[0x3F], 4),
        (&[0x2F], 4),
        (&[0x41], 4),
        (&[0x46], 8),
        (&[0x70], 8),
        (&[0x80], 4),
        (&[0x86], 8),
        (&[0xB0], 4),
        (&[0xBE], 8),
        (&[0xC6, 0x01], 8),
        (&[0xC7], 16),
        (&[0xC9], 16),
        (&[0xD9], 16),
        (&[0xC3, 0x00, 0x02], 16),
        (&[0xCD, 0x00, 0x02], 24),
        (&[0xE8, 0x01], 16),
        (&[0xF8, 0x01], 12),
        (&[0xE0, 0x80], 12),
        (&[0xEA, 0x00, 0xC0], 16),
        (&[0xE9], 4),
    ];
    for (program, cycles) in cases {
        let mut cpu = machine(program);
        cpu.regs.set_hl(0xC000);
        assert_eq!(cpu.step(), cycles, "opcode {:#04x}", program[0]);
    }
    let more: [(&[u8], usize); 12] = [
        (&[0xF0, 0x80], 12),
        (&[0xE2], 8),
        (&[0xF2], 8),
        (&[0xFA, 0x00, 0xC0], 16),
        (&[0xF9], 8),
        (&[0xF3], 4),
        (&[0xFB], 4),
        (&[0xCB, 0x00], 8),
        (&[0xCB, 0x06], 16),
        (&[0xCB, 0x46], 12),
        (&[0xCB, 0x86], 16),
        (&[0xCB, 0xC7], 8),
    ];
    for (program, cycles) in more {
        let mut cpu = machine(program);
        cpu.regs.set_hl(0xC000);
        assert_eq!(cpu.step(), cycles, "opcode {:#04x} {:#04x}", program[0], program[program.len() - 1]);
    }
}

#[test]
fn branches_cost_more_when_taken() {
    let cases: [(&[u8], u8, usize, u16); 16] = [
        (&[0x20, 0x05], 0x00, 12, 0x0107),
        (&[0x20, 0x05], 0x80, 8, 0x0102),
        (&[0x28, 0xFE], 0x80, 12, 0x0100),
        (&[0x28, 0xFE], 0x00, 8, 0x0102),
        (&[0x30, 0x80], 0x00, 12, 0x0082),
        (&[0x38, 0x7F], 0x10, 12, 0x0181),
        (&[0xC2, 0x34, 0x12], 0x00, 16, 0x1234),
        (&[0xC2, 0x34, 0x12], 0x80, 12, 0x0103),
        (&[0xDA, 0x34, 0x12], 0x10, 16, 0x1234),
        (&[0xDA, 0x34, 0x12], 0x00, 12, 0x0103),
        (&[0xC4, 0x34, 0x12], 0x00, 24, 0x1234),
        (&[0xC4, 0x34, 0x12], 0x80, 12, 0x0103),
        (&[0xCC, 0x34, 0x12], 0x80, 24, 0x1234),
        (&[0xD4, 0x34, 0x12], 0x10, 12, 0x0103),
        (&[0xC0], 0x80, 8, 0x0101),
        (&[0xD8], 0x00, 8, 0x0101),
    ];
    for (program, f, cycles, pc) in cases {
        let mut cpu = machine(program);
        cpu.regs.f = f;
        assert_eq!(cpu.step(), cycles, "opcode {:#04x} flags {:#04x}", program[0], f);
        assert_eq!(cpu.regs.pc, pc, "opcode {:#04x} flags {:#04x}", program[0], f);
    }
    let mut cpu = machine(&[0xCD, 0x10, 0x01]);
    cpu.step();
    assert_eq!(cpu.regs.pc, 0x0110);
    assert_eq!(cpu.mem_read_16(cpu.regs.sp), 0x0103);
    let mut cpu = machine(&[0xC0]);
    cpu.regs.f = 0x00;
    cpu.stack_push(0x4321);
    assert_eq!(cpu.step(), 20);
    assert_eq!(cpu.regs.pc, 0x4321);
    assert_eq!(cpu.regs.sp, 0xFFFE);
    let mut cpu = machine(&[0xEF]);
    assert_eq!(cpu.step(), 16);
    assert_eq!(cpu.regs.pc, 0x0028);
    assert_eq!(cpu.mem_read_16(cpu.regs.sp), 0x0101);
}

#[test]
fn loads_move_bytes() {
    let mut cpu = machine(&[0x21, 0x00, 0xC0, 0x36, 0x5A, 0x46, 0x2A, 0x32, 0x7E, 0x77]);
    cpu.step();
    assert_eq!(cpu.regs.get_hl(), 0xC000);
    cpu.step();
    assert_eq!(cpu.mem_read(0xC000), 0x5A);
    cpu.step();
    assert_eq!(cpu.regs.b, 0x5A);
    cpu.regs.a = 0;
    cpu.step();
    assert_eq!(cpu.regs.a, 0x5A);
    assert_eq!(cpu.regs.get_hl(), 0xC001);
    cpu.regs.a = 0x33;
    cpu.step();
    assert_eq!(cpu.mem_read(0xC001), 0x33);
    assert_eq!(cpu.regs.get_hl(), 0xC000);
    cpu.step();
    assert_eq!(cpu.regs.a, 0x5A);
    cpu.regs.a = 0x11;
    cpu.step();
    assert_eq!(cpu.mem_read(0xC000), 0x11);
    let mut cpu = machine(&[0x08, 0x10, 0xC0, 0xF8, 0xFE, 0xE8, 0x02, 0xF9]);
    cpu.regs.sp = 0xD123;
    cpu.step();
    assert_eq!(cpu.mem_read(0xC010), 0x23);
    assert_eq!(cpu.mem_read(0xC011), 0xD1);
    cpu.step();
    assert_eq!(cpu.regs.get_hl(), 0xD121);
    cpu.step();
    assert_eq!(cpu.regs.sp, 0xD125);
    cpu.regs.set_hl(0xCAFE);
    cpu.step();
    assert_eq!(cpu.regs.sp, 0xCAFE);
}

#[test]
fn high_page_loads() {
    let mut cpu = machine(&[0xE0, 0x80, 0xF0, 0x80, 0xE2, 0xF2, 0xEA, 0x00, 0xC1, 0xFA, 0x00, 0xC1]);
    cpu.regs.a = 0x99;
    cpu.step();
    assert_eq!(cpu.mem_read(0xFF80), 0x99);
    cpu.regs.a = 0;
    cpu.step();
    assert_eq!(cpu.regs.a, 0x99);
    cpu.regs.c = 0x81;
    cpu.regs.a = 0x55;
    cpu.step();
    assert_eq!(cpu.mem_read(0xFF81), 0x55);
    cpu.regs.a = 0;
    cpu.step();
    assert_eq!(cpu.regs.a, 0x55);
    cpu.regs.a = 0x77;
    cpu.step();
    assert_eq!(cpu.mem_read(0xC100), 0x77);
    cpu.regs.a = 0;
    cpu.step();
    assert_eq!(cpu.regs.a, 0x77);
}

#[test]
fn flag_instructions() {
    let mut cpu = machine(&[0x37, 0x3F, 0x3F, 0x2F]);
    cpu.regs.f = 0xE0;
    cpu.step();
    assert_eq!(cpu.regs.f, 0x90);
    cpu.step();
    assert_eq!(cpu.regs.f, 0x80);
    cpu.step();
    assert_eq!(cpu.regs.f, 0x90);
    cpu.regs.a = 0x35;
    cpu.step();
    assert_eq!(cpu.regs.a, 0xCA);
    assert_eq!(cpu.regs.f, 0xF0);
}

#[test]
fn extended_instructions_on_memory() {
    let mut cpu = machine(&[0xCB, 0xC6, 0xCB, 0xFE, 0xCB, 0x86, 0xCB, 0x7E, 0xCB, 0x36, 0xCB, 0x46]);
    cpu.regs.set_hl(0xC000);
    cpu.step();
    assert_eq!(cpu.mem_read(0xC000), 0x01);
    cpu.step();
    assert_eq!(cpu.mem_read(0xC000), 0x81);
    cpu.step();
    assert_eq!(cpu.mem_read(0xC000), 0x80);
    cpu.step();
    assert_eq!(cpu.regs.get_zero_flag(), 0);
    cpu.step();
    assert_eq!(cpu.mem_read(0xC000), 0x08);
    cpu.step();
    assert_eq!(cpu.regs.get_zero_flag(), 1);
    assert_eq!(cpu.regs.pc, 0x010C);
}

#[test]
fn enabling_interrupts_is_delayed_by_one_instruction() {
    let mut cpu = machine(&[0xFB, 0x00, 0x00]);
    cpu.step();
    assert!(!cpu.ints.ime);
    assert!(cpu.ime_on_pending);
    cpu.step();
    assert!(cpu.ints.ime);
    assert!(!cpu.ime_on_pending);
    let mut cpu = machine(&[0xFB, 0xF3, 0x00]);
    cpu.step();
    cpu.step();
    assert!(!cpu.ints.ime);
    assert!(!cpu.ime_on_pending);
    cpu.step();
    assert!(!cpu.ints.ime);
    let mut cpu = machine(&[0xD9]);
    cpu.stack_push(0x0200);
    cpu.step();
    assert!(cpu.ints.ime);
    assert_eq!(cpu.regs.pc, 0x0200);
}

#[test]
fn interrupt_dispatch_takes_the_highest_priority() {
    let mut cpu = machine(&[0x00, 0x00]);
    cpu.ints.ime = true;
    cpu.mem_write(0xFFFF, 0x1F);
    cpu.mem_write(0xFF0F, 0x14);
    assert_eq!(cpu.step(), 4);
    assert_eq!(cpu.regs.pc, 0x0050);
    assert!(!cpu.ints.ime);
    assert_eq!(cpu.mem_read(0xFF0F), 0xF0);
    assert_eq!(cpu.mem_read_16(cpu.regs.sp), 0x0101);
    assert_eq!(cpu.regs.sp, 0xFFFC);
    cpu.step();
    assert_eq!(cpu.regs.pc, 0x0051);
    let mut cpu = machine(&[0x00]);
    cpu.ints.ime = true;
    cpu.mem_write(0xFFFF, 0x01);
    cpu.mem_write(0xFF0F, 0x1E);
    cpu.step();
    assert_eq!(cpu.regs.pc, 0x0101);
    assert!(cpu.ints.ime);
    let mut cpu = machine(&[0x00]);
    cpu.mem_write(0xFFFF, 0x1F);
    cpu.mem_write(0xFF0F, 0x1F);
    cpu.step();
    assert_eq!(cpu.regs.pc, 0x0101);
    cpu.ints.ime = true;
    cpu.process_interrupts();
    assert_eq!(cpu.regs.pc, 0x0040);
    assert_eq!(cpu.mem_read(0xFF0F), 0xFE);
}

#[test]
fn halt_waits_for_a_request() {
    let mut cpu = machine(&[0x76, 0x04]);
    cpu.mem_write(0xFF40, 0x00);
    for _ in 0..10 {
        assert_eq!(cpu.step(), 4);
        assert_eq!(cpu.regs.pc, 0x0100);
    }
    assert_eq!(cpu.mem_read(0xFF04), 0);
    for _ in 0..60 {
        cpu.step();
    }
    assert_eq!(cpu.mem_read(0xFF04), 1);
    cpu.mem_write(0xFF0F, 0x04);
    cpu.step();
    assert_eq!(cpu.regs.pc, 0x0101);
    cpu.step();
    assert_eq!(cpu.regs.b, 0x01);
}

#[test]
fn undefined_opcodes_stop_the_machine() {
    let undefined = [0xD3u8, 0xDB, 0xDD, 0xE3, 0xE4, 0xEB, 0xEC, 0xED, 0xF4, 0xFC, 0xFD];
    let mut count = 0;
    for op in 0..=255u8 {
        if !opcode_defined(op) {
            count += 1;
            assert!(undefined.contains(&op));
            let mut cpu = machine(&[op]);
            assert_eq!(cpu.try_step(), None);
            assert_eq!(cpu.regs.pc, 0x0100);
            assert!(!cpu.step_one_frame());
            assert_eq!(cpu.regs.pc, 0x0100);
        } else {
            let mut cpu = machine(&[op, 0x00, 0x00]);
            cpu.regs.set_hl(0xC000);
            let cycles = cpu.try_step();
            assert!(matches!(cycles, Some(c) if c % 4 == 0 && c >= 4 && c <= 24), "opcode {:#04x}", op);
        }
    }
    assert_eq!(count, 11);
    let mut cpu = machine(&[0x00, 0x00, 0xD3]);
    assert!(!cpu.step_one_frame());
    assert_eq!(cpu.regs.pc, 0x0102);
}

#[test]
fn a_frame_runs_for_the_cycles_of_the_frame_rate() {
    let mut cpu = machine(&[0x18, 0xFE]);
    cpu.frame_rate = 60;
    assert!(cpu.step_one_frame());
    assert_eq!(cpu.regs.pc, 0x0100);
    let dots = cpu.gpu.ly as usize * 456 + cpu.gpu.lx as usize;
    assert_eq!(dots, 69912);
    assert!(cpu.ints.flag.v_blank);
    let mut cpu = machine(&[0x18, 0xFE]);
    cpu.frame_rate = 4194304;
    assert!(cpu.step_one_frame());
    assert_eq!(cpu.gpu.lx, 12);
    let mut cpu = machine(&[0x18, 0xFE]);
    cpu.frame_rate = 30;
    assert!(cpu.step_one_frame());
    let dots = cpu.gpu.ly as usize * 456 + cpu.gpu.lx as usize;
    assert_eq!(dots, 139812 - 70224);
}

#[test]
fn one_display_frame_brings_the_scanline_back() {
    let mut cpu = machine(&[0x18, 0xFE]);
    cpu.step_gpu(456 * 10 + 17);
    cpu.ints.flag.v_blank = false;
    let mut vblanks = 0;
    let mut published = 0;
    let mut cycles = 0;
    cpu.gpu.frame[0] = dmg_core::lcd::GreyShade::Black;
    while cycles < 70224 {
        let before = cpu.gpu.finished_frame[0];
        cycles += cpu.step();
        if cpu.ints.flag.v_blank {
            vblanks += 1;
            cpu.ints.flag.v_blank = false;
            cpu.gpu.frame[0] = dmg_core::lcd::GreyShade::DarkGrey;
        }
        if cpu.gpu.finished_frame[0] != before {
            published += 1;
        }
    }
    assert_eq!(cycles, 70224);
    assert_eq!((cpu.gpu.ly, cpu.gpu.lx), (10, 17));
    assert_eq!(vblanks, 1);
    assert_eq!(published, 1);
    let mut cpu = machine(&[0x18, 0xFE]);
    assert!(cpu.run_cycles(70224));
    assert_eq!((cpu.gpu.ly, cpu.gpu.lx), (0, 0));
    assert!(cpu.ints.flag.v_blank);
    assert!(cpu.run_cycles(1));
    assert_eq!((cpu.gpu.ly, cpu.gpu.lx), (0, 12));
    assert!(cpu.run_cycles(0));
    assert_eq!((cpu.gpu.ly, cpu.gpu.lx), (0, 12));
}

#[test]
fn a_small_program_adds_the_numbers_up_to_ten() {
    let mut cpu = machine(&[
        0x06, 0x0A, // LD B,10
        0xAF, // XOR A
        0x80, // ADD A,B
        0x05, // DEC B
        0x20, 0xFC, // JR NZ,-4
        0xEA, 0x00, 0xC0, // LD (0xC000),A
        0x76, // HALT
    ]);
    cpu.mem_write(0xFF40, 0x00);
    let mut cycles = 0;
    for _ in 0..200 {
        cycles += cpu.step();
        if cpu.regs.pc == 0x010A {
            break;
        }
    }
    assert_eq!(cpu.regs.a, 55);
    assert_eq!(cpu.regs.b, 0);
    assert_eq!(cpu.mem_read(0xC000), 55);
    assert_eq!(cycles, 8 + 4 + 10 * (4 + 4) + 9 * 12 + 8 + 16);
    assert_eq!(cpu.step(), 4);
    assert_eq!(cpu.regs.pc, 0x010A);
    let text = b"Passed";
    let mut program = Vec::new();
    for &c in text.iter() {
        program.extend_from_slice(&[0x3E, c, 0xE0, 0x01, 0x3E, 0x81, 0xE0, 0x02]);
    }
    program.push(0x76);
    let mut cpu = machine(&program);
    cpu.mem_write(0xFF40, 0x00);
    let mut seen = Vec::new();
    for _ in 0..text.len() {
        for _ in 0..4 {
            cpu.step();
        }
        assert!(cpu.mem.serial_cable.transfer_in_progress);
        assert_eq!(cpu.mem.serial_cable.counter, 12);
        seen.push(cpu.mem_read(0xFF01));
    }
    assert_eq!(seen, text.to_vec());
}
