use dmg_core::cpu::Cpu;
use dmg_core::lcd::GreyShade;

fn machine_with(cart_type: u8, ram_code: u8, size: usize) -> Cpu {
    let mut bytes = vec![0u8; size];
    bytes[0x147] = cart_type;
    bytes[0x148] = 0x01;
    bytes[0x149] = ram_code;
    bytes[0x0000] = 0xA0;
    bytes[0x0150] = 0x5C;
    bytes[0x4000] = 0xB1;
    if size > 0x8000 {
        bytes[0x8000] = 0xB2;
    }
    match Cpu::from_rom_bytes(bytes) {
        Ok(cpu) => cpu,
        Err(_) => panic!("the image has a well-formed header"),
    }
}

fn machine() -> Cpu {
    machine_with(0, 0, 0x8000)
}

#[test]
fn plain_memory_reads_back_what_was_written() {
    let mut cpu = machine();
    let addresses = [
        0x8000u16, 0x8ABC, 0x9FFF, 0xC000, 0xC123, 0xDFFF, 0xFF80, 0xFFA5, 0xFFFE, 0xE001, 0xFDFF,
    ];
    for (i, &a) in addresses.iter().enumerate() {
        cpu.mem_write(a, 0x10 + i as u8);
    }
    for (i, &a) in addresses.iter().enumerate() {
        assert_eq!(cpu.mem_read(a), 0x10 + i as u8, "address {:#06x}", a);
    }
    for value in [0x00u8, 0x01, 0x80, 0xFF] {
        for a in [0x8000u16, 0xC000, 0xFF80] {
            cpu.mem_write(a, value);
            assert_eq!(cpu.mem_read(a), value);
        }
    }
}

#[test]
fn echo_mirrors_work_ram() {
    let mut cpu = machine();
    for k in [0x0000u16, 0x0001, 0x0ABC, 0x1DFF] {
        cpu.mem_write(0xC000 + k, (k & 0xFF) as u8 ^ 0x5A);
        assert_eq!(cpu.mem_read(0xE000 + k), cpu.mem_read(0xC000 + k));
        assert_eq!(cpu.mem_read(0xE000 + k), (k & 0xFF) as u8 ^ 0x5A);
        cpu.mem_write(0xE000 + k, 0xC3);
        assert_eq!(cpu.mem_read(0xC000 + k), 0xC3);
    }
    cpu.mem_write(0xDE00, 0x77);
    assert_eq!(cpu.mem_read(0xDE00), 0x77);
    assert_eq!(cpu.mem_read(0xFE00), 0x00);
}

#[test]
fn ppu_registers_read_back_what_was_written() {
    let mut cpu = machine();
    for address in [0xFF40u16, 0xFF42, 0xFF43, 0xFF45, 0xFF46, 0xFF47, 0xFF48, 0xFF49, 0xFF4A, 0xFF4B] {
        for value in [0x00u8, 0x01, 0x5A, 0x80, 0xA5, 0xFF] {
            cpu.mem_write(address, value);
            assert_eq!(cpu.mem_read(address), value, "address {:#06x}", address);
        }
    }
}

#[test]
fn status_low_bits_and_scanline_are_read_only() {
    let mut cpu = machine();
    assert_eq!(cpu.mem_read(0xFF41), 0x02);
    cpu.mem_write(0xFF41, 0xFF);
    assert_eq!(cpu.mem_read(0xFF41), 0x7A);
    cpu.mem_write(0xFF41, 0x05);
    assert_eq!(cpu.mem_read(0xFF41), 0x02);
    cpu.mem_write(0xFF41, 0x28);
    assert_eq!(cpu.mem_read(0xFF41), 0x2A);
    cpu.step_gpu(456 * 3 + 7);
    assert_eq!(cpu.mem_read(0xFF44), 3);
    cpu.mem_write(0xFF44, 0x55);
    assert_eq!(cpu.mem_read(0xFF44), 3);
    assert_eq!(cpu.gpu.lx, 7);
    for address in [0xFF4Cu16, 0xFF4D, 0xFF4E, 0xFF4F] {
        cpu.mem_write(address, 0x12);
        assert_eq!(cpu.mem_read(address), 0xFF);
    }
}

#[test]
fn unmapped_addresses_read_ff_and_ignore_writes() {
    let mut cpu = machine();
    for address in [0xFEA0u16, 0xFEFF, 0xFF03, 0xFF08, 0xFF0E, 0xFF50, 0xFF7F] {
        cpu.mem_write(address, 0x12);
        assert_eq!(cpu.mem_read(address), 0xFF, "address {:#06x}", address);
    }
    cpu.mem_write(0x0150, 0x99);
    assert_eq!(cpu.mem_read(0x0150), 0x5C);
    assert_eq!(cpu.mem_read(0x0000), 0xA0);
    cpu.mem_write(0xA000, 0x12);
    assert_eq!(cpu.mem_read(0xA000), 0xFF);
    assert_eq!(cpu.mem_read(0xBFFF), 0xFF);
}

#[test]
fn small_peripherals_are_mapped() {
    let mut cpu = machine();
    assert_eq!(cpu.mem_read(0xFF00), 0x1F);
    cpu.mem.joypad.down_pressed = true;
    cpu.mem_write(0xFF00, 0x20);
    assert_eq!(cpu.mem_read(0xFF00), 0x27);
    cpu.mem_write(0xFF01, 0x42);
    assert_eq!(cpu.mem_read(0xFF01), 0x42);
    assert_eq!(cpu.mem_read(0xFF02), 0x7E);
    cpu.mem_write(0xFF06, 0x33);
    cpu.mem_write(0xFF07, 0x05);
    assert_eq!(cpu.mem_read(0xFF06), 0x33);
    assert_eq!(cpu.mem_read(0xFF07), 0x05);
    cpu.mem.timer.counter = 9;
    assert_eq!(cpu.mem_read(0xFF05), 9);
    cpu.mem_write(0xFF05, 0x77);
    assert_eq!(cpu.mem_read(0xFF05), 0);
    cpu.mem.timer.divider = 0x1234;
    assert_eq!(cpu.mem_read(0xFF04), 0x12);
    cpu.mem_write(0xFF04, 0x77);
    assert_eq!(cpu.mem_read(0xFF04), 0);
    cpu.mem_write(0xFF0F, 0xFF);
    assert_eq!(cpu.mem_read(0xFF0F), 0xFF);
    cpu.mem_write(0xFF0F, 0x00);
    assert_eq!(cpu.mem_read(0xFF0F), 0xE0);
    cpu.mem_write(0xFFFF, 0xFF);
    assert_eq!(cpu.mem_read(0xFFFF), 0x1F);
    cpu.mem_write(0xFF25, 0x3C);
    assert_eq!(cpu.mem_read(0xFF25), 0x3C);
    cpu.mem_write(0xFF3F, 0x9D);
    assert_eq!(cpu.mem_read(0xFF3F), 0x9D);
    cpu.mem_write(0xFE00, 0x11);
    cpu.mem_write(0xFE9F, 0x22);
    assert_eq!(cpu.mem_read(0xFE00), 0x11);
    assert_eq!(cpu.mem_read(0xFE9F), 0x22);
}

#[test]
fn sixteen_bit_access_is_little_endian() {
    let mut cpu = machine();
    cpu.mem_write_16(0xC000, 0x1234);
    assert_eq!(cpu.mem_read(0xC000), 0x34);
    assert_eq!(cpu.mem_read(0xC001), 0x12);
    assert_eq!(cpu.mem_read_16(0xC000), 0x1234);
    cpu.mem_write(0xFFFF, 0x15);
    assert_eq!(cpu.mem_read_16(0xFFFF), 0xA015);
    assert_eq!(cpu.mem.read_video(0), 0);
    cpu.mem_write_16(0x8010, 0xBEEF);
    assert_eq!(cpu.mem.read_video(0x10), 0xEF);
    assert_eq!(cpu.mem.read_video_16(0x10), 0xBEEF);
}

#[test]
fn mbc1_bank_switch() {
    let mut cpu = machine_with(0x01, 0, 0x10000);
    assert_eq!(cpu.mem_read(0x4000), 0xB1);
    cpu.mem_write(0x2100, 2);
    assert_eq!(cpu.mem_read(0x4000), 0xB2);
    cpu.mem_write(0x2100, 1);
    assert_eq!(cpu.mem_read(0x4000), 0xB1);
    assert_eq!(cpu.mem_read(0x0000), 0xA0);
}

#[test]
fn mbc1_ram_through_the_interconnect() {
    let mut cpu = machine_with(0x03, 2, 0x10000);
    cpu.mem_write(0xA000, 0x12);
    assert_eq!(cpu.mem_read(0xA000), 0xFF);
    cpu.mem_write(0x0000, 0x0A);
    cpu.mem_write(0xA000, 0x12);
    cpu.mem_write(0xBFFF, 0x34);
    assert_eq!(cpu.mem_read(0xA000), 0x12);
    assert_eq!(cpu.mem_read(0xBFFF), 0x34);
    let mut small = machine_with(0x02, 1, 0x10000);
    small.mem_write(0x0000, 0x0A);
    small.mem_write(0xA7FF, 0x56);
    small.mem_write(0xA800, 0x78);
    assert_eq!(small.mem_read(0xA7FF), 0x56);
    assert_eq!(small.mem_read(0xA800), 0xFF);
}

#[test]
fn peripherals_advance_with_the_instruction() {
    let mut cpu = machine();
    cpu.mem_write(0xFF40, 0x00);
    cpu.mem_write(0xFF07, 0x05);
    cpu.mem_write(0xFF02, 0x81);
    cpu.regs.pc = 0x1000;
    for _ in 0..4 {
        assert_eq!(cpu.step(), 4);
    }
    assert_eq!(cpu.mem_read(0xFF05), 1);
    for _ in 0..123 {
        cpu.step();
    }
    assert_eq!(cpu.mem_read(0xFF05), 31);
    assert_eq!(cpu.mem_read(0xFF01), 0x00);
    cpu.step();
    assert_eq!(cpu.mem_read(0xFF01), 0xFF);
    assert_eq!(cpu.mem_read(0xFF0F), 0xE8);
    assert_eq!(cpu.mem_read(0xFF04), 2);
    assert_eq!(cpu.mem_read(0xFF44), 0);
    assert!(cpu.gpu.finished_frame[0] == GreyShade::White);
}
