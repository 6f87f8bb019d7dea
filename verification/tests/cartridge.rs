use dmg_core::cartridge::{get_title, ram_size_of_code, rom_size_of_code, Cartridge, LoadError};
use dmg_core::cpu::Cpu;
use dmg_core::memory::battery_backed_ram::BatteryBackedRam;
use dmg_core::memory::mbcs::mbc1::MBC1;
use dmg_core::memory::mbcs::none::MBCNone;
use dmg_core::memory::mbcs::{mbc_from_info, MbcDevice, MBC};
use dmg_core::memory::ram::Ram;
use dmg_core::memory::rom::Rom;

fn image(size: usize, title: &[u8], cart_type: u8, rom_code: u8, ram_code: u8) -> Vec<u8> {
    let mut bytes = vec![0u8; size];
    for (i, b) in title.iter().enumerate() {
        bytes[0x134 + i] = *b;
    }
    bytes[0x147] = cart_type;
    bytes[0x148] = rom_code;
    bytes[0x149] = ram_code;
    bytes
}

#[test]
fn header_fields_are_read_at_their_offsets() {
    let bytes = image(0x8000, b"TETRIS", 0x01, 0x02, 0x02);
    let cart = Cartridge::parse(&bytes, String::from("tetris.gb"));
    assert_eq!(cart.title, "TETRIS");
    assert_eq!(cart.rom_path, "tetris.gb");
    assert_eq!(cart.cart_type, 0x01);
    assert_eq!(cart.rom_size, 131072);
    assert_eq!(cart.ram_size, 8192);
}

#[test]
fn title_may_fill_the_whole_field_and_may_be_empty() {
    let bytes = image(0x150, b"ABCDEFGHIJKLMNOP", 0, 0, 0);
    assert_eq!(get_title(&bytes), Some(String::from("ABCDEFGHIJKLMNOP")));
    let bytes = image(0x150, b"", 0, 0, 0);
    assert_eq!(get_title(&bytes), Some(String::new()));
    let bytes = image(0x150, b"AB\0CD", 0, 0, 0);
    assert_eq!(get_title(&bytes), Some(String::from("AB")));
}

#[test]
fn title_is_decoded_as_utf8() {
    let bytes = image(0x150, "Pok\u{e9}".as_bytes(), 0, 0, 0);
    let cart = Cartridge::parse(&bytes, String::new());
    assert_eq!(cart.title, "Pok\u{e9}");
    assert_eq!(cart.title.chars().count(), 4);
}

#[test]
fn ram_and_rom_size_codes() {
    assert_eq!(ram_size_of_code(0), Some(0));
    assert_eq!(ram_size_of_code(1), Some(2048));
    assert_eq!(ram_size_of_code(2), Some(8192));
    assert_eq!(ram_size_of_code(3), Some(32768));
    assert_eq!(ram_size_of_code(4), Some(131072));
    assert_eq!(ram_size_of_code(5), Some(65536));
    assert_eq!(ram_size_of_code(6), None);
    assert_eq!(ram_size_of_code(0xFF), None);
    assert_eq!(rom_size_of_code(0), Some(32768));
    assert_eq!(rom_size_of_code(1), Some(65536));
    assert_eq!(rom_size_of_code(8), Some(8388608));
    assert_eq!(rom_size_of_code(200), None);
}

#[test]
fn each_load_error_has_its_input() {
    let short = vec![0u8; 0x149];
    assert!(matches!(Cartridge::try_parse(&short, String::new()), Err(LoadError::HeaderTooShort)));
    let bad_title = image(0x150, &[0x41, 0xFF, 0x42], 0, 0, 0);
    assert!(matches!(Cartridge::try_parse(&bad_title, String::new()), Err(LoadError::TitleNotUtf8)));
    let huge = image(0x150, b"X", 0, 0xFF, 0);
    assert!(matches!(Cartridge::try_parse(&huge, String::new()), Err(LoadError::RomSizeTooLarge)));
    let bad_ram = image(0x150, b"X", 0, 0, 6);
    assert!(matches!(Cartridge::try_parse(&bad_ram, String::new()), Err(LoadError::UnknownRamSize)));
    let mbc3 = image(0x150, b"X", 0x13, 0, 0);
    assert!(matches!(Cpu::from_rom_bytes(mbc3), Err(LoadError::UnsupportedController)));
    let banked = image(0x150, b"X", 0x02, 0, 3);
    assert!(matches!(Cpu::from_rom_bytes(banked), Err(LoadError::BankedRam)));
    let both = image(0x150, &[0xFF], 0x13, 0xFF, 9);
    assert!(matches!(Cpu::from_rom_bytes(both), Err(LoadError::TitleNotUtf8)));
    let exact = image(0x14A, b"OK", 0, 0, 0);
    assert!(Cartridge::try_parse(&exact, String::new()).is_ok());
    assert!(matches!(Cpu::from_rom_bytes(Vec::new()), Err(LoadError::HeaderTooShort)));
}

#[test]
fn test_cartridge_has_no_controller() {
    let cart = Cartridge::playdate_bodge_noop();
    assert_eq!(cart.title, "PLAYBOYTEST");
    assert_eq!(cart.rom_path, "");
    assert_eq!(cart.cart_type, 0);
    assert_eq!(cart.rom_size, 100);
    assert_eq!(cart.ram_size, 0);
    let copy = cart.clone();
    assert_eq!(copy.title, "PLAYBOYTEST");
    assert_eq!(copy.rom_size, 100);
}

#[test]
fn ram_reads_back_what_was_written() {
    let mut ram = Ram::new(16);
    assert_eq!(ram.size, 16);
    assert_eq!(ram.bytes, vec![0u8; 16]);
    ram.write(3, 0xAA);
    assert_eq!(ram.read(3), 0xAA);
    assert_eq!(ram.read(2), 0);
    let loaded = Ram::from_file(vec![1, 2, 3], 3);
    assert_eq!(loaded.read(2), 3);
    assert_eq!(loaded.size, 3);
}

#[test]
fn rom_reads_zero_past_its_end() {
    let rom = Rom::from_file(vec![7, 8, 9]);
    assert_eq!(rom.read(0), 7);
    assert_eq!(rom.read(2), 9);
    assert_eq!(rom.read(3), 0);
    assert_eq!(rom.read(0xFFFF), 0);
    assert_eq!(rom.read_at(1), 8);
    assert_eq!(rom.read_at(70000), 0);
    let zeroes = Rom::from_playdate_bodge_zeroes();
    assert_eq!(zeroes.bytes.len(), 100);
    assert_eq!(zeroes.read(99), 0);
}

#[test]
fn battery_backed_ram_remembers_changes() {
    let mut ram = BatteryBackedRam::new(8, true);
    assert!(!ram.needs_save());
    ram.write(1, 5);
    assert_eq!(ram.read(1), 5);
    assert!(ram.needs_save());
    ram.step();
    assert!(ram.needs_save());
    ram.mark_saved();
    assert!(!ram.needs_save());
    let mut plain = BatteryBackedRam::new(8, false);
    plain.write(0, 1);
    assert!(plain.changed_since_last_save);
    assert!(!plain.needs_save());
}

#[test]
fn no_controller_ignores_writes() {
    let mut mbc = MBCNone::new(Rom::from_file(vec![1, 2, 3, 4]));
    assert_eq!(mbc.read(2), 3);
    mbc.write(2, 0xFF);
    mbc.write(0x2100, 2);
    assert_eq!(mbc.read(2), 3);
    assert_eq!(mbc.read(0x7FFF), 0);
    assert_eq!(mbc.ram_read(0), 0xFF);
    mbc.ram_write(0, 1);
    assert_eq!(mbc.ram_read(0), 0xFF);
    mbc.step();
}

fn banked_rom() -> Vec<u8> {
    let mut bytes = image(0x10000, b"BANKS", 0x03, 0x01, 0x02);
    bytes[0x0000] = 0xA0;
    bytes[0x4000] = 0xB1;
    bytes[0x8000] = 0xB2;
    bytes[0xC000] = 0xB3;
    bytes
}

#[test]
fn mbc1_switches_rom_banks() {
    let bytes = banked_rom();
    let cart = Cartridge::parse(&bytes, String::new());
    let mut mbc = MBC1::new(cart, Rom::from_file(bytes));
    assert_eq!(mbc.rom_bank, 1);
    assert_eq!(mbc.read(0x0000), 0xA0);
    assert_eq!(mbc.read(0x4000), 0xB1);
    mbc.write(0x2100, 2);
    assert_eq!(mbc.read(0x4000), 0xB2);
    assert_eq!(mbc.read(0x0000), 0xA0);
    mbc.write(0x2100, 1);
    assert_eq!(mbc.read(0x4000), 0xB1);
    mbc.write(0x3FFF, 0);
    assert_eq!(mbc.rom_bank, 1);
    mbc.write(0x2000, 0xE3);
    assert_eq!(mbc.rom_bank, 3);
    assert_eq!(mbc.read(0x4000), 0xB3);
    mbc.write(0x2000, 0x20);
    assert_eq!(mbc.rom_bank, 1);
    mbc.write(0x2000, 0x1F);
    assert_eq!(mbc.rom_bank, 31);
    assert_eq!(mbc.read(0x4000), 0);
    assert_eq!(mbc.read_bank(2, 0), 0xB2);
    mbc.write(0x4000, 3);
    mbc.write(0x6000, 1);
    assert_eq!(mbc.rom_bank, 31);
}

#[test]
fn mbc1_ram_needs_enabling() {
    let bytes = banked_rom();
    let cart = Cartridge::parse(&bytes, String::new());
    let mut mbc = MBC1::new(cart, Rom::from_file(bytes));
    assert!(!mbc.ram_enabled);
    assert_eq!(mbc.ram_read(0), 0xFF);
    assert!(!mbc.has_shown_ram_warning);
    mbc.ram_write(0, 0x12);
    assert!(mbc.has_shown_ram_warning);
    assert!(!mbc.ram.needs_save());
    mbc.write(0x0000, 0x0A);
    assert!(mbc.ram_enabled);
    assert_eq!(mbc.ram_read(0), 0x00);
    mbc.ram_write(0, 0x12);
    mbc.ram_write(0x1FFF, 0x34);
    assert_eq!(mbc.ram_read(0), 0x12);
    assert_eq!(mbc.ram_read(0x1FFF), 0x34);
    assert_eq!(mbc.ram_read(0x2000), 0xFF);
    mbc.ram_write(0x2000, 0x56);
    assert!(mbc.ram.needs_save());
    mbc.step();
    mbc.write(0x1FFF, 0x0F);
    assert!(!mbc.ram_enabled);
    assert_eq!(mbc.ram_read(0), 0xFF);
    mbc.write(0x0000, 0x1A);
    assert!(mbc.ram_enabled);
    assert_eq!(mbc.ram_read(0), 0x12);
}

#[test]
fn controller_is_chosen_by_cartridge_type() {
    let plain = image(0x8000, b"PLAIN", 0x00, 0, 0);
    let cart = Cartridge::parse(&plain, String::new());
    assert!(matches!(mbc_from_info(cart, Rom::from_file(plain)), MbcDevice::Bare(_)));
    for cart_type in 1..=3u8 {
        let bytes = image(0x8000, b"MBC", cart_type, 0, 2);
        let cart = Cartridge::parse(&bytes, String::new());
        let device = mbc_from_info(cart, Rom::from_file(bytes));
        match device {
            MbcDevice::Mbc1(m) => {
                assert_eq!(m.ram.battery_enabled, cart_type == 3);
                assert_eq!(m.ram.size, 8192);
            },
            MbcDevice::Bare(_) => panic!("type {} has a controller", cart_type),
        }
    }
    let bytes = banked_rom();
    let cart = Cartridge::parse(&bytes, String::new());
    let mut device = mbc_from_info(cart, Rom::from_file(bytes));
    device.write(0x2100, 2);
    assert_eq!(device.read(0x4000), 0xB2);
    device.write(0x0000, 0x0A);
    device.ram_write(5, 9);
    assert_eq!(device.ram_read(5), 9);
    device.step();
}
