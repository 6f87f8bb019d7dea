use dmg_core::lcd::GreyShade;
use dmg_core::memory::mbcs::get_cart_type_string;
use dmg_core::cartridge::Cartridge;
use dmg_core::registers::{append_hex_word, hex_digit, Registers};
use dmg_core::rom_picker::{game_name, min, row_top, Redraw, RomPickerState};
use dmg_core::screen::{frame_byte_index, pixel_mask, should_be_white};

#[test]
fn registers_dump_as_hexadecimal() {
    let r = Registers::new();
    assert_eq!(r.debug_dump(), "AF: 0x01b0 | BC: 0x0013 | DE: 0x00d8 | HL: 0x014d");
    let mut r = Registers::new();
    r.set_af(0xFFFF);
    r.set_bc(0xABCD);
    r.set_de(0x0000);
    r.set_hl(0x9E0F);
    assert_eq!(r.debug_dump(), "AF: 0xfff0 | BC: 0xabcd | DE: 0x0000 | HL: 0x9e0f");
    assert_eq!(r.debug_dump(), format!("AF: {:#06x} | BC: {:#06x} | DE: {:#06x} | HL: {:#06x}", 0xFFF0, 0xABCD, 0, 0x9E0F));
    let mut text = String::from(">");
    append_hex_word(&mut text, 0x1A2B);
    assert_eq!(text, ">0x1a2b");
    assert_eq!(hex_digit(0), "0");
    assert_eq!(hex_digit(9), "9");
    assert_eq!(hex_digit(10), "a");
    assert_eq!(hex_digit(15), "f");
}

#[test]
fn cartridge_types_have_names() {
    let mut cart = Cartridge::playdate_bodge_noop();
    assert_eq!(get_cart_type_string(&cart), "None");
    cart.cart_type = 0x03;
    assert_eq!(get_cart_type_string(&cart), "MBC1 + RAM + BATTERY");
    cart.cart_type = 0x13;
    assert_eq!(get_cart_type_string(&cart), "MBC3 + RAM + BATTERY");
    cart.cart_type = 0x0B;
    assert_eq!(get_cart_type_string(&cart), "MMM01");
}

#[test]
fn game_files_end_in_gb() {
    assert_eq!(game_name("Mario.gb"), Some(String::from("Mario")));
    assert_eq!(game_name(".gb"), Some(String::new()));
    assert_eq!(game_name("Mario.gbc"), None);
    assert_eq!(game_name("Mario.GB"), None);
    assert_eq!(game_name("gb"), None);
    assert_eq!(game_name(""), None);
    assert_eq!(game_name("Pok\u{e9}mon.gb"), Some(String::from("Pok\u{e9}mon")));
    assert_eq!(min(3, 6), 3);
    assert_eq!(min(6, 3), 3);
    assert_eq!(min(4, 4), 4);
}

#[test]
fn the_selection_scrolls_the_list() {
    let mut picker = RomPickerState::new();
    assert!(picker.press_down() == Redraw::Nothing);
    assert!(picker.press_up() == Redraw::Nothing);
    assert_eq!(picker.selected_path(), None);
    assert_eq!(picker.visible_rows(), 0);
    assert_eq!(picker.row_game(0), None);
    for i in 0..8 {
        assert!(picker.add_file(&format!("game{}.gb", i)));
    }
    assert!(!picker.add_file("notes.txt"));
    assert_eq!(picker.games.len(), 8);
    assert_eq!(picker.visible_rows(), 6);
    assert_eq!(picker.selected_path(), Some(String::from("game0.gb")));
    assert!(picker.press_down() == Redraw::Items(1, 0));
    assert!(picker.press_down() == Redraw::Items(2, 1));
    assert!(picker.press_down() == Redraw::Items(3, 2));
    assert!(picker.press_down() == Redraw::Items(4, 3));
    assert_eq!((picker.selected, picker.scroll), (4, 0));
    assert!(picker.press_down() == Redraw::WholeList);
    assert_eq!((picker.selected, picker.scroll), (5, 1));
    assert!(picker.row_is_selected(4));
    assert!(!picker.row_is_selected(5));
    assert_eq!(picker.row_game(0), Some(1));
    assert_eq!(picker.row_game(5), Some(6));
    assert!(picker.press_down() == Redraw::WholeList);
    assert!(picker.press_down() == Redraw::WholeList);
    assert_eq!((picker.selected, picker.scroll), (7, 3));
    assert!(picker.press_down() == Redraw::Nothing);
    assert_eq!((picker.selected, picker.scroll), (7, 3));
    assert_eq!(picker.row_game(4), Some(7));
    assert_eq!(picker.row_game(5), None);
    assert_eq!(picker.selected_path(), Some(String::from("game7.gb")));
    assert!(picker.press_up() == Redraw::Items(3, 4));
    for _ in 0..3 {
        picker.press_up();
    }
    assert_eq!((picker.selected, picker.scroll), (3, 3));
    assert!(picker.press_up() == Redraw::WholeList);
    assert_eq!((picker.selected, picker.scroll), (2, 2));
    picker.press_up();
    picker.press_up();
    assert!(picker.press_up() == Redraw::Nothing);
    assert_eq!((picker.selected, picker.scroll), (0, 0));
}

#[test]
fn rows_are_laid_out_below_the_title_bar() {
    assert_eq!(row_top(0), 37);
    assert_eq!(row_top(1), 74);
    assert_eq!(row_top(5), 222);
}

#[test]
fn shades_are_dithered() {
    for x in 0..12usize {
        for y in 0..4usize {
            assert!(should_be_white(GreyShade::White, x, y));
            assert!(!should_be_white(GreyShade::Black, x, y));
            assert_eq!(should_be_white(GreyShade::LightGrey, x, y), (x + y % 2) % 2 == 0);
            assert_eq!(should_be_white(GreyShade::DarkGrey, x, y), (x + y % 2) % 3 == 0);
        }
    }
    assert!(should_be_white(GreyShade::LightGrey, 0, 0));
    assert!(!should_be_white(GreyShade::LightGrey, 0, 1));
    assert!(should_be_white(GreyShade::DarkGrey, 3, 0));
    assert!(should_be_white(GreyShade::DarkGrey, 2, 1));
    assert!(!should_be_white(GreyShade::DarkGrey, 3, 1));
    assert_eq!(pixel_mask(0), 0x80);
    assert_eq!(pixel_mask(7), 0x01);
    assert_eq!(pixel_mask(9), 0x40);
    assert_eq!(frame_byte_index(0, 0), 8);
    assert_eq!(frame_byte_index(7, 1), 60);
    assert_eq!(frame_byte_index(265, 239), 239 * 52 + 41);
}
