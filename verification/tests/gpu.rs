use dmg_core::cpu::Cpu;
use dmg_core::gpu::{Gpu, Sprite};
use dmg_core::interrupts::Interrupts;
use dmg_core::lcd::{GreyShade, LcdMode};

fn machine(program: &[(usize, u8)]) -> Cpu {
    let mut bytes = vec![0u8; 0x8000];
    bytes[0x100] = 0x18;
    bytes[0x101] = 0xFE;
    for &(at, b) in program {
        bytes[at] = b;
    }
    match Cpu::from_rom_bytes(bytes) {
        Ok(cpu) => cpu,
        Err(_) => panic!("the image has a well-formed header"),
    }
}

fn expected_mode(ly: u8, lx: u16) -> u8 {
    if ly >= 144 {
        1
    } else if lx < 80 {
        2
    } else if lx < 252 {
        3
    } else {
        0
    }
}

#[test]
fn oam_dma() {
    let mut cpu = machine(&[]);
    for i in 0..160u16 {
        cpu.mem_write(0xC000 + i, i as u8);
    }
    cpu.mem_write(0xFF46, 0xC0);
    assert_eq!(cpu.gpu.dma_cycles, 160);
    cpu.step_gpu(159);
    assert_eq!(cpu.mem_read(0xFE00 + 5), 0);
    assert_eq!(cpu.gpu.dma_cycles, 1);
    cpu.step_gpu(1);
    for i in 0..160u16 {
        assert_eq!(cpu.mem_read(0xFE00 + i), i as u8);
    }
    assert_eq!(cpu.gpu.dma_cycles, 0);
    assert_eq!(cpu.mem_read(0xFF46), 0xC0);
}

#[test]
fn oam_dma_runs_with_the_display_off_and_through_instructions() {
    let mut cpu = machine(&[]);
    cpu.mem_write(0xFF40, 0x00);
    for i in 0..160u16 {
        cpu.mem_write(0x8000 + i, 0xFF - i as u8);
    }
    cpu.mem_write(0xFF46, 0x80);
    let mut cycles = 0;
    while cycles < 160 {
        cycles += cpu.step();
    }
    for i in 0..160u16 {
        assert_eq!(cpu.mem_read(0xFE00 + i), 0xFF - i as u8);
    }
    assert_eq!(cpu.gpu.ly, 0);
    assert_eq!(cpu.gpu.lx, 0);
    cpu.mem_write(0xFE05, 0x99);
    cpu.mem_write(0xFF46, 0xFE);
    cpu.step_gpu(160);
    assert_eq!(cpu.mem_read(0xFE05), 0x99);
    assert_eq!(cpu.mem_read(0xFE00), 0xFF);
}

#[test]
fn ppu_coincidence() {
    let mut cpu = machine(&[(0x48, 0xD9)]);
    cpu.mem_write(0xFF45, 100);
    cpu.mem_write(0xFF41, 0x40);
    cpu.mem_write(0xFFFF, 0x02);
    cpu.ints.ime = true;
    let mut entered = 0;
    let mut steps = 0;
    while cpu.gpu.ly < 100 && steps < 100000 {
        cpu.step();
        steps += 1;
        if cpu.regs.pc == 0x48 {
            entered += 1;
        }
    }
    assert_eq!(cpu.gpu.ly, 100);
    for _ in 0..8 {
        cpu.step();
        if cpu.regs.pc == 0x48 {
            entered += 1;
        }
    }
    assert_eq!(entered, 1);
    assert!(cpu.gpu.status.coincidence_flag);
    assert_eq!(cpu.mem_read(0xFF41) & 0x04, 0x04);
    assert!(cpu.ints.ime);
}

#[test]
fn tile_rendering() {
    let mut cpu = machine(&[]);
    cpu.mem_write(0xFF40, 0x91);
    for i in 0..0x400u16 {
        cpu.mem_write(0x9800 + i, 1);
    }
    for row in 0..8u16 {
        cpu.mem_write(0x8010 + row * 2, 0x55);
        cpu.mem_write(0x8010 + row * 2 + 1, 0x55);
    }
    cpu.mem_write(0xFF47, 0b11_10_01_00);
    cpu.mem_write(0xFF42, 0);
    cpu.mem_write(0xFF43, 0);
    assert!(cpu.step_one_frame());
    assert!(cpu.gpu.finished_frame[0] == GreyShade::White);
    assert!(cpu.gpu.finished_frame[1] == GreyShade::Black);
    assert!(cpu.gpu.finished_frame[2] == GreyShade::White);
    assert!(cpu.gpu.finished_frame[159] == GreyShade::Black);
    assert!(cpu.gpu.finished_frame[160] == GreyShade::White);
    assert!(cpu.gpu.finished_frame[143 * 160 + 159] == GreyShade::Black);
    let rgba = cpu.gpu.get_sfml_frame();
    assert_eq!(rgba.len(), 92160);
    assert_eq!(&rgba[0..8], &[0xDD, 0xDD, 0xDD, 0xFF, 0x55, 0x55, 0x55, 0xFF]);
}

#[test]
fn palette_maps_colour_numbers_to_shades() {
    let gpu = Gpu::new();
    assert!(gpu.get_shade_from_colour_id(0, 0b11_10_01_00) == GreyShade::White);
    assert!(gpu.get_shade_from_colour_id(1, 0b11_10_01_00) == GreyShade::LightGrey);
    assert!(gpu.get_shade_from_colour_id(2, 0b11_10_01_00) == GreyShade::DarkGrey);
    assert!(gpu.get_shade_from_colour_id(3, 0b11_10_01_00) == GreyShade::Black);
    assert!(gpu.get_shade_from_colour_id(0, 0b00_01_10_11) == GreyShade::Black);
    assert!(gpu.get_shade_from_colour_id(3, 0b00_01_10_11) == GreyShade::White);
    assert_eq!(gpu.get_colour_id_in_line(0x8000, 0), 2);
    assert_eq!(gpu.get_colour_id_in_line(0x0080, 0), 1);
    assert_eq!(gpu.get_colour_id_in_line(0x8080, 0), 3);
    assert_eq!(gpu.get_colour_id_in_line(0x8080, 1), 0);
    assert_eq!(gpu.get_colour_id_in_line(0x0101, 7), 3);
    assert_eq!(gpu.get_colour_id_in_line(0x0302, 6), 3);
    assert_eq!(gpu.get_colour_id_in_line(0x0302, 7), 2);
}

#[test]
fn modes_follow_the_position() {
    let mut cpu = machine(&[]);
    let mut vblanks = 0;
    let mut frames_published = 0;
    for _ in 0..70224 {
        let before = cpu.gpu.finished_frame[0];
        cpu.ints.flag.v_blank = false;
        cpu.gpu.frame[0] = if cpu.gpu.ly == 143 { GreyShade::Black } else { GreyShade::White };
        cpu.step_gpu(1);
        assert!(cpu.gpu.ly < 154);
        assert!(cpu.gpu.lx < 456);
        assert_eq!(cpu.gpu.status.mode_flag, expected_mode(cpu.gpu.ly, cpu.gpu.lx));
        if cpu.ints.flag.v_blank {
            vblanks += 1;
            assert_eq!(cpu.gpu.ly, 144);
            assert_eq!(cpu.gpu.lx, 0);
        }
        if cpu.gpu.finished_frame[0] != before {
            frames_published += 1;
        }
    }
    assert_eq!(cpu.gpu.ly, 0);
    assert_eq!(cpu.gpu.lx, 0);
    assert!(cpu.gpu.status.get_mode() == LcdMode::OAMSearch);
    assert_eq!(vblanks, 1);
    assert_eq!(frames_published, 1);
}

#[test]
fn status_interrupt_sources() {
    let mut cpu = machine(&[]);
    cpu.mem_write(0xFF41, 0x08);
    cpu.step_gpu(251);
    assert!(!cpu.ints.flag.lcd_stat);
    cpu.step_gpu(1);
    assert!(cpu.ints.flag.lcd_stat);
    assert_eq!(cpu.gpu.status.mode_flag, 0);
    let mut cpu = machine(&[]);
    cpu.mem_write(0xFF41, 0x10);
    cpu.step_gpu(144 * 456 - 1);
    assert!(!cpu.ints.flag.lcd_stat);
    assert!(!cpu.ints.flag.v_blank);
    cpu.step_gpu(1);
    assert!(cpu.ints.flag.lcd_stat);
    assert!(cpu.ints.flag.v_blank);
    let mut cpu = machine(&[]);
    cpu.mem_write(0xFF41, 0x20);
    cpu.step_gpu(154 * 456 - 1);
    assert!(!cpu.ints.flag.lcd_stat);
    assert_eq!(cpu.gpu.ly, 153);
    cpu.step_gpu(1);
    assert!(cpu.ints.flag.lcd_stat);
    assert_eq!(cpu.gpu.ly, 0);
    let mut cpu = machine(&[]);
    cpu.step_gpu(154 * 456);
    assert!(!cpu.ints.flag.lcd_stat);
    assert!(cpu.ints.flag.v_blank);
    assert!(cpu.gpu.status.coincidence_flag);
}

#[test]
fn disabled_display_does_not_advance() {
    let mut cpu = machine(&[]);
    cpu.step_gpu(1000);
    assert_eq!((cpu.gpu.ly, cpu.gpu.lx), (2, 88));
    cpu.mem_write(0xFF40, 0x48);
    cpu.step_gpu(5000);
    assert_eq!((cpu.gpu.ly, cpu.gpu.lx), (2, 88));
    assert_eq!(cpu.gpu.status.mode_flag, 3);
    cpu.mem_write(0xFF40, 0xC8);
    cpu.step_gpu(1);
    assert_eq!((cpu.gpu.ly, cpu.gpu.lx), (2, 89));
}

fn sprite(y: i32, x: i32, pattern: u8) -> Sprite {
    Sprite { y_pos: y, x_pos: x, pattern_id: pattern, above_bg: true, y_flip: false, x_flip: false, use_palette_0: true }
}

#[test]
fn sprites_are_read_from_oam() {
    let mut gpu = Gpu::new();
    let mut ints = Interrupts::new();
    gpu.raw_write(0xFE00, 16, &mut ints);
    gpu.raw_write(0xFE01, 8, &mut ints);
    gpu.raw_write(0xFE02, 0x42, &mut ints);
    gpu.raw_write(0xFE03, 0xF0, &mut ints);
    gpu.raw_write(0xFE9C, 0, &mut ints);
    gpu.raw_write(0xFE9D, 0xFF, &mut ints);
    let sprites = gpu.get_all_sprites();
    assert_eq!(sprites.len(), 40);
    assert_eq!((sprites[0].y_pos, sprites[0].x_pos, sprites[0].pattern_id), (0, 0, 0x42));
    assert!(!sprites[0].above_bg && sprites[0].y_flip && sprites[0].x_flip && !sprites[0].use_palette_0);
    assert_eq!((sprites[39].y_pos, sprites[39].x_pos), (-16, 247));
    assert!(sprites[39].above_bg && !sprites[39].y_flip && !sprites[39].x_flip && sprites[39].use_palette_0);
    assert_eq!((sprites[1].y_pos, sprites[1].x_pos), (-16, -8));
    gpu.sprite_cache = sprites;
    assert_eq!(gpu.get_sprites_on_line(0).len(), 1);
    assert_eq!(gpu.get_sprites_on_line(7).len(), 1);
    assert_eq!(gpu.get_sprites_on_line(8).len(), 0);
    gpu.raw_write(0xFF40, 0xCC, &mut ints);
    assert_eq!(gpu.get_sprites_on_line(15).len(), 1);
    assert_eq!(gpu.get_sprites_on_line(16).len(), 0);
}

fn sprite_scene() -> Cpu {
    let mut cpu = machine(&[]);
    cpu.mem_write(0xFF40, 0x93);
    cpu.mem_write(0xFF47, 0b11_10_01_00);
    cpu.mem_write(0xFF48, 0b01_01_01_00);
    cpu.mem_write(0xFF49, 0b10_10_10_00);
    for row in 0..8u16 {
        cpu.mem_write(0x8020 + row * 2, 0xFF);
        cpu.mem_write(0x8020 + row * 2 + 1, 0x00);
        cpu.mem_write(0x8030 + row * 2, 0x0F);
        cpu.mem_write(0x8030 + row * 2 + 1, 0x0F);
        cpu.mem_write(0x8040 + row * 2, if row == 0 { 0xFF } else { 0x00 });
        cpu.mem_write(0x8040 + row * 2 + 1, if row == 0 { 0xFF } else { 0x00 });
    }
    cpu
}

#[test]
fn leftmost_sprite_wins_and_ties_go_to_the_earlier() {
    let cpu = sprite_scene();
    let white = GreyShade::White;
    let mut second = sprite(0, 4, 2);
    second.use_palette_0 = false;
    let pair = vec![second, sprite(0, 0, 2)];
    assert!(cpu.gpu.get_sprite_colour_at(&cpu.mem, &pair, white, 0, 5, 0) == GreyShade::LightGrey);
    assert!(cpu.gpu.get_sprite_colour_at(&cpu.mem, &pair, white, 0, 3, 0) == GreyShade::LightGrey);
    assert!(cpu.gpu.get_sprite_colour_at(&cpu.mem, &pair, white, 0, 9, 0) == GreyShade::DarkGrey);
    assert!(cpu.gpu.get_sprite_colour_at(&cpu.mem, &pair, white, 0, 12, 0) == GreyShade::White);
    let tie = vec![second, sprite(0, 4, 2)];
    assert!(cpu.gpu.get_sprite_colour_at(&cpu.mem, &tie, white, 0, 5, 0) == GreyShade::DarkGrey);
    let tie = vec![sprite(0, 4, 2), second];
    assert!(cpu.gpu.get_sprite_colour_at(&cpu.mem, &tie, white, 0, 5, 0) == GreyShade::LightGrey);
    let transparent_first = vec![sprite(0, 0, 3), second];
    assert!(cpu.gpu.get_sprite_colour_at(&cpu.mem, &transparent_first, white, 0, 2, 0) == GreyShade::White);
    assert!(cpu.gpu.get_sprite_colour_at(&cpu.mem, &transparent_first, white, 0, 4, 0) == GreyShade::LightGrey);
    assert!(cpu.gpu.get_sprite_colour_at(&cpu.mem, &transparent_first, white, 0, 8, 0) == GreyShade::DarkGrey);
}

#[test]
fn sprite_priority_flips_and_size() {
    let mut cpu = sprite_scene();
    let black = GreyShade::Black;
    let mut behind = sprite(0, 0, 2);
    behind.above_bg = false;
    let list = vec![behind];
    assert!(cpu.gpu.get_sprite_colour_at(&cpu.mem, &list, black, 1, 0, 0) == GreyShade::Black);
    assert!(cpu.gpu.get_sprite_colour_at(&cpu.mem, &list, black, 0, 0, 0) == GreyShade::LightGrey);
    let mut flipped = sprite(0, 0, 3);
    assert!(cpu.gpu.get_sprite_colour_at(&cpu.mem, &vec![flipped], black, 0, 0, 0) == GreyShade::Black);
    assert!(cpu.gpu.get_sprite_colour_at(&cpu.mem, &vec![flipped], black, 0, 7, 0) == GreyShade::LightGrey);
    flipped.x_flip = true;
    assert!(cpu.gpu.get_sprite_colour_at(&cpu.mem, &vec![flipped], black, 0, 0, 0) == GreyShade::LightGrey);
    assert!(cpu.gpu.get_sprite_colour_at(&cpu.mem, &vec![flipped], black, 0, 7, 0) == GreyShade::Black);
    let mut top_row = sprite(0, 0, 4);
    assert!(cpu.gpu.get_sprite_colour_at(&cpu.mem, &vec![top_row], black, 0, 0, 0) == GreyShade::LightGrey);
    assert!(cpu.gpu.get_sprite_colour_at(&cpu.mem, &vec![top_row], black, 0, 0, 7) == GreyShade::Black);
    top_row.y_flip = true;
    assert!(cpu.gpu.get_sprite_colour_at(&cpu.mem, &vec![top_row], black, 0, 0, 0) == GreyShade::Black);
    assert!(cpu.gpu.get_sprite_colour_at(&cpu.mem, &vec![top_row], black, 0, 0, 7) == GreyShade::LightGrey);
    cpu.mem_write(0xFF40, 0x97);
    let tall = sprite(0, 0, 3);
    assert!(cpu.gpu.get_sprite_colour_at(&cpu.mem, &vec![tall], black, 0, 0, 0) == GreyShade::LightGrey);
    assert!(cpu.gpu.get_sprite_colour_at(&cpu.mem, &vec![tall], black, 0, 0, 8) == GreyShade::Black);
    assert!(cpu.gpu.get_sprite_colour_at(&cpu.mem, &vec![tall], black, 0, 7, 8) == GreyShade::LightGrey);
    let mut tall_flipped = sprite(0, 0, 4);
    tall_flipped.y_flip = true;
    assert!(cpu.gpu.get_sprite_colour_at(&cpu.mem, &vec![tall_flipped], black, 0, 0, 15) == GreyShade::LightGrey);
    assert!(cpu.gpu.get_sprite_colour_at(&cpu.mem, &vec![tall_flipped], black, 0, 0, 14) == GreyShade::Black);
    cpu.mem_write(0xFF40, 0x91);
    assert!(cpu.gpu.get_sprite_colour_at(&cpu.mem, &vec![tall], black, 0, 0, 0) == GreyShade::Black);
}

#[test]
fn background_scroll_window_and_tile_addressing() {
    let mut cpu = machine(&[]);
    cpu.mem_write(0xFF40, 0x81);
    for row in 0..8u16 {
        cpu.mem_write(0x9000 + row * 2, 0xFF);
        cpu.mem_write(0x8800 + row * 2 + 1, 0xFF);
        cpu.mem_write(0x8010 + row * 2, 0x80);
        cpu.mem_write(0x8010 + row * 2 + 1, 0x80);
    }
    assert_eq!(cpu.gpu.get_background_colour_at(&cpu.mem, 0, 0), 1);
    cpu.mem_write(0x9801, 0x80);
    assert_eq!(cpu.gpu.get_background_colour_at(&cpu.mem, 8, 0), 2);
    cpu.mem_write(0xFF43, 8);
    assert_eq!(cpu.gpu.get_background_colour_at(&cpu.mem, 0, 0), 2);
    cpu.mem_write(0xFF43, 0xF9);
    assert_eq!(cpu.gpu.get_background_colour_at(&cpu.mem, 15, 0), 2);
    cpu.mem_write(0xFF43, 0);
    cpu.mem_write(0x9820, 0x80);
    cpu.mem_write(0xFF42, 8);
    assert_eq!(cpu.gpu.get_background_colour_at(&cpu.mem, 0, 0), 2);
    cpu.mem_write(0xFF42, 0);
    cpu.mem_write(0xFF40, 0x91);
    cpu.mem_write(0x9800, 0x01);
    assert_eq!(cpu.gpu.get_background_colour_at(&cpu.mem, 0, 0), 3);
    assert_eq!(cpu.gpu.get_background_colour_at(&cpu.mem, 1, 0), 0);
    cpu.mem_write(0xFF40, 0x99);
    assert_eq!(cpu.gpu.get_background_colour_at(&cpu.mem, 0, 0), 0);
    cpu.mem_write(0x9C00, 0x01);
    assert_eq!(cpu.gpu.get_background_colour_at(&cpu.mem, 0, 0), 3);
    cpu.mem_write(0xFF40, 0xF1);
    cpu.mem_write(0xFF4B, 7 + 16);
    cpu.mem_write(0xFF4A, 4);
    cpu.mem_write(0x9C00, 0x01);
    cpu.mem_write(0x9800, 0x00);
    assert_eq!(cpu.gpu.get_background_colour_at(&cpu.mem, 17, 4), 0);
    assert_eq!(cpu.gpu.get_background_colour_at(&cpu.mem, 16, 4), 0);
    cpu.mem_write(0xFF4B, 7 + 17);
    assert_eq!(cpu.gpu.get_background_colour_at(&cpu.mem, 18, 4), 0);
    cpu.mem_write(0xFF4B, 6);
    cpu.mem_write(0xFF4A, 0);
    assert_eq!(cpu.gpu.get_background_colour_at(&cpu.mem, 0, 0), 0);
    cpu.mem_write(0xFF4B, 8);
    for row in 0..8u16 {
        cpu.mem_write(0x8020 + row * 2, 0x40);
        cpu.mem_write(0x8020 + row * 2 + 1, 0x40);
    }
    cpu.mem_write(0x9C00, 0x02);
    assert_eq!(cpu.gpu.get_background_colour_at(&cpu.mem, 1, 0), 0);
    assert_eq!(cpu.gpu.get_background_colour_at(&cpu.mem, 2, 0), 3);
    assert_eq!(cpu.gpu.get_background_colour_at(&cpu.mem, 3, 0), 0);
    cpu.mem_write(0xFF4A, 1);
    assert_eq!(cpu.gpu.get_background_colour_at(&cpu.mem, 2, 0), 0);
    assert_eq!(cpu.gpu.get_background_colour_at(&cpu.mem, 2, 1), 3);
}

#[test]
fn a_line_is_drawn_at_its_drawing_dot() {
    let mut cpu = machine(&[]);
    cpu.mem_write(0xFF40, 0x91);
    cpu.mem_write(0xFF47, 0xFF);
    cpu.step_gpu(239);
    assert!(cpu.gpu.frame[0] == GreyShade::White);
    cpu.step_gpu(1);
    assert!(cpu.gpu.frame[0] == GreyShade::Black);
    assert!(cpu.gpu.frame[159] == GreyShade::Black);
    assert!(cpu.gpu.frame[160] == GreyShade::White);
    cpu.step_gpu(456 - 240 + 127);
    assert!(cpu.gpu.frame[160] == GreyShade::White);
    cpu.step_gpu(1);
    assert!(cpu.gpu.frame[160] == GreyShade::Black);
    assert!(cpu.gpu.frame[320] == GreyShade::White);
    assert!(cpu.gpu.finished_frame[0] == GreyShade::White);
    cpu.mem_write(0xFF40, 0x90);
    cpu.step_gpu(456);
    assert!(cpu.gpu.frame[320] == GreyShade::White);
    assert!(cpu.gpu.frame[479] == GreyShade::White);
}
