use gameboy_core::mmu::interrupts::Interrupts;
use gameboy_core::mmu::MMU;
use gameboy_core::ppu::fifo::{BgFifo, SpFifo};
use gameboy_core::ppu::lcd::{Lcd, LcdControl, LcdStatus, Mode};
use gameboy_core::ppu::sprite::{SelectedSprite, Sprite};
use gameboy_core::ppu::PPU;

const TICKS_PER_FRAME: usize = 154 * 456;

fn run(ppu: &mut PPU, interrupts: &mut Interrupts, ticks: usize) {
    for _ in 0..ticks {
        ppu.ppu_ticks(interrupts);
    }
}

/// Runs to the first tick of the next frame.
fn to_frame_start(ppu: &mut PPU, interrupts: &mut Interrupts) {
    let frame = ppu.current_frame();
    while ppu.current_frame() == frame {
        ppu.ppu_ticks(interrupts);
    }
    run(ppu, interrupts, 10 * 456);
    assert_eq!(ppu.read_lcd(0xFF44), 0);
    assert_eq!(ppu.read_lcd(0xFF41) & 3, 2);
}

fn write_tile(ppu: &mut PPU, tile: u16, low: u8, high: u8) {
    for row in 0..8u16 {
        ppu.write_vram(0x8000 + tile * 16 + row * 2, low);
        ppu.write_vram(0x8000 + tile * 16 + row * 2 + 1, high);
    }
}

fn write_sprite(ppu: &mut PPU, index: u16, y: u8, x: u8, tile: u8, flags: u8) {
    ppu.write_oam(0xFE00 + index * 4, y);
    ppu.write_oam(0xFE00 + index * 4 + 1, x);
    ppu.write_oam(0xFE00 + index * 4 + 2, tile);
    ppu.write_oam(0xFE00 + index * 4 + 3, flags);
}

#[test]
fn everything_disabled_gives_a_picture_of_shade_zero() {
    let mut ppu = PPU::new();
    let mut interrupts = Interrupts::default();
    ppu.write_lcd(0xFF40, 0x80);
    ppu.write_lcd(0xFF47, 0xFC);
    for a in 0x8000..=0x9FFFu16 {
        ppu.write_vram(a, 0xFF);
    }
    // Dirty the picture first, with the background on and every tile black.
    ppu.write_lcd(0xFF40, 0x91);
    to_frame_start(&mut ppu, &mut interrupts);
    run(&mut ppu, &mut interrupts, TICKS_PER_FRAME);
    assert_eq!(ppu.pixel(0, 0), 3);
    assert_eq!(ppu.pixel(159, 143), 3);
    ppu.write_lcd(0xFF40, 0x80);
    run(&mut ppu, &mut interrupts, TICKS_PER_FRAME);
    for y in 0..144 {
        for x in 0..160 {
            assert_eq!(ppu.pixel(x, y), 0, "pixel {} {}", x, y);
        }
    }
}

#[test]
fn everything_disabled_shows_the_shade_of_colour_zero() {
    let mut ppu = PPU::new();
    let mut interrupts = Interrupts::default();
    ppu.write_lcd(0xFF40, 0x00);
    ppu.write_lcd(0xFF47, 0x02);
    to_frame_start(&mut ppu, &mut interrupts);
    run(&mut ppu, &mut interrupts, 144 * 456);
    for y in 0..144 {
        for x in 0..160 {
            assert_eq!(ppu.pixel(x, y), 2);
        }
    }
}

#[test]
fn a_frame_takes_154_lines_of_456_ticks() {
    let mut ppu = PPU::new();
    let mut interrupts = Interrupts::default();
    assert_eq!(ppu.read_lcd(0xFF44), 0);
    assert_eq!(ppu.read_lcd(0xFF41) & 3, 0);
    run(&mut ppu, &mut interrupts, 455);
    assert_eq!(ppu.read_lcd(0xFF44), 0);
    run(&mut ppu, &mut interrupts, 1);
    assert_eq!(ppu.read_lcd(0xFF44), 1);
    assert_eq!(ppu.read_lcd(0xFF41) & 3, 2);
    run(&mut ppu, &mut interrupts, 79);
    assert_eq!(ppu.read_lcd(0xFF41) & 3, 2);
    run(&mut ppu, &mut interrupts, 1);
    assert_eq!(ppu.read_lcd(0xFF41) & 3, 3);
    run(&mut ppu, &mut interrupts, 376);
    assert_eq!(ppu.read_lcd(0xFF44), 2);
    assert_eq!(ppu.current_frame(), 0);
    run(&mut ppu, &mut interrupts, 142 * 456);
    assert_eq!(ppu.read_lcd(0xFF44), 144);
    assert_eq!(ppu.read_lcd(0xFF41) & 3, 1);
    assert_eq!(ppu.current_frame(), 1);
    assert_eq!(interrupts.read_requested() & 0x01, 0x01);
    run(&mut ppu, &mut interrupts, 10 * 456 - 1);
    assert_eq!(ppu.read_lcd(0xFF44), 153);
    run(&mut ppu, &mut interrupts, 1);
    assert_eq!(ppu.read_lcd(0xFF44), 0);
    assert_eq!(ppu.read_lcd(0xFF41) & 3, 2);
}

#[test]
fn transfer_ends_in_time_for_every_fine_scroll() {
    for scroll in 0..8u8 {
        let mut ppu = PPU::new();
        let mut interrupts = Interrupts::default();
        ppu.write_lcd(0xFF43, scroll);
        run(&mut ppu, &mut interrupts, 456 + 80);
        assert_eq!(ppu.read_lcd(0xFF41) & 3, 3);
        let mut ticks = 0;
        while ppu.read_lcd(0xFF41) & 3 == 3 {
            ppu.ppu_ticks(&mut interrupts);
            ticks += 1;
            assert!(ticks < 300);
        }
        assert_eq!(ppu.read_lcd(0xFF41) & 3, 0);
        assert_eq!(ppu.read_lcd(0xFF44), 1);
    }
}

#[test]
fn blank_transfer_takes_217_ticks_or_219_and_the_fine_scroll() {
    for scroll in 0..16u8 {
        let mut ppu = PPU::new();
        let mut interrupts = Interrupts::default();
        ppu.write_lcd(0xFF40, 0x80);
        ppu.write_lcd(0xFF43, scroll);
        to_frame_start(&mut ppu, &mut interrupts);
        run(&mut ppu, &mut interrupts, 80);
        assert_eq!(ppu.read_lcd(0xFF41) & 3, 3);
        let fine = (scroll % 8) as usize;
        let expected = if fine == 0 { 217 } else { 219 + fine };
        run(&mut ppu, &mut interrupts, expected - 1);
        assert_eq!(ppu.read_lcd(0xFF41) & 3, 3);
        run(&mut ppu, &mut interrupts, 1);
        assert_eq!(ppu.read_lcd(0xFF41) & 3, 0);
    }
}

#[test]
fn status_interrupts_follow_their_selectors() {
    let mut ppu = PPU::new();
    let mut interrupts = Interrupts::default();
    ppu.write_lcd(0xFF45, 2);
    ppu.write_lcd(0xFF41, 0x40);
    run(&mut ppu, &mut interrupts, 456);
    assert_eq!(interrupts.read_requested(), 0);
    assert_eq!(ppu.read_lcd(0xFF41) & 0x04, 0);
    run(&mut ppu, &mut interrupts, 456);
    assert_eq!(interrupts.read_requested(), 0x02);
    assert_eq!(ppu.read_lcd(0xFF41) & 0x04, 0x04);
    interrupts.write_requested(0);
    ppu.write_lcd(0xFF41, 0x08);
    run(&mut ppu, &mut interrupts, 80 + 300);
    assert_eq!(ppu.read_lcd(0xFF41) & 3, 0);
    assert_eq!(interrupts.read_requested(), 0x02);
    interrupts.write_requested(0);
    ppu.write_lcd(0xFF41, 0x10);
    run(&mut ppu, &mut interrupts, 142 * 456);
    assert_eq!(ppu.read_lcd(0xFF44), 144);
    assert_eq!(interrupts.read_requested(), 0x03);
}

#[test]
fn status_and_scanline_registers_are_protected() {
    let mut ppu = PPU::new();
    let mut interrupts = Interrupts::default();
    run(&mut ppu, &mut interrupts, 456 + 80);
    assert_eq!(ppu.read_lcd(0xFF41), 0x03);
    ppu.write_lcd(0xFF41, 0xFC);
    assert_eq!(ppu.read_lcd(0xFF41), 0x7B);
    ppu.write_lcd(0xFF44, 77);
    assert_eq!(ppu.read_lcd(0xFF44), 1);
}

#[test]
fn background_tiles_are_drawn_through_the_palette() {
    let mut ppu = PPU::new();
    let mut interrupts = Interrupts::default();
    ppu.write_lcd(0xFF40, 0x91);
    ppu.write_lcd(0xFF47, 0b00_01_10_11);
    // Tile 1: colour 1 in the left half, colour 2 in the right half.
    write_tile(&mut ppu, 1, 0xF0, 0x0F);
    ppu.write_vram(0x9800, 1);
    ppu.write_vram(0x9800 + 32 + 1, 1);
    run(&mut ppu, &mut interrupts, 2 * TICKS_PER_FRAME);
    for x in 0..4 {
        assert_eq!(ppu.pixel(x, 0), 2);
        assert_eq!(ppu.pixel(x + 4, 0), 1);
        assert_eq!(ppu.pixel(x + 8, 8), 2);
        assert_eq!(ppu.pixel(x + 12, 15), 1);
    }
    assert_eq!(ppu.pixel(8, 0), 3);
    assert_eq!(ppu.pixel(0, 8), 3);
    assert_eq!(ppu.pixel(159, 143), 3);
}

#[test]
fn scroll_moves_the_background() {
    let mut ppu = PPU::new();
    let mut interrupts = Interrupts::default();
    ppu.write_lcd(0xFF40, 0x91);
    ppu.write_lcd(0xFF47, 0xE4);
    write_tile(&mut ppu, 1, 0xFF, 0xFF);
    ppu.write_vram(0x9800 + 1, 1);
    ppu.write_lcd(0xFF43, 8);
    ppu.write_lcd(0xFF42, 0);
    run(&mut ppu, &mut interrupts, 2 * TICKS_PER_FRAME);
    for x in 0..8 {
        assert_eq!(ppu.pixel(x, 0), 3);
        assert_eq!(ppu.pixel(x, 7), 3);
    }
    assert_eq!(ppu.pixel(8, 0), 0);
    assert_eq!(ppu.pixel(0, 8), 0);
}

#[test]
fn tile_data_area_at_8800_counts_from_the_middle() {
    let mut ppu = PPU::new();
    let mut interrupts = Interrupts::default();
    ppu.write_lcd(0xFF40, 0x81);
    ppu.write_lcd(0xFF47, 0xE4);
    // Tile number 0x80 with the area at 0x8800 is the tile at 0x8800.
    for row in 0..16u16 {
        ppu.write_vram(0x8800 + row, 0xFF);
    }
    ppu.write_vram(0x9800, 0x80);
    run(&mut ppu, &mut interrupts, 2 * TICKS_PER_FRAME);
    assert_eq!(ppu.pixel(0, 0), 3);
    assert_eq!(ppu.pixel(7, 7), 3);
    assert_eq!(ppu.pixel(8, 0), 0);
}

#[test]
fn sprite_is_drawn_over_background_colour_zero() {
    let mut ppu = PPU::new();
    let mut interrupts = Interrupts::default();
    ppu.write_lcd(0xFF40, 0x93);
    ppu.write_lcd(0xFF47, 0xE4);
    ppu.write_lcd(0xFF48, 0xE4);
    ppu.write_lcd(0xFF49, 0x1B);
    write_tile(&mut ppu, 2, 0xFF, 0x00);
    write_sprite(&mut ppu, 0, 16 + 8, 8 + 16, 2, 0x00);
    write_sprite(&mut ppu, 1, 16 + 24, 8 + 32, 2, 0x10);
    run(&mut ppu, &mut interrupts, 2 * TICKS_PER_FRAME);
    for x in 16..24 {
        for y in 8..16 {
            assert_eq!(ppu.pixel(x, y), 1, "pixel {} {}", x, y);
        }
    }
    assert_eq!(ppu.pixel(15, 8), 0);
    assert_eq!(ppu.pixel(24, 8), 0);
    assert_eq!(ppu.pixel(16, 7), 0);
    assert_eq!(ppu.pixel(16, 16), 0);
    assert_eq!(ppu.pixel(32, 24), 2);
}

#[test]
fn sprite_with_priority_hides_behind_background_colours() {
    let mut ppu = PPU::new();
    let mut interrupts = Interrupts::default();
    ppu.write_lcd(0xFF40, 0x93);
    ppu.write_lcd(0xFF47, 0xE4);
    ppu.write_lcd(0xFF48, 0xE4);
    // Background tile 1: colour 3 in its left half, colour 0 in its right.
    write_tile(&mut ppu, 1, 0xF0, 0xF0);
    write_tile(&mut ppu, 2, 0xFF, 0x00);
    ppu.write_vram(0x9800, 1);
    write_sprite(&mut ppu, 0, 16, 8, 2, 0x80);
    run(&mut ppu, &mut interrupts, 2 * TICKS_PER_FRAME);
    for x in 0..4 {
        assert_eq!(ppu.pixel(x, 0), 3);
        assert_eq!(ppu.pixel(x + 4, 0), 1);
    }
    // Without the priority bit the sprite covers the background.
    write_sprite(&mut ppu, 0, 16, 8, 2, 0x00);
    run(&mut ppu, &mut interrupts, TICKS_PER_FRAME);
    for x in 0..8 {
        assert_eq!(ppu.pixel(x, 0), 1);
    }
}

#[test]
fn transparent_sprite_pixels_show_the_background() {
    let mut ppu = PPU::new();
    let mut interrupts = Interrupts::default();
    ppu.write_lcd(0xFF40, 0x93);
    ppu.write_lcd(0xFF47, 0xE4);
    ppu.write_lcd(0xFF48, 0xE4);
    write_tile(&mut ppu, 1, 0x00, 0xFF);
    write_tile(&mut ppu, 2, 0x0F, 0x00);
    ppu.write_vram(0x9800, 1);
    write_sprite(&mut ppu, 0, 16, 8, 2, 0x00);
    run(&mut ppu, &mut interrupts, 2 * TICKS_PER_FRAME);
    for x in 0..4 {
        assert_eq!(ppu.pixel(x, 0), 2);
        assert_eq!(ppu.pixel(x + 4, 0), 1);
    }
}

#[test]
fn flipped_sprite_is_mirrored() {
    let mut ppu = PPU::new();
    let mut interrupts = Interrupts::default();
    ppu.write_lcd(0xFF40, 0x82);
    ppu.write_lcd(0xFF48, 0xE4);
    // Only the leftmost pixel of the top row is set.
    ppu.write_vram(0x8000 + 3 * 16, 0x80);
    write_sprite(&mut ppu, 0, 16 + 40, 8 + 40, 3, 0x00);
    write_sprite(&mut ppu, 1, 16 + 60, 8 + 60, 3, 0x20);
    write_sprite(&mut ppu, 2, 16 + 80, 8 + 80, 3, 0x40);
    run(&mut ppu, &mut interrupts, 2 * TICKS_PER_FRAME);
    assert_eq!(ppu.pixel(40, 40), 1);
    assert_eq!(ppu.pixel(47, 40), 0);
    assert_eq!(ppu.pixel(60, 60), 0);
    assert_eq!(ppu.pixel(67, 60), 1);
    assert_eq!(ppu.pixel(80, 80), 0);
    assert_eq!(ppu.pixel(80, 87), 1);
}

#[test]
fn tall_sprite_shows_two_tiles() {
    let mut ppu = PPU::new();
    let mut interrupts = Interrupts::default();
    ppu.write_lcd(0xFF40, 0x86);
    ppu.write_lcd(0xFF48, 0xE4);
    write_tile(&mut ppu, 4, 0xFF, 0x00);
    write_tile(&mut ppu, 5, 0x00, 0xFF);
    // An odd tile number counts as the even one below it.
    write_sprite(&mut ppu, 0, 16 + 20, 8 + 30, 5, 0x00);
    write_sprite(&mut ppu, 1, 16 + 60, 8 + 30, 4, 0x40);
    run(&mut ppu, &mut interrupts, 2 * TICKS_PER_FRAME);
    for dy in 0..8 {
        assert_eq!(ppu.pixel(30, 20 + dy), 1);
        assert_eq!(ppu.pixel(37, 28 + dy), 2);
        assert_eq!(ppu.pixel(30, 60 + dy), 2);
        assert_eq!(ppu.pixel(37, 68 + dy), 1);
    }
    assert_eq!(ppu.pixel(30, 19), 0);
    assert_eq!(ppu.pixel(30, 36), 0);
}

#[test]
fn sprite_at_the_left_edge_is_cut() {
    let mut ppu = PPU::new();
    let mut interrupts = Interrupts::default();
    ppu.write_lcd(0xFF40, 0x82);
    ppu.write_lcd(0xFF48, 0xE4);
    write_tile(&mut ppu, 1, 0xFF, 0xFF);
    write_sprite(&mut ppu, 0, 16, 4, 1, 0x00);
    run(&mut ppu, &mut interrupts, 2 * TICKS_PER_FRAME);
    for x in 0..4 {
        assert_eq!(ppu.pixel(x, 0), 3);
    }
    assert_eq!(ppu.pixel(4, 0), 0);
}

#[test]
fn sprites_off_means_no_sprites() {
    let mut ppu = PPU::new();
    let mut interrupts = Interrupts::default();
    ppu.write_lcd(0xFF40, 0x80);
    ppu.write_lcd(0xFF48, 0xE4);
    write_tile(&mut ppu, 1, 0xFF, 0xFF);
    write_sprite(&mut ppu, 0, 16, 8, 1, 0x00);
    run(&mut ppu, &mut interrupts, 2 * TICKS_PER_FRAME);
    assert_eq!(ppu.pixel(0, 0), 0);
}

#[test]
fn window_counts_its_own_lines() {
    let mut ppu = PPU::new();
    let mut interrupts = Interrupts::default();
    ppu.write_lcd(0xFF40, 0xF1);
    ppu.write_lcd(0xFF47, 0xE4);
    // Window map row 0 shows tile 1 (colour 1), row 1 shows tile 2 (colour 2).
    write_tile(&mut ppu, 1, 0xFF, 0x00);
    write_tile(&mut ppu, 2, 0x00, 0xFF);
    for i in 0..32u16 {
        ppu.write_vram(0x9C00 + i, 1);
        ppu.write_vram(0x9C00 + 32 + i, 2);
    }
    ppu.write_lcd(0xFF4A, 100);
    ppu.write_lcd(0xFF4B, 7);
    to_frame_start(&mut ppu, &mut interrupts);
    run(&mut ppu, &mut interrupts, TICKS_PER_FRAME);
    assert_eq!(ppu.pixel(0, 99), 0);
    assert_eq!(ppu.pixel(0, 100), 1);
    assert_eq!(ppu.pixel(159, 107), 1);
    assert_eq!(ppu.pixel(0, 108), 2);
    assert_eq!(ppu.pixel(0, 115), 2);
}

#[test]
fn first_sprite_in_x_order_wins() {
    let mut ppu = PPU::new();
    let mut interrupts = Interrupts::default();
    ppu.write_lcd(0xFF40, 0x82);
    ppu.write_lcd(0xFF48, 0xE4);
    ppu.write_lcd(0xFF49, 0xE4);
    write_tile(&mut ppu, 1, 0xFF, 0x00);
    write_tile(&mut ppu, 2, 0x00, 0xFF);
    // The sprite further left is later in the table and still wins.
    write_sprite(&mut ppu, 0, 16, 8 + 12, 1, 0x00);
    write_sprite(&mut ppu, 5, 16, 8 + 10, 2, 0x00);
    run(&mut ppu, &mut interrupts, 2 * TICKS_PER_FRAME);
    assert_eq!(ppu.pixel(10, 0), 2);
    assert_eq!(ppu.pixel(12, 0), 2);
    assert_eq!(ppu.pixel(17, 0), 2);
    assert_eq!(ppu.pixel(18, 0), 1);
    assert_eq!(ppu.pixel(19, 0), 1);
    assert_eq!(ppu.pixel(20, 0), 0);
}

#[test]
fn at_most_ten_sprites_are_picked_for_a_line() {
    let mut ppu = PPU::new();
    for i in 0..12u16 {
        write_sprite(&mut ppu, i, 16, 8 + (11 - i) as u8, 0, 0);
    }
    write_sprite(&mut ppu, 12, 16, 0, 0, 0);
    write_sprite(&mut ppu, 13, 40, 9, 0, 0);
    ppu.load_sprites();
    let picked = ppu.selected_sprites();
    assert_eq!(picked.len(), 10);
    for (k, item) in picked.iter().enumerate() {
        assert_eq!(item.index() as usize, 9 - k);
        assert_eq!(item.sprite().x() as usize, 8 + 2 + k);
    }
    ppu.selected_oam_reset();
    assert_eq!(ppu.selected_sprites().len(), 0);
}

#[test]
fn picked_sprites_are_ordered_by_x_then_by_table_position() {
    let mut ppu = PPU::new();
    write_sprite(&mut ppu, 0, 16, 50, 0, 0);
    write_sprite(&mut ppu, 1, 16, 20, 0, 0);
    write_sprite(&mut ppu, 2, 16, 50, 0, 0);
    write_sprite(&mut ppu, 3, 16, 35, 0, 0);
    write_sprite(&mut ppu, 4, 16, 20, 0, 0);
    write_sprite(&mut ppu, 5, 9, 10, 0, 0);
    write_sprite(&mut ppu, 6, 8, 10, 0, 0);
    write_sprite(&mut ppu, 7, 17, 10, 0, 0);
    ppu.load_sprites();
    let order: Vec<(u8, u8)> =
        ppu.selected_sprites().iter().map(|s| (s.sprite().x(), s.index())).collect();
    assert_eq!(order, vec![(10, 5), (20, 1), (20, 4), (35, 3), (50, 0), (50, 2)]);
}

#[test]
fn tall_sprites_cover_sixteen_lines() {
    let mut ppu = PPU::new();
    ppu.write_lcd(0xFF40, 0x86);
    write_sprite(&mut ppu, 0, 1, 10, 0, 0);
    ppu.load_sprites();
    assert_eq!(ppu.selected_sprites().len(), 1);
    let mut small = PPU::new();
    small.write_lcd(0xFF40, 0x82);
    write_sprite(&mut small, 0, 1, 10, 0, 0);
    small.load_sprites();
    assert_eq!(small.selected_sprites().len(), 0);
}

#[test]
fn window_replaces_the_background() {
    let mut ppu = PPU::new();
    let mut interrupts = Interrupts::default();
    // Background map at 0x9800 shows tile 0, window map at 0x9C00 tile 1.
    ppu.write_lcd(0xFF40, 0xF1);
    ppu.write_lcd(0xFF47, 0xE4);
    write_tile(&mut ppu, 1, 0xFF, 0xFF);
    for i in 0..0x400u16 {
        ppu.write_vram(0x9C00 + i, 1);
    }
    ppu.write_lcd(0xFF4A, 72);
    ppu.write_lcd(0xFF4B, 87);
    run(&mut ppu, &mut interrupts, 2 * TICKS_PER_FRAME);
    assert_eq!(ppu.pixel(0, 0), 0);
    assert_eq!(ppu.pixel(159, 71), 0);
    assert_eq!(ppu.pixel(70, 100), 0);
    assert_eq!(ppu.pixel(100, 100), 3);
    assert_eq!(ppu.pixel(159, 143), 3);
}

#[test]
fn palette_registers_map_colours_to_shades() {
    let mut lcd = Lcd::new();
    assert_eq!(lcd.lcd_read(0xFF40), 0x91);
    assert_eq!(lcd.lcd_read(0xFF41), 0x04);
    assert_eq!(lcd.lcd_read(0xFF47), 0xFC);
    assert_eq!(lcd.lcd_read(0xFF48), 0xFF);
    assert_eq!(lcd.shades(0), [0, 2, 1, 3]);
    lcd.lcd_write(0xFF47, 0x1B);
    assert_eq!(lcd.lcd_read(0xFF47), 0x1B);
    assert_eq!(lcd.shades(0), [3, 2, 1, 0]);
    lcd.lcd_write(0xFF48, 0xFF);
    assert_eq!(lcd.shades(1), [0, 3, 3, 3]);
    lcd.lcd_write(0xFF49, 0x6D);
    assert_eq!(lcd.lcd_read(0xFF49), 0x6D);
    assert_eq!(lcd.shades(2), [0, 3, 2, 1]);
    lcd.update_palette(0xE4, 2);
    assert_eq!(lcd.shades(2), [0, 1, 2, 3]);
    let blank = Lcd::default();
    assert_eq!(blank.lcd_read(0xFF40), 0x00);
}

#[test]
fn display_registers_read_back() {
    let mut lcd = Lcd::new();
    for (address, value) in
        [(0xFF40u16, 0xA5u8), (0xFF42, 1), (0xFF43, 2), (0xFF45, 3), (0xFF4A, 4), (0xFF4B, 5)]
    {
        lcd.lcd_write(address, value);
        assert_eq!(lcd.lcd_read(address), value);
    }
}

#[test]
fn control_register_bits() {
    let all = LcdControl::from_bits_truncate(0xFF);
    assert!(all.display_enable());
    assert_eq!(all.window_tilemap(), 0x9C00);
    assert!(all.window_enable());
    assert_eq!(all.bg_window_tile_data(), 0x8000);
    assert_eq!(all.bg_tilemap(), 0x9C00);
    assert_eq!(all.sprite_size(), 16);
    assert!(all.sprite_enable());
    assert!(all.bg_window_priority());
    assert_eq!(all.bits(), 0xFF);
    let none = LcdControl::from_bits_truncate(0x00);
    assert!(!none.display_enable());
    assert_eq!(none.window_tilemap(), 0x9800);
    assert!(!none.window_enable());
    assert_eq!(none.bg_window_tile_data(), 0x8800);
    assert_eq!(none.bg_tilemap(), 0x9800);
    assert_eq!(none.sprite_size(), 8);
    assert!(!none.sprite_enable());
    assert!(!none.bg_window_priority());
}

#[test]
fn status_register_modes() {
    let status = LcdStatus::from_bits_truncate(0xFF);
    assert_eq!(status.bits(), 0x7F);
    assert_eq!(status.current_mode(), 3);
    assert_eq!(status.mode_value(&Mode::HBLANK), 0);
    assert_eq!(status.mode_value(&Mode::VBLANK), 1);
    assert_eq!(status.mode_value(&Mode::OAM), 2);
    assert_eq!(status.mode_value(&Mode::TRANSFER), 3);
}

#[test]
fn sprite_bytes_by_offset() {
    let mut sprite = Sprite::default();
    sprite.set_at_offset(0, 1);
    sprite.set_at_offset(1, 2);
    sprite.set_at_offset(2, 3);
    sprite.set_at_offset(3, 0xF0);
    assert_eq!(sprite.get_at_offset(0), 1);
    assert_eq!(sprite.get_at_offset(1), 2);
    assert_eq!(sprite.get_at_offset(2), 3);
    assert_eq!(sprite.get_at_offset(3), 0xF0);
    assert_eq!((sprite.y(), sprite.x(), sprite.tile(), sprite.flags()), (1, 2, 3, 0xF0));
    assert!(sprite.priority() && sprite.y_flip() && sprite.x_flip() && sprite.dmg_palette());
    sprite.set_y(9);
    sprite.set_x(8);
    sprite.set_tile(7);
    sprite.set_flags(0x0F);
    assert_eq!((sprite.y(), sprite.x(), sprite.tile(), sprite.flags()), (9, 8, 7, 0x0F));
    assert!(!sprite.priority() && !sprite.y_flip() && !sprite.x_flip() && !sprite.dmg_palette());
    let picked = SelectedSprite::new(sprite, 39);
    assert_eq!(picked.index(), 39);
    assert_eq!(picked.sprite().x(), 8);
}

#[test]
fn oam_bytes_are_the_bytes_of_its_sprites() {
    let mut ppu = PPU::new();
    for i in 0..160u16 {
        ppu.write_oam(0xFE00 + i, i as u8);
    }
    for i in 0..160u16 {
        assert_eq!(ppu.read_oam(0xFE00 + i), i as u8);
    }
    ppu.write_vram(0x9FFF, 0x5A);
    assert_eq!(ppu.read_vram(0x9FFF), 0x5A);
    assert_eq!(ppu.read_vram(0x8000), 0x00);
}

#[test]
fn background_queue_is_first_in_first_out() {
    let mut queue = BgFifo::default();
    assert_eq!(queue.length(), 0);
    for i in 0..16u8 {
        queue.push(i, i % 2 == 0);
    }
    assert_eq!(queue.length(), 16);
    let first = queue.pop();
    assert_eq!(first.get_color(), 0);
    assert!(first.bg_priority());
    let second = queue.pop();
    assert_eq!(second.get_color(), 1);
    assert!(!second.bg_priority());
    assert_eq!(queue.length(), 14);
}

#[test]
fn full_queue_drops_its_oldest_pixel() {
    let mut queue = BgFifo::default();
    for i in 0..17u8 {
        queue.push(i, true);
    }
    assert_eq!(queue.length(), 16);
    for i in 1..17u8 {
        assert_eq!(queue.pop().get_color(), i);
    }
    assert_eq!(queue.length(), 0);
}

#[test]
fn sprite_queue_keeps_the_palette_flag() {
    let mut queue = SpFifo::default();
    queue.push(2, false, true);
    queue.push(3, true, false);
    assert_eq!(queue.length(), 2);
    let first = queue.pop();
    assert_eq!(first.get_color(), 2);
    assert!(first.get_palette());
    let second = queue.pop();
    assert_eq!(second.get_color(), 3);
    assert!(!second.get_palette());
    assert_eq!(queue.length(), 0);
}

#[test]
fn picture_is_read_through_the_bus() {
    let mut mmu = MMU::new();
    mmu.write_byte(0xFF40, 0x00);
    mmu.write_byte(0xFF47, 0x01);
    for _ in 0..2 * TICKS_PER_FRAME {
        mmu.tick();
    }
    assert_eq!(mmu.pixel(0, 0), 1);
    assert_eq!(mmu.pixel(159, 143), 1);
    assert!(mmu.current_frame() >= 2);
    assert_eq!(mmu.read_byte(0xFF0F) & 0x01, 0x01);
}

#[test]
fn fresh_fetcher_has_empty_queues() {
    let _fetcher = gameboy_core::ppu::fifo::PixelFifo::default();
    assert_eq!(gameboy_core::ppu::fifo::FetchState::TileNum, gameboy_core::ppu::fifo::FetchState::TileNum);
    assert_ne!(gameboy_core::ppu::fifo::FetchState::Push, gameboy_core::ppu::fifo::FetchState::Sleep);
}
