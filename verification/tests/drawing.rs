use gameboy_core::mmu::MMU;
use gameboy_core::screen::{
    color_of_shade, display_tile, fill_rect, update_dbg_window, update_gameboy_window, Gameboy,
    Rect, GAMEBOY_HEIGHT, GAMEBOY_WIDTH, SCALE, SCREEN_HEIGHT, SCREEN_WIDTH,
};

#[test]
fn buffer_sizes() {
    assert_eq!(SCALE, 2);
    assert_eq!(GAMEBOY_WIDTH, 160 * SCALE);
    assert_eq!(GAMEBOY_HEIGHT, 144 * SCALE);
    assert_eq!(SCREEN_WIDTH, 144 * SCALE);
    assert_eq!(SCREEN_HEIGHT, 216 * SCALE);
    let _marker = Gameboy {};
}

#[test]
fn shades_have_their_colours() {
    assert_eq!(color_of_shade(0), 0xFFFFFF);
    assert_eq!(color_of_shade(1), 0xAAAAAA);
    assert_eq!(color_of_shade(2), 0x555555);
    assert_eq!(color_of_shade(3), 0x000000);
    assert_eq!(color_of_shade(200), 0x000000);
}

#[test]
fn rectangle_is_filled_row_by_row() {
    let mut buffer = vec![7u32; GAMEBOY_WIDTH * 4];
    fill_rect(&mut buffer, &Rect::new(3, 1, 2, 2, 0xABCDEF), true);
    for (i, value) in buffer.iter().enumerate() {
        let x = i % GAMEBOY_WIDTH;
        let y = i / GAMEBOY_WIDTH;
        let inside = (3..5).contains(&x) && (1..3).contains(&y);
        assert_eq!(*value, if inside { 0xABCDEF } else { 7 });
    }
    let mut other = vec![7u32; SCREEN_WIDTH * 4];
    fill_rect(&mut other, &Rect::new(3, 1, 2, 2, 1), false);
    assert_eq!(other[SCREEN_WIDTH + 3], 1);
    assert_eq!(other[SCREEN_WIDTH + 4], 1);
    assert_eq!(other[2 * SCREEN_WIDTH + 3], 1);
    assert_eq!(other[GAMEBOY_WIDTH + 3], 7);
}

#[test]
fn empty_rectangle_changes_nothing() {
    let mut buffer = vec![7u32; 10];
    fill_rect(&mut buffer, &Rect::new(1000, 1000, 0, 5, 1), true);
    fill_rect(&mut buffer, &Rect::new(1000, 1000, 5, 0, 1), false);
    assert_eq!(buffer, vec![7u32; 10]);
}

#[test]
fn rectangle_may_run_over_the_end_of_a_row() {
    let mut buffer = vec![0u32; GAMEBOY_WIDTH * 2];
    fill_rect(&mut buffer, &Rect::new(GAMEBOY_WIDTH - 1, 0, 3, 1, 9), true);
    assert_eq!(buffer[GAMEBOY_WIDTH - 1], 9);
    assert_eq!(buffer[GAMEBOY_WIDTH], 9);
    assert_eq!(buffer[GAMEBOY_WIDTH + 1], 9);
    assert_eq!(buffer[GAMEBOY_WIDTH + 2], 0);
}

#[test]
fn tile_is_drawn_with_the_first_byte_as_high_bit() {
    let mut mmu = MMU::new();
    // Row 0: first byte 0xF0, second byte 0xCC: colours 3 3 2 2 1 1 0 0.
    mmu.write_byte(0x8010, 0xF0);
    mmu.write_byte(0x8011, 0xCC);
    let mut buffer = vec![0x123456u32; SCREEN_WIDTH * SCREEN_HEIGHT];
    display_tile(&mmu, &mut buffer, 0x8000, 1, 10, 20);
    let expected = [3u8, 3, 2, 2, 1, 1, 0, 0];
    for (column, shade) in expected.iter().enumerate() {
        for dy in 0..2 {
            for dx in 0..2 {
                let at = (20 + dy) * SCREEN_WIDTH + 10 + column * 2 + dx;
                assert_eq!(buffer[at], color_of_shade(*shade));
            }
        }
    }
    assert_eq!(buffer[22 * SCREEN_WIDTH + 10], 0xFFFFFF);
    assert_eq!(buffer[20 * SCREEN_WIDTH + 9], 0x123456);
    assert_eq!(buffer[20 * SCREEN_WIDTH + 26], 0x123456);
    assert_eq!(buffer[36 * SCREEN_WIDTH + 10], 0x123456);
}

#[test]
fn tile_view_shows_sixteen_tiles_to_a_row() {
    let mut mmu = MMU::new();
    for row in 0..16u16 {
        mmu.write_byte(0x8000 + 17 * 16 + row, 0xFF);
    }
    let mut buffer = vec![0u32; SCREEN_WIDTH * SCREEN_HEIGHT * SCALE * SCALE];
    update_dbg_window(&mmu, &mut buffer);
    // Tile 17 is the second tile of the second row.
    assert_eq!(buffer[18 * SCREEN_WIDTH + 18], 0x000000);
    assert_eq!(buffer[(18 + 15) * SCREEN_WIDTH + 18 + 15], 0x000000);
    assert_eq!(buffer[18 * SCREEN_WIDTH], 0xFFFFFF);
    assert_eq!(buffer[0], 0xFFFFFF);
    // Between two tiles the buffer is left alone.
    assert_eq!(buffer[18 * SCREEN_WIDTH + 16], 0);
    assert_eq!(buffer[16 * SCREEN_WIDTH], 0);
}

#[test]
fn picture_is_scaled_into_the_buffer() {
    let mut mmu = MMU::new();
    mmu.write_byte(0xFF40, 0x00);
    mmu.write_byte(0xFF47, 0x02);
    for _ in 0..2 * 154 * 456 {
        mmu.tick();
    }
    let mut buffer = vec![1u32; GAMEBOY_WIDTH * GAMEBOY_HEIGHT];
    update_gameboy_window(&mmu, &mut buffer);
    assert!(buffer.iter().all(|&c| c == 0x555555));
}
