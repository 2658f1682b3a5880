use emulator::display::{color, Display, DisplayInterrupt};

const WHITE: u32 = 0x00e0f8d0;
const LIGHT: u32 = 0x0088c070;
const DARK: u32 = 0x00346856;
const BLACK: u32 = 0x00081820;

/// A display that is switched on, with unsigned tile addressing and the
/// identity palettes, and tile 1 filled with colour index 1, tile 2 with 2
/// and tile 3 with 3.
fn display() -> Display {
    let mut d = Display::new();
    d.cls();
    d.lcdc = 0x91;
    d.bg_palette = 0xe4;
    d.obj_palettes = [0xe4, 0xe4];
    for l in 0..8u16 {
        d.w(0x10 + l * 2, 0xff).unwrap();
        d.w(0x20 + l * 2 + 1, 0xff).unwrap();
        d.w(0x30 + l * 2, 0xff).unwrap();
        d.w(0x30 + l * 2 + 1, 0xff).unwrap();
    }
    d
}

fn sprite(d: &mut Display, o: u16, y: u8, x: u8, tile: u8, opts: u8) {
    d.w(0x7e00 + o * 4, y).unwrap();
    d.w(0x7e00 + o * 4 + 1, x).unwrap();
    d.w(0x7e00 + o * 4 + 2, tile).unwrap();
    d.w(0x7e00 + o * 4 + 3, opts).unwrap();
}

#[test]
fn colors_and_palettes() {
    assert_eq!(color(0), WHITE);
    assert_eq!(color(1), LIGHT);
    assert_eq!(color(2), DARK);
    assert_eq!(color(3), BLACK);
    let d = Display::new();
    assert_eq!(d.color_palette(0, 0xe4), WHITE);
    assert_eq!(d.color_palette(1, 0xe4), LIGHT);
    assert_eq!(d.color_palette(2, 0xe4), DARK);
    assert_eq!(d.color_palette(3, 0xe4), BLACK);
    assert_eq!(d.color_palette(1, 0x1b), DARK);
    assert_eq!(d.color_palette(3, 0x1b), WHITE);
}

#[test]
fn video_memory_round_trip() {
    let mut d = Display::new();
    for addr in [0x0000u16, 0x17ff, 0x1800, 0x1fff, 0x7e00, 0x7e9f] {
        d.w(addr, 0x3c).unwrap();
        assert_eq!(d.r(addr), Ok(0x3c));
    }
    assert_eq!(d.tiledata[0x17ff], 0x3c);
    assert_eq!(d.tilemaps[0], 0x3c);
    assert_eq!(d.oam[0x9f], 0x3c);
}

#[test]
fn one_line_of_dots_advances_ly_by_one() {
    let mut d = display();
    assert_eq!(d.update_display(455), DisplayInterrupt::Nothing);
    assert_eq!(d.ly, 0);
    assert_eq!(d.stat, 455);
    d.update_display(1);
    assert_eq!(d.ly, 1);
    assert_eq!(d.stat, 0);
    d.update_display(456);
    assert_eq!(d.ly, 2);
    d.update_display(460);
    assert_eq!(d.ly, 3);
    assert_eq!(d.stat, 4);
}

#[test]
fn a_frame_of_dots_returns_ly_to_its_start() {
    let mut d = display();
    d.ly = 17;
    d.update_display(456 * 154);
    assert_eq!(d.ly, 17);
    for _ in 0..154 {
        d.update_display(456);
    }
    assert_eq!(d.ly, 17);
    d.ly = 153;
    d.update_display(456);
    assert_eq!(d.ly, 0);
}

#[test]
fn vblank_is_raised_once_per_frame_at_line_144() {
    let mut d = display();
    let mut raised = 0;
    for _ in 0..154 {
        let before = d.ly;
        if d.update_display(456) == DisplayInterrupt::Vblank {
            raised += 1;
            assert_eq!(before, 143);
            assert_eq!(d.ly, 144);
        }
    }
    assert_eq!(raised, 1);
    assert_eq!(d.ly, 0);
}

#[test]
fn status_interrupt_modes() {
    let mut d = display();
    d.lcd_interrupt_mode = 0;
    assert_eq!(d.update_display(456), DisplayInterrupt::Stat);
    d.lcd_interrupt_mode = 1;
    assert_eq!(d.update_display(456), DisplayInterrupt::Nothing);
    d.ly = 143;
    assert_eq!(d.update_display(456), DisplayInterrupt::Both);
    d.lcd_interrupt_mode = 2;
    assert_eq!(d.update_display(456), DisplayInterrupt::Nothing);
    d.lcd_interrupt_mode = 3;
    d.lyc = 9;
    d.ly = 8;
    assert_eq!(d.update_display(456), DisplayInterrupt::Nothing);
    assert_eq!(d.update_display(456), DisplayInterrupt::Stat);
    d.lyc = 143;
    d.ly = 143;
    assert_eq!(d.update_display(456), DisplayInterrupt::Both);
}

#[test]
fn disabled_display_rests_at_line_zero() {
    let mut d = display();
    d.update_display(456 * 5 + 3);
    assert_eq!(d.ly, 5);
    d.lcdc = 0x11;
    let before = d.framebuffer;
    assert_eq!(d.update_display(456 * 3), DisplayInterrupt::Nothing);
    assert_eq!(d.ly, 0);
    assert_eq!(d.stat, 0);
    assert!(d.framebuffer == before);
}

#[test]
fn background_line_with_scroll() {
    let mut d = display();
    d.w(0x1800, 1).unwrap(); // map column 0: tile 1
    d.w(0x1801, 2).unwrap(); // map column 1: tile 2
    d.w(0x181f, 3).unwrap(); // map column 31: tile 3
    d.print_bg();
    assert_eq!(d.framebuffer[0], LIGHT);
    assert_eq!(d.framebuffer[7], LIGHT);
    assert_eq!(d.framebuffer[8], DARK);
    assert_eq!(d.framebuffer[15], DARK);
    assert_eq!(d.framebuffer[16], WHITE);
    assert_eq!(d.bg_buffer[0], 1);
    assert_eq!(d.bg_buffer[8], 2);
    assert_eq!(d.bg_buffer[16], 0);
    assert_eq!(d.framebuffer[160], WHITE);
    // Scrolled three pixels right, the map wraps around on the left.
    d.viewport_x = 253;
    d.print_bg();
    assert_eq!(d.framebuffer[0], BLACK);
    assert_eq!(d.framebuffer[2], BLACK);
    assert_eq!(d.framebuffer[3], LIGHT);
    assert_eq!(d.framebuffer[10], LIGHT);
    assert_eq!(d.framebuffer[11], DARK);
    // Scrolled down past the first row of tiles.
    d.viewport_x = 0;
    d.viewport_y = 8;
    d.print_bg();
    assert_eq!(d.framebuffer[0], WHITE);
    d.w(0x1820, 3).unwrap();
    d.print_bg();
    assert_eq!(d.framebuffer[0], BLACK);
}

#[test]
fn background_tile_lines_and_bit_order() {
    let mut d = display();
    // Tile 4: line 2 has its leftmost pixel in colour 1 and its rightmost in colour 2.
    d.w(0x40 + 4, 0x80).unwrap();
    d.w(0x40 + 5, 0x01).unwrap();
    d.w(0x1800, 4).unwrap();
    d.ly = 2;
    d.print_bg();
    assert_eq!(d.framebuffer[2 * 160], LIGHT);
    assert_eq!(d.framebuffer[2 * 160 + 1], WHITE);
    assert_eq!(d.framebuffer[2 * 160 + 7], DARK);
    d.ly = 3;
    d.print_bg();
    assert_eq!(d.framebuffer[3 * 160], WHITE);
}

#[test]
fn signed_tile_addressing_and_second_tile_map() {
    let mut d = display();
    d.lcdc = 0x81 | 0x08; // signed addressing, background map at 0x400
    d.w(0x1c00, 0x80).unwrap(); // tile -128: data at 0x0800
    d.w(0x1c01, 0x00).unwrap(); // tile 0: data at 0x1000
    d.w(0x1c02, 0xff).unwrap(); // tile -1: data at 0x0ff0
    d.w(0x0800, 0xff).unwrap();
    d.w(0x1001, 0xff).unwrap();
    d.w(0x0ff0, 0xff).unwrap();
    d.w(0x0ff1, 0xff).unwrap();
    d.print_bg();
    assert_eq!(d.framebuffer[0], LIGHT);
    assert_eq!(d.framebuffer[8], DARK);
    assert_eq!(d.framebuffer[16], BLACK);
    assert_eq!(d.framebuffer[24], DARK); // every other map entry is tile 0, too
}

#[test]
fn window_overlays_background_from_its_column() {
    let mut d = display();
    d.lcdc = 0x91 | 0x20 | 0x40; // window on, window map at 0x400
    for i in 0..32 {
        d.w(0x1c00 + i, 3).unwrap();
    }
    d.w(0x1800, 1).unwrap();
    d.window_x = 7 + 4;
    d.window_y = 0;
    d.print_bg();
    d.print_win();
    assert_eq!(d.framebuffer[0], LIGHT);
    assert_eq!(d.framebuffer[3], LIGHT);
    assert_eq!(d.framebuffer[4], BLACK);
    assert_eq!(d.framebuffer[159], BLACK);
    assert_eq!(d.bg_buffer[4], 3);
    // Below its first line the window is not drawn.
    d.window_y = 1;
    d.print_bg();
    d.print_win();
    assert_eq!(d.framebuffer[4], LIGHT);
    assert_eq!(d.framebuffer[100], WHITE);
    // A window that begins left of the screen covers the line from column 0.
    d.window_y = 0;
    d.window_x = 5;
    d.print_bg();
    d.print_win();
    assert_eq!(d.framebuffer[0], BLACK);
    assert_eq!(d.framebuffer[5], BLACK);
    assert_eq!(d.framebuffer[6], BLACK);
    assert_eq!(d.framebuffer[159], BLACK);
    assert_eq!(d.bg_buffer[0], 3);
}

#[test]
fn window_left_of_the_screen_is_clipped_within_its_first_tile() {
    let mut d = display();
    d.lcdc = 0x91 | 0x20 | 0x40;
    // Tile 7: line 0 has colour 1 in its two rightmost pixels only.
    d.w(0x70, 0x03).unwrap();
    d.w(0x1c00, 7).unwrap();
    d.w(0x1c01, 2).unwrap();
    d.window_x = 0; // the window begins at column -7: one pixel of its first tile shows
    d.print_bg();
    d.print_win();
    assert_eq!(d.framebuffer[0], LIGHT);
    assert_eq!(d.framebuffer[1], DARK);
    assert_eq!(d.framebuffer[8], DARK);
    assert_eq!(d.framebuffer[9], WHITE);
    d.window_x = 1; // columns 6 and 7 of the first tile show at columns 0 and 1
    d.print_bg();
    d.print_win();
    assert_eq!(d.framebuffer[0], LIGHT);
    assert_eq!(d.framebuffer[1], LIGHT);
    assert_eq!(d.framebuffer[2], DARK);
    d.window_x = 6;
    d.print_bg();
    d.print_win();
    assert_eq!(d.framebuffer[0], WHITE);
    assert_eq!(d.framebuffer[4], WHITE);
    assert_eq!(d.framebuffer[5], LIGHT);
    assert_eq!(d.framebuffer[6], LIGHT);
    assert_eq!(d.framebuffer[7], DARK);
    // At the right end of the screen.
    d.window_x = 166;
    d.print_bg();
    d.print_win();
    assert_eq!(d.framebuffer[158], WHITE);
    assert_eq!(d.framebuffer[159], WHITE);
    d.w(0x70, 0x83).unwrap();
    d.print_bg();
    d.print_win();
    assert_eq!(d.framebuffer[159], LIGHT);
    d.window_x = 167;
    d.print_bg();
    d.print_win();
    assert_eq!(d.framebuffer[159], WHITE);
}

#[test]
fn sprite_is_drawn_with_flips_and_palette() {
    let mut d = display();
    d.lcdc = 0x93;
    // Tile 5: line 0 has colour 1 at its leftmost pixel, line 7 colour 2 at its rightmost.
    d.w(0x50, 0x80).unwrap();
    d.w(0x50 + 15, 0x01).unwrap();
    d.ly = 10;
    sprite(&mut d, 0, 10 + 16, 20 + 8, 5, 0x00); // top line at 10, left edge at 20
    d.print_obj();
    assert_eq!(d.framebuffer[10 * 160 + 20], LIGHT);
    assert_eq!(d.framebuffer[10 * 160 + 21], WHITE);
    d.cls();
    d.ly = 17;
    d.print_obj();
    assert_eq!(d.framebuffer[17 * 160 + 27], DARK);
    assert_eq!(d.framebuffer[17 * 160 + 20], WHITE);
    d.cls();
    d.ly = 18;
    d.print_obj();
    assert!(d.framebuffer.iter().all(|&c| c == WHITE));
    // Flipped both ways, with the second palette reversed.
    d.obj_palettes[1] = 0x1b;
    sprite(&mut d, 0, 10 + 16, 20 + 8, 5, 0x70);
    d.ly = 10;
    d.print_obj();
    assert_eq!(d.framebuffer[10 * 160 + 20], LIGHT);
    assert_eq!(d.framebuffer[10 * 160 + 27], WHITE);
    d.cls();
    d.ly = 17;
    d.print_obj();
    assert_eq!(d.framebuffer[17 * 160 + 27], DARK);
}

#[test]
fn overlapping_sprites_show_the_lower_numbered_one() {
    let mut d = display();
    d.lcdc = 0x93;
    d.ly = 0;
    sprite(&mut d, 3, 16, 8, 1, 0x00); // colour 1 at columns 0..8
    sprite(&mut d, 7, 16, 12, 2, 0x00); // colour 2 at columns 4..12
    d.print_obj();
    assert_eq!(d.framebuffer[0], LIGHT);
    assert_eq!(d.framebuffer[4], LIGHT);
    assert_eq!(d.framebuffer[7], LIGHT);
    assert_eq!(d.framebuffer[8], DARK);
    assert_eq!(d.framebuffer[11], DARK);
    assert_eq!(d.framebuffer[12], WHITE);
    // With the numbers exchanged the other sprite is on top.
    d.cls();
    sprite(&mut d, 3, 16, 12, 2, 0x00);
    sprite(&mut d, 7, 16, 8, 1, 0x00);
    d.print_obj();
    assert_eq!(d.framebuffer[3], LIGHT);
    assert_eq!(d.framebuffer[4], DARK);
    assert_eq!(d.framebuffer[11], DARK);
}

#[test]
fn transparent_sprite_pixels_show_what_is_below() {
    let mut d = display();
    d.lcdc = 0x93;
    d.w(0x60, 0xf0).unwrap(); // tile 6: line 0, left half colour 1, right half transparent
    sprite(&mut d, 0, 9, 8, 6, 0x40); // bottom line at 0, flipped vertically: line 0 shows
    sprite(&mut d, 1, 16, 8, 2, 0x00);
    d.print_obj();
    assert_eq!(d.framebuffer[0], LIGHT);
    assert_eq!(d.framebuffer[3], LIGHT);
    assert_eq!(d.framebuffer[4], DARK);
    assert_eq!(d.framebuffer[7], DARK);
}

#[test]
fn sprite_behind_background_shows_only_over_transparent_background() {
    let mut d = display();
    d.lcdc = 0x93;
    d.w(0x1800, 1).unwrap();
    sprite(&mut d, 0, 16, 4 + 8, 3, 0x80); // columns 4..12, behind the background
    d.print_bg();
    d.print_obj();
    assert_eq!(d.framebuffer[4], LIGHT);
    assert_eq!(d.framebuffer[7], LIGHT);
    assert_eq!(d.framebuffer[8], BLACK);
    assert_eq!(d.framebuffer[11], BLACK);
    // Sprites switched off.
    d.lcdc = 0x91;
    d.print_bg();
    d.print_obj();
    assert_eq!(d.framebuffer[8], WHITE);
}

#[test]
fn sprites_partly_off_screen_are_clipped() {
    let mut d = display();
    d.lcdc = 0x93;
    sprite(&mut d, 0, 16, 4, 1, 0x00); // columns -4..4
    sprite(&mut d, 1, 16, 164, 2, 0x00); // columns 156..164
    sprite(&mut d, 2, 8, 50, 3, 0x00); // above the screen
    d.print_obj();
    assert_eq!(d.framebuffer[0], LIGHT);
    assert_eq!(d.framebuffer[3], LIGHT);
    assert_eq!(d.framebuffer[4], WHITE);
    assert_eq!(d.framebuffer[155], WHITE);
    assert_eq!(d.framebuffer[159], DARK);
    assert_eq!(d.framebuffer[160], WHITE);
    assert_eq!(d.framebuffer[45], WHITE);
}

#[test]
fn completed_line_is_rendered_before_ly_moves_on() {
    let mut d = display();
    d.lcdc = 0x93;
    d.w(0x1800, 1).unwrap();
    sprite(&mut d, 0, 16, 8 + 2, 3, 0x00);
    d.update_display(456);
    assert_eq!(d.ly, 1);
    assert_eq!(d.framebuffer[0], LIGHT);
    assert_eq!(d.framebuffer[2], BLACK);
    assert_eq!(d.framebuffer[9], BLACK);
    assert_eq!(d.framebuffer[10], WHITE);
    assert_eq!(d.framebuffer[160], WHITE);
    d.update_display(456);
    assert_eq!(d.framebuffer[160], LIGHT);
    assert_eq!(d.framebuffer[162], BLACK);
}

#[test]
fn print_tile_clips_and_wraps_columns() {
    let mut d = display();
    d.print_tile(1, 156, 5, 0);
    assert_eq!(d.framebuffer[5 * 160 + 156], LIGHT);
    assert_eq!(d.framebuffer[5 * 160 + 159], LIGHT);
    assert_eq!(d.framebuffer[6 * 160], WHITE);
    d.print_tile(2, 252, 6, 0);
    assert_eq!(d.framebuffer[6 * 160], DARK);
    assert_eq!(d.framebuffer[6 * 160 + 3], DARK);
    assert_eq!(d.framebuffer[6 * 160 + 4], WHITE);
    let before = d.framebuffer;
    d.print_tile(3, 0, 144, 0);
    assert!(d.framebuffer == before);
}

#[test]
fn tile_sheet_shows_tiles_twenty_to_a_row() {
    let mut d = display();
    d.print_all_tiles();
    assert_eq!(d.framebuffer[0], WHITE);
    assert_eq!(d.framebuffer[8], LIGHT);
    assert_eq!(d.framebuffer[16], DARK);
    assert_eq!(d.framebuffer[24], BLACK);
    assert_eq!(d.framebuffer[32], WHITE);
    assert_eq!(d.framebuffer[160], WHITE);
}

#[test]
fn clear_screen_paints_the_lightest_colour() {
    let mut d = display();
    d.print_tile(3, 0, 0, 0);
    d.cls();
    assert!(d.framebuffer.iter().all(|&c| c == WHITE));
}
