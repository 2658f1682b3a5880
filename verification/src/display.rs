//! The display engine: video memory, the scanline counter and the
//! compositing of background, window and sprites into the framebuffer.
use crate::bits::{spec_test_bit, test_bit};
use vstd::prelude::*;

verus! {

/// Dots per scanline.
pub const LINE_DOTS: u64 = 456;

/// Visible scanlines; also the line at which the vertical blank begins.
pub const SCREEN_HEIGHT: u8 = 144;

/// Pixels per visible scanline.
pub const SCREEN_WIDTH: u8 = 160;

/// LCDC bit that enables sprites.
pub const OBJ_ENABLE_BIT: u8 = 1;

/// LCDC bit that selects the second tile map for the background.
pub const BG_TILEMAP_AREA_BIT: u8 = 3;

/// LCDC bit that selects unsigned tile addressing from the start of the
/// tile data.
pub const BG_TILEDATA_AREA_BIT: u8 = 4;

/// LCDC bit that enables the window.
pub const WIN_ENABLE_BIT: u8 = 5;

/// LCDC bit that selects the second tile map for the window.
pub const WIN_TILEMAP_AREA_BIT: u8 = 6;

/// LCDC bit that enables the display.
pub const LCD_ENABLE_BIT: u8 = 7;

/// What an advance of the display asks of the interrupt controller.
#[derive(Clone, Copy, Debug, PartialEq, Eq, Structural)]
pub enum DisplayInterrupt {
    Vblank,
    Stat,
    Both,
    Nothing,
}

/// The screen colour of shade `index`, lightest first.
pub open spec fn spec_color(index: u8) -> u32
    recommends
        index < 4,
{
    if index == 0 {
        0x00e0f8d0
    } else if index == 1 {
        0x0088c070
    } else if index == 2 {
        0x00346856
    } else {
        0x00081820
    }
}

/// The screen colour of shade `index`, lightest first.
#[verifier::when_used_as_spec(spec_color)]
pub fn color(index: u8) -> (c: u32)
    requires
        index < 4,
    ensures
        c == spec_color(index),
{
    if index == 0 {
        0x00e0f8d0
    } else if index == 1 {
        0x0088c070
    } else if index == 2 {
        0x00346856
    } else {
        0x00081820
    }
}

/// The shade that `palette` assigns to colour index `color_byte`: the two
/// bits of the palette at position `2 * color_byte`.
pub open spec fn spec_palette_entry(color_byte: u8, palette: u8) -> u8
    recommends
        color_byte < 4,
{
    if color_byte == 0 {
        palette % 4
    } else if color_byte == 1 {
        (palette / 4) % 4
    } else if color_byte == 2 {
        (palette / 16) % 4
    } else {
        palette / 64
    }
}

/// The screen colour of colour index `color_byte` under `palette`.
pub open spec fn spec_color_palette(color_byte: u8, palette: u8) -> u32
    recommends
        color_byte < 4,
{
    spec_color(spec_palette_entry(color_byte, palette))
}

/// The colour index that bit `b` of the two bytes of a tile line encodes:
/// the bit of `low` is its bit 0 and the bit of `high` its bit 1.
pub open spec fn spec_pixel_value(low: u8, high: u8, b: u8) -> u8
    recommends
        b < 8,
{
    ((if spec_test_bit(low, b) { 1int } else { 0 }) + (if spec_test_bit(high, b) { 2int } else { 0 })) as u8
}

/// The colour index that bit `b` of the two bytes of a tile line encodes.
#[verifier::when_used_as_spec(spec_pixel_value)]
pub fn pixel_value(low: u8, high: u8, b: u8) -> (v: u8)
    requires
        b < 8,
    ensures
        v == spec_pixel_value(low, high, b),
        v < 4,
{
    let l: u8 = if test_bit(low, b) { 1 } else { 0 };
    let h: u8 = if test_bit(high, b) { 2 } else { 0 };
    l + h
}

/// The column, counted from the left edge `x` of a tile and modulo 256,
/// at which screen column `px` lies.
pub open spec fn tile_column(x: u8, px: int) -> int {
    (px - x) % 256
}

/// Whether the framebuffer cell `p` lies on line `y` and under the eight
/// columns of a tile whose left edge is at `x`.
pub open spec fn tile_covers(x: u8, y: u8, p: int) -> bool {
    y < 144 && p / 160 == y && tile_column(x, p % 160) < 8
}

/// Column `col` of a tile with its left edge at `x` is the one screen
/// column `(x + col) % 256`.
pub proof fn lemma_tile_column(x: u8, col: int, px: int)
    requires
        0 <= col < 8,
        0 <= px < 160,
    ensures
        (tile_column(x, px) == col) <==> (px == (x + col) % 256),
{
}

/// The display engine as a mathematical value.
pub struct DisplayView {
    /// One screen colour per pixel, line by line.
    pub framebuffer: Seq<u32>,
    /// The colour index that background or window last drew at each pixel.
    pub bg_buffer: Seq<u8>,
    pub tiledata: Seq<u8>,
    pub tilemaps: Seq<u8>,
    pub oam: Seq<u8>,
    pub bg_palette: u8,
    pub obj_palettes: Seq<u8>,
    pub viewport_y: u8,
    pub viewport_x: u8,
    pub lcdc: u8,
    pub ly: u8,
    pub lyc: u8,
    pub lcd_interrupt_mode: u8,
    pub window_x: u8,
    pub window_y: u8,
    pub stat: u64,
}

impl DisplayView {
    /// Every store has its fixed size.
    pub open spec fn wf(self) -> bool {
        &&& self.framebuffer.len() == 23040
        &&& self.bg_buffer.len() == 23040
        &&& self.tiledata.len() == 0x1800
        &&& self.tilemaps.len() == 0x800
        &&& self.oam.len() == 0xa0
        &&& self.obj_palettes.len() == 2
    }

    /// The display at power-on, before the screen is cleared.
    pub open spec fn power_on() -> DisplayView {
        DisplayView {
            framebuffer: Seq::new(23040, |i: int| 0u32),
            bg_buffer: Seq::new(23040, |i: int| 0u8),
            tiledata: Seq::new(0x1800, |i: int| 0u8),
            tilemaps: Seq::new(0x800, |i: int| 0u8),
            oam: Seq::new(0xa0, |i: int| 0u8),
            bg_palette: 0,
            obj_palettes: Seq::new(2, |i: int| 0u8),
            viewport_y: 0,
            viewport_x: 0,
            lcdc: 0,
            ly: 0,
            lyc: 0,
            lcd_interrupt_mode: 0xff,
            window_x: 0,
            window_y: 0,
            stat: 0,
        }
    }

    /// The display with every pixel of the framebuffer in the lightest
    /// colour.
    pub open spec fn cls(self) -> DisplayView {
        DisplayView { framebuffer: Seq::new(23040, |i: int| spec_color(0)), ..self }
    }

    /// Whether `addr`, an offset into video memory, names a cell: tile data
    /// and tile maps lie below 0x2000, sprite attributes at 0x7e00.
    pub open spec fn maps(addr: u16) -> bool {
        addr < 0x2000 || 0x7e00 <= addr < 0x7ea0
    }

    /// The byte at offset `addr` of video memory.
    pub open spec fn read(self, addr: u16) -> u8
        recommends
            Self::maps(addr),
    {
        if addr < 0x1800 {
            self.tiledata[addr as int]
        } else if addr >= 0x7e00 {
            self.oam[addr - 0x7e00]
        } else {
            self.tilemaps[addr - 0x1800]
        }
    }

    /// The display after `value` is stored at offset `addr` of video memory.
    pub open spec fn write(self, addr: u16, value: u8) -> DisplayView
        recommends
            Self::maps(addr),
    {
        if addr < 0x1800 {
            DisplayView { tiledata: self.tiledata.update(addr as int, value), ..self }
        } else if addr >= 0x7e00 {
            DisplayView { oam: self.oam.update(addr - 0x7e00, value), ..self }
        } else {
            DisplayView { tilemaps: self.tilemaps.update(addr - 0x1800, value), ..self }
        }
    }

    /// Where the data of background tile `tile` begins. With the tile-data
    /// bit of LCDC set, tiles are counted from the start of the tile data;
    /// with it clear, `tile` is a signed offset from 0x1000.
    pub open spec fn tile_pointer(self, tile: u8) -> int {
        if spec_test_bit(self.lcdc, BG_TILEDATA_AREA_BIT) {
            tile * 16
        } else if tile < 128 {
            0x1000 + tile * 16
        } else {
            0x800 + (tile - 128) * 16
        }
    }

    /// The colour index at column `col` (0 is the leftmost) of line `l` of
    /// the tile whose data begins at `ptr`.
    pub open spec fn tile_pixel(self, ptr: int, l: int, col: int) -> u8 {
        spec_pixel_value(self.tiledata[ptr + l * 2], self.tiledata[ptr + l * 2 + 1], (7 - col) as u8)
    }

    /// The display after line `l` of background tile `tile` is drawn on
    /// screen line `y` with its left edge at column `x`. Columns count modulo
    /// 256 and only those below 160 are on screen; nothing is drawn on a
    /// line below the screen.
    pub open spec fn print_tile(self, tile: u8, x: u8, y: u8, l: int) -> DisplayView
        recommends
            0 <= l < 8,
    {
        let ptr = self.tile_pointer(tile);
        DisplayView {
            framebuffer: Seq::new(
                23040,
                |p: int|
                    if tile_covers(x, y, p) {
                        spec_color_palette(
                            self.tile_pixel(ptr, l, tile_column(x, p % 160)),
                            self.bg_palette,
                        )
                    } else {
                        self.framebuffer[p]
                    },
            ),
            bg_buffer: Seq::new(
                23040,
                |p: int|
                    if tile_covers(x, y, p) {
                        self.tile_pixel(ptr, l, tile_column(x, p % 160))
                    } else {
                        self.bg_buffer[p]
                    },
            ),
            ..self
        }
    }

    /// The display after the first `n` lines of the tile sheet are drawn.
    /// The sheet shows the 256 tiles twenty to a row; line `k` of the sheet
    /// is line `k % 8` of tile `k / 8`, and all eight lines of a tile are
    /// drawn on the first screen line of the tile's row.
    pub open spec fn print_tiles(self, n: nat) -> DisplayView
        decreases n,
    {
        if n == 0 {
            self
        } else {
            let i = (n - 1) / 8;
            self.print_tiles((n - 1) as nat).print_tile(
                i as u8,
                ((i % 20) * 8) as u8,
                ((i / 20) * 8) as u8,
                (n - 1) % 8,
            )
        }
    }

    /// The display after the whole tile sheet is drawn.
    pub open spec fn print_all_tiles(self) -> DisplayView {
        self.print_tiles(2048)
    }

    /// Whether the display is switched on.
    pub open spec fn lcd_enabled(self) -> bool {
        spec_test_bit(self.lcdc, LCD_ENABLE_BIT)
    }

    /// Whether framebuffer cell `p` lies on the current scanline, which
    /// must be a visible one.
    pub open spec fn on_line(self, p: int) -> bool {
        self.ly < 144 && p / 160 == self.ly
    }

    /// Where the tile map of the background begins.
    pub open spec fn bg_map_base(self) -> int {
        if spec_test_bit(self.lcdc, BG_TILEMAP_AREA_BIT) {
            0x400
        } else {
            0
        }
    }

    /// Where the tile map of the window begins.
    pub open spec fn win_map_base(self) -> int {
        if spec_test_bit(self.lcdc, WIN_TILEMAP_AREA_BIT) {
            0x400
        } else {
            0
        }
    }

    /// The colour index of the background at screen column `px` of the
    /// current scanline: the 256 by 256 background, scrolled by the
    /// viewport and wrapping at its edges.
    pub open spec fn bg_pixel(self, px: int) -> u8 {
        let bx = (px + self.viewport_x) % 256;
        let by = (self.ly + self.viewport_y) % 256;
        let tile = self.tilemaps[self.bg_map_base() + (by / 8) * 32 + bx / 8];
        self.tile_pixel(self.tile_pointer(tile), by % 8, bx % 8)
    }

    /// The display after the background is drawn on the current scanline.
    pub open spec fn print_bg(self) -> DisplayView {
        DisplayView {
            framebuffer: Seq::new(
                23040,
                |p: int|
                    if self.on_line(p) {
                        spec_color_palette(self.bg_pixel(p % 160), self.bg_palette)
                    } else {
                        self.framebuffer[p]
                    },
            ),
            bg_buffer: Seq::new(
                23040,
                |p: int|
                    if self.on_line(p) {
                        self.bg_pixel(p % 160)
                    } else {
                        self.bg_buffer[p]
                    },
            ),
            ..self
        }
    }

    /// The column of the window, counted from its left edge at
    /// `window_x - 7`, at which screen column `px` lies.
    pub open spec fn win_column(self, px: int) -> int {
        px + 7 - self.window_x
    }

    /// Whether the window covers screen column `px` of the current scanline:
    /// the window is on, the scanline is at or below its first line, and
    /// the column is at or right of its left edge. With `window_x` below 7
    /// the left edge lies left of the screen and the window covers the
    /// scanline from column 0.
    pub open spec fn win_covers(self, px: int) -> bool {
        &&& spec_test_bit(self.lcdc, WIN_ENABLE_BIT)
        &&& self.ly >= self.window_y
        &&& self.win_column(px) >= 0
    }

    /// The colour index of the window at screen column `px` of the current
    /// scanline.
    pub open spec fn win_pixel(self, px: int) -> u8 {
        let c = self.win_column(px);
        let wy = self.ly - self.window_y;
        let tile = self.tilemaps[self.win_map_base() + (wy / 8) * 32 + c / 8];
        self.tile_pixel(self.tile_pointer(tile), wy % 8, c % 8)
    }

    /// The display after the window is drawn over the current scanline.
    pub open spec fn print_win(self) -> DisplayView {
        DisplayView {
            framebuffer: Seq::new(
                23040,
                |p: int|
                    if self.on_line(p) && self.win_covers(p % 160) {
                        spec_color_palette(self.win_pixel(p % 160), self.bg_palette)
                    } else {
                        self.framebuffer[p]
                    },
            ),
            bg_buffer: Seq::new(
                23040,
                |p: int|
                    if self.on_line(p) && self.win_covers(p % 160) {
                        self.win_pixel(p % 160)
                    } else {
                        self.bg_buffer[p]
                    },
            ),
            ..self
        }
    }

    /// Whether the eight lines of sprite `o` include the current scanline.
    /// The first byte of a sprite entry is its bottom line plus 9.
    pub open spec fn sprite_visible(self, o: int) -> bool {
        let y = self.oam[o * 4];
        y >= 9 && self.ly <= y - 9 < self.ly + 8
    }

    /// The line of its tile that sprite `o` shows on the current scanline,
    /// the vertical flip taken into account.
    pub open spec fn sprite_line(self, o: int) -> int {
        let d = self.oam[o * 4] - 9 - self.ly;
        if spec_test_bit(self.oam[o * 4 + 3], 6) {
            d
        } else {
            7 - d
        }
    }

    /// The bit of its tile line that sprite `o` shows at screen column
    /// `px`, the horizontal flip taken into account. The sprite covers the
    /// column exactly when this is a bit number, 0 to 7. The second byte of
    /// a sprite entry is its left edge plus 8.
    pub open spec fn sprite_bit(self, o: int, px: int) -> int {
        if spec_test_bit(self.oam[o * 4 + 3], 5) {
            px + 8 - self.oam[o * 4 + 1]
        } else {
            self.oam[o * 4 + 1] - 1 - px
        }
    }

    /// The colour index of sprite `o` at screen column `px`.
    pub open spec fn sprite_pixel(self, o: int, px: int) -> u8 {
        let ptr = self.oam[o * 4 + 2] * 16;
        let l = self.sprite_line(o);
        spec_pixel_value(
            self.tiledata[ptr + l * 2],
            self.tiledata[ptr + l * 2 + 1],
            self.sprite_bit(o, px) as u8,
        )
    }

    /// Whether sprite `o` draws at screen column `px` of the current
    /// scanline: it covers the pixel, its colour index there is not the
    /// transparent 0 and, if the sprite yields to the background, the
    /// background is transparent there.
    pub open spec fn sprite_draws(self, o: int, px: int) -> bool {
        &&& self.sprite_visible(o)
        &&& 0 <= self.sprite_bit(o, px) < 8
        &&& self.sprite_pixel(o, px) != 0
        &&& !(spec_test_bit(self.oam[o * 4 + 3], 7) && self.bg_buffer[self.ly * 160 + px] != 0)
    }

    /// The screen colour of sprite `o` at screen column `px`, under the
    /// object palette that the sprite selects.
    pub open spec fn sprite_color(self, o: int, px: int) -> u32 {
        let palette: int = if spec_test_bit(self.oam[o * 4 + 3], 4) {
            1
        } else {
            0
        };
        spec_color_palette(self.sprite_pixel(o, px), self.obj_palettes[palette])
    }

    /// The display after sprite `o` alone is drawn on the current scanline.
    pub open spec fn print_sprite(self, o: int) -> DisplayView {
        DisplayView {
            framebuffer: Seq::new(
                23040,
                |p: int|
                    if self.on_line(p) && self.sprite_draws(o, p % 160) {
                        self.sprite_color(o, p % 160)
                    } else {
                        self.framebuffer[p]
                    },
            ),
            ..self
        }
    }

    /// The sprite that shows at screen column `px` among the sprites
    /// numbered `from` and up: the one with the lowest number among those
    /// that draw there.
    pub open spec fn top_sprite(self, px: int, from: int) -> Option<int>
        decreases 40 - from,
    {
        if from >= 40 {
            None
        } else if self.sprite_draws(from, px) {
            Some(from)
        } else {
            self.top_sprite(px, from + 1)
        }
    }

    /// The display after the sprites are drawn on the current scanline.
    /// Where several sprites draw at one pixel, the one with the lowest
    /// number shows.
    pub open spec fn print_obj(self) -> DisplayView {
        if !spec_test_bit(self.lcdc, OBJ_ENABLE_BIT) {
            self
        } else {
            DisplayView {
                framebuffer: Seq::new(
                    23040,
                    |p: int|
                        if self.on_line(p) {
                            match self.top_sprite(p % 160, 0) {
                                Some(o) => self.sprite_color(o, p % 160),
                                None => self.framebuffer[p],
                            }
                        } else {
                            self.framebuffer[p]
                        },
                ),
                ..self
            }
        }
    }

    /// The display after the current scanline is rendered: background, then
    /// window, then sprites.
    pub open spec fn render_line(self) -> DisplayView {
        self.print_bg().print_win().print_obj()
    }

    /// The scanline that follows the current one; line 153 is followed by
    /// line 0.
    pub open spec fn next_ly(self) -> u8 {
        ((self.ly + 1) % 154) as u8
    }

    /// The display after the current scanline is completed: the line is
    /// rendered and the scanline index moves on.
    pub open spec fn advance_line(self) -> DisplayView {
        DisplayView { ly: self.next_ly(), ..self.render_line() }
    }

    /// The display after `n` scanlines are completed.
    pub open spec fn advance_lines(self, n: nat) -> DisplayView
        decreases n,
    {
        if n == 0 {
            self
        } else {
            self.advance_lines((n - 1) as nat).advance_line()
        }
    }

    /// Whether completing the current scanline enters the vertical blank.
    pub open spec fn line_vblank(self) -> bool {
        self.next_ly() == 144
    }

    /// Whether completing the current scanline raises the status interrupt
    /// under the configured mode: mode 1 at the start of the vertical
    /// blank, modes 0 and 2 at every visible line, mode 3 at the line that
    /// follows line `lyc`.
    pub open spec fn line_stat(self) -> bool {
        let ly = self.next_ly();
        ||| (ly == 144 && self.lcd_interrupt_mode == 1)
        ||| (ly < 144 && (self.lcd_interrupt_mode == 0 || self.lcd_interrupt_mode == 2))
        ||| (self.lcd_interrupt_mode == 3 && ly == self.lyc + 1)
    }

    /// Whether one of the next `n` scanlines enters the vertical blank.
    pub open spec fn lines_vblank(self, n: nat) -> bool
        decreases n,
    {
        n > 0 && (self.lines_vblank((n - 1) as nat) || self.advance_lines(
            (n - 1) as nat,
        ).line_vblank())
    }

    /// Whether one of the next `n` scanlines raises the status interrupt.
    pub open spec fn lines_stat(self, n: nat) -> bool
        decreases n,
    {
        n > 0 && (self.lines_stat((n - 1) as nat) || self.advance_lines(
            (n - 1) as nat,
        ).line_stat())
    }

    /// The scanlines that `cycles` more dots complete.
    pub open spec fn completed_lines(self, cycles: u64) -> nat {
        ((self.stat + cycles) / 456) as nat
    }

    /// The display after `cycles` dots. Switched on, it completes a
    /// scanline for every 456 dots counted and keeps the remainder;
    /// switched off, it rests at line 0 with no dots counted.
    pub open spec fn update_display(self, cycles: u64) -> DisplayView {
        if self.lcd_enabled() {
            DisplayView {
                stat: ((self.stat + cycles) % 456) as u64,
                ..self.advance_lines(self.completed_lines(cycles))
            }
        } else {
            DisplayView { ly: 0, stat: 0, ..self }
        }
    }

    /// What `cycles` dots ask of the interrupt controller.
    pub open spec fn update_display_interrupt(self, cycles: u64) -> DisplayInterrupt {
        if self.lcd_enabled() {
            spec_display_interrupt(
                self.lines_vblank(self.completed_lines(cycles)),
                self.lines_stat(self.completed_lines(cycles)),
            )
        } else {
            DisplayInterrupt::Nothing
        }
    }
}

/// The request that stands for the two interrupts together.
pub open spec fn spec_display_interrupt(vblank: bool, stat: bool) -> DisplayInterrupt {
    if vblank && stat {
        DisplayInterrupt::Both
    } else if vblank {
        DisplayInterrupt::Vblank
    } else if stat {
        DisplayInterrupt::Stat
    } else {
        DisplayInterrupt::Nothing
    }
}

/// The tile in column `col` of a background scrolled by `scx` has its left
/// edge at `(col * 8 - scx) % 256`; it covers the screen columns whose
/// background column lies in that tile.
pub proof fn lemma_bg_column(scx: u8, col: int, px: int)
    requires
        0 <= col < 32,
        0 <= px < 160,
    ensures
        (tile_column(((col * 8 + 256 - scx) % 256) as u8, px) < 8) <==> (((px + scx) % 256) / 8
            == col),
        ((px + scx) % 256) / 8 == col ==> tile_column(((col * 8 + 256 - scx) % 256) as u8, px)
            == ((px + scx) % 256) % 8,
{
    let x = (col * 8 + 256 - scx) % 256;
    let b = (px + scx) % 256;
    let d = b - col * 8;
    let m = (px + scx) / 256 + (col * 8 + 256 - scx) / 256 - 1;
    assert(px - x == 256 * m + d);
    vstd::arithmetic::div_mod::lemma_mod_multiples_vanish(m, d, 256);
    assert((px - x) % 256 == d % 256);
    assert(-256 < d < 256);
    assert(d % 256 == (if d >= 0 {
        d
    } else {
        d + 256
    }));
}

/// Where the window tile in column `t` is drawn: its left edge, at
/// `t * 8 + wx - 7`, counted modulo 256 as the columns of a tile are.
pub open spec fn spec_win_tile_edge(wx: u8, t: int) -> u8 {
    ((t * 8 + wx + 249) % 256) as u8
}

/// The window tile in column `t` has its left edge at `t * 8 + wx - 7`,
/// which may lie up to seven columns left of the screen; if the edge is
/// left of the screen's right end, the tile covers the screen columns
/// whose window column lies in that tile, and no other tile does.
pub proof fn lemma_win_column(wx: u8, t: int, px: int)
    requires
        0 <= t < 32,
        0 <= px < 160,
    ensures
        (t * 8 + wx < 167 && tile_column(spec_win_tile_edge(wx, t), px) < 8) <==> (px + 7 - wx
            >= 0 && (px + 7 - wx) / 8 == t),
        (px + 7 - wx >= 0 && (px + 7 - wx) / 8 == t) ==> tile_column(
            spec_win_tile_edge(wx, t),
            px,
        ) == (px + 7 - wx) % 8,
{
    let start = t * 8 + wx;
    let c = px + 7 - wx;
    let d = c - 8 * t;
    if start < 167 {
        let x = (start + 249) % 256;
        let m: int = if start < 7 {
            -1
        } else {
            0
        };
        assert(x == start - 7 - 256 * m);
        assert(px - x == 256 * m + d);
        vstd::arithmetic::div_mod::lemma_mod_multiples_vanish(m, d, 256);
        assert((px - x) % 256 == d % 256);
        assert(-256 < d < 256);
        assert(d % 256 == (if d >= 0 {
            d
        } else {
            d + 256
        }));
        assert((0 <= d < 8) <==> (c >= 0 && c / 8 == t));
        assert(0 <= d < 8 ==> c % 8 == d);
    } else {
        assert(c >= 0 && c / 8 == t ==> start <= c + wx);
    }
}

/// The display engine.
#[derive(Debug)]
pub struct Display {
    pub framebuffer: [u32; 23040],
    pub bg_buffer: [u8; 23040],
    pub tiledata: [u8; 0x1800],
    pub tilemaps: [u8; 0x800],
    pub oam: [u8; 0xa0],
    pub bg_palette: u8,
    pub obj_palettes: [u8; 2],
    pub viewport_y: u8,
    pub viewport_x: u8,
    pub lcdc: u8,
    pub ly: u8,
    pub lyc: u8,
    pub lcd_interrupt_mode: u8,
    pub window_x: u8,
    pub window_y: u8,
    /// Dots counted on the current scanline.
    pub stat: u64,
}

impl View for Display {
    type V = DisplayView;

    open spec fn view(&self) -> DisplayView {
        DisplayView {
            framebuffer: self.framebuffer@,
            bg_buffer: self.bg_buffer@,
            tiledata: self.tiledata@,
            tilemaps: self.tilemaps@,
            oam: self.oam@,
            bg_palette: self.bg_palette,
            obj_palettes: self.obj_palettes@,
            viewport_y: self.viewport_y,
            viewport_x: self.viewport_x,
            lcdc: self.lcdc,
            ly: self.ly,
            lyc: self.lyc,
            lcd_interrupt_mode: self.lcd_interrupt_mode,
            window_x: self.window_x,
            window_y: self.window_y,
            stat: self.stat,
        }
    }
}

impl Display {
    /// The display at power-on, before the screen is cleared.
    pub fn new() -> (display: Display)
        ensures
            display@ == DisplayView::power_on(),
    {
        let display = Display {
            framebuffer: [0;23040],
            bg_buffer: [0;23040],
            tiledata: [0;0x1800],
            tilemaps: [0;0x800],
            oam: [0;0xa0],
            bg_palette: 0,
            obj_palettes: [0;2],
            viewport_y: 0,
            viewport_x: 0,
            lcdc: 0,
            ly: 0,
            window_x: 0,
            window_y: 0,
            stat: 0,
            lyc: 0,
            lcd_interrupt_mode: 0xff,
        };
        assert(display@.framebuffer =~= DisplayView::power_on().framebuffer);
        assert(display@.bg_buffer =~= DisplayView::power_on().bg_buffer);
        assert(display@.tiledata =~= DisplayView::power_on().tiledata);
        assert(display@.tilemaps =~= DisplayView::power_on().tilemaps);
        assert(display@.oam =~= DisplayView::power_on().oam);
        assert(display@.obj_palettes =~= DisplayView::power_on().obj_palettes);
        display
    }

    /// Clears the screen.
    pub fn cls(&mut self)
        ensures
            final(self)@ == old(self)@.cls(),
    {
        self.framebuffer = [color(0);23040];
        assert(self@.framebuffer =~= old(self)@.cls().framebuffer);
    }

    /// The screen colour of colour index `color_byte` under `palette`.
    pub fn color_palette(&self, color_byte: u8, palette: u8) -> (c: u32)
        requires
            color_byte < 4,
        ensures
            c == spec_color_palette(color_byte, palette),
    {
        let entry: u8 = if color_byte == 0 {
            palette % 4
        } else if color_byte == 1 {
            (palette / 4) % 4
        } else if color_byte == 2 {
            (palette / 16) % 4
        } else {
            palette / 64
        };
        color(entry)
    }

    /// Where the data of background tile `tile` begins.
    pub fn tile_pointer(&self, tile: u8) -> (ptr: usize)
        ensures
            ptr == self@.tile_pointer(tile),
            ptr + 16 <= 0x1800,
    {
        if test_bit(self.lcdc, BG_TILEDATA_AREA_BIT) {
            tile as usize * 16
        } else if tile < 128 {
            0x1000 + tile as usize * 16
        } else {
            0x800 + (tile as usize - 128) * 16
        }
    }

    /// Draws line `l` of background tile `tile` on screen line `y` with its
    /// left edge at column `x`.
    pub fn print_tile(&mut self, tile: u8, x: u8, y: u8, l: usize)
        requires
            l < 8,
        ensures
            final(self)@ == old(self)@.print_tile(tile, x, y, l as int),
    {
        let tile_pointer: usize = self.tile_pointer(tile);
        let low: u8 = self.tiledata[tile_pointer + l * 2];
        let high: u8 = self.tiledata[tile_pointer + l * 2 + 1];
        let ghost before = self@;
        let mut col: u8 = 0;
        while col < 8
            invariant
                col <= 8,
                before == old(self)@,
                tile_pointer == before.tile_pointer(tile),
                low == before.tiledata[tile_pointer + l * 2],
                high == before.tiledata[tile_pointer + l * 2 + 1],
                self@ == (DisplayView {
                    framebuffer: self@.framebuffer,
                    bg_buffer: self@.bg_buffer,
                    ..before
                }),
                forall|p: int|
                    0 <= p < 23040 ==> #[trigger] self@.framebuffer[p] == (if tile_covers(x, y, p)
                        && tile_column(x, p % 160) < col {
                        spec_color_palette(
                            before.tile_pixel(tile_pointer as int, l as int, tile_column(x, p % 160)),
                            before.bg_palette,
                        )
                    } else {
                        before.framebuffer[p]
                    }),
                forall|p: int|
                    0 <= p < 23040 ==> #[trigger] self@.bg_buffer[p] == (if tile_covers(x, y, p)
                        && tile_column(x, p % 160) < col {
                        before.tile_pixel(tile_pointer as int, l as int, tile_column(x, p % 160))
                    } else {
                        before.bg_buffer[p]
                    }),
            decreases 8 - col,
        {
            let data: u8 = pixel_value(low, high, 7 - col);
            let pxx: u16 = (x as u16 + col as u16) % 256;
            if y < 144 && pxx < 160 {
                let p: usize = y as usize * 160 + pxx as usize;
                self.framebuffer[p] = self.color_palette(data, self.bg_palette);
                self.bg_buffer[p] = data;
            }
            proof {
                assert forall|p: int| 0 <= p < 23040 implies (tile_covers(x, y, p) && tile_column(
                    x,
                    p % 160,
                ) == col) == (y < 144 && pxx < 160 && p == y * 160 + pxx) by {
                    lemma_tile_column(x, col as int, p % 160);
                }
            }
            col += 1;
        }
        assert(self@.framebuffer =~= before.print_tile(tile, x, y, l as int).framebuffer);
        assert(self@.bg_buffer =~= before.print_tile(tile, x, y, l as int).bg_buffer);
    }

    /// Draws the tile sheet: all tiles of the tile data, twenty to a row.
    pub fn print_all_tiles(&mut self)
        ensures
            final(self)@ == old(self)@.print_all_tiles(),
    {
        let mut i: usize = 0;
        while i < 256
            invariant
                i <= 256,
                self@ == old(self)@.print_tiles((i * 8) as nat),
            decreases 256 - i,
        {
            let mut l: usize = 0;
            while l < 8
                invariant
                    i < 256,
                    l <= 8,
                    self@ == old(self)@.print_tiles((i * 8 + l) as nat),
                decreases 8 - l,
            {
                assert((i * 8 + l) / 8 == i && (i * 8 + l) % 8 == l);
                self.print_tile(i as u8, ((i % 20) * 8) as u8, ((i / 20) * 8) as u8, l);
                l += 1;
            }
            i += 1;
        }
    }

    /// Draws the background on the current scanline.
    pub fn print_bg(&mut self)
        ensures
            final(self)@ == old(self)@.print_bg(),
    {
        let tilemap_pointer: usize = if test_bit(self.lcdc, BG_TILEMAP_AREA_BIT) {
            0x400
        } else {
            0
        };
        let y_tile: usize = (self.ly as usize + self.viewport_y as usize) % 256;
        let ghost before = self@;
        let mut col: usize = 0;
        while col < 32
            invariant
                col <= 32,
                before == old(self)@,
                tilemap_pointer == before.bg_map_base(),
                y_tile == (before.ly + before.viewport_y) % 256,
                self@ == (DisplayView {
                    framebuffer: self@.framebuffer,
                    bg_buffer: self@.bg_buffer,
                    ..before
                }),
                forall|p: int|
                    0 <= p < 23040 ==> #[trigger] self@.framebuffer[p] == (if before.on_line(p) && ((p
                        % 160 + before.viewport_x) % 256) / 8 < col {
                        spec_color_palette(before.bg_pixel(p % 160), before.bg_palette)
                    } else {
                        before.framebuffer[p]
                    }),
                forall|p: int|
                    0 <= p < 23040 ==> #[trigger] self@.bg_buffer[p] == (if before.on_line(p) && ((p
                        % 160 + before.viewport_x) % 256) / 8 < col {
                        before.bg_pixel(p % 160)
                    } else {
                        before.bg_buffer[p]
                    }),
            decreases 32 - col,
        {
            let tile: u8 = self.tilemaps[tilemap_pointer + (y_tile / 8) * 32 + col];
            let x: u8 = ((col * 8 + 256 - self.viewport_x as usize) % 256) as u8;
            let ghost prev = self@;
            self.print_tile(tile, x, self.ly, y_tile % 8);
            proof {
                assert forall|p: int| 0 <= p < 23040 implies (tile_covers(x, before.ly, p) == (
                before.on_line(p) && ((p % 160 + before.viewport_x) % 256) / 8 == col)) && (
                tile_covers(x, before.ly, p) ==> tile_column(x, p % 160) == ((p % 160
                    + before.viewport_x) % 256) % 8) by {
                    lemma_bg_column(before.viewport_x, col as int, p % 160);
                }
                assert(prev.tile_pointer(tile) == before.tile_pointer(tile));
            }
            col += 1;
        }
        assert(self@.framebuffer =~= before.print_bg().framebuffer);
        assert(self@.bg_buffer =~= before.print_bg().bg_buffer);
    }

    /// Draws the window over the current scanline.
    pub fn print_win(&mut self)
        ensures
            final(self)@ == old(self)@.print_win(),
    {
        let ghost before = self@;
        if !test_bit(self.lcdc, WIN_ENABLE_BIT) || self.ly < self.window_y {
            assert(self@.framebuffer =~= before.print_win().framebuffer);
            assert(self@.bg_buffer =~= before.print_win().bg_buffer);
            return ;
        }
        let tilemap_pointer: usize = if test_bit(self.lcdc, WIN_TILEMAP_AREA_BIT) {
            0x400
        } else {
            0
        };
        let y_tile: usize = (self.ly - self.window_y) as usize;
        let mut t: usize = 0;
        while t < 32
            invariant
                t <= 32,
                before == old(self)@,
                tilemap_pointer == before.win_map_base(),
                y_tile == before.ly - before.window_y,
                spec_test_bit(before.lcdc, WIN_ENABLE_BIT),
                before.ly >= before.window_y,
                self@ == (DisplayView {
                    framebuffer: self@.framebuffer,
                    bg_buffer: self@.bg_buffer,
                    ..before
                }),
                forall|p: int|
                    0 <= p < 23040 ==> #[trigger] self@.framebuffer[p] == (if before.on_line(p)
                        && before.win_covers(p % 160) && before.win_column(p % 160) / 8 < t {
                        spec_color_palette(before.win_pixel(p % 160), before.bg_palette)
                    } else {
                        before.framebuffer[p]
                    }),
                forall|p: int|
                    0 <= p < 23040 ==> #[trigger] self@.bg_buffer[p] == (if before.on_line(p)
                        && before.win_covers(p % 160) && before.win_column(p % 160) / 8 < t {
                        before.win_pixel(p % 160)
                    } else {
                        before.bg_buffer[p]
                    }),
            decreases 32 - t,
        {
            let tile: u8 = self.tilemaps[tilemap_pointer + (y_tile / 8) * 32 + t];
            let start: usize = t * 8 + self.window_x as usize;
            let edge: u8 = ((start + 249) % 256) as u8;
            let ghost prev = self@;
            proof {
                assert forall|p: int| 0 <= p < 23040 implies ((start < 167 && tile_covers(
                    edge,
                    before.ly,
                    p,
                )) == (before.on_line(p) && before.win_covers(p % 160) && before.win_column(p % 160)
                    / 8 == t)) && ((start < 167 && tile_covers(edge, before.ly, p))
                    ==> tile_column(edge, p % 160) == before.win_column(p % 160) % 8) by {
                    lemma_win_column(before.window_x, t as int, p % 160);
                }
            }
            if start < 167 {
                self.print_tile(tile, edge, self.ly, y_tile % 8);
                assert(prev.tile_pointer(tile) == before.tile_pointer(tile));
            }
            t += 1;
        }
        assert(self@.framebuffer =~= before.print_win().framebuffer);
        assert(self@.bg_buffer =~= before.print_win().bg_buffer);
    }

    /// Draws sprite `o` alone on the current scanline.
    pub fn print_sprite(&mut self, o: usize)
        requires
            o < 40,
        ensures
            final(self)@ == old(self)@.print_sprite(o as int),
    {
        let ghost before = self@;
        let y0: u8 = self.oam[o * 4];
        let x0: u8 = self.oam[o * 4 + 1];
        let tile: u8 = self.oam[o * 4 + 2];
        let opts: u8 = self.oam[o * 4 + 3];
        let bg_priority_flag: bool = test_bit(opts, 7);
        let y_flip: bool = test_bit(opts, 6);
        let x_flip: bool = test_bit(opts, 5);
        let palette: usize = if test_bit(opts, 4) { 1 } else { 0 };
        let tile_pointer: usize = tile as usize * 16;
        if y0 < 9 || y0 - 9 < self.ly || (y0 - 9) as u16 >= self.ly as u16 + 8 || self.ly >= 144 {
            assert(self@.framebuffer =~= before.print_sprite(o as int).framebuffer);
            return ;
        }
        let d: u8 = y0 - 9 - self.ly;
        let l: usize = if y_flip { d as usize } else { 7 - d as usize };
        let low: u8 = self.tiledata[tile_pointer + l * 2];
        let high: u8 = self.tiledata[tile_pointer + l * 2 + 1];
        let mut b: u8 = 0;
        while b < 8
            invariant
                b <= 8,
                o < 40,
                before == old(self)@,
                before.sprite_visible(o as int),
                before.ly < 144,
                x0 == before.oam[o * 4 + 1],
                opts == before.oam[o * 4 + 3],
                tile == before.oam[o * 4 + 2],
                bg_priority_flag == spec_test_bit(opts, 7),
                x_flip == spec_test_bit(opts, 5),
                palette == (if spec_test_bit(opts, 4) { 1int } else { 0 }),
                l == before.sprite_line(o as int),
                tile_pointer == tile * 16,
                low == before.tiledata[tile_pointer + l * 2],
                high == before.tiledata[tile_pointer + l * 2 + 1],
                self@ == (DisplayView { framebuffer: self@.framebuffer, ..before }),
                forall|p: int|
                    0 <= p < 23040 ==> #[trigger] self@.framebuffer[p] == (if before.on_line(p)
                        && before.sprite_draws(o as int, p % 160) && before.sprite_bit(
                        o as int,
                        p % 160,
                    ) < b {
                        before.sprite_color(o as int, p % 160)
                    } else {
                        before.framebuffer[p]
                    }),
            decreases 8 - b,
        {
            let pxx: i16 = if x_flip {
                x0 as i16 + b as i16 - 8
            } else {
                x0 as i16 - 1 - b as i16
            };
            if pxx >= 0 && pxx < 160 {
                let data: u8 = pixel_value(low, high, b);
                let p: usize = self.ly as usize * 160 + pxx as usize;
                if data != 0 && !(bg_priority_flag && self.bg_buffer[p] != 0) {
                    self.framebuffer[p] = self.color_palette(data, self.obj_palettes[palette]);
                }
            }
            proof {
                assert forall|p: int| 0 <= p < 23040 implies (before.on_line(p)
                    && before.sprite_bit(o as int, p % 160) == b) == (0 <= pxx < 160 && p
                    == before.ly * 160 + pxx) by {}
            }
            b += 1;
        }
        assert(self@.framebuffer =~= before.print_sprite(o as int).framebuffer);
    }

    /// Draws the sprites on the current scanline.
    pub fn print_obj(&mut self)
        ensures
            final(self)@ == old(self)@.print_obj(),
    {
        if !test_bit(self.lcdc, OBJ_ENABLE_BIT) {
            return ;
        }
        let ghost before = self@;
        let mut o: usize = 40;
        while o > 0
            invariant
                o <= 40,
                before == old(self)@,
                self@ == (DisplayView { framebuffer: self@.framebuffer, ..before }),
                forall|p: int|
                    0 <= p < 23040 ==> #[trigger] self@.framebuffer[p] == (if before.on_line(p) {
                        match before.top_sprite(p % 160, o as int) {
                            Some(s) => before.sprite_color(s, p % 160),
                            None => before.framebuffer[p],
                        }
                    } else {
                        before.framebuffer[p]
                    }),
            decreases o,
        {
            o -= 1;
            let ghost prev = self@;
            self.print_sprite(o);
            proof {
                assert forall|px: int| #[trigger]
                    prev.sprite_draws(o as int, px) == before.sprite_draws(o as int, px) by {}
                assert forall|px: int| #[trigger]
                    prev.sprite_color(o as int, px) == before.sprite_color(o as int, px) by {}
            }
        }
        assert(self@.framebuffer =~= before.print_obj().framebuffer);
    }

    /// Advances the display by `cycles` dots and says which interrupts the
    /// completed scanlines ask for.
    pub fn update_display(&mut self, cycles: u64) -> (interrupt: DisplayInterrupt)
        ensures
            final(self)@ == old(self)@.update_display(cycles),
            interrupt == old(self)@.update_display_interrupt(cycles),
    {
        if !test_bit(self.lcdc, LCD_ENABLE_BIT) {
            self.ly = 0;
            self.stat = 0;
            return DisplayInterrupt::Nothing;
        }
        let ghost before = self@;
        let rest: u64 = self.stat % LINE_DOTS + cycles % LINE_DOTS;
        let lines: u64 = self.stat / LINE_DOTS + cycles / LINE_DOTS + rest / LINE_DOTS;
        assert(lines == before.completed_lines(cycles));
        assert(rest % 456 == (before.stat + cycles) % 456);
        let mut vblank: bool = false;
        let mut stat: bool = false;
        let mut i: u64 = 0;
        while i < lines
            invariant
                i <= lines,
                before == old(self)@,
                self@ == before.advance_lines(i as nat),
                vblank == before.lines_vblank(i as nat),
                stat == before.lines_stat(i as nat),
            decreases lines - i,
        {
            self.print_bg();
            self.print_win();
            self.print_obj();
            let ly: u8 = ((self.ly as u16 + 1) % 154) as u8;
            self.ly = ly;
            if ly == 144 {
                vblank = true;
                if self.lcd_interrupt_mode == 1 {
                    stat = true;
                }
            }
            if ly < 144 && (self.lcd_interrupt_mode == 0 || self.lcd_interrupt_mode == 2) {
                stat = true;
            }
            if self.lcd_interrupt_mode == 3 && ly as u16 == self.lyc as u16 + 1 {
                stat = true;
            }
            i += 1;
        }
        self.stat = rest % LINE_DOTS;
        if vblank && stat {
            DisplayInterrupt::Both
        } else if vblank {
            DisplayInterrupt::Vblank
        } else if stat {
            DisplayInterrupt::Stat
        } else {
            DisplayInterrupt::Nothing
        }
    }

    /// Stores `value` at offset `addr` of video memory.
    pub fn w(&mut self, addr: u16, value: u8) -> (res: Result<(), crate::state::MemError>)
        requires
            DisplayView::maps(addr),
        ensures
            res is Ok,
            final(self)@ == old(self)@.write(addr, value),
    {
        if addr < 0x1800 {
            self.tiledata[addr as usize] = value;
        } else if addr >= 0x7e00 {
            self.oam[addr as usize - 0x7e00] = value;
        } else {
            self.tilemaps[addr as usize - 0x1800] = value;
        }
        Ok(())
    }

    /// The byte at offset `addr` of video memory.
    pub fn r(&self, addr: u16) -> (res: Result<u8, crate::state::MemError>)
        requires
            DisplayView::maps(addr),
        ensures
            res == Ok::<u8, crate::state::MemError>(self@.read(addr)),
    {
        if addr < 0x1800 {
            Ok(self.tiledata[addr as usize])
        } else if addr >= 0x7e00 {
            Ok(self.oam[addr as usize - 0x7e00])
        } else {
            Ok(self.tilemaps[addr as usize - 0x1800])
        }
    }
}

/// Rendering and completing scanlines changes neither the control byte
/// nor the dot count, and `n` completed scanlines move the scanline index
/// `n` lines on, modulo the 154 lines of a frame.
pub proof fn lemma_advance_lines(d: DisplayView, n: nat)
    requires
        d.ly < 154,
    ensures
        d.advance_lines(n).ly == (d.ly + n) % 154,
        d.advance_lines(n).lcdc == d.lcdc,
        d.advance_lines(n).stat == d.stat,
    decreases n,
{
    if n > 0 {
        lemma_advance_lines(d, (n - 1) as nat);
    }
}

/// Whether the counters of the display are within their ranges: the
/// scanline index below 154 and the dot count below 456.
pub open spec fn in_range(d: DisplayView) -> bool {
    d.ly < 154 && d.stat < 456
}

/// The counters of the display are within their ranges at power-on, and
/// every advance keeps them there.
pub proof fn lemma_update_display_in_range(d: DisplayView, cycles: u64)
    requires
        d.ly < 154,
    ensures
        in_range(DisplayView::power_on()),
        in_range(d.update_display(cycles)),
{
    lemma_advance_lines(d, d.completed_lines(cycles));
}

/// While the display is switched off its scanline index is held at 0 and
/// no pixel is produced.
pub proof fn lemma_display_off(d: DisplayView, cycles: u64)
    requires
        !d.lcd_enabled(),
    ensures
        d.update_display(cycles).ly == 0,
        d.update_display(cycles).framebuffer == d.framebuffer,
        d.update_display(cycles).bg_buffer == d.bg_buffer,
        d.update_display_interrupt(cycles) == DisplayInterrupt::Nothing,
{
}

/// With the display on, an advance moves the scanline index on by the
/// number of times that the dot count reaches 456.
pub proof fn lemma_cadence(d: DisplayView, cycles: u64)
    requires
        d.lcd_enabled(),
        d.ly < 154,
    ensures
        d.update_display(cycles).ly == (d.ly + (d.stat + cycles) / 456) % 154,
        d.update_display(cycles).stat == (d.stat + cycles) % 456,
{
    lemma_advance_lines(d, d.completed_lines(cycles));
}

/// With the display on, 456 dots move the scanline index on by exactly
/// one line and leave the dot count as it was.
pub proof fn lemma_line_cadence(d: DisplayView)
    requires
        d.lcd_enabled(),
        d.ly < 154,
        d.stat < 456,
    ensures
        d.update_display(456).ly == (if d.ly == 153 {
            0int
        } else {
            d.ly + 1
        }),
        d.update_display(456).stat == d.stat,
{
    lemma_cadence(d, 456);
}

/// With the display on, the dots of a whole frame, 154 times 456, bring
/// the scanline index back to where it was.
pub proof fn lemma_frame_cadence(d: DisplayView)
    requires
        d.lcd_enabled(),
        d.ly < 154,
        d.stat < 456,
    ensures
        d.update_display(70224).ly == d.ly,
        d.update_display(70224).stat == d.stat,
{
    lemma_cadence(d, 70224);
}

/// The sprite that shows among those numbered `from` and up is the first
/// one that draws.
pub proof fn lemma_top_sprite(d: DisplayView, px: int, from: int, i: int)
    requires
        0 <= from <= i < 40,
        d.sprite_draws(i, px),
        forall|k: int| from <= k < i ==> !d.sprite_draws(k, px),
    ensures
        d.top_sprite(px, from) == Some(i),
    decreases i - from,
{
    if from < i {
        lemma_top_sprite(d, px, from + 1, i);
    }
}

/// Where two sprites draw at the same pixel of the current scanline, the
/// one with the lower number shows, unless a sprite with a still lower
/// number draws there too.
pub proof fn lemma_sprite_overlap(d: DisplayView, i: int, j: int, px: int)
    requires
        spec_test_bit(d.lcdc, OBJ_ENABLE_BIT),
        d.ly < 144,
        0 <= px < 160,
        0 <= i < j < 40,
        d.sprite_draws(i, px),
        d.sprite_draws(j, px),
        forall|k: int| 0 <= k < i ==> !d.sprite_draws(k, px),
    ensures
        d.print_obj().framebuffer[d.ly * 160 + px] == d.sprite_color(i, px),
{
    lemma_top_sprite(d, px, 0, i);
    let p = d.ly * 160 + px;
    assert(p / 160 == d.ly && p % 160 == px);
}

} // verus!
