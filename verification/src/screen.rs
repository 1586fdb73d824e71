//! Drawing into the pixel buffers of a front end: the picture of the
//! machine, and the tiles of video memory for inspection. A buffer holds one
//! colour per pixel, row by row; each pixel of the machine covers a square of
//! `SCALE` by `SCALE` pixels of the buffer.
use vstd::prelude::*;
use crate::mmu::{MMU, MmuState};
use crate::ppu::pipeline::{color_of, tile_color};

verus! {

/// Pixels of a buffer per pixel of the machine, in each direction.
pub const SCALE: usize = 2;

/// Width of the buffer that shows the picture.
pub const GAMEBOY_WIDTH: usize = 320;

/// Height of the buffer that shows the picture.
pub const GAMEBOY_HEIGHT: usize = 288;

/// Width of the buffer that shows the tiles.
pub const SCREEN_WIDTH: usize = 288;

/// Height of the buffer that shows the tiles.
pub const SCREEN_HEIGHT: usize = 432;

/// Number of tiles in video memory.
pub const TILES: u16 = 384;

/// Number of tiles in a row of the tile view.
pub const TILES_PER_ROW: u16 = 16;

/// Distance between two tiles of the tile view in pixels of the buffer.
pub const TILE_PITCH: usize = 18;

/// First address of the tiles in video memory.
pub const TILE_DATA: u16 = 0x8000;

/// The colour that stands for a shade: white, light grey, dark grey, black.
pub open spec fn shade_color(shade: u8) -> u32 {
    if shade == 0 {
        0xFFFFFF
    } else if shade == 1 {
        0xAAAAAA
    } else if shade == 2 {
        0x555555
    } else {
        0x000000
    }
}

/// The colour that stands for a shade.
pub fn color_of_shade(shade: u8) -> (r: u32)
    ensures
        r == shade_color(shade),
{
    match shade {
        0 => 0xFFFFFF,
        1 => 0xAAAAAA,
        2 => 0x555555,
        _ => 0x000000,
    }
}

/// A machine: a marker type of the front end.
pub struct Gameboy {}

/// The mathematical model of a rectangle.
pub ghost struct RectState {
    pub x: int,
    pub y: int,
    pub width: int,
    pub height: int,
    pub color: u32,
}

/// A rectangle of one colour.
pub struct Rect {
    x: usize,
    y: usize,
    width: usize,
    height: usize,
    color: u32,
}

impl View for Rect {
    type V = RectState;

    closed spec fn view(&self) -> RectState {
        RectState {
            x: self.x as int,
            y: self.y as int,
            width: self.width as int,
            height: self.height as int,
            color: self.color,
        }
    }
}

impl Rect {
    pub fn new(x: usize, y: usize, width: usize, height: usize, color: u32) -> (r: Rect)
        ensures
            r@ == (RectState {
                x: x as int,
                y: y as int,
                width: width as int,
                height: height as int,
                color,
            }),
    {
        Rect { x, y, width, height, color }
    }
}

/// The length of a row of the buffer that shows the picture, or of the one
/// that shows the tiles.
pub open spec fn row_length(gameboy: bool) -> int {
    if gameboy {
        GAMEBOY_WIDTH as int
    } else {
        SCREEN_WIDTH as int
    }
}

/// The buffer after `count` pixels from position `start` on have got `color`.
pub open spec fn fill_row(dest: Seq<u32>, start: int, count: int, color: u32) -> Seq<u32> {
    Seq::new(
        dest.len(),
        |i: int|
            if start <= i < start + count {
                color
            } else {
                dest[i]
            },
    )
}

/// The buffer after the first `rows` rows of a rectangle have been filled;
/// `row` is the length of a row of the buffer.
pub open spec fn fill_rows(dest: Seq<u32>, rect: RectState, row: int, rows: int) -> Seq<u32>
    decreases rows,
{
    if rows <= 0 {
        dest
    } else {
        fill_row(
            fill_rows(dest, rect, row, rows - 1),
            (rect.y + rows - 1) * row + rect.x,
            rect.width,
            rect.color,
        )
    }
}

/// The last pixel of the rectangle lies inside a buffer of `len` pixels.
pub open spec fn fits(len: int, rect: RectState, row: int) -> bool {
    rect.width == 0 || rect.height == 0 || (rect.y + rect.height - 1) * row + rect.x + rect.width
        <= len
}

/// The square that shows pixel `cell` (0 to 63, row by row) of a tile whose
/// corner lies at (`x`, `y`): the first byte of a row of the tile gives the
/// high bit of the colour, the second the low bit.
pub open spec fn tile_cell(mmu: MmuState, start: u16, tile: u16, x: int, y: int, cell: int) -> RectState
    recommends
        0 <= cell < 64,
{
    let line = cell / 8;
    let column = cell % 8;
    let first = mmu.read((start + tile * 16 + line * 2) as u16);
    let second = mmu.read((start + tile * 16 + line * 2 + 1) as u16);
    RectState {
        x: x + column * SCALE,
        y: y + line * SCALE,
        width: SCALE as int,
        height: SCALE as int,
        color: shade_color(tile_color(second, first, (7 - column) as u8)),
    }
}

/// The buffer after the first `cells` pixels of a tile have been drawn.
pub open spec fn tile_drawn(
    dest: Seq<u32>,
    mmu: MmuState,
    start: u16,
    tile: u16,
    x: int,
    y: int,
    cells: int,
) -> Seq<u32>
    decreases cells,
{
    if cells <= 0 {
        dest
    } else {
        fill_rows(
            tile_drawn(dest, mmu, start, tile, x, y, cells - 1),
            tile_cell(mmu, start, tile, x, y, cells - 1),
            SCREEN_WIDTH as int,
            SCALE as int,
        )
    }
}

/// The buffer after the first `tiles` tiles of video memory have been
/// drawn, sixteen to a row.
pub open spec fn tiles_drawn(dest: Seq<u32>, mmu: MmuState, tiles: int) -> Seq<u32>
    decreases tiles,
{
    if tiles <= 0 {
        dest
    } else {
        tile_drawn(
            tiles_drawn(dest, mmu, tiles - 1),
            mmu,
            TILE_DATA,
            (tiles - 1) as u16,
            ((tiles - 1) % 16) * TILE_PITCH,
            ((tiles - 1) / 16) * TILE_PITCH,
            64,
        )
    }
}

/// The buffer after the first `pixels` pixels of the picture have been
/// drawn, each in the colour of its shade.
pub open spec fn picture_drawn(dest: Seq<u32>, picture: Seq<u8>, pixels: int) -> Seq<u32>
    decreases pixels,
{
    if pixels <= 0 {
        dest
    } else {
        fill_rows(
            picture_drawn(dest, picture, pixels - 1),
            RectState {
                x: ((pixels - 1) % 160) * SCALE,
                y: ((pixels - 1) / 160) * SCALE,
                width: SCALE as int,
                height: SCALE as int,
                color: shade_color(picture[pixels - 1]),
            },
            GAMEBOY_WIDTH as int,
            SCALE as int,
        )
    }
}

/// Pixel `i` of the buffer lies in row `r` of the rectangle; `row` is the
/// length of a row of the buffer.
pub open spec fn in_rect_row(rect: RectState, row: int, r: int, i: int) -> bool {
    (rect.y + r) * row + rect.x <= i < (rect.y + r) * row + rect.x + rect.width
}

/// Pixel `i` of the buffer lies in one of the first `rows` rows of the
/// rectangle.
pub open spec fn covered(rect: RectState, row: int, rows: int, i: int) -> bool {
    exists|r: int| 0 <= r < rows && in_rect_row(rect, row, r, i)
}

/// After the first `rows` rows of a rectangle have been filled, a pixel has
/// the colour of the rectangle if it lies in one of those rows and is as it
/// was if it does not.
pub proof fn lemma_fill_rows_pixel(dest: Seq<u32>, rect: RectState, row: int, rows: int, i: int)
    requires
        0 <= i < dest.len(),
    ensures
        fill_rows(dest, rect, row, rows).len() == dest.len(),
        fill_rows(dest, rect, row, rows)[i] == if covered(rect, row, rows, i) {
            rect.color
        } else {
            dest[i]
        },
    decreases rows,
{
    lemma_fill_rows_len(dest, rect, row, rows);
    if rows > 0 {
        lemma_fill_rows_pixel(dest, rect, row, rows - 1, i);
        lemma_fill_rows_len(dest, rect, row, rows - 1);
        if in_rect_row(rect, row, rows - 1, i) {
            assert(covered(rect, row, rows, i));
        } else if covered(rect, row, rows - 1, i) {
            let r = choose|r: int| 0 <= r < rows - 1 && in_rect_row(rect, row, r, i);
            assert(0 <= r < rows && in_rect_row(rect, row, r, i));
        } else {
            assert(!covered(rect, row, rows, i)) by {
                if covered(rect, row, rows, i) {
                    let r = choose|r: int| 0 <= r < rows && in_rect_row(rect, row, r, i);
                    assert(r < rows - 1);
                    assert(covered(rect, row, rows - 1, i));
                }
            }
        }
    }
}

/// Filling rows keeps the length of the buffer.
pub proof fn lemma_fill_rows_len(dest: Seq<u32>, rect: RectState, row: int, rows: int)
    ensures
        fill_rows(dest, rect, row, rows).len() == dest.len(),
    decreases rows,
{
    if rows > 0 {
        lemma_fill_rows_len(dest, rect, row, rows - 1);
    }
}

/// Drawing a tile keeps the length of the buffer.
pub proof fn lemma_tile_drawn_len(
    dest: Seq<u32>,
    mmu: MmuState,
    start: u16,
    tile: u16,
    x: int,
    y: int,
    cells: int,
)
    ensures
        tile_drawn(dest, mmu, start, tile, x, y, cells).len() == dest.len(),
    decreases cells,
{
    if cells > 0 {
        lemma_tile_drawn_len(dest, mmu, start, tile, x, y, cells - 1);
        lemma_fill_rows_len(
            tile_drawn(dest, mmu, start, tile, x, y, cells - 1),
            tile_cell(mmu, start, tile, x, y, cells - 1),
            SCREEN_WIDTH as int,
            SCALE as int,
        );
    }
}

/// Fills a rectangle of the buffer with its colour. The buffer is the one
/// that shows the picture if `gameboy` holds, else the one that shows the
/// tiles.
pub fn fill_rect(dest: &mut [u32], rect: &Rect, gameboy: bool)
    requires
        fits(old(dest)@.len() as int, rect@, row_length(gameboy)),
    ensures
        final(dest)@ == fill_rows(old(dest)@, rect@, row_length(gameboy), rect@.height),
        final(dest)@.len() == old(dest)@.len(),
        forall|i: int|
            0 <= i < old(dest)@.len() ==> #[trigger] final(dest)@[i] == if covered(
                rect@,
                row_length(gameboy),
                rect@.height,
                i,
            ) {
                rect@.color
            } else {
                old(dest)@[i]
            },
{
    proof {
        assert forall|i: int| 0 <= i < dest@.len() implies #[trigger] fill_rows(
            dest@,
            rect@,
            row_length(gameboy),
            rect@.height,
        )[i] == if covered(rect@, row_length(gameboy), rect@.height, i) {
            rect@.color
        } else {
            dest@[i]
        } by {
            lemma_fill_rows_pixel(dest@, rect@, row_length(gameboy), rect@.height, i);
        }
    }
    let row: usize = if gameboy { GAMEBOY_WIDTH } else { SCREEN_WIDTH };
    let len: usize = dest.len();
    let mut y: usize = 0;
    while y < rect.height
        invariant
            len == dest@.len(),
            y <= rect.height,
            row == row_length(gameboy),
            dest@.len() == old(dest)@.len(),
            fits(dest@.len() as int, rect@, row as int),
            dest@ == fill_rows(old(dest)@, rect@, row as int, y as int),
        decreases rect.height - y,
    {
        let ghost before = dest@;
        let mut x: usize = 0;
        proof {
            assert((rect@.y + y) * row <= (rect@.y + rect@.height - 1) * row) by (nonlinear_arith)
                requires
                    rect@.y + y <= rect@.y + rect@.height - 1,
                    row > 0,
            ;
            assert(rect@.y + y <= (rect@.y + y) * row) by (nonlinear_arith)
                requires
                    rect@.y + y >= 0,
                    row > 0,
            ;
        }
        while x < rect.width
            invariant
                len == dest@.len(),
                x <= rect.width,
                y < rect.height,
                row == row_length(gameboy),
                dest@.len() == before.len(),
                fits(dest@.len() as int, rect@, row as int),
                (rect@.y + y) * row <= (rect@.y + rect@.height - 1) * row,
                rect@.y + y <= (rect@.y + y) * row,
                dest@ == fill_row(before, (rect@.y + y) * row + rect@.x, x as int, rect@.color),
            decreases rect.width - x,
        {
            proof {
                assert((rect@.y + rect@.height - 1) * row + rect@.x + rect@.width <= dest@.len());
                assert(rect.y == rect@.y && rect.x == rect@.x);
                assert((rect.y + y) * row + rect.x + x < dest@.len());
            }
            dest[((rect.y + y) * row) + rect.x + x] = rect.color;
            x += 1;
            proof {
                assert(dest@ =~= fill_row(
                    before,
                    (rect@.y + y) * row + rect@.x,
                    x as int,
                    rect@.color,
                ));
            }
        }
        y += 1;
    }
}

/// Draws one tile, eight by eight pixels, with its corner at (`x`, `y`) of
/// the buffer that shows the tiles. The tile is number `tile_num` of the
/// tiles that start at `start_address`.
pub fn display_tile(
    mmu: &MMU,
    dest: &mut [u32],
    start_address: u16,
    tile_num: u16,
    x: u32,
    y: u32,
)
    requires
        start_address + tile_num * 16 + 15 <= 0xFFFF,
        (y + 15) * SCREEN_WIDTH + x + 16 <= old(dest)@.len(),
    ensures
        final(dest)@ == tile_drawn(
            old(dest)@,
            mmu@,
            start_address,
            tile_num,
            x as int,
            y as int,
            64,
        ),
        final(dest)@.len() == old(dest)@.len(),
{
    let len: usize = dest.len();
    let mut tile_y: u16 = 0;
    while tile_y < 8
        invariant
            len == dest@.len(),
            tile_y <= 8,
            start_address + tile_num * 16 + 15 <= 0xFFFF,
            dest@.len() == old(dest)@.len(),
            (y + 15) * SCREEN_WIDTH + x + 16 <= dest@.len(),
            dest@ == tile_drawn(
                old(dest)@,
                mmu@,
                start_address,
                tile_num,
                x as int,
                y as int,
                tile_y * 8,
            ),
        decreases 8 - tile_y,
    {
        let b1: u8 = mmu.read_byte(start_address + (tile_num * 16) + tile_y * 2);
        let b2: u8 = mmu.read_byte(start_address + (tile_num * 16) + tile_y * 2 + 1);
        let mut column: u8 = 0;
        while column < 8
            invariant
                len == dest@.len(),
                start_address + tile_num * 16 + 15 <= 0xFFFF,
                column <= 8,
                tile_y < 8,
                b1 == mmu@.read((start_address + tile_num * 16 + tile_y * 2) as u16),
                b2 == mmu@.read((start_address + tile_num * 16 + tile_y * 2 + 1) as u16),
                dest@.len() == old(dest)@.len(),
                (y + 15) * SCREEN_WIDTH + x + 16 <= dest@.len(),
                dest@ == tile_drawn(
                    old(dest)@,
                    mmu@,
                    start_address,
                    tile_num,
                    x as int,
                    y as int,
                    tile_y * 8 + column,
                ),
            decreases 8 - column,
        {
            let bit = 7 - column;
            let color = color_of(b2, b1, bit);
            let rec = Rect::new(
                x as usize + (column as usize * SCALE),
                y as usize + (tile_y as usize * SCALE),
                SCALE,
                SCALE,
                color_of_shade(color),
            );
            proof {
                let cell = tile_y * 8 + column;
                assert(cell / 8 == tile_y && cell % 8 == column);
                assert(rec@ == tile_cell(
                    mmu@,
                    start_address,
                    tile_num,
                    x as int,
                    y as int,
                    cell as int,
                ));
            }
            fill_rect(dest, &rec, false);
            column += 1;
        }
        tile_y += 1;
    }
}

/// Draws the 384 tiles of video memory into the buffer that shows the
/// tiles, sixteen to a row.
pub fn update_dbg_window(mmu: &MMU, dest: &mut [u32])
    requires
        old(dest)@.len() >= SCREEN_WIDTH * SCREEN_HEIGHT,
    ensures
        final(dest)@ == tiles_drawn(old(dest)@, mmu@, TILES as int),
        final(dest)@.len() == old(dest)@.len(),
{
    let mut tile_num: u16 = 0;
    while tile_num < 384
        invariant
            tile_num <= 384,
            dest@.len() == old(dest)@.len(),
            dest@.len() >= SCREEN_WIDTH * SCREEN_HEIGHT,
            dest@ == tiles_drawn(old(dest)@, mmu@, tile_num as int),
        decreases 384 - tile_num,
    {
        let x_draw = (tile_num % TILES_PER_ROW) as u32 * 18;
        let y_draw = (tile_num / TILES_PER_ROW) as u32 * 18;
        display_tile(mmu, dest, 0x8000, tile_num, x_draw, y_draw);
        tile_num += 1;
    }
}

/// Draws the picture of the machine into the buffer that shows it, each
/// shade in its colour.
pub fn update_gameboy_window(mmu: &MMU, dest: &mut [u32])
    requires
        old(dest)@.len() >= GAMEBOY_WIDTH * GAMEBOY_HEIGHT,
        mmu@.wf(),
    ensures
        final(dest)@ == picture_drawn(
            old(dest)@,
            mmu@.ppu.video_buffer,
            crate::ppu::PICTURE_SIZE as int,
        ),
        final(dest)@.len() == old(dest)@.len(),
{
    let mut line_num: usize = 0;
    while line_num < 144
        invariant
            line_num <= 144,
            dest@.len() == old(dest)@.len(),
            dest@.len() >= GAMEBOY_WIDTH * GAMEBOY_HEIGHT,
            mmu@.wf(),
            dest@ == picture_drawn(old(dest)@, mmu@.ppu.video_buffer, line_num * 160),
        decreases 144 - line_num,
    {
        let mut x: usize = 0;
        while x < 160
            invariant
                x <= 160,
                line_num < 144,
                dest@.len() == old(dest)@.len(),
                dest@.len() >= GAMEBOY_WIDTH * GAMEBOY_HEIGHT,
                mmu@.wf(),
                dest@ == picture_drawn(old(dest)@, mmu@.ppu.video_buffer, line_num * 160 + x),
            decreases 160 - x,
        {
            let color = color_of_shade(mmu.pixel(x, line_num));
            let rect = Rect::new(x * SCALE, line_num * SCALE, SCALE, SCALE, color);
            proof {
                let n = line_num * 160 + x;
                assert(n % 160 == x && n / 160 == line_num);
            }
            fill_rect(dest, &rect, true);
            x += 1;
        }
        line_num += 1;
    }
}

} // verus!
