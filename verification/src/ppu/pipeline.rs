//! The tile fetcher and the pixel queue: how one tick of pixel transfer
//! changes the pipeline.
use vstd::prelude::*;
use crate::ppu::{
    PPU, PpuState, selected_items, selected_len, selected_get, selected_insert, selected_new,
    selected_model, sprites_model, MAX_FETCHED, MAX_SELECTED};
use crate::ppu::fifo::{FetchState, pushed};
use crate::ppu::sprite::{SelectedSprite, SelectedState, Sprite, SpriteState};

verus! {

/// The sum of two bytes, wrapping at 8 bits.
pub open spec fn add8(a: u8, b: u8) -> u8 {
    if a + b > 0xFF {
        (a + b - 0x100) as u8
    } else {
        (a + b) as u8
    }
}

/// The difference of two bytes, wrapping at 8 bits.
pub open spec fn sub8(a: u8, b: u8) -> u8 {
    if a < b {
        (a - b + 0x100) as u8
    } else {
        (a - b) as u8
    }
}

/// Twice a byte, wrapping at 8 bits.
pub open spec fn double8(a: u8) -> u8 {
    ((a as nat * 2) % 0x100) as u8
}

/// The colour that two rows of tile bits give at bit `bit`: the high row
/// counts two, the low row one.
pub open spec fn tile_color(low: u8, high: u8, bit: u8) -> u8
    recommends
        bit <= 7,
{
    ((if high & (1u8 << bit) != 0 {
        2int
    } else {
        0int
    }) + (if low & (1u8 << bit) != 0 {
        1int
    } else {
        0int
    })) as u8
}

/// The column of the queue at which a sprite begins, given the fine scroll.
pub open spec fn sprite_left(sprite: SpriteState, scroll_x: u8) -> int {
    sprite.x - 8 + scroll_x % 8
}

/// A sprite with a nonzero x covers scanline `ly` when `ly + 16` lies in the
/// `size` lines from its y on.
pub open spec fn sprite_on_line(sprite: SpriteState, ly: u8, size: u8) -> bool {
    sprite.x != 0 && sprite.y <= ly + 16 && ly + 16 < sprite.y + size
}

/// The first position at or after `j` whose sprite lies right of `x`, or the
/// length of the list if there is none.
pub open spec fn position_from(list: Seq<SelectedState>, x: u8, j: int) -> int
    decreases list.len() - j,
{
    if j < 0 || j >= list.len() || list[j].sprite.x > x {
        j
    } else {
        position_from(list, x, j + 1)
    }
}

/// The list with `item` put in behind every sprite that does not lie right
/// of it.
pub open spec fn insert_by_x(list: Seq<SelectedState>, item: SelectedState) -> Seq<SelectedState> {
    list.insert(position_from(list, item.sprite.x, 0), item)
}

/// The sprites picked for scanline `ly` among the entries of `oam` from
/// position `k` on, added to `list`: entries are taken in the order of the
/// table until ten are picked, and each goes behind the picked sprites that
/// do not lie right of it.
pub open spec fn select_from(
    oam: Seq<SpriteState>,
    ly: u8,
    size: u8,
    k: int,
    list: Seq<SelectedState>,
) -> Seq<SelectedState>
    decreases oam.len() - k,
{
    if k < 0 || k >= oam.len() || list.len() >= MAX_SELECTED {
        list
    } else if sprite_on_line(oam[k], ly, size) {
        select_from(
            oam,
            ly,
            size,
            k + 1,
            insert_by_x(list, SelectedState { sprite: oam[k], index: k as u8 }),
        )
    } else {
        select_from(oam, ly, size, k + 1, list)
    }
}

/// A list of picked sprites is in order when each sprite lies left of the
/// ones behind it, or at the same x and earlier in the table.
pub open spec fn in_order(list: Seq<SelectedState>) -> bool {
    forall|i: int, j: int|
        0 <= i < j < list.len() ==> list[i].sprite.x < list[j].sprite.x || (list[i].sprite.x
            == list[j].sprite.x && list[i].index < list[j].index)
}

/// Every sprite of the list comes from before position `k` of the table.
pub open spec fn picked_before(list: Seq<SelectedState>, k: int) -> bool {
    forall|i: int| 0 <= i < list.len() ==> list[i].index < k
}

/// Up to the position that `position_from` gives no sprite lies right of
/// `x`; at that position, if it is in the list, one does.
proof fn lemma_position(list: Seq<SelectedState>, x: u8, j: int)
    requires
        0 <= j <= list.len(),
    ensures
        j <= position_from(list, x, j) <= list.len(),
        forall|i: int| j <= i < position_from(list, x, j) ==> list[i].sprite.x <= x,
        position_from(list, x, j) < list.len() ==> list[position_from(list, x, j)].sprite.x > x,
    decreases list.len() - j,
{
    if j < list.len() && list[j].sprite.x <= x {
        lemma_position(list, x, j + 1);
    }
}

/// Putting a sprite from position `k` of the table into a list that is in
/// order and holds only sprites from before `k` keeps the list in order.
proof fn lemma_insert_in_order(list: Seq<SelectedState>, item: SelectedState, k: int)
    requires
        in_order(list),
        picked_before(list, k),
        item.index == k,
    ensures
        in_order(insert_by_x(list, item)),
        picked_before(insert_by_x(list, item), k + 1),
        insert_by_x(list, item).len() == list.len() + 1,
{
    let p = position_from(list, item.sprite.x, 0);
    lemma_position(list, item.sprite.x, 0);
    let out = insert_by_x(list, item);
    assert forall|i: int, j: int| 0 <= i < j < out.len() implies out[i].sprite.x
        < out[j].sprite.x || (out[i].sprite.x == out[j].sprite.x && out[i].index
        < out[j].index) by {
        if j < p {
            assert(out[i] == list[i] && out[j] == list[j]);
        } else if j == p {
            assert(out[i] == list[i]);
        } else if i == p {
            assert(out[j] == list[j - 1]);
            if p < j - 1 {
                assert(list[p].sprite.x < list[j - 1].sprite.x || (list[p].sprite.x == list[j
                    - 1].sprite.x && list[p].index < list[j - 1].index));
            }
        } else if i < p {
            assert(out[i] == list[i] && out[j] == list[j - 1]);
        } else {
            assert(out[i] == list[i - 1] && out[j] == list[j - 1]);
        }
    }
    assert forall|i: int| 0 <= i < out.len() implies out[i].index < k + 1 by {
        if i < p {
            assert(out[i] == list[i]);
        } else if i > p {
            assert(out[i] == list[i - 1]);
        }
    }
}

/// The sprites picked for a scanline are at most ten, each covers the
/// scanline, and they are ordered by x, sprites with the same x in the order
/// of the table.
pub proof fn lemma_selection(
    oam: Seq<SpriteState>,
    ly: u8,
    size: u8,
    k: int,
    list: Seq<SelectedState>,
)
    requires
        0 <= k,
        oam.len() <= 256,
        in_order(list),
        picked_before(list, k),
        list.len() <= MAX_SELECTED,
        forall|i: int|
            0 <= i < list.len() ==> sprite_on_line(list[i].sprite, ly, size) && list[i].sprite
                == oam[list[i].index as int],
    ensures
        in_order(select_from(oam, ly, size, k, list)),
        select_from(oam, ly, size, k, list).len() <= MAX_SELECTED,
        forall|i: int|
            0 <= i < select_from(oam, ly, size, k, list).len() ==> sprite_on_line(
                #[trigger] select_from(oam, ly, size, k, list)[i].sprite,
                ly,
                size,
            ) && select_from(oam, ly, size, k, list)[i].sprite == oam[select_from(
                oam,
                ly,
                size,
                k,
                list,
            )[i].index as int],
    decreases oam.len() - k,
{
    if k < oam.len() && list.len() < MAX_SELECTED {
        if sprite_on_line(oam[k], ly, size) {
            let item = SelectedState { sprite: oam[k], index: k as u8 };
            lemma_insert_in_order(list, item, k);
            let next = insert_by_x(list, item);
            let p = position_from(list, item.sprite.x, 0);
            lemma_position(list, item.sprite.x, 0);
            assert forall|i: int| 0 <= i < next.len() implies sprite_on_line(
                next[i].sprite,
                ly,
                size,
            ) && next[i].sprite == oam[next[i].index as int] by {
                if i < p {
                    assert(next[i] == list[i]);
                } else if i > p {
                    assert(next[i] == list[i - 1]);
                }
            }
            lemma_selection(oam, ly, size, k + 1, next);
        } else {
            assert(picked_before(list, k + 1));
            lemma_selection(oam, ly, size, k + 1, list);
        }
    }
}

impl PpuState {
    /// Nothing but the registers of the fetcher, its kept sprites and the
    /// background queue differs from `before`.
    pub open spec fn same_outside_fetcher(self, before: PpuState) -> bool {
        self == (PpuState {
            fetched_sprites: self.fetched_sprites,
            fetched_sprite_count: self.fetched_sprite_count,
            bgw_fetch_data: self.bgw_fetch_data,
            fetch_sprite_data: self.fetch_sprite_data,
            fetch_state: self.fetch_state,
            fetch_x: self.fetch_x,
            bg_fifo: self.bg_fifo,
            fifo_x: self.fifo_x,
            ..before
        })
    }

    /// The shade table that a sprite uses.
    pub open spec fn sprite_shades(self, sprite: SpriteState) -> Seq<u8> {
        if sprite.dmg_palette() {
            self.lcd.sp2_colors
        } else {
            self.lcd.sp1_colors
        }
    }

    /// Whether a picked sprite overlaps the tile column that starts at
    /// `fetch_x`: its left edge or the column behind its right edge lies in it.
    pub open spec fn sprite_in_column(self, sprite: SpriteState) -> bool {
        let left = sprite_left(sprite, self.lcd.scroll_x);
        (left >= self.fetch_x && left < self.fetch_x + 8) || (left + 8 >= self.fetch_x && left + 8
            < self.fetch_x + 8)
    }

    /// The pipeline after the picked sprites from position `k` on have been
    /// checked against the current tile column; at most three are kept.
    pub open spec fn load_sprite_tile_from(self, k: int) -> PpuState
        decreases self.selected.len() - k,
    {
        if k < 0 || k >= self.selected.len() || self.fetched_sprite_count >= MAX_FETCHED {
            self
        } else if self.sprite_in_column(self.selected[k].sprite) {
            PpuState {
                fetched_sprites: self.fetched_sprites.update(
                    self.fetched_sprite_count as int,
                    self.selected[k].sprite,
                ),
                fetched_sprite_count: (self.fetched_sprite_count + 1) as u8,
                ..self
            }.load_sprite_tile_from(k + 1)
        } else {
            self.load_sprite_tile_from(k + 1)
        }
    }

    /// The address of the row of bits of kept sprite `i` that the current
    /// scanline shows, plus `offset` for the second row. The line inside the
    /// sprite is computed in 8 bits.
    pub open spec fn sprite_row_address(self, i: int, offset: u8) -> int {
        let sprite = self.fetched_sprites[i];
        let size = self.lcd.sprite_size();
        let line = double8(sub8(add8(self.lcd.ly, 16), sprite.y));
        let row = if sprite.y_flip() {
            sub8(sub8(double8(size), 2), line)
        } else {
            line
        };
        let tile = if size == 16 {
            sprite.tile & !0x01u8
        } else {
            sprite.tile
        };
        0x8000 + tile * 16 + row + offset
    }

    /// The pipeline after one row of bits has been read for the kept sprites
    /// from position `i` on.
    pub open spec fn load_sprite_data_from(self, i: int, offset: u8) -> PpuState
        decreases self.fetched_sprite_count - i,
    {
        if i < 0 || i >= self.fetched_sprite_count {
            self
        } else {
            PpuState {
                fetch_sprite_data: self.fetch_sprite_data.update(
                    i * 2 + offset,
                    self.vram[self.sprite_row_address(i, offset) - 0x8000],
                ),
                ..self
            }.load_sprite_data_from(i + 1, offset)
        }
    }

    /// Whether the window covers the tile column that is fetched on the
    /// current scanline.
    pub open spec fn window_covers(self) -> bool {
        &&& self.lcd.window_visible()
        &&& self.fetch_x + 7 >= self.lcd.window_x
        &&& self.fetch_x + 7 < self.lcd.window_x + 144 + 14
        &&& self.lcd.ly >= self.lcd.window_y
        &&& self.lcd.ly < self.lcd.window_y + 160
    }

    /// The tile number as the tile data area in use reads it: the area that
    /// starts at 0x8800 counts tiles from its middle.
    pub open spec fn adjust_tile(self, number: u8) -> u8 {
        if self.lcd.bg_window_tile_data() == 0x8800 {
            add8(number, 0x80)
        } else {
            number
        }
    }

    /// The pipeline after the window's tile number has replaced the
    /// background's where the window covers the column.
    pub open spec fn load_window_tile(self) -> PpuState {
        if self.window_covers() {
            let address = self.lcd.window_tilemap() + (self.fetch_x + 7 - self.lcd.window_x) / 8
                + (self.window_line / 8) * 32;
            PpuState {
                bgw_fetch_data: self.bgw_fetch_data.update(
                    0,
                    self.adjust_tile(self.vram[address - 0x8000]),
                ),
                ..self
            }
        } else {
            self
        }
    }

    /// The fetcher step that reads a tile number: of the background, then of
    /// the window where it covers the column, and picks the sprites of the
    /// column. The fetcher moves on by one tile.
    pub open spec fn fetch_tile(self) -> PpuState {
        let cleared = PpuState { fetched_sprite_count: 0, ..self };
        let background = if self.lcd.bg_window_priority() {
            let address = self.lcd.bg_tilemap() + self.map_x / 8 + (self.map_y / 8) * 32;
            PpuState {
                bgw_fetch_data: self.bgw_fetch_data.update(
                    0,
                    self.adjust_tile(self.vram[address - 0x8000]),
                ),
                ..cleared
            }.load_window_tile()
        } else {
            cleared
        };
        let sprites = if self.lcd.sprite_enable() && self.selected.len() > 0 {
            background.load_sprite_tile_from(0)
        } else {
            background
        };
        PpuState { fetch_state: FetchState::DataLow, fetch_x: add8(self.fetch_x, 8), ..sprites }
    }

    /// The fetcher step that reads row `row` (0 or 1) of the tile's bits, and
    /// the same row of each kept sprite.
    pub open spec fn fetch_data(self, row: u8) -> PpuState
        recommends
            row <= 1,
    {
        let address = self.lcd.bg_window_tile_data() + self.bgw_fetch_data[0] * 16 + self.tile_y
            + row;
        let read = PpuState {
            bgw_fetch_data: self.bgw_fetch_data.update(row + 1, self.vram[address - 0x8000]),
            ..self
        }.load_sprite_data_from(0, row);
        PpuState {
            fetch_state: if row == 0 {
                FetchState::DataHigh
            } else {
                FetchState::Sleep
            },
            ..read
        }
    }

    /// What the kept sprites from position `i` on show at the column that
    /// is pushed next, over a background of colour `bg_color` and shade
    /// `shade`: the shade of the first sprite that covers the column with a
    /// colour other than 0 and that is not hidden by the background, and
    /// `false`; or `shade` and `true` if there is none. A sprite is hidden
    /// when its priority bit is set and the background's colour is not 0.
    pub open spec fn sprite_shade_from(self, i: int, bg_color: u8, shade: u8) -> (bool, u8)
        decreases self.fetched_sprite_count - i,
    {
        if i < 0 || i >= self.fetched_sprite_count {
            (true, shade)
        } else {
            let sprite = self.fetched_sprites[i];
            let offset = self.fifo_x - sprite_left(sprite, self.lcd.scroll_x);
            if offset < 0 || offset > 7 {
                self.sprite_shade_from(i + 1, bg_color, shade)
            } else {
                let bit = if sprite.x_flip() {
                    offset
                } else {
                    7 - offset
                };
                let color = tile_color(
                    self.fetch_sprite_data[i * 2],
                    self.fetch_sprite_data[i * 2 + 1],
                    bit as u8,
                );
                if color != 0 && (!sprite.priority() || bg_color == 0) {
                    (false, self.sprite_shades(sprite)[color as int])
                } else {
                    self.sprite_shade_from(i + 1, bg_color, shade)
                }
            }
        }
    }

    /// The shade of pixel `i` (0 to 7, left to right) of the fetched tile:
    /// the background's, unless a sprite shows.
    pub open spec fn pixel_shade(self, i: int) -> u8
        recommends
            0 <= i <= 7,
    {
        let raw = tile_color(self.bgw_fetch_data[1], self.bgw_fetch_data[2], (7 - i) as u8);
        let color = if self.lcd.bg_window_priority() {
            raw
        } else {
            0
        };
        let shade = self.lcd.bg_colors[color as int];
        if self.lcd.sprite_enable() {
            self.sprite_shade_from(0, color, shade).1
        } else {
            shade
        }
    }

    /// The pipeline after the pixels of the fetched tile from pixel `i` on
    /// have been pushed into the queue.
    pub open spec fn push_tile_from(self, i: int) -> PpuState
        decreases 8 - i,
    {
        if i < 0 || i >= 8 {
            self
        } else if self.fetch_x - (8 - self.lcd.scroll_x % 8) >= 0 {
            PpuState {
                bg_fifo: pushed(self.bg_fifo, (self.pixel_shade(i), true, false)),
                fifo_x: add8(self.fifo_x, 1),
                ..self
            }.push_tile_from(i + 1)
        } else {
            self.push_tile_from(i + 1)
        }
    }

    /// The fetcher step that pushes the fetched tile: it waits while the
    /// queue holds more than eight pixels.
    pub open spec fn fetch_push(self) -> PpuState {
        if self.bg_fifo.len() <= 8 {
            PpuState { fetch_state: FetchState::TileNum, ..self.push_tile_from(0) }
        } else {
            self
        }
    }

    /// One step of the fetcher.
    pub open spec fn pipeline_fetch(self) -> PpuState {
        match self.fetch_state {
            FetchState::TileNum => self.fetch_tile(),
            FetchState::DataLow => self.fetch_data(0),
            FetchState::DataHigh => self.fetch_data(1),
            FetchState::Sleep => PpuState { fetch_state: FetchState::Push, ..self },
            FetchState::Push => self.fetch_push(),
        }
    }

    /// The pipeline after the oldest pixel has left a queue of more than
    /// eight: it is written to the picture unless it belongs to the columns
    /// that the fine scroll hides.
    pub open spec fn pipeline_push_pixel(self) -> PpuState {
        if self.bg_fifo.len() > 8 {
            let shown = self.line_x >= self.lcd.scroll_x % 8;
            PpuState {
                bg_fifo: self.bg_fifo.drop_first(),
                video_buffer: if shown {
                    self.video_buffer.update(
                        self.push_x + self.lcd.ly * crate::XRES,
                        self.bg_fifo[0].0,
                    )
                } else {
                    self.video_buffer
                },
                push_x: if shown {
                    add8(self.push_x, 1)
                } else {
                    self.push_x
                },
                line_x: add8(self.line_x, 1),
                ..self
            }
        } else {
            self
        }
    }

    /// One tick of pixel transfer: the fetcher steps on every second tick,
    /// and a pixel leaves the queue whenever it holds more than eight.
    pub open spec fn pipeline_process(self) -> PpuState {
        let placed = PpuState {
            map_y: add8(self.lcd.ly, self.lcd.scroll_y),
            map_x: add8(self.fetch_x, self.lcd.scroll_x),
            tile_y: ((add8(self.lcd.ly, self.lcd.scroll_y) % 8) * 2) as u8,
            ..self
        };
        let fetched = if self.line_ticks % 2 == 0 {
            placed.pipeline_fetch()
        } else {
            placed
        };
        fetched.pipeline_push_pixel()
    }

    /// The pipeline with an empty background queue.
    pub open spec fn pipeline_reset(self) -> PpuState {
        PpuState { bg_fifo: Seq::empty(), ..self }
    }

    /// The pipeline after the sprites of the current scanline have been picked.
    pub open spec fn load_sprites(self) -> PpuState {
        let list = select_from(self.oam, self.lcd.ly, self.lcd.sprite_size(), 0, self.selected);
        PpuState { selected: list, sprite_count: list.len() as u8, ..self }
    }
}

/// Reads the colour at bit `bit` out of two rows of tile bits.
pub(crate) fn color_of(low: u8, high: u8, bit: u8) -> (color: u8)
    requires
        bit <= 7,
    ensures
        color == tile_color(low, high, bit),
        color <= 3,
{
    let hi: u8 = if high & (1u8 << bit) != 0 { 2 } else { 0 };
    let lo: u8 = if low & (1u8 << bit) != 0 { 1 } else { 0 };
    hi + lo
}

/// Adding a picked sprite to a list adds its model to the list's model.
proof fn lemma_selected_insert(items: Seq<SelectedSprite>, at: int, item: SelectedSprite)
    requires
        0 <= at <= items.len(),
    ensures
        selected_model(items.insert(at, item)) == selected_model(items).insert(at, item@),
{
    assert(selected_model(items.insert(at, item)) =~= selected_model(items).insert(at, item@));
}

/// Replacing a sprite in a table replaces its model in the table's model.
proof fn lemma_sprites_update(sprites: Seq<Sprite>, at: int, sprite: Sprite)
    requires
        0 <= at < sprites.len(),
    ensures
        sprites_model(sprites.update(at, sprite)) == sprites_model(sprites).update(at, sprite@),
{
    assert(sprites_model(sprites.update(at, sprite)) =~= sprites_model(sprites).update(
        at,
        sprite@,
    ));
}

impl PPU {
    /// Empties the list of picked sprites.
    pub fn selected_oam_reset(&mut self)
        ensures
            final(self)@ == (PpuState { selected: Seq::empty(), ..old(self)@ }),
    {
        self.selected_oam = selected_new();
        proof {
            assert(self@.selected =~= Seq::<SelectedState>::empty());
        }
    }

    /// The sprites picked for the current scanline, in their order.
    pub fn selected_sprites(&self) -> (r: Vec<SelectedSprite>)
        ensures
            selected_model(r@) == self@.selected,
    {
        let count = selected_len(&self.selected_oam);
        let mut list: Vec<SelectedSprite> = Vec::new();
        let mut i: usize = 0;
        while i < count
            invariant
                i <= count,
                count == selected_items(self.selected_oam).len(),
                list@ == selected_items(self.selected_oam).take(i as int),
            decreases count - i,
        {
            list.push(selected_get(&self.selected_oam, i));
            proof {
                assert(list@ =~= selected_items(self.selected_oam).take(i + 1));
            }
            i += 1;
        }
        proof {
            assert(selected_items(self.selected_oam).take(count as int) =~= selected_items(
                self.selected_oam,
            ));
        }
        list
    }

    /// Whether the window is switched on and its corner lies on the screen.
    pub fn window_visible(&mut self) -> (r: bool)
        ensures
            r == old(self)@.lcd.window_visible(),
            final(self)@ == old(self)@,
    {
        self.lcd.lcd_control.window_enable() && self.lcd.window_x <= 166 && self.lcd.window_y
            < 144
    }

    /// Empties the background queue.
    pub fn pipeline_reset(&mut self)
        ensures
            final(self)@ == old(self)@.pipeline_reset(),
    {
        while self.pixel_fifo.bgfifo.length() > 0
            invariant
                self@ == (PpuState { bg_fifo: self@.bg_fifo, ..old(self)@ }),
            decreases self@.bg_fifo.len(),
        {
            let _ = self.pixel_fifo.bgfifo.pop();
        }
        proof {
            assert(self@.bg_fifo =~= Seq::<(u8, bool, bool)>::empty());
        }
    }

    /// Picks the sprites of the current scanline: up to ten, ordered by x,
    /// entries with equal x in the order of the table.
    pub fn load_sprites(&mut self)
        requires
            old(self)@.sized(),
        ensures
            final(self)@ == old(self)@.load_sprites(),
            final(self)@.sized(),
            old(self)@.selected.len() == 0 ==> in_order(final(self)@.selected) && forall|i: int|
                0 <= i < final(self)@.selected.len() ==> sprite_on_line(
                    #[trigger] final(self)@.selected[i].sprite,
                    old(self)@.lcd.ly,
                    old(self)@.lcd.sprite_size(),
                ) && final(self)@.selected[i].sprite == old(self)@.oam[final(self)@.selected[i].index as int],
    {
        proof {
            if self@.selected.len() == 0 {
                lemma_selection(self@.oam, self@.lcd.ly, self@.lcd.sprite_size(), 0, self@.selected);
            }
        }
        let cur_y = self.lcd.ly;
        let size = self.lcd.lcd_control.sprite_size();
        let mut i: usize = 0;
        while i < 40 && selected_len(&self.selected_oam) < 10
            invariant
                i <= 40,
                self@ == (PpuState { selected: self@.selected, ..old(self)@ }),
                self@.selected.len() <= MAX_SELECTED,
                cur_y == self@.lcd.ly,
                size == self@.lcd.sprite_size(),
                select_from(self@.oam, cur_y, size, i as int, self@.selected) == select_from(
                    old(self)@.oam,
                    cur_y,
                    size,
                    0,
                    old(self)@.selected,
                ),
            decreases 40 - i,
        {
            let sprite = self.oam[i];
            if sprite.x() != 0 && sprite.y() as u16 <= cur_y as u16 + 16 && cur_y as u16 + 16
                < sprite.y() as u16 + size as u16 {
                let count = selected_len(&self.selected_oam);
                let mut c: usize = 0;
                while c < count && selected_get(&self.selected_oam, c).sprite().x() <= sprite.x()
                    invariant
                        c <= count,
                        count == self@.selected.len(),
                        count == selected_items(self.selected_oam).len(),
                        position_from(self@.selected, sprite@.x, c as int) == position_from(
                            self@.selected,
                            sprite@.x,
                            0,
                        ),
                    decreases count - c,
                {
                    c += 1;
                }
                let item = SelectedSprite::new(sprite, i as u8);
                proof {
                    lemma_selected_insert(selected_items(self.selected_oam), c as int, item);
                }
                selected_insert(&mut self.selected_oam, c, item);
            }
            i += 1;
        }
        self.sprite_count = selected_len(&self.selected_oam) as u8;
    }

    /// Replaces the fetched background tile number by the window's where the
    /// window covers the tile column.
    pub fn pipeline_load_window_tile(&mut self)
        requires
            old(self)@.sized(),
            old(self)@.window_line <= 153,
        ensures
            final(self)@ == old(self)@.load_window_tile(),
            final(self)@.same_outside_fetcher(old(self)@),
    {
        if self.window_visible() {
            let win_x = self.lcd.window_x as u16;
            let win_y = self.lcd.window_y as u16;
            let column = self.pixel_fifo.fetch_x as u16 + 7;
            let line = self.lcd.ly as u16;
            if column >= win_x && column < win_x + 144 + 14 && line >= win_y && line < win_y + 160 {
                let win_tile_y = (self.window_line / 8) as u16;
                let address = self.lcd.lcd_control.window_tilemap() + (column - win_x) / 8
                    + win_tile_y * 32;
                let mut number = self.read_vram(address);
                if self.lcd.lcd_control.bg_window_tile_data() == 0x8800 {
                    number = number.wrapping_add(0x80);
                }
                self.pixel_fifo.bgw_fetch_data[0] = number;
            }
        }
    }

    /// Keeps, of the picked sprites, the first three that overlap the tile
    /// column being fetched.
    pub fn pipeline_load_sprite_tile(&mut self)
        requires
            old(self)@.sized(),
        ensures
            final(self)@ == old(self)@.load_sprite_tile_from(0),
            final(self)@.sized(),
            final(self)@.same_outside_fetcher(old(self)@),
            final(self)@ == (PpuState {
                fetched_sprites: final(self)@.fetched_sprites,
                fetched_sprite_count: final(self)@.fetched_sprite_count,
                ..old(self)@
            }),
    {
        let count = selected_len(&self.selected_oam);
        let fine = (self.lcd.scroll_x % 8) as i16;
        let column = self.pixel_fifo.fetch_x as i16;
        let mut k: usize = 0;
        while k < count && self.fetched_sprite_count < 3
            invariant
                k <= count,
                count == self@.selected.len(),
                count == selected_items(self.selected_oam).len(),
                self@.sized(),
                fine == self@.lcd.scroll_x % 8,
                column == self@.fetch_x,
                self@.load_sprite_tile_from(k as int) == old(self)@.load_sprite_tile_from(0),
                self@ == (PpuState {
                    fetched_sprites: self@.fetched_sprites,
                    fetched_sprite_count: self@.fetched_sprite_count,
                    ..old(self)@
                }),
            decreases count - k,
        {
            let sprite = selected_get(&self.selected_oam, k).sprite();
            let left = sprite.x() as i16 - 8 + fine;
            let inbound = left >= column && left < column + 8;
            let inbound2 = left + 8 >= column && left + 8 < column + 8;
            if inbound || inbound2 {
                proof {
                    lemma_sprites_update(
                        self.fetched_sprites@,
                        self.fetched_sprite_count as int,
                        sprite,
                    );
                }
                self.fetched_sprites[self.fetched_sprite_count as usize] = sprite;
                self.fetched_sprite_count += 1;
            }
            k += 1;
        }
    }

    /// Reads row `offset` (0 or 1) of the bits of each kept sprite.
    pub fn pipeline_load_sprite_data(&mut self, offset: u8)
        requires
            offset <= 1,
            old(self)@.sized(),
        ensures
            final(self)@ == old(self)@.load_sprite_data_from(0, offset),
            final(self)@.sized(),
            final(self)@.same_outside_fetcher(old(self)@),
            final(self)@ == (PpuState {
                fetch_sprite_data: final(self)@.fetch_sprite_data,
                ..old(self)@
            }),
    {
        let cur_y = self.lcd.ly;
        let size = self.lcd.lcd_control.sprite_size();
        let mut i: u8 = 0;
        while i < self.fetched_sprite_count
            invariant
                offset <= 1,
                self@.sized(),
                cur_y == self@.lcd.ly,
                size == self@.lcd.sprite_size(),
                self@.load_sprite_data_from(i as int, offset) == old(self)@.load_sprite_data_from(
                    0,
                    offset,
                ),
                self@ == (PpuState { fetch_sprite_data: self@.fetch_sprite_data, ..old(self)@ }),
            decreases self.fetched_sprite_count - i,
        {
            let sprite = self.fetched_sprites[i as usize];
            let line = cur_y.wrapping_add(16).wrapping_sub(sprite.y()).wrapping_mul(2);
            let row: u8 = if sprite.y_flip() {
                size.wrapping_mul(2).wrapping_sub(2).wrapping_sub(line)
            } else {
                line
            };
            let tile = if size == 16 { sprite.tile() & !0x01u8 } else { sprite.tile() };
            let data = self.read_vram(0x8000 + (tile as u16 * 16) + row as u16 + offset as u16);
            self.pixel_fifo.fetch_sprite_data[(i * 2 + offset) as usize] = data;
            i += 1;
        }
    }

    /// What the kept sprites show at the column that is pushed next, over a
    /// background pixel of colour `bg_color` that has shade `*color`: the
    /// shade to show, and whether it is still the background's.
    pub fn fetch_sprite_pixels(&mut self, bg_color: u8, color: &mut u8) -> (r: (bool, u8))
        requires
            old(self)@.sized(),
        ensures
            r == old(self)@.sprite_shade_from(0, bg_color, *old(color)),
            final(self)@ == old(self)@,
            *final(color) == *old(color),
    {
        let fine = (self.lcd.scroll_x % 8) as i16;
        let mut i: usize = 0;
        while i < self.fetched_sprite_count as usize
            invariant
                self@ == old(self)@,
                *color == *old(color),
                self@.sized(),
                fine == self@.lcd.scroll_x % 8,
                self@.sprite_shade_from(i as int, bg_color, *color) == self@.sprite_shade_from(
                    0,
                    bg_color,
                    *color,
                ),
            decreases self.fetched_sprite_count - i,
        {
            let sprite = self.fetched_sprites[i];
            let left = sprite.x() as i16 - 8 + fine;
            let offset: i16 = self.pixel_fifo.fifo_x as i16 - left;
            if offset >= 0 && offset <= 7 {
                let bit: u8 = if sprite.x_flip() { offset as u8 } else { (7 - offset) as u8 };
                let sp_color = color_of(
                    self.pixel_fifo.fetch_sprite_data[i * 2],
                    self.pixel_fifo.fetch_sprite_data[i * 2 + 1],
                    bit,
                );
                if sp_color != 0 && (!sprite.priority() || bg_color == 0) {
                    let shade = if sprite.dmg_palette() {
                        self.lcd.sp2_colors[sp_color as usize]
                    } else {
                        self.lcd.sp1_colors[sp_color as usize]
                    };
                    return (false, shade);
                }
            }
            i += 1;
        }
        (true, *color)
    }

    /// The fetcher step that reads a tile number.
    pub fn fetch_tile(&mut self)
        requires
            old(self)@.sized(),
            old(self)@.window_line <= 153,
        ensures
            final(self)@ == old(self)@.fetch_tile(),
            final(self)@.sized(),
            final(self)@.same_outside_fetcher(old(self)@),
    {
        self.fetched_sprite_count = 0;
        if self.lcd.lcd_control.bg_window_priority() {
            let address = self.lcd.lcd_control.bg_tilemap() + (self.pixel_fifo.map_x / 8) as u16
                + (self.pixel_fifo.map_y / 8) as u16 * 32;
            let mut number = self.read_vram(address);
            if self.lcd.lcd_control.bg_window_tile_data() == 0x8800 {
                number = number.wrapping_add(0x80);
            }
            self.pixel_fifo.bgw_fetch_data[0] = number;
            self.pipeline_load_window_tile();
        }
        if self.lcd.lcd_control.sprite_enable() && selected_len(&self.selected_oam) > 0 {
            self.pipeline_load_sprite_tile();
        }
        self.pixel_fifo.current_state = FetchState::DataLow;
        self.pixel_fifo.fetch_x = self.pixel_fifo.fetch_x.wrapping_add(8);
    }

    /// The fetcher step that reads row `row` (0 or 1) of the tile's bits.
    pub fn fetch_data(&mut self, row: u8)
        requires
            row <= 1,
            old(self)@.sized(),
        ensures
            final(self)@ == old(self)@.fetch_data(row),
            final(self)@.sized(),
            final(self)@.same_outside_fetcher(old(self)@),
    {
        let address = self.lcd.lcd_control.bg_window_tile_data()
            + self.pixel_fifo.bgw_fetch_data[0] as u16 * 16 + self.pixel_fifo.tile_y as u16
            + row as u16;
        self.pixel_fifo.bgw_fetch_data[row as usize + 1] = self.read_vram(address);
        self.pipeline_load_sprite_data(row);
        if row == 0 {
            self.pixel_fifo.current_state = FetchState::DataHigh;
        } else {
            self.pixel_fifo.current_state = FetchState::Sleep;
        }
    }

    /// The fetcher step that pushes the eight pixels of the fetched tile,
    /// once the queue holds no more than eight.
    pub fn fetch_push(&mut self)
        requires
            old(self)@.sized(),
        ensures
            final(self)@ == old(self)@.fetch_push(),
            final(self)@.sized(),
            final(self)@.same_outside_fetcher(old(self)@),
    {
        if self.pixel_fifo.bgfifo.length() <= 8 {
            let x = self.pixel_fifo.fetch_x as i16 - (8 - self.lcd.scroll_x % 8) as i16;
            let mut i: u8 = 0;
            while i < 8
                invariant
                    i <= 8,
                    self@.sized(),
                    self@.bg_fifo.len() <= 8 + i,
                    x == self@.fetch_x - (8 - self@.lcd.scroll_x % 8),
                    self@.push_tile_from(i as int) == old(self)@.push_tile_from(0),
                    self@.fetch_state == old(self)@.fetch_state,
                    self@.same_outside_fetcher(old(self)@),
                decreases 8 - i,
            {
                let bit = 7 - i;
                let raw = color_of(
                    self.pixel_fifo.bgw_fetch_data[1],
                    self.pixel_fifo.bgw_fetch_data[2],
                    bit,
                );
                let color: u8 = if self.lcd.lcd_control.bg_window_priority() { raw } else { 0 };
                let mut bg_color: u8 = self.lcd.bg_colors[color as usize];
                let sprite_enable = self.lcd.lcd_control.sprite_enable();
                if x >= 0 {
                    let display_color = if sprite_enable {
                        let (_priority, sp_color) = self.fetch_sprite_pixels(color, &mut bg_color);
                        sp_color
                    } else {
                        bg_color
                    };
                    self.pixel_fifo.bgfifo.push(display_color, true);
                    self.pixel_fifo.fifo_x = self.pixel_fifo.fifo_x.wrapping_add(1);
                }
                i += 1;
            }
            self.pixel_fifo.current_state = FetchState::TileNum;
        }
    }

    /// One step of the fetcher.
    pub fn pipeline_fetch(&mut self)
        requires
            old(self)@.sized(),
            old(self)@.window_line <= 153,
        ensures
            final(self)@ == old(self)@.pipeline_fetch(),
            final(self)@.sized(),
            final(self)@.same_outside_fetcher(old(self)@),
    {
        match self.pixel_fifo.current_state {
            FetchState::TileNum => self.fetch_tile(),
            FetchState::DataLow => self.fetch_data(0),
            FetchState::DataHigh => self.fetch_data(1),
            FetchState::Sleep => self.pixel_fifo.current_state = FetchState::Push,
            FetchState::Push => self.fetch_push(),
        };
    }

    /// Takes the oldest pixel out of a queue of more than eight and writes
    /// it to the picture unless the fine scroll hides it.
    pub fn pipeline_push_pixel(&mut self)
        requires
            old(self)@.sized(),
            old(self)@.push_x < crate::XRES,
            old(self)@.lcd.ly < crate::YRES,
        ensures
            final(self)@ == old(self)@.pipeline_push_pixel(),
            final(self)@.sized(),
            final(self)@.push_x <= crate::XRES,
    {
        if self.pixel_fifo.bgfifo.length() > 8 {
            let bg_pixel = self.pixel_fifo.bgfifo.pop();
            let color: u8 = bg_pixel.get_color();
            if self.pixel_fifo.line_x >= self.lcd.scroll_x % 8 {
                let buffer_index = self.pixel_fifo.push_x as usize + self.lcd.ly as usize * 160;
                self.video_buffer[buffer_index] = color;
                self.pixel_fifo.push_x = self.pixel_fifo.push_x.wrapping_add(1);
            }
            self.pixel_fifo.line_x = self.pixel_fifo.line_x.wrapping_add(1);
        }
    }

    /// One tick of pixel transfer.
    pub fn pipeline_process(&mut self)
        requires
            old(self)@.sized(),
            old(self)@.push_x < crate::XRES,
            old(self)@.lcd.ly < crate::YRES,
            old(self)@.window_line <= 153,
        ensures
            final(self)@ == old(self)@.pipeline_process(),
            final(self)@.sized(),
            final(self)@.push_x <= crate::XRES,
            final(self)@.lcd == old(self)@.lcd,
            final(self)@.window_line == old(self)@.window_line,
    {
        self.pixel_fifo.map_y = self.lcd.ly.wrapping_add(self.lcd.scroll_y);
        self.pixel_fifo.map_x = self.pixel_fifo.fetch_x.wrapping_add(self.lcd.scroll_x);
        self.pixel_fifo.tile_y = ((self.lcd.ly.wrapping_add(self.lcd.scroll_y)) % 8) * 2;
        if self.line_ticks % 2 == 0 {
            self.pipeline_fetch();
        }
        self.pipeline_push_pixel();
    }
}

} // verus!
