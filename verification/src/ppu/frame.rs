//! What a whole frame does to the picture when nothing is switched on: every
//! pixel gets the shade of background colour 0.
use vstd::prelude::*;
use crate::mmu::interrupts::InterruptsState;
use crate::ppu::{PpuState, PICTURE_SIZE};
use crate::ppu::fifo::{FetchState, pushed};
use crate::ppu::lcd::{LcdState, lemma_status_updates};
use crate::ppu::pipeline::add8;

verus! {

/// Number of ticks that pixel transfer starts after the start of a scanline.
pub const TRANSFER_START: u32 = 80;

/// Number of ticks of one frame.
pub const TICKS_PER_FRAME: u32 = 70224;

/// The first `n` pixels of the picture have shade `k`.
pub open spec fn filled(picture: Seq<u8>, k: u8, n: int) -> bool {
    forall|i: int| 0 <= i < n && i < picture.len() ==> picture[i] == k
}

/// The number of ticks that pixel transfer takes when background, window
/// and sprites are off, by the fine scroll.
pub open spec fn transfer_ticks(fine: int) -> int {
    if fine == 0 {
        217
    } else {
        219 + fine
    }
}

/// The fetcher step that is due when `r` ticks of a ten-tick round of the
/// fetcher have passed.
pub open spec fn step_due(r: int) -> FetchState {
    if r < 2 {
        FetchState::TileNum
    } else if r < 4 {
        FetchState::DataLow
    } else if r < 6 {
        FetchState::DataHigh
    } else if r < 8 {
        FetchState::Sleep
    } else {
        FetchState::Push
    }
}

/// The number of pixels that have left the queue when `d` ticks of pixel
/// transfer have passed: none in the first two rounds of the fetcher, then
/// eight in each round, one per tick.
pub open spec fn popped(d: int) -> int {
    let q = d / 10;
    let r = d % 10;
    if q < 2 {
        0
    } else if r + 1 < 8 {
        8 * (q - 2) + r + 1
    } else {
        8 * (q - 2) + 8
    }
}

impl PpuState {
    /// The pipeline and the interrupt requests after `n` ticks.
    pub open spec fn ticks(self, irq: InterruptsState, n: nat) -> (PpuState, InterruptsState)
        decreases n,
    {
        if n == 0 {
            (self, irq)
        } else {
            let (next, irq_after) = self.tick(irq);
            next.ticks(irq_after, (n - 1) as nat)
        }
    }

    /// Background, window and sprites are switched off.
    pub open spec fn all_off(self) -> bool {
        !self.lcd.bg_window_priority() && !self.lcd.sprite_enable()
    }

    /// The first tick of a frame is due: the sprite search of scanline 0
    /// starts, and the queue is empty.
    pub open spec fn at_frame_start(self) -> bool {
        &&& self.lcd.ly == 0
        &&& self.lcd.mode() == 2
        &&& self.line_ticks == 0
        &&& self.bg_fifo.len() == 0
    }

    /// The pipeline is where a frame without background, window and sprites
    /// is after `t` ticks of scanline `ly`, and the pixels of the scanlines
    /// before it, and of this one as far as they are written, have shade `k`.
    pub open spec fn in_blank_frame(self, k: u8, ly: int, t: int) -> bool {
        let fine = (self.lcd.scroll_x % 8) as int;
        &&& self.all_off()
        &&& self.lcd.bg_colors.len() == 4
        &&& self.lcd.bg_colors[0] == k
        &&& self.video_buffer.len() == PICTURE_SIZE
        &&& self.lcd.ly == ly
        &&& self.line_ticks == t
        &&& 0 <= ly < 154
        &&& 0 <= t < 456
        &&& if ly >= 144 {
            self.lcd.mode() == 1 && self.bg_fifo.len() == 0 && filled(
                self.video_buffer,
                k,
                PICTURE_SIZE as int,
            )
        } else if t < TRANSFER_START {
            self.lcd.mode() == 2 && self.bg_fifo.len() == 0 && filled(
                self.video_buffer,
                k,
                ly * 160,
            )
        } else if t < TRANSFER_START + transfer_ticks(fine) {
            self.in_transfer(k, ly, t - TRANSFER_START)
        } else {
            self.lcd.mode() == 0 && self.bg_fifo.len() == 0 && filled(
                self.video_buffer,
                k,
                (ly + 1) * 160,
            )
        }
    }

    /// The pipeline is where pixel transfer of scanline `ly` is after `d`
    /// ticks when background, window and sprites are off.
    pub open spec fn in_transfer(self, k: u8, ly: int, d: int) -> bool {
        let fine = (self.lcd.scroll_x % 8) as int;
        let q = d / 10;
        let r = d % 10;
        let shown = if popped(d) > fine {
            popped(d) - fine
        } else {
            0
        };
        &&& self.lcd.mode() == 3
        &&& self.fetch_state == step_due(r)
        &&& self.line_x == popped(d)
        &&& self.push_x == shown
        &&& shown < 160
        &&& self.fifo_x == 8 * q
        &&& self.fetch_x == 8 * (q + if r >= 2 {
            1int
        } else {
            0int
        })
        &&& self.bg_fifo.len() == 8 * q - popped(d)
        &&& forall|i: int| 0 <= i < self.bg_fifo.len() ==> (#[trigger] self.bg_fifo[i]).0 == k
        &&& filled(self.video_buffer, k, ly * 160 + shown)
    }
}

/// Running `n + m` ticks is running `n` ticks and then `m`.
pub proof fn lemma_ticks_add(s: PpuState, irq: InterruptsState, n: nat, m: nat)
    ensures
        s.ticks(irq, n + m) == s.ticks(irq, n).0.ticks(s.ticks(irq, n).1, m),
    decreases n,
{
    if n > 0 {
        let (next, irq_after) = s.tick(irq);
        lemma_ticks_add(next, irq_after, (n - 1) as nat, m);
        assert((n + m - 1) as nat == (n - 1) as nat + m);
    }
}

/// Reading rows of sprite bits changes nothing but the rows read.
proof fn lemma_sprite_data_frame(s: PpuState, i: int, offset: u8)
    ensures
        s.load_sprite_data_from(i, offset) == (PpuState {
            fetch_sprite_data: s.load_sprite_data_from(i, offset).fetch_sprite_data,
            ..s
        }),
    decreases s.fetched_sprite_count - i,
{
    if 0 <= i < s.fetched_sprite_count {
        let next = PpuState {
            fetch_sprite_data: s.fetch_sprite_data.update(
                i * 2 + offset,
                s.vram[s.sprite_row_address(i, offset) - 0x8000],
            ),
            ..s
        };
        lemma_sprite_data_frame(next, i + 1, offset);
    }
}

/// With background and sprites off, pushing the rest of a tile from pixel
/// `i` on into a queue with room for it adds that many pixels of the shade
/// of background colour 0 and changes nothing else but the count of pushed
/// pixels.
proof fn lemma_push_tile(s: PpuState, i: int)
    requires
        0 <= i <= 8,
        s.all_off(),
        s.lcd.bg_colors.len() == 4,
        s.fetch_x - (8 - s.lcd.scroll_x % 8) >= 0,
        s.bg_fifo.len() + (8 - i) <= 16,
        s.fifo_x + (8 - i) <= 255,
    ensures
        s.push_tile_from(i) == (PpuState {
            bg_fifo: s.push_tile_from(i).bg_fifo,
            fifo_x: (s.fifo_x + (8 - i)) as u8,
            ..s
        }),
        s.push_tile_from(i).bg_fifo.len() == s.bg_fifo.len() + (8 - i),
        forall|j: int|
            0 <= j < s.bg_fifo.len() ==> #[trigger] s.push_tile_from(i).bg_fifo[j] == s.bg_fifo[j],
        forall|j: int|
            s.bg_fifo.len() <= j < s.bg_fifo.len() + (8 - i) ==> (#[trigger] s.push_tile_from(
                i,
            ).bg_fifo[j]).0 == s.lcd.bg_colors[0],
    decreases 8 - i,
{
    if i < 8 {
        let next = PpuState {
            bg_fifo: pushed(s.bg_fifo, (s.pixel_shade(i), true, false)),
            fifo_x: add8(s.fifo_x, 1),
            ..s
        };
        assert(s.pixel_shade(i) == s.lcd.bg_colors[0]);
        lemma_push_tile(next, i + 1);
        assert(s.push_tile_from(i) == next.push_tile_from(i + 1));
    }
}

/// The position in the frame that follows position (`ly`, `t`).
pub open spec fn next_position(ly: int, t: int) -> (int, int) {
    if t + 1 < 456 {
        (ly, t + 1)
    } else if ly + 1 < 154 {
        (ly + 1, 0)
    } else {
        (0, 0)
    }
}

/// One tick of the vertical blank of a blank frame.
proof fn lemma_step_vblank(s: PpuState, irq: InterruptsState, k: u8, ly: int, t: int)
    requires
        s.in_blank_frame(k, ly, t),
        ly >= 144,
    ensures
        s.tick(irq).0.in_blank_frame(k, next_position(ly, t).0, next_position(ly, t).1),
        s.tick(irq).0.video_buffer == s.video_buffer,
{
    let counted = PpuState { line_ticks: (t + 1) as u32, ..s };
    assert(s.tick(irq) == counted.mode_vblank(irq));
    if t + 1 >= 456 {
        let (next, _) = counted.increment_ly(irq);
        lemma_status_updates(LcdState { ly: (ly + 1) as u8, ..s.lcd }, 2, true);
        lemma_status_updates(LcdState { ly: (ly + 1) as u8, ..s.lcd }, 2, false);
        lemma_status_updates(next.lcd, 2, true);
    }
}

/// One tick of the sprite search of a blank frame.
proof fn lemma_step_oam(s: PpuState, irq: InterruptsState, k: u8, ly: int, t: int)
    requires
        s.in_blank_frame(k, ly, t),
        ly < 144,
        t < TRANSFER_START,
    ensures
        s.tick(irq).0.in_blank_frame(k, ly, t + 1),
        s.tick(irq).0.video_buffer == s.video_buffer,
{
    let counted = PpuState { line_ticks: (t + 1) as u32, ..s };
    assert(s.tick(irq).0 == counted.mode_oam());
    lemma_status_updates(s.lcd, 3, true);
}

/// One tick of the horizontal blank of a blank frame.
proof fn lemma_step_hblank(s: PpuState, irq: InterruptsState, k: u8, ly: int, t: int)
    requires
        s.in_blank_frame(k, ly, t),
        ly < 144,
        t >= TRANSFER_START + transfer_ticks((s.lcd.scroll_x % 8) as int),
    ensures
        s.tick(irq).0.in_blank_frame(k, next_position(ly, t).0, next_position(ly, t).1),
        s.tick(irq).0.video_buffer == s.video_buffer,
{
    let counted = PpuState { line_ticks: (t + 1) as u32, ..s };
    assert(s.tick(irq) == counted.mode_hblank(irq));
    if t + 1 >= 456 {
        let (next, _) = counted.increment_ly(irq);
        lemma_status_updates(LcdState { ly: (ly + 1) as u8, ..s.lcd }, 1, true);
        lemma_status_updates(LcdState { ly: (ly + 1) as u8, ..s.lcd }, 1, false);
        lemma_status_updates(next.lcd, 1, true);
        lemma_status_updates(next.lcd, 2, true);
    }
}

/// What one step of the fetcher does in a blank frame, `d` ticks into pixel
/// transfer, when tick `d + 1` is one on which the fetcher steps.
proof fn lemma_fetch_step(s: PpuState, k: u8, ly: int, d: int)
    requires
        s.all_off(),
        s.lcd.bg_colors.len() == 4,
        s.lcd.bg_colors[0] == k,
        s.in_transfer(k, ly, d),
        0 <= d < transfer_ticks((s.lcd.scroll_x % 8) as int),
        d % 2 == 1,
    ensures
        ({
            let after = s.pipeline_fetch();
            let q = (d + 1) / 10;
            let r = (d + 1) % 10;
            &&& after == (PpuState {
                fetched_sprites: after.fetched_sprites,
                fetched_sprite_count: after.fetched_sprite_count,
                bgw_fetch_data: after.bgw_fetch_data,
                fetch_sprite_data: after.fetch_sprite_data,
                fetch_state: after.fetch_state,
                fetch_x: after.fetch_x,
                bg_fifo: after.bg_fifo,
                fifo_x: after.fifo_x,
                ..s
            })
            &&& after.fetch_state == step_due(r)
            &&& after.fifo_x == 8 * q
            &&& after.fetch_x == 8 * (q + if r >= 2 {
                1int
            } else {
                0int
            })
            &&& after.bg_fifo.len() == 8 * q - popped(d)
            &&& forall|i: int| 0 <= i < after.bg_fifo.len() ==> (#[trigger] after.bg_fifo[i]).0 == k
            &&& after.bg_fifo.len() > 0 && s.bg_fifo.len() > 0 ==> after.bg_fifo[0] == s.bg_fifo[0]
        }),
{
    let q = d / 10;
    let r = d % 10;
    assert(d == 10 * q + r);
    assert(q <= 22);
    if r == 1 {
        assert(s.fetch_state == FetchState::TileNum);
    } else if r == 3 {
        assert(s.fetch_state == FetchState::DataLow);
        let read = PpuState {
            bgw_fetch_data: s.bgw_fetch_data.update(
                1,
                s.vram[s.lcd.bg_window_tile_data() + s.bgw_fetch_data[0] * 16 + s.tile_y + 0
                    - 0x8000],
            ),
            ..s
        };
        lemma_sprite_data_frame(read, 0, 0);
    } else if r == 5 {
        assert(s.fetch_state == FetchState::DataHigh);
        let read = PpuState {
            bgw_fetch_data: s.bgw_fetch_data.update(
                2,
                s.vram[s.lcd.bg_window_tile_data() + s.bgw_fetch_data[0] * 16 + s.tile_y + 1
                    - 0x8000],
            ),
            ..s
        };
        lemma_sprite_data_frame(read, 0, 1);
    } else if r == 7 {
        assert(s.fetch_state == FetchState::Sleep);
    } else {
        assert(r == 9);
        assert(s.fetch_state == FetchState::Push);
        assert(s.bg_fifo.len() <= 8);
        lemma_push_tile(s, 0);
    }
}

/// The number of pixels written to the picture when `d` ticks of pixel
/// transfer have passed: the first `fine` pixels that leave the queue are
/// dropped.
pub open spec fn shown(d: int, fine: int) -> int {
    if popped(d) > fine {
        popped(d) - fine
    } else {
        0
    }
}

/// A pixel leaves the queue on tick `d + 1` exactly when the queue holds
/// more than eight after the fetcher's step.
proof fn lemma_popped_step(d: int)
    requires
        0 <= d,
    ensures
        0 <= 8 * ((d + 1) / 10) - popped(d) <= 16,
        popped(d + 1) == popped(d) + if 8 * ((d + 1) / 10) - popped(d) > 8 {
            1int
        } else {
            0int
        },
        0 <= popped(d),
        8 * (d / 10) - popped(d) >= 0,
{
    let q = d / 10;
    let r = d % 10;
    let q1 = (d + 1) / 10;
    let r1 = (d + 1) % 10;
    assert(d == 10 * q + r);
    assert(d + 1 == 10 * q1 + r1);
    if r == 9 {
        assert(q1 == q + 1 && r1 == 0);
    } else {
        assert(q1 == q && r1 == r + 1);
    }
}

/// The last pixel of the line is written on the last tick of pixel transfer
/// and not before.
proof fn lemma_shown_bound(d: int, fine: int)
    requires
        0 <= fine < 8,
        0 <= d <= transfer_ticks(fine),
    ensures
        d < transfer_ticks(fine) ==> shown(d, fine) < 160,
        d == transfer_ticks(fine) ==> shown(d, fine) == 160,
        popped(d) <= 167,
        d / 10 <= 22,
{
    let q = d / 10;
    let r = d % 10;
    assert(d == 10 * q + r);
}

/// The pipeline after the fetcher's step of tick `d + 1` of pixel transfer
/// and before a pixel leaves the queue.
pub open spec fn after_fetch(s: PpuState, k: u8, ly: int, d: int) -> bool {
    let fine = (s.lcd.scroll_x % 8) as int;
    let q = (d + 1) / 10;
    let r = (d + 1) % 10;
    &&& s.lcd.mode() == 3
    &&& s.lcd.ly == ly
    &&& s.video_buffer.len() == PICTURE_SIZE
    &&& s.fetch_state == step_due(r)
    &&& s.line_x == popped(d)
    &&& s.push_x == shown(d, fine)
    &&& s.fifo_x == 8 * q
    &&& s.fetch_x == 8 * (q + if r >= 2 {
        1int
    } else {
        0int
    })
    &&& s.bg_fifo.len() == 8 * q - popped(d)
    &&& forall|i: int| 0 <= i < s.bg_fifo.len() ==> (#[trigger] s.bg_fifo[i]).0 == k
    &&& filled(s.video_buffer, k, ly * 160 + shown(d, fine))
}

/// What the pixel that leaves the queue on tick `d + 1` of pixel transfer
/// does in a blank frame.
proof fn lemma_pop_step(s: PpuState, k: u8, ly: int, d: int)
    requires
        after_fetch(s, k, ly, d),
        0 <= ly < 144,
        0 <= d < transfer_ticks((s.lcd.scroll_x % 8) as int),
    ensures
        ({
            let after = s.pipeline_push_pixel();
            let fine = (s.lcd.scroll_x % 8) as int;
            &&& after == (PpuState {
                bg_fifo: after.bg_fifo,
                video_buffer: after.video_buffer,
                push_x: after.push_x,
                line_x: after.line_x,
                ..s
            })
            &&& after.video_buffer.len() == PICTURE_SIZE
            &&& after.line_x == popped(d + 1)
            &&& after.push_x == shown(d + 1, fine)
            &&& after.bg_fifo.len() == 8 * ((d + 1) / 10) - popped(d + 1)
            &&& forall|i: int| 0 <= i < after.bg_fifo.len() ==> (#[trigger] after.bg_fifo[i]).0 == k
            &&& filled(after.video_buffer, k, ly * 160 + shown(d + 1, fine))
        }),
{
    let fine = (s.lcd.scroll_x % 8) as int;
    lemma_popped_step(d);
    lemma_shown_bound(d, fine);
    lemma_shown_bound(d + 1, fine);
    let after = s.pipeline_push_pixel();
    if s.bg_fifo.len() > 8 {
        assert(s.bg_fifo[0].0 == k);
        assert forall|i: int| 0 <= i < after.bg_fifo.len() implies (#[trigger] after.bg_fifo[i]).0
            == k by {
            assert(after.bg_fifo[i] == s.bg_fifo[i + 1]);
        }
        if s.line_x >= s.lcd.scroll_x % 8 {
            let at = s.push_x + s.lcd.ly * 160;
            assert(at < PICTURE_SIZE);
            assert forall|i: int|
                0 <= i < ly * 160 + shown(d + 1, fine) && i
                    < after.video_buffer.len() implies after.video_buffer[i] == k by {
                if i != at {
                    assert(after.video_buffer[i] == s.video_buffer[i]);
                }
            }
        }
    }
}

/// One tick of the pixel transfer of a blank frame.
proof fn lemma_step_transfer(s: PpuState, irq: InterruptsState, k: u8, ly: int, t: int)
    requires
        s.in_blank_frame(k, ly, t),
        ly < 144,
        TRANSFER_START <= t < TRANSFER_START + transfer_ticks((s.lcd.scroll_x % 8) as int),
    ensures
        s.tick(irq).0.in_blank_frame(k, ly, t + 1),
{
    let fine = (s.lcd.scroll_x % 8) as int;
    let d = t - TRANSFER_START;
    lemma_shown_bound(d, fine);
    lemma_shown_bound(d + 1, fine);
    let counted = PpuState { line_ticks: (t + 1) as u32, ..s };
    assert(s.tick(irq) == counted.mode_transfer(irq));
    let placed = PpuState {
        map_y: add8(s.lcd.ly, s.lcd.scroll_y),
        map_x: add8(s.fetch_x, s.lcd.scroll_x),
        tile_y: ((add8(s.lcd.ly, s.lcd.scroll_y) % 8) * 2) as u8,
        ..counted
    };
    let fetched = if (t + 1) % 2 == 0 {
        placed.pipeline_fetch()
    } else {
        placed
    };
    lemma_after_fetch(placed, k, ly, d);
    assert(after_fetch(fetched, k, ly, d));
    lemma_pop_step(fetched, k, ly, d);
    let moved = fetched.pipeline_push_pixel();
    assert(counted.pipeline_process() == moved);
    lemma_status_updates(moved.lcd, 0, true);
    lemma_finish_transfer(counted, moved, irq, k, ly, d);
}

/// The fetcher's part of tick `d + 1` of the pixel transfer of a blank frame.
proof fn lemma_after_fetch(s: PpuState, k: u8, ly: int, d: int)
    requires
        s.all_off(),
        s.lcd.bg_colors.len() == 4,
        s.lcd.bg_colors[0] == k,
        s.lcd.ly == ly,
        s.video_buffer.len() == PICTURE_SIZE,
        s.in_transfer(k, ly, d),
        s.line_ticks == TRANSFER_START + d + 1,
        0 <= d < transfer_ticks((s.lcd.scroll_x % 8) as int),
    ensures
        after_fetch(
            if s.line_ticks % 2 == 0 {
                s.pipeline_fetch()
            } else {
                s
            },
            k,
            ly,
            d,
        ),
        (if s.line_ticks % 2 == 0 {
            s.pipeline_fetch()
        } else {
            s
        }).lcd == s.lcd,
        (if s.line_ticks % 2 == 0 {
            s.pipeline_fetch()
        } else {
            s
        }).line_ticks == s.line_ticks,
{
    let q = d / 10;
    let r = d % 10;
    let q1 = (d + 1) / 10;
    let r1 = (d + 1) % 10;
    assert(d == 10 * q + r);
    assert(d + 1 == 10 * q1 + r1);
    if s.line_ticks % 2 == 0 {
        assert(d % 2 == 1);
        lemma_fetch_step(s, k, ly, d);
    } else {
        assert(d % 2 == 0);
        assert(r % 2 == 0);
        assert(q1 == q && r1 == r + 1);
    }
}

/// The end of tick `d + 1` of the pixel transfer of a blank frame: the
/// horizontal blank starts when the last pixel of the line has been written.
proof fn lemma_finish_transfer(
    counted: PpuState,
    moved: PpuState,
    irq: InterruptsState,
    k: u8,
    ly: int,
    d: int,
)
    requires
        moved == counted.pipeline_process(),
        moved.all_off(),
        moved.lcd.bg_colors.len() == 4,
        moved.lcd.bg_colors[0] == k,
        moved.lcd.mode() == 3,
        moved.lcd.ly == ly,
        0 <= ly < 144,
        moved.line_ticks == TRANSFER_START + d + 1,
        0 <= d < transfer_ticks((moved.lcd.scroll_x % 8) as int),
        moved.video_buffer.len() == PICTURE_SIZE,
        moved.fetch_state == step_due((d + 1) % 10),
        moved.line_x == popped(d + 1),
        moved.push_x == shown(d + 1, (moved.lcd.scroll_x % 8) as int),
        moved.fifo_x == 8 * ((d + 1) / 10),
        moved.fetch_x == 8 * ((d + 1) / 10 + if (d + 1) % 10 >= 2 {
            1int
        } else {
            0int
        }),
        moved.bg_fifo.len() == 8 * ((d + 1) / 10) - popped(d + 1),
        forall|i: int| 0 <= i < moved.bg_fifo.len() ==> (#[trigger] moved.bg_fifo[i]).0 == k,
        filled(
            moved.video_buffer,
            k,
            ly * 160 + shown(d + 1, (moved.lcd.scroll_x % 8) as int),
        ),
    ensures
        counted.mode_transfer(irq).0.in_blank_frame(k, ly, TRANSFER_START + d + 1),
{
    let fine = (moved.lcd.scroll_x % 8) as int;
    lemma_shown_bound(d + 1, fine);
    lemma_status_updates(moved.lcd, 0, true);
    let after = counted.mode_transfer(irq).0;
    if d + 1 < transfer_ticks(fine) {
        assert(after == moved);
        assert(moved.in_transfer(k, ly, d + 1));
    } else {
        assert(moved.push_x == 160);
        assert(after.bg_fifo.len() == 0);
        assert(after.lcd.mode() == 0);
    }
}

/// One tick of a blank frame takes the pipeline to the next position of the
/// frame; pixels that have the shade of background colour 0 keep it.
pub proof fn lemma_blank_tick(s: PpuState, irq: InterruptsState, k: u8, ly: int, t: int)
    requires
        s.in_blank_frame(k, ly, t),
    ensures
        s.tick(irq).0.in_blank_frame(k, next_position(ly, t).0, next_position(ly, t).1),
        ly >= 144 ==> s.tick(irq).0.video_buffer == s.video_buffer,
{
    let fine = (s.lcd.scroll_x % 8) as int;
    if ly >= 144 {
        lemma_step_vblank(s, irq, k, ly, t);
    } else if t < TRANSFER_START {
        lemma_step_oam(s, irq, k, ly, t);
    } else if t < TRANSFER_START + transfer_ticks(fine) {
        lemma_step_transfer(s, irq, k, ly, t);
    } else {
        lemma_step_hblank(s, irq, k, ly, t);
    }
}

/// After `n` ticks of a blank frame that do not pass its end the pipeline
/// is at the position `n` ticks on; if they reach its end, the next frame
/// starts and the whole picture has the shade of background colour 0.
proof fn lemma_blank_run(s: PpuState, irq: InterruptsState, k: u8, ly: int, t: int, n: nat)
    requires
        s.in_blank_frame(k, ly, t),
        ly * 456 + t + n <= TICKS_PER_FRAME,
    ensures
        ly * 456 + t + n < TICKS_PER_FRAME ==> s.ticks(irq, n).0.in_blank_frame(
            k,
            (ly * 456 + t + n) / 456,
            (ly * 456 + t + n) % 456,
        ),
        ly * 456 + t + n == TICKS_PER_FRAME ==> s.ticks(irq, n).0.in_blank_frame(k, 0, 0)
            && filled(s.ticks(irq, n).0.video_buffer, k, PICTURE_SIZE as int),
    decreases n,
{
    if n == 0 {
        assert((ly * 456 + t) / 456 == ly && (ly * 456 + t) % 456 == t);
    } else {
        let (next, irq_after) = s.tick(irq);
        lemma_blank_tick(s, irq, k, ly, t);
        let (ly1, t1) = next_position(ly, t);
        if ly == 153 && t == 455 {
            assert(n == 1);
            assert(next.ticks(irq_after, 0) == (next, irq_after));
        } else {
            assert(ly1 * 456 + t1 == ly * 456 + t + 1);
            lemma_blank_run(next, irq_after, k, ly1, t1, (n - 1) as nat);
        }
    }
}

/// With background, window and sprites switched off, the ticks of one whole
/// frame, counted from the first tick of a frame, leave every pixel of the
/// picture at the shade of background colour 0, and the pipeline at the
/// first tick of the next frame.
pub proof fn lemma_blank_frame(s: PpuState, irq: InterruptsState)
    requires
        s.wf(),
        s.at_frame_start(),
        s.all_off(),
    ensures
        forall|i: int|
            0 <= i < PICTURE_SIZE ==> #[trigger] s.ticks(irq, TICKS_PER_FRAME as nat).0.video_buffer[i]
                == s.lcd.bg_colors[0],
        s.ticks(irq, TICKS_PER_FRAME as nat).0.video_buffer.len() == PICTURE_SIZE,
        s.ticks(irq, TICKS_PER_FRAME as nat).0.at_frame_start(),
        s.ticks(irq, TICKS_PER_FRAME as nat).0.all_off(),
{
    let k = s.lcd.bg_colors[0];
    assert(s.in_blank_frame(k, 0, 0));
    lemma_blank_run(s, irq, k, 0, 0, TICKS_PER_FRAME as nat);
}

/// The same for the palette that gives colour 0 the shade 0: the whole
/// picture has shade 0.
pub proof fn lemma_blank_frame_is_zero(s: PpuState, irq: InterruptsState)
    requires
        s.wf(),
        s.at_frame_start(),
        s.all_off(),
        s.lcd.bg_colors[0] == 0,
    ensures
        forall|i: int|
            0 <= i < PICTURE_SIZE ==> #[trigger] s.ticks(irq, TICKS_PER_FRAME as nat).0.video_buffer[i]
                == 0,
{
    lemma_blank_frame(s, irq);
}

} // verus!
