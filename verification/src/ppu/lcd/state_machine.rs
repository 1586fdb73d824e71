//! The phases of a scanline and of a frame: sprite search, pixel transfer,
//! horizontal blank, and the vertical blank after the last visible line.
use vstd::prelude::*;
use crate::mmu::interrupts::{Interrupts, InterruptsState, InterruptType};
use crate::ppu::{PPU, PpuState, LINES_PER_FRAME, OAM_SCAN_TICKS, TICKS_PER_LINE};
use crate::ppu::fifo::FetchState;
use crate::ppu::lcd::{LcdState, Mode, lemma_status_updates};

verus! {

/// A 32-bit count advanced by one, wrapping at 32 bits.
pub open spec fn next32(n: u32) -> u32 {
    if n == 0xFFFF_FFFF {
        0
    } else {
        (n + 1) as u32
    }
}

impl PpuState {
    /// The pipeline after the scanline has moved on by one: the line of the
    /// window moves on too if the window is visible and covers the old
    /// scanline, and the coincidence flag tells whether the new scanline is
    /// the one to compare with; if it is and that interrupt is selected, the
    /// status interrupt is requested.
    pub open spec fn increment_ly(self, irq: InterruptsState) -> (PpuState, InterruptsState) {
        let counted = self.lcd.window_visible() && self.lcd.ly >= self.lcd.window_y && self.lcd.ly
            < self.lcd.window_y + crate::YRES;
        let ly = (self.lcd.ly + 1) as u8;
        let equal = ly == self.lcd.ly_compare;
        (
            PpuState {
                window_line: if counted {
                    (self.window_line + 1) as u8
                } else {
                    self.window_line
                },
                lcd: LcdState { ly, ..self.lcd }.with_equals(equal),
                ..self
            },
            if equal && self.lcd.stat_interrupt() {
                irq.request(InterruptType::LcdStat)
            } else {
                irq
            },
        )
    }

    /// A tick of the sprite search: on its first tick the sprites of the
    /// scanline are picked, and after 80 ticks pixel transfer starts with
    /// the fetcher at the left edge.
    pub open spec fn mode_oam(self) -> PpuState {
        let started = if self.line_ticks >= OAM_SCAN_TICKS {
            PpuState {
                lcd: self.lcd.with_mode(Mode::TRANSFER.value()),
                fetch_state: FetchState::TileNum,
                line_x: 0,
                fetch_x: 0,
                push_x: 0,
                fifo_x: 0,
                ..self
            }
        } else {
            self
        };
        if self.line_ticks == 1 {
            PpuState { selected: Seq::empty(), sprite_count: 0, ..started }.load_sprites()
        } else {
            started
        }
    }

    /// A tick of pixel transfer: when the last pixel of the line has been
    /// written the queue is emptied and the horizontal blank starts, with a
    /// status interrupt if that one is selected.
    pub open spec fn mode_transfer(self, irq: InterruptsState) -> (PpuState, InterruptsState) {
        let moved = self.pipeline_process();
        if moved.push_x >= crate::XRES {
            (
                PpuState {
                    lcd: moved.lcd.with_mode(Mode::HBLANK.value()),
                    ..moved.pipeline_reset()
                },
                if moved.lcd.hblank_interrupt() {
                    irq.request(InterruptType::LcdStat)
                } else {
                    irq
                },
            )
        } else {
            (moved, irq)
        }
    }

    /// A tick of the vertical blank: after 456 ticks the scanline moves on,
    /// and behind the last line of the frame the sprite search of line 0
    /// starts.
    pub open spec fn mode_vblank(self, irq: InterruptsState) -> (PpuState, InterruptsState) {
        if self.line_ticks >= TICKS_PER_LINE {
            let (next, irq_after) = self.increment_ly(irq);
            (
                if next.lcd.ly >= LINES_PER_FRAME {
                    PpuState {
                        lcd: LcdState { ly: 0, ..next.lcd.with_mode(Mode::OAM.value()) },
                        window_line: 0,
                        line_ticks: 0,
                        ..next
                    }
                } else {
                    PpuState { line_ticks: 0, ..next }
                },
                irq_after,
            )
        } else {
            (self, irq)
        }
    }

    /// A tick of the horizontal blank: after 456 ticks the scanline moves
    /// on; behind the last visible line the vertical blank starts, with its
    /// interrupt, with a status interrupt if that one is selected, and with
    /// one more frame counted; otherwise the sprite search of the next line
    /// starts.
    pub open spec fn mode_hblank(self, irq: InterruptsState) -> (PpuState, InterruptsState) {
        if self.line_ticks >= TICKS_PER_LINE {
            let (next, irq_after) = self.increment_ly(irq);
            if next.lcd.ly >= crate::YRES {
                (
                    PpuState {
                        lcd: next.lcd.with_mode(Mode::VBLANK.value()),
                        current_frame: next32(next.current_frame),
                        line_ticks: 0,
                        ..next
                    },
                    if next.lcd.vblank_interrupt() {
                        irq_after.request(InterruptType::Vblank).request(InterruptType::LcdStat)
                    } else {
                        irq_after.request(InterruptType::Vblank)
                    },
                )
            } else {
                (
                    PpuState {
                        lcd: next.lcd.with_mode(Mode::OAM.value()),
                        line_ticks: 0,
                        ..next
                    },
                    irq_after,
                )
            }
        } else {
            (self, irq)
        }
    }

    /// One hardware tick of the pipeline.
    pub open spec fn tick(self, irq: InterruptsState) -> (PpuState, InterruptsState) {
        let counted = PpuState { line_ticks: next32(self.line_ticks), ..self };
        if self.lcd.mode() == 0 {
            counted.mode_hblank(irq)
        } else if self.lcd.mode() == 1 {
            counted.mode_vblank(irq)
        } else if self.lcd.mode() == 2 {
            (counted.mode_oam(), irq)
        } else {
            counted.mode_transfer(irq)
        }
    }
}

/// Moves the scanline on by one.
pub fn increment_ly(ppu: &mut PPU, interrupt: &mut Interrupts)
    requires
        old(ppu)@.sized(),
        old(ppu)@.lcd.ly < LINES_PER_FRAME,
        old(ppu)@.window_line <= old(ppu)@.lcd.ly,
    ensures
        (final(ppu)@, final(interrupt)@) == old(ppu)@.increment_ly(old(interrupt)@),
        final(ppu)@.sized(),
        final(ppu)@.lcd.mode() == old(ppu)@.lcd.mode(),
        final(ppu)@.lcd.ly == old(ppu)@.lcd.ly + 1,
        final(ppu)@.window_line <= final(ppu)@.lcd.ly,
        final(ppu)@.push_x == old(ppu)@.push_x,
{
    proof {
        lemma_status_updates(LcdState { ly: (ppu@.lcd.ly + 1) as u8, ..ppu@.lcd }, 0, true);
        lemma_status_updates(LcdState { ly: (ppu@.lcd.ly + 1) as u8, ..ppu@.lcd }, 0, false);
    }
    if ppu.window_visible() && ppu.lcd.ly >= ppu.lcd.window_y && (ppu.lcd.ly as u16)
        < ppu.lcd.window_y as u16 + 144 {
        ppu.window_line += 1;
    }
    ppu.lcd.ly += 1;
    if ppu.lcd.ly == ppu.lcd.ly_compare {
        if ppu.lcd.lcd_status.stat_interrupt() {
            interrupt.request_interrupt(InterruptType::LcdStat);
        }
        ppu.lcd.lcd_status.equals_flag_set(true);
    } else {
        ppu.lcd.lcd_status.equals_flag_set(false);
    }
}

/// A tick of the sprite search.
pub fn mode_oam(ppu: &mut PPU)
    requires
        old(ppu)@.wf(),
        old(ppu)@.lcd.mode() == 2,
    ensures
        final(ppu)@ == old(ppu)@.mode_oam(),
        final(ppu)@.wf(),
        old(ppu)@.line_ticks == 1 ==> crate::ppu::pipeline::in_order(final(ppu)@.selected),
{
    proof {
        lemma_status_updates(ppu@.lcd, 3, true);
    }
    if ppu.line_ticks >= 80 {
        let val = ppu.lcd.lcd_status.mode_value(&Mode::TRANSFER);
        ppu.lcd.lcd_status.current_mode_set(val);
        ppu.pixel_fifo.current_state = FetchState::TileNum;
        ppu.pixel_fifo.line_x = 0;
        ppu.pixel_fifo.fetch_x = 0;
        ppu.pixel_fifo.push_x = 0;
        ppu.pixel_fifo.fifo_x = 0;
    }
    if ppu.line_ticks == 1 {
        ppu.selected_oam_reset();
        ppu.sprite_count = 0;
        ppu.load_sprites();
    }
}

/// A tick of pixel transfer.
pub fn mode_transfer(ppu: &mut PPU, interrupt: &mut Interrupts)
    requires
        old(ppu)@.wf(),
        old(ppu)@.lcd.mode() == 3,
    ensures
        (final(ppu)@, final(interrupt)@) == old(ppu)@.mode_transfer(old(interrupt)@),
        final(ppu)@.wf(),
{
    ppu.pipeline_process();
    proof {
        lemma_status_updates(ppu@.lcd, 0, true);
    }
    if ppu.pixel_fifo.push_x >= 160 {
        ppu.pipeline_reset();
        if ppu.lcd.lcd_status.hblank_interrupt() {
            interrupt.request_interrupt(InterruptType::LcdStat);
        }
        let val = ppu.lcd.lcd_status.mode_value(&Mode::HBLANK);
        ppu.lcd.lcd_status.current_mode_set(val);
    }
}

/// A tick of the vertical blank.
pub fn mode_vblank(ppu: &mut PPU, interrupt: &mut Interrupts)
    requires
        old(ppu)@.wf(),
        old(ppu)@.lcd.mode() == 1,
    ensures
        (final(ppu)@, final(interrupt)@) == old(ppu)@.mode_vblank(old(interrupt)@),
        final(ppu)@.wf(),
{
    if ppu.line_ticks >= 456 {
        increment_ly(ppu, interrupt);
        proof {
            lemma_status_updates(ppu@.lcd, 2, true);
        }
        if ppu.lcd.ly >= 154 {
            let val = ppu.lcd.lcd_status.mode_value(&Mode::OAM);
            ppu.lcd.lcd_status.current_mode_set(val);
            ppu.lcd.ly = 0;
            ppu.window_line = 0;
        }
        ppu.line_ticks = 0;
    }
}

/// A tick of the horizontal blank.
pub fn mode_hblank(ppu: &mut PPU, interrupt: &mut Interrupts)
    requires
        old(ppu)@.wf(),
        old(ppu)@.lcd.mode() == 0,
    ensures
        (final(ppu)@, final(interrupt)@) == old(ppu)@.mode_hblank(old(interrupt)@),
        final(ppu)@.wf(),
{
    if ppu.line_ticks >= 456 {
        increment_ly(ppu, interrupt);
        proof {
            lemma_status_updates(ppu@.lcd, 1, true);
            lemma_status_updates(ppu@.lcd, 2, true);
        }
        if ppu.lcd.ly >= 144 {
            interrupt.request_interrupt(InterruptType::Vblank);
            if ppu.lcd.lcd_status.vblank_interrupt() {
                interrupt.request_interrupt(InterruptType::LcdStat);
            }
            let val = ppu.lcd.lcd_status.mode_value(&Mode::VBLANK);
            ppu.lcd.lcd_status.current_mode_set(val);
            ppu.current_frame = ppu.current_frame.wrapping_add(1);
        } else {
            let val = ppu.lcd.lcd_status.mode_value(&Mode::OAM);
            ppu.lcd.lcd_status.current_mode_set(val);
        }
        ppu.line_ticks = 0;
    }
}

} // verus!
