//! The registers of the display controller.
use vstd::prelude::*;
use crate::bits::lemma_mask_u8;

pub mod state_machine;

verus! {

/// Address of the display control register.
pub const LCD_CONTROL: u16 = 0xFF40;

/// Address of the transfer register that lies between the display registers.
pub const DMA_REGISTER: u16 = 0xFF46;

/// Address of the last display register.
pub const LCD_LAST: u16 = 0xFF4B;

/// The bits of the status register that a write can change: the four
/// interrupt selectors. The mode and the coincidence flag belong to the
/// display controller.
pub const STATUS_WRITABLE: u8 = 0x78;

/// The four phases of the display controller.
#[derive(Copy, Clone, PartialEq, Eq, Structural, Debug)]
pub enum Mode {
    HBLANK,
    VBLANK,
    OAM,
    TRANSFER,
}

impl Mode {
    /// The number that stands for the phase in the status register.
    pub open spec fn value(self) -> u8 {
        match self {
            Mode::HBLANK => 0,
            Mode::VBLANK => 1,
            Mode::OAM => 2,
            Mode::TRANSFER => 3,
        }
    }
}

/// The shade that `palette` gives to colour `i` (0 to 3).
pub open spec fn shade(palette: u8, i: int) -> u8 {
    if i == 0 {
        palette & 0b11
    } else if i == 1 {
        (palette >> 2u8) & 0b11
    } else if i == 2 {
        (palette >> 4u8) & 0b11
    } else {
        (palette >> 6u8) & 0b11
    }
}

/// The four shades of a palette, by colour.
pub open spec fn palette_shades(palette: u8) -> Seq<u8> {
    seq![shade(palette, 0), shade(palette, 1), shade(palette, 2), shade(palette, 3)]
}

/// The mathematical model of the display registers.
pub ghost struct LcdState {
    pub control: u8,
    pub status: u8,
    pub scroll_y: u8,
    pub scroll_x: u8,
    /// The current scanline.
    pub ly: u8,
    pub ly_compare: u8,
    pub bg_palette: u8,
    pub sprite_palette0: u8,
    pub sprite_palette1: u8,
    pub window_y: u8,
    pub window_x: u8,
    /// The shade of each background colour.
    pub bg_colors: Seq<u8>,
    /// The shade of each colour of the first sprite palette.
    pub sp1_colors: Seq<u8>,
    /// The shade of each colour of the second sprite palette.
    pub sp2_colors: Seq<u8>,
}

impl LcdState {
    /// Each colour table has four entries.
    pub open spec fn wf(self) -> bool {
        &&& self.bg_colors.len() == 4
        &&& self.sp1_colors.len() == 4
        &&& self.sp2_colors.len() == 4
    }

    pub open spec fn display_enable(self) -> bool {
        self.control & 0x80 != 0
    }

    /// Start of the tile map of the window.
    pub open spec fn window_tilemap(self) -> u16 {
        if self.control & 0x40 != 0 {
            0x9C00
        } else {
            0x9800
        }
    }

    pub open spec fn window_enable(self) -> bool {
        self.control & 0x20 != 0
    }

    /// Start of the tile data of background and window.
    pub open spec fn bg_window_tile_data(self) -> u16 {
        if self.control & 0x10 != 0 {
            0x8000
        } else {
            0x8800
        }
    }

    /// Start of the tile map of the background.
    pub open spec fn bg_tilemap(self) -> u16 {
        if self.control & 0x08 != 0 {
            0x9C00
        } else {
            0x9800
        }
    }

    /// Height of a sprite in lines.
    pub open spec fn sprite_size(self) -> u8 {
        if self.control & 0x04 != 0 {
            16
        } else {
            8
        }
    }

    pub open spec fn sprite_enable(self) -> bool {
        self.control & 0x02 != 0
    }

    /// Background and window are drawn.
    pub open spec fn bg_window_priority(self) -> bool {
        self.control & 0x01 != 0
    }

    /// The number of the current phase.
    pub open spec fn mode(self) -> u8 {
        self.status & 0b11
    }

    pub open spec fn stat_interrupt(self) -> bool {
        self.status & 0x40 != 0
    }

    pub open spec fn oam_interrupt(self) -> bool {
        self.status & 0x20 != 0
    }

    pub open spec fn vblank_interrupt(self) -> bool {
        self.status & 0x10 != 0
    }

    pub open spec fn hblank_interrupt(self) -> bool {
        self.status & 0x08 != 0
    }

    /// The registers with the phase replaced.
    pub open spec fn with_mode(self, mode: u8) -> LcdState {
        LcdState { status: (self.status & !0b11u8) | (mode & 0b11u8), ..self }
    }

    /// The registers with the coincidence flag replaced.
    pub open spec fn with_equals(self, value: bool) -> LcdState {
        LcdState {
            status: if value {
                self.status | 0x04u8
            } else {
                self.status & !0x04u8
            },
            ..self
        }
    }

    /// The window is switched on and its corner lies on the screen.
    pub open spec fn window_visible(self) -> bool {
        self.window_enable() && self.window_x <= 166 && self.window_y < 144
    }

    /// What a read of the register at `address` returns.
    pub open spec fn read(self, address: u16) -> u8
        recommends
            is_lcd_register(address),
    {
        if address == 0xFF40 {
            self.control
        } else if address == 0xFF41 {
            self.status
        } else if address == 0xFF42 {
            self.scroll_y
        } else if address == 0xFF43 {
            self.scroll_x
        } else if address == 0xFF44 {
            self.ly
        } else if address == 0xFF45 {
            self.ly_compare
        } else if address == 0xFF47 {
            self.bg_palette
        } else if address == 0xFF48 {
            self.sprite_palette0
        } else if address == 0xFF49 {
            self.sprite_palette1
        } else if address == 0xFF4A {
            self.window_y
        } else {
            self.window_x
        }
    }

    /// The registers after a write of `value` to the register at `address`.
    ///
    /// The scanline register cannot be written; of the status register only
    /// the interrupt selectors can. A palette write also recomputes the
    /// shades; colour 0 of a sprite palette always gets shade 0.
    pub open spec fn write(self, address: u16, value: u8) -> LcdState
        recommends
            is_lcd_register(address),
    {
        if address == 0xFF40 {
            LcdState { control: value, ..self }
        } else if address == 0xFF41 {
            LcdState { status: (value & STATUS_WRITABLE) | (self.status & 0x07u8), ..self }
        } else if address == 0xFF42 {
            LcdState { scroll_y: value, ..self }
        } else if address == 0xFF43 {
            LcdState { scroll_x: value, ..self }
        } else if address == 0xFF44 {
            self
        } else if address == 0xFF45 {
            LcdState { ly_compare: value, ..self }
        } else if address == 0xFF47 {
            LcdState { bg_palette: value, bg_colors: palette_shades(value), ..self }
        } else if address == 0xFF48 {
            LcdState {
                sprite_palette0: value,
                sp1_colors: palette_shades(value & 0b11111100u8),
                ..self
            }
        } else if address == 0xFF49 {
            LcdState {
                sprite_palette1: value,
                sp2_colors: palette_shades(value & 0b11111100u8),
                ..self
            }
        } else if address == 0xFF4A {
            LcdState { window_y: value, ..self }
        } else {
            LcdState { window_x: value, ..self }
        }
    }

    /// The registers at power-on, with the given control register.
    pub open spec fn initial(control: u8) -> LcdState {
        LcdState {
            control,
            status: 4,
            scroll_y: 0,
            scroll_x: 0,
            ly: 0,
            ly_compare: 0,
            bg_palette: 0xFC,
            sprite_palette0: 0xFF,
            sprite_palette1: 0xFF,
            window_y: 0,
            window_x: 0,
            bg_colors: seq![0u8, 2u8, 1u8, 3u8],
            sp1_colors: seq![0u8, 2u8, 1u8, 3u8],
            sp2_colors: seq![0u8, 2u8, 1u8, 3u8],
        }
    }
}

/// The addresses that belong to the display registers.
pub open spec fn is_lcd_register(address: u16) -> bool {
    LCD_CONTROL <= address <= LCD_LAST && address != DMA_REGISTER
}

/// A write to the status or scanline register leaves the phase, the
/// coincidence flag and the scanline as they were.
pub proof fn lemma_write_keeps_phase(s: LcdState, address: u16, value: u8)
    ensures
        s.write(address, value).mode() == s.mode(),
        s.write(address, value).ly == s.ly,
        s.write(address, value).status & 0x04 == s.status & 0x04,
{
    lemma_status_bits(s.status, value, 0);
}

/// Setting the phase gives that phase and keeps the interrupt selectors;
/// setting the coincidence flag keeps the phase and the selectors.
pub proof fn lemma_status_updates(s: LcdState, mode: u8, value: bool)
    ensures
        mode <= 3 ==> s.with_mode(mode).mode() == mode,
        s.with_mode(mode).stat_interrupt() == s.stat_interrupt(),
        s.with_mode(mode).hblank_interrupt() == s.hblank_interrupt(),
        s.with_mode(mode).vblank_interrupt() == s.vblank_interrupt(),
        s.with_mode(mode).oam_interrupt() == s.oam_interrupt(),
        s.with_equals(value).mode() == s.mode(),
        s.with_equals(value).stat_interrupt() == s.stat_interrupt(),
        s.with_equals(value).hblank_interrupt() == s.hblank_interrupt(),
        s.with_equals(value).vblank_interrupt() == s.vblank_interrupt(),
        s.with_equals(value).oam_interrupt() == s.oam_interrupt(),
        s.mode() <= 3,
{
    lemma_status_selectors(s.status, mode);
    lemma_status_bits(s.status, 0, mode);
    lemma_mask_u8(s.status);
}

proof fn lemma_status_selectors(b: u8, m: u8)
    by (bit_vector)
    ensures
        ((b & !0x03u8) | (m & 0x03)) & 0x40 == b & 0x40,
        ((b & !0x03u8) | (m & 0x03)) & 0x20 == b & 0x20,
        ((b & !0x03u8) | (m & 0x03)) & 0x10 == b & 0x10,
        ((b & !0x03u8) | (m & 0x03)) & 0x08 == b & 0x08,
        (b | 0x04) & 0x40 == b & 0x40,
        (b | 0x04) & 0x20 == b & 0x20,
        (b | 0x04) & 0x10 == b & 0x10,
        (b | 0x04) & 0x08 == b & 0x08,
        (b & !0x04u8) & 0x40 == b & 0x40,
        (b & !0x04u8) & 0x20 == b & 0x20,
        (b & !0x04u8) & 0x10 == b & 0x10,
        (b & !0x04u8) & 0x08 == b & 0x08,
{
}

/// Every shade is a number from 0 to 3.
pub proof fn lemma_shade_range(palette: u8, i: int)
    ensures
        shade(palette, i) <= 3,
{
    lemma_mask_u8(palette);
    lemma_mask_u8(palette >> 2u8);
    lemma_mask_u8(palette >> 4u8);
    lemma_mask_u8(palette >> 6u8);
}

proof fn lemma_status_bits(b: u8, v: u8, m: u8)
    by (bit_vector)
    ensures
        ((v & 0x78) | (b & 0x07)) & 0x03 == b & 0x03,
        ((v & 0x78) | (b & 0x07)) & 0x04 == b & 0x04,
        (b | 0x04) & 0x03 == b & 0x03,
        (b & !0x04u8) & 0x03 == b & 0x03,
        m <= 3 ==> ((b & !0x03u8) | (m & 0x03)) & 0x03 == m,
        ((b & !0x03u8) | (m & 0x03)) & 0x78 == b & 0x78,
        (b & 0x7F) & 0x03 == b & 0x03,
        ((b & !0x03u8) | (m & 0x03)) & 0x7F == ((b & 0x7F) & !0x03u8) | (m & 0x03),
{
}

/// The display control register.
pub struct LcdControl {
    bits: u8,
}

impl View for LcdControl {
    type V = u8;

    closed spec fn view(&self) -> u8 {
        self.bits
    }
}

impl LcdControl {
    pub fn from_bits_truncate(bits: u8) -> (r: LcdControl)
        ensures
            r@ == bits,
    {
        LcdControl { bits }
    }

    pub fn bits(&self) -> (r: u8)
        ensures
            r == self@,
    {
        self.bits
    }

    pub fn display_enable(&self) -> (r: bool)
        ensures
            r == (self@ & 0x80 != 0),
    {
        self.bits & 0x80 != 0
    }

    pub fn window_tilemap(&self) -> (r: u16)
        ensures
            r == if self@ & 0x40 != 0 {
                0x9C00u16
            } else {
                0x9800u16
            },
    {
        if self.bits & 0x40 != 0 {
            0x9C00
        } else {
            0x9800
        }
    }

    pub fn window_enable(&self) -> (r: bool)
        ensures
            r == (self@ & 0x20 != 0),
    {
        self.bits & 0x20 != 0
    }

    pub fn bg_window_tile_data(&self) -> (r: u16)
        ensures
            r == if self@ & 0x10 != 0 {
                0x8000u16
            } else {
                0x8800u16
            },
    {
        if self.bits & 0x10 != 0 {
            0x8000
        } else {
            0x8800
        }
    }

    pub fn bg_tilemap(&self) -> (r: u16)
        ensures
            r == if self@ & 0x08 != 0 {
                0x9C00u16
            } else {
                0x9800u16
            },
    {
        if self.bits & 0x08 != 0 {
            0x9C00
        } else {
            0x9800
        }
    }

    pub fn sprite_size(&self) -> (r: u8)
        ensures
            r == if self@ & 0x04 != 0 {
                16u8
            } else {
                8u8
            },
    {
        if self.bits & 0x04 != 0 {
            16
        } else {
            8
        }
    }

    pub fn sprite_enable(&self) -> (r: bool)
        ensures
            r == (self@ & 0x02 != 0),
    {
        self.bits & 0x02 != 0
    }

    pub fn bg_window_priority(&self) -> (r: bool)
        ensures
            r == (self@ & 0x01 != 0),
    {
        self.bits & 0x01 != 0
    }
}

/// The display status register.
pub struct LcdStatus {
    bits: u8,
}

impl View for LcdStatus {
    type V = u8;

    closed spec fn view(&self) -> u8 {
        self.bits
    }
}

impl LcdStatus {
    pub fn from_bits_truncate(bits: u8) -> (r: LcdStatus)
        ensures
            r@ == bits & 0x7F,
    {
        LcdStatus { bits: bits & 0x7F }
    }

    pub fn bits(&self) -> (r: u8)
        ensures
            r == self@,
    {
        self.bits
    }

    pub(crate) fn stat_interrupt(&self) -> (r: bool)
        ensures
            r == (self@ & 0x40 != 0),
    {
        self.bits & 0x40 != 0
    }

    pub(crate) fn oam_interrupt(&self) -> (r: bool)
        ensures
            r == (self@ & 0x20 != 0),
    {
        self.bits & 0x20 != 0
    }

    pub(crate) fn vblank_interrupt(&self) -> (r: bool)
        ensures
            r == (self@ & 0x10 != 0),
    {
        self.bits & 0x10 != 0
    }

    pub(crate) fn hblank_interrupt(&self) -> (r: bool)
        ensures
            r == (self@ & 0x08 != 0),
    {
        self.bits & 0x08 != 0
    }

    pub(crate) fn equals_flag_set(&mut self, value: bool)
        ensures
            final(self)@ == if value {
                old(self)@ | 0x04u8
            } else {
                old(self)@ & !0x04u8
            },
            final(self)@ & 0x03 == old(self)@ & 0x03,
    {
        proof {
            lemma_status_bits(self.bits, 0, 0);
        }
        self.bits = if value { self.bits | 0x04 } else { self.bits & !0x04u8 };
    }

    /// The number of the current phase.
    pub fn current_mode(&self) -> (r: u8)
        ensures
            r == self@ & 0b11,
            r <= 3,
    {
        proof {
            lemma_mask_u8(self.bits);
        }
        self.bits & 0b11
    }

    /// The number that stands for `mode` in this register.
    pub fn mode_value(&self, mode: &Mode) -> (r: u8)
        ensures
            r == mode.value(),
    {
        match mode {
            Mode::HBLANK => 0,
            Mode::VBLANK => 1,
            Mode::OAM => 2,
            Mode::TRANSFER => 3,
        }
    }

    pub(crate) fn current_mode_set(&mut self, data: u8)
        ensures
            final(self)@ == (old(self)@ & !0b11u8) | (data & 0b11u8),
            data <= 3 ==> final(self)@ & 0b11 == data,
    {
        proof {
            lemma_status_bits(self.bits, 0, data);
        }
        self.bits = (self.bits & !0b11u8) | (data & 0b11);
    }

    pub(crate) fn write(&mut self, value: u8)
        ensures
            final(self)@ == (value & STATUS_WRITABLE) | (old(self)@ & 0x07u8),
    {
        self.bits = (value & STATUS_WRITABLE) | (self.bits & 0x07);
    }
}

/// The display registers.
pub struct Lcd {
    pub(super) lcd_control: LcdControl,
    pub(super) lcd_status: LcdStatus,
    pub(super) scroll_y: u8,
    pub(super) scroll_x: u8,
    pub(super) ly: u8,
    pub(super) ly_compare: u8,
    pub(super) dmg_bg_palette: u8,
    pub(super) dmg_sprite_palette: [u8; 2],
    pub(super) window_y: u8,
    pub(super) window_x: u8,
    pub(super) bg_colors: [u8; 4],
    pub(super) sp1_colors: [u8; 4],
    pub(super) sp2_colors: [u8; 4],
}

impl Default for Lcd {
    fn default() -> (r: Self)
        ensures
            r@ == LcdState::initial(0),
    {
        let r = Lcd {
            lcd_control: LcdControl::from_bits_truncate(0),
            lcd_status: LcdStatus { bits: 4 },
            scroll_y: 0,
            scroll_x: 0,
            ly: 0,
            ly_compare: 0,
            dmg_bg_palette: 0xFC,
            dmg_sprite_palette: [0xFF;2],
            window_y: 0,
            window_x: 0,
            bg_colors: [0, 2, 1, 3],
            sp1_colors: [0, 2, 1, 3],
            sp2_colors: [0, 2, 1, 3],
        };
        proof {
            assert(r@.bg_colors =~= seq![0u8, 2u8, 1u8, 3u8]);
            assert(r@.sp1_colors =~= seq![0u8, 2u8, 1u8, 3u8]);
            assert(r@.sp2_colors =~= seq![0u8, 2u8, 1u8, 3u8]);
        }
        r
    }
}

impl Lcd {
    pub fn new() -> (r: Lcd)
        ensures
            r@ == LcdState::initial(0x91),
    {
        let r = Lcd {
            lcd_control: LcdControl::from_bits_truncate(0x91),
            lcd_status: LcdStatus { bits: 4 },
            scroll_y: 0,
            scroll_x: 0,
            ly: 0,
            ly_compare: 0,
            dmg_bg_palette: 0xFC,
            dmg_sprite_palette: [0xFF;2],
            window_y: 0,
            window_x: 0,
            bg_colors: [0, 2, 1, 3],
            sp1_colors: [0, 2, 1, 3],
            sp2_colors: [0, 2, 1, 3],
        };
        proof {
            assert(r@.bg_colors =~= seq![0u8, 2u8, 1u8, 3u8]);
            assert(r@.sp1_colors =~= seq![0u8, 2u8, 1u8, 3u8]);
            assert(r@.sp2_colors =~= seq![0u8, 2u8, 1u8, 3u8]);
        }
        r
    }

    /// Reads the display register at `address`.
    pub fn lcd_read(&self, address: u16) -> (r: u8)
        requires
            is_lcd_register(address),
        ensures
            r == self@.read(address),
    {
        match address {
            0xFF40 => self.lcd_control.bits(),
            0xFF41 => self.lcd_status.bits(),
            0xFF42 => self.scroll_y,
            0xFF43 => self.scroll_x,
            0xFF44 => self.ly,
            0xFF45 => self.ly_compare,
            0xFF47 => self.dmg_bg_palette,
            0xFF48 => self.dmg_sprite_palette[0],
            0xFF49 => self.dmg_sprite_palette[1],
            0xFF4A => self.window_y,
            _ => self.window_x,
        }
    }

    /// Writes the display register at `address`.
    pub fn lcd_write(&mut self, address: u16, value: u8)
        requires
            is_lcd_register(address),
        ensures
            final(self)@ == old(self)@.write(address, value),
    {
        match address {
            0xFF40 => self.lcd_control = LcdControl::from_bits_truncate(value),
            0xFF41 => self.lcd_status.write(value),
            0xFF42 => self.scroll_y = value,
            0xFF43 => self.scroll_x = value,
            0xFF44 => {},
            0xFF45 => self.ly_compare = value,
            0xFF47 => {
                self.dmg_bg_palette = value;
                self.update_palette(value, 0);
            },
            0xFF48 => {
                self.dmg_sprite_palette[0] = value;
                self.update_palette(value & 0b11111100, 1);
            },
            0xFF49 => {
                self.dmg_sprite_palette[1] = value;
                self.update_palette(value & 0b11111100, 2);
            },
            0xFF4A => self.window_y = value,
            _ => self.window_x = value,
        }
    }

    /// The shades of colour table `pal_num`: table 0 is the background's, 1
    /// and 2 are the sprites'.
    pub fn shades(&self, pal_num: u8) -> (r: [u8; 4])
        requires
            pal_num <= 2,
        ensures
            r@ == if pal_num == 0 {
                self@.bg_colors
            } else if pal_num == 1 {
                self@.sp1_colors
            } else {
                self@.sp2_colors
            },
    {
        match pal_num {
            0 => self.bg_colors,
            1 => self.sp1_colors,
            _ => self.sp2_colors,
        }
    }

    /// Recomputes the shades of one colour table from `palette_data`: table 0
    /// is the background's, 1 and 2 are the sprites'.
    pub fn update_palette(&mut self, palette_data: u8, pal_num: u8)
        requires
            pal_num <= 2,
        ensures
            pal_num == 0 ==> final(self)@ == (LcdState {
                bg_colors: palette_shades(palette_data),
                ..old(self)@
            }),
            pal_num == 1 ==> final(self)@ == (LcdState {
                sp1_colors: palette_shades(palette_data),
                ..old(self)@
            }),
            pal_num == 2 ==> final(self)@ == (LcdState {
                sp2_colors: palette_shades(palette_data),
                ..old(self)@
            }),
    {
        let shades: [u8; 4] = [
            palette_data & 0b11,
            (palette_data >> 2u8) & 0b11,
            (palette_data >> 4u8) & 0b11,
            (palette_data >> 6u8) & 0b11,
        ];
        assert(shades@ =~= palette_shades(palette_data));
        match pal_num {
            0 => self.bg_colors = shades,
            1 => self.sp1_colors = shades,
            _ => self.sp2_colors = shades,
        }
    }
}

} // verus!
