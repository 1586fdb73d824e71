//! The pixel pipeline: video memory, object attribute memory, the display
//! registers, the tile fetcher with its pixel queue, and the picture.
use vstd::prelude::*;
use arrayvec::ArrayVec;

pub mod fifo;
pub mod frame;
pub mod lcd;
pub mod pipeline;
pub mod sprite;

use fifo::{FetchState, PixelFifo};
use lcd::{Lcd, LcdState, is_lcd_register};
use sprite::{SelectedSprite, SelectedState, Sprite, SpriteState};
use crate::mmu::interrupts::Interrupts;

verus! {

/// Number of bytes of video memory.
pub const VRAM_SIZE: usize = 0x2000;

/// First address of video memory.
pub const VRAM_START: u16 = 0x8000;

/// Last address of video memory.
pub const VRAM_END: u16 = 0x9FFF;

/// Number of sprites in object attribute memory.
pub const OAM_SPRITES: usize = 40;

/// Number of bytes in object attribute memory.
pub const OAM_BYTES: u16 = 160;

/// Number of sprites that one scanline shows at most.
pub const MAX_SELECTED: usize = 10;

/// Number of sprites that one tile column blends at most.
pub const MAX_FETCHED: usize = 3;

/// Number of pixels of the picture.
pub const PICTURE_SIZE: usize = 23040;

/// Number of scanlines of one frame, the invisible ones included.
pub const LINES_PER_FRAME: u8 = 154;

/// Number of ticks that one scanline takes.
pub const TICKS_PER_LINE: u32 = 456;

/// Number of ticks that the sprite search at the start of a scanline takes.
pub const OAM_SCAN_TICKS: u32 = 80;

/// `arrayvec::ArrayVec`: a list of at most `CAP` items that is stored in
/// place. Nothing is known of a list but what the four functions below say.
#[verifier::external_type_specification]
#[verifier::external_body]
#[verifier::reject_recursive_types(T)]
pub struct ExArrayVec<T, const CAP: usize>(ArrayVec<T, CAP>);

/// The sprites that a list of picked sprites holds, in its order.
pub uninterp spec fn selected_items(v: ArrayVec<SelectedSprite, 10>) -> Seq<SelectedSprite>;

/// `ArrayVec::new`: the new list holds nothing.
#[verifier::external_body]
fn selected_new() -> (v: ArrayVec<SelectedSprite, 10>)
    ensures
        selected_items(v) == Seq::<SelectedSprite>::empty(),
{
    ArrayVec::new()
}

/// `ArrayVec::len`: the number of sprites held.
#[verifier::external_body]
fn selected_len(v: &ArrayVec<SelectedSprite, 10>) -> (n: usize)
    ensures
        n == selected_items(*v).len(),
{
    v.len()
}

/// `ArrayVec::insert`: `element` takes position `index` and what stood at or
/// after it moves up by one. The list must not be full and `index` must not
/// lie beyond its end.
#[verifier::external_body]
fn selected_insert(v: &mut ArrayVec<SelectedSprite, 10>, index: usize, element: SelectedSprite)
    requires
        index <= selected_items(*old(v)).len(),
        selected_items(*old(v)).len() < 10,
    ensures
        selected_items(*final(v)) == selected_items(*old(v)).insert(index as int, element),
{
    v.insert(index, element)
}

/// Indexing an `ArrayVec` through its slice: the sprite at position `index`.
#[verifier::external_body]
fn selected_get(v: &ArrayVec<SelectedSprite, 10>, index: usize) -> (r: SelectedSprite)
    requires
        index < selected_items(*v).len(),
    ensures
        r == selected_items(*v)[index as int],
{
    v[index]
}

/// The mathematical model of the pixel pipeline.
pub ghost struct PpuState {
    pub vram: Seq<u8>,
    pub oam: Seq<SpriteState>,
    /// The sprites picked for the current scanline, by ascending x.
    pub selected: Seq<SelectedState>,
    pub sprite_count: u8,
    /// The sprites that overlap the tile column being fetched.
    pub fetched_sprites: Seq<SpriteState>,
    pub fetched_sprite_count: u8,
    pub current_frame: u32,
    /// The line of the window that is drawn next.
    pub window_line: u8,
    /// Ticks spent on the current scanline.
    pub line_ticks: u32,
    /// The background queue, oldest pixel first.
    pub bg_fifo: Seq<(u8, bool, bool)>,
    /// The sprite queue, oldest pixel first.
    pub sp_fifo: Seq<(u8, bool, bool)>,
    pub fetch_state: FetchState,
    pub line_x: u8,
    pub push_x: u8,
    pub fetch_x: u8,
    pub bgw_fetch_data: Seq<u8>,
    pub fetch_sprite_data: Seq<u8>,
    pub fifo_sprite_count: u8,
    pub map_x: u8,
    pub map_y: u8,
    pub tile_x: u8,
    pub tile_y: u8,
    pub fifo_x: u8,
    pub lcd: LcdState,
    /// The picture: one shade per pixel, row by row.
    pub video_buffer: Seq<u8>,
}

impl PpuState {
    /// The sizes are right, the scanline is one of the frame's 154, the
    /// visible phases run on visible lines only, and while pixels are
    /// transferred the next pixel lies on the line.
    pub open spec fn wf(self) -> bool {
        &&& self.sized()
        &&& self.lcd.ly < LINES_PER_FRAME
        &&& self.lcd.mode() != 1 ==> self.lcd.ly < crate::YRES
        &&& self.lcd.mode() == 3 ==> self.push_x < crate::XRES
        &&& self.window_line <= self.lcd.ly
    }

    /// The memories, tables and queues have their sizes, and the counts stay
    /// inside them.
    pub open spec fn sized(self) -> bool {
        &&& self.vram.len() == VRAM_SIZE
        &&& self.oam.len() == OAM_SPRITES
        &&& self.selected.len() <= MAX_SELECTED
        &&& self.fetched_sprites.len() == MAX_FETCHED
        &&& self.fetched_sprite_count <= MAX_FETCHED
        &&& self.bg_fifo.len() <= fifo::FIFO_CAPACITY
        &&& self.sp_fifo.len() <= fifo::FIFO_CAPACITY
        &&& self.bgw_fetch_data.len() == 3
        &&& self.fetch_sprite_data.len() == 6
        &&& self.video_buffer.len() == PICTURE_SIZE
        &&& self.lcd.wf()
    }

    /// What a read of video memory at `address` returns.
    pub open spec fn read_vram(self, address: u16) -> u8
        recommends
            VRAM_START <= address <= VRAM_END,
    {
        self.vram[address - VRAM_START]
    }

    /// The pipeline after a write to video memory.
    pub open spec fn write_vram(self, address: u16, value: u8) -> PpuState
        recommends
            VRAM_START <= address <= VRAM_END,
    {
        PpuState { vram: self.vram.update(address - VRAM_START, value), ..self }
    }

    /// What a read of object attribute memory returns; only the low byte of
    /// `address` counts.
    pub open spec fn read_oam(self, address: u16) -> u8
        recommends
            address % 256 < OAM_BYTES,
    {
        self.oam[((address % 256) / 4) as int].byte_at(((address % 256) % 4) as u8)
    }

    /// The pipeline after a write to object attribute memory; only the low
    /// byte of `address` counts.
    pub open spec fn write_oam(self, address: u16, data: u8) -> PpuState
        recommends
            address % 256 < OAM_BYTES,
    {
        let index = ((address % 256) / 4) as int;
        PpuState {
            oam: self.oam.update(
                index,
                self.oam[index].with_byte(((address % 256) % 4) as u8, data),
            ),
            ..self
        }
    }

    /// The pipeline after a write to a display register.
    pub open spec fn write_lcd(self, address: u16, value: u8) -> PpuState {
        PpuState { lcd: self.lcd.write(address, value), ..self }
    }

    /// The pipeline at power-on, around the given display registers.
    pub open spec fn initial(lcd: LcdState, line_ticks: u32) -> PpuState {
        PpuState {
            vram: Seq::new(VRAM_SIZE as nat, |i: int| 0u8),
            oam: Seq::new(OAM_SPRITES as nat, |i: int| SpriteState::zero()),
            selected: Seq::empty(),
            sprite_count: 0,
            fetched_sprites: Seq::new(MAX_FETCHED as nat, |i: int| SpriteState::zero()),
            fetched_sprite_count: 0,
            current_frame: 0,
            window_line: 0,
            line_ticks,
            bg_fifo: Seq::empty(),
            sp_fifo: Seq::empty(),
            fetch_state: FetchState::TileNum,
            line_x: 0,
            push_x: 0,
            fetch_x: 0,
            bgw_fetch_data: seq![0u8, 0u8, 0u8],
            fetch_sprite_data: seq![0u8, 0u8, 0u8, 0u8, 0u8, 0u8],
            fifo_sprite_count: 0,
            map_x: 0,
            map_y: 0,
            tile_x: 0,
            tile_y: 0,
            fifo_x: 0,
            lcd,
            video_buffer: Seq::new(PICTURE_SIZE as nat, |i: int| 0u8),
        }
    }
}

/// A write to a display register keeps a well-formed pipeline well-formed.
pub proof fn lemma_write_lcd_wf(s: PpuState, address: u16, value: u8)
    requires
        s.wf(),
    ensures
        s.write_lcd(address, value).wf(),
{
    lcd::lemma_write_keeps_phase(s.lcd, address, value);
}

impl View for Lcd {
    type V = LcdState;

    closed spec fn view(&self) -> LcdState {
        LcdState {
            control: self.lcd_control@,
            status: self.lcd_status@,
            scroll_y: self.scroll_y,
            scroll_x: self.scroll_x,
            ly: self.ly,
            ly_compare: self.ly_compare,
            bg_palette: self.dmg_bg_palette,
            sprite_palette0: self.dmg_sprite_palette@[0],
            sprite_palette1: self.dmg_sprite_palette@[1],
            window_y: self.window_y,
            window_x: self.window_x,
            bg_colors: self.bg_colors@,
            sp1_colors: self.sp1_colors@,
            sp2_colors: self.sp2_colors@,
        }
    }
}

/// The models of a sequence of sprites.
pub open spec fn sprites_model(sprites: Seq<Sprite>) -> Seq<SpriteState> {
    Seq::new(sprites.len(), |i: int| sprites[i]@)
}

/// The models of a sequence of picked sprites.
pub open spec fn selected_model(items: Seq<SelectedSprite>) -> Seq<SelectedState> {
    Seq::new(items.len(), |i: int| items[i]@)
}

/// The pixel pipeline.
pub struct PPU {
    vram: [u8; 0x2000],
    oam: [Sprite; 40],
    selected_oam: ArrayVec<SelectedSprite, 10>,
    sprite_count: u8,
    fetched_sprites: [Sprite; 3],
    fetched_sprite_count: u8,
    current_frame: u32,
    window_line: u8,
    line_ticks: u32,
    pixel_fifo: PixelFifo,
    lcd: Lcd,
    video_buffer: [u8; 23040],
}

impl View for PPU {
    type V = PpuState;

    closed spec fn view(&self) -> PpuState {
        PpuState {
            vram: self.vram@,
            oam: sprites_model(self.oam@),
            selected: selected_model(selected_items(self.selected_oam)),
            sprite_count: self.sprite_count,
            fetched_sprites: sprites_model(self.fetched_sprites@),
            fetched_sprite_count: self.fetched_sprite_count,
            current_frame: self.current_frame,
            window_line: self.window_line,
            line_ticks: self.line_ticks,
            bg_fifo: self.pixel_fifo.bgfifo@,
            sp_fifo: self.pixel_fifo.spfifo@,
            fetch_state: self.pixel_fifo.current_state,
            line_x: self.pixel_fifo.line_x,
            push_x: self.pixel_fifo.push_x,
            fetch_x: self.pixel_fifo.fetch_x,
            bgw_fetch_data: self.pixel_fifo.bgw_fetch_data@,
            fetch_sprite_data: self.pixel_fifo.fetch_sprite_data@,
            fifo_sprite_count: self.pixel_fifo.sprite_count,
            map_x: self.pixel_fifo.map_x,
            map_y: self.pixel_fifo.map_y,
            tile_x: self.pixel_fifo.tile_x,
            tile_y: self.pixel_fifo.tile_y,
            fifo_x: self.pixel_fifo.fifo_x,
            lcd: self.lcd@,
            video_buffer: self.video_buffer@,
        }
    }
}

impl Default for PPU {
    /// The pipeline as the boot program leaves it: late in a scanline, with
    /// the three palettes written.
    fn default() -> (r: Self)
        ensures
            r@ == PpuState::initial(LcdState::initial(0), 400).write_lcd(0xFF47, 0xFC).write_lcd(
                0xFF48,
                0xFF,
            ).write_lcd(0xFF49, 0xFF),
            r@.wf(),
    {
        let mut ppu = PPU::blank(Lcd::default(), 400);
        proof {
            lemma_initial_wf(LcdState::initial(0), 400);
            lemma_write_lcd_wf(ppu@, 0xFF47, 0xFC);
            lemma_write_lcd_wf(ppu@.write_lcd(0xFF47, 0xFC), 0xFF48, 0xFF);
            lemma_write_lcd_wf(ppu@.write_lcd(0xFF47, 0xFC).write_lcd(0xFF48, 0xFF), 0xFF49, 0xFF);
        }
        ppu.write_lcd(0xFF47, 0xFC);
        ppu.write_lcd(0xFF48, 0xFF);
        ppu.write_lcd(0xFF49, 0xFF);
        ppu
    }
}

/// A model that agrees with the initial one field by field equals it.
proof fn lemma_initial(s: PpuState, lcd: LcdState, line_ticks: u32)
    requires
        s.vram.len() == VRAM_SIZE,
        forall|i: int| 0 <= i < VRAM_SIZE ==> s.vram[i] == 0,
        s.oam.len() == OAM_SPRITES,
        forall|i: int| 0 <= i < OAM_SPRITES ==> s.oam[i] == SpriteState::zero(),
        s.fetched_sprites.len() == MAX_FETCHED,
        forall|i: int| 0 <= i < MAX_FETCHED ==> s.fetched_sprites[i] == SpriteState::zero(),
        s.video_buffer.len() == PICTURE_SIZE,
        forall|i: int| 0 <= i < PICTURE_SIZE ==> s.video_buffer[i] == 0,
        s.selected.len() == 0,
        s.bg_fifo.len() == 0,
        s.sp_fifo.len() == 0,
        s.bgw_fetch_data == seq![0u8, 0u8, 0u8],
        s.fetch_sprite_data == seq![0u8, 0u8, 0u8, 0u8, 0u8, 0u8],
        s.sprite_count == 0,
        s.fetched_sprite_count == 0,
        s.current_frame == 0,
        s.window_line == 0,
        s.line_ticks == line_ticks,
        s.fetch_state == FetchState::TileNum,
        s.line_x == 0,
        s.push_x == 0,
        s.fetch_x == 0,
        s.fifo_sprite_count == 0,
        s.map_x == 0,
        s.map_y == 0,
        s.tile_x == 0,
        s.tile_y == 0,
        s.fifo_x == 0,
        s.lcd == lcd,
    ensures
        s == PpuState::initial(lcd, line_ticks),
{
    let t = PpuState::initial(lcd, line_ticks);
    assert(s.vram =~= t.vram);
    assert(s.oam =~= t.oam);
    assert(s.fetched_sprites =~= t.fetched_sprites);
    assert(s.video_buffer =~= t.video_buffer);
    assert(s.selected =~= t.selected);
    assert(s.bg_fifo =~= t.bg_fifo);
    assert(s.sp_fifo =~= t.sp_fifo);
}

/// The initial pipeline is well-formed.
pub proof fn lemma_initial_wf(lcd: LcdState, line_ticks: u32)
    requires
        lcd == LcdState::initial(0) || lcd == LcdState::initial(0x91),
    ensures
        PpuState::initial(lcd, line_ticks).wf(),
{
    assert(4u8 & 0b11 == 0) by (bit_vector);
}

impl PPU {
    /// The pipeline at power-on.
    pub fn new() -> (r: PPU)
        ensures
            r@ == PpuState::initial(LcdState::initial(0x91), 0),
            r@.wf(),
    {
        proof {
            lemma_initial_wf(LcdState::initial(0x91), 0);
        }
        PPU::blank(Lcd::new(), 0)
    }

    /// A pipeline with cleared memories around the given display registers.
    fn blank(lcd: Lcd, line_ticks: u32) -> (r: PPU)
        ensures
            r@ == PpuState::initial(lcd@, line_ticks),
    {
        let ppu = PPU {
            vram: [0;0x2000],
            oam: sprite::zero_sprites::<40>(),
            selected_oam: selected_new(),
            sprite_count: 0,
            fetched_sprites: sprite::zero_sprites::<3>(),
            fetched_sprite_count: 0,
            current_frame: 0,
            window_line: 0,
            line_ticks,
            pixel_fifo: PixelFifo::fresh(),
            lcd,
            video_buffer: [0;23040],
        };
        proof {
            lemma_initial(ppu@, lcd@, line_ticks);
        }
        ppu
    }

    /// Reads a byte of video memory.
    pub fn read_vram(&self, address: u16) -> (r: u8)
        requires
            VRAM_START <= address <= VRAM_END,
        ensures
            r == self@.read_vram(address),
    {
        self.vram[(address - 0x8000) as usize]
    }

    /// Writes a byte of video memory.
    pub fn write_vram(&mut self, address: u16, value: u8)
        requires
            VRAM_START <= address <= VRAM_END,
        ensures
            final(self)@ == old(self)@.write_vram(address, value),
            old(self)@.wf() ==> final(self)@.wf(),
    {
        self.vram[(address - 0x8000) as usize] = value;
    }

    /// Reads a byte of object attribute memory; only the low byte of
    /// `address` counts.
    pub fn read_oam(&self, address: u16) -> (r: u8)
        requires
            address % 256 < OAM_BYTES,
        ensures
            r == self@.read_oam(address),
    {
        let index = (address % 256) as usize;
        self.oam[index / 4].get_at_offset((index % 4) as u8)
    }

    /// Writes a byte of object attribute memory; only the low byte of
    /// `address` counts.
    pub fn write_oam(&mut self, address: u16, data: u8)
        requires
            address % 256 < OAM_BYTES,
        ensures
            final(self)@ == old(self)@.write_oam(address, data),
            old(self)@.wf() ==> final(self)@.wf(),
    {
        let index = (address % 256) as usize;
        let mut sprite = self.oam[index / 4];
        sprite.set_at_offset((index % 4) as u8, data);
        self.oam[index / 4] = sprite;
        proof {
            let i = (address % 256) / 4;
            assert(self@.oam =~= old(self)@.oam.update(
                i as int,
                old(self)@.oam[i as int].with_byte(((address % 256) % 4) as u8, data),
            ));
        }
    }

    /// Reads a display register.
    pub fn read_lcd(&self, address: u16) -> (r: u8)
        requires
            is_lcd_register(address),
        ensures
            r == self@.lcd.read(address),
    {
        self.lcd.lcd_read(address)
    }

    /// Writes a display register.
    pub fn write_lcd(&mut self, address: u16, value: u8)
        requires
            is_lcd_register(address),
        ensures
            final(self)@ == old(self)@.write_lcd(address, value),
            old(self)@.wf() ==> final(self)@.wf(),
    {
        proof {
            if self@.wf() {
                lemma_write_lcd_wf(self@, address, value);
            }
        }
        self.lcd.lcd_write(address, value);
    }

    /// Advances the pipeline by one hardware tick.
    pub fn ppu_ticks(&mut self, interrupt: &mut Interrupts)
        requires
            old(self)@.wf(),
        ensures
            (final(self)@, final(interrupt)@) == old(self)@.tick(old(interrupt)@),
            final(self)@.wf(),
    {
        proof {
            lcd::lemma_status_updates(self@.lcd, 0, true);
        }
        self.line_ticks = self.line_ticks.wrapping_add(1);
        match self.lcd.lcd_status.current_mode() {
            0 => lcd::state_machine::mode_hblank(self, interrupt),
            1 => lcd::state_machine::mode_vblank(self, interrupt),
            2 => lcd::state_machine::mode_oam(self),
            _ => lcd::state_machine::mode_transfer(self, interrupt),
        }
    }

    /// The number of frames completed, modulo 2^32.
    pub fn current_frame(&self) -> (r: u32)
        ensures
            r == self@.current_frame,
    {
        self.current_frame
    }

    /// The shade of the pixel at column `x` of row `y` of the picture.
    pub fn pixel(&self, x: usize, y: usize) -> (r: u8)
        requires
            x < crate::XRES,
            y < crate::YRES,
        ensures
            r == self@.video_buffer[x + y * crate::XRES],
    {
        self.video_buffer[x + y * 160]
    }
}

} // verus!
