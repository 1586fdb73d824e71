//! One entry of object attribute memory.
use vstd::prelude::*;

verus! {

/// Attribute bit: the background's colours 1 to 3 cover the sprite.
pub const SPRITE_PRIORITY: u8 = 0x80;

/// Attribute bit: the sprite is mirrored vertically.
pub const SPRITE_Y_FLIP: u8 = 0x40;

/// Attribute bit: the sprite is mirrored horizontally.
pub const SPRITE_X_FLIP: u8 = 0x20;

/// Attribute bit: the sprite uses the second sprite palette.
pub const SPRITE_PALETTE: u8 = 0x10;

/// The mathematical model of a sprite: its four bytes.
pub ghost struct SpriteState {
    pub y: u8,
    pub x: u8,
    pub tile: u8,
    pub flags: u8,
}

impl SpriteState {
    /// The byte at `offset` of the entry.
    pub open spec fn byte_at(self, offset: u8) -> u8
        recommends
            offset <= 3,
    {
        if offset == 0 {
            self.y
        } else if offset == 1 {
            self.x
        } else if offset == 2 {
            self.tile
        } else {
            self.flags
        }
    }

    /// The entry with the byte at `offset` replaced.
    pub open spec fn with_byte(self, offset: u8, data: u8) -> SpriteState
        recommends
            offset <= 3,
    {
        if offset == 0 {
            SpriteState { y: data, ..self }
        } else if offset == 1 {
            SpriteState { x: data, ..self }
        } else if offset == 2 {
            SpriteState { tile: data, ..self }
        } else {
            SpriteState { flags: data, ..self }
        }
    }

    pub open spec fn priority(self) -> bool {
        self.flags & SPRITE_PRIORITY != 0
    }

    pub open spec fn y_flip(self) -> bool {
        self.flags & SPRITE_Y_FLIP != 0
    }

    pub open spec fn x_flip(self) -> bool {
        self.flags & SPRITE_X_FLIP != 0
    }

    pub open spec fn dmg_palette(self) -> bool {
        self.flags & SPRITE_PALETTE != 0
    }

    /// The entry with all four bytes zero.
    pub open spec fn zero() -> SpriteState {
        SpriteState { y: 0, x: 0, tile: 0, flags: 0 }
    }
}

/// The attribute byte of a sprite.
#[derive(Clone, Copy, Debug)]
struct SpriteFlags {
    bits: u8,
}

impl SpriteFlags {
    fn from_bits_truncate(bits: u8) -> (r: SpriteFlags)
        ensures
            r.bits == bits,
    {
        SpriteFlags { bits }
    }

    fn bits(&self) -> (r: u8)
        ensures
            r == self.bits,
    {
        self.bits
    }
}

/// One sprite: position, tile number and attributes.
#[derive(Clone, Copy, Debug)]
pub struct Sprite {
    y: u8,
    x: u8,
    tile: u8,
    flags: SpriteFlags,
}

impl View for Sprite {
    type V = SpriteState;

    closed spec fn view(&self) -> SpriteState {
        SpriteState { y: self.y, x: self.x, tile: self.tile, flags: self.flags.bits }
    }
}

impl Default for Sprite {
    fn default() -> (r: Self)
        ensures
            r@ == SpriteState::zero(),
    {
        Sprite { y: 0, x: 0, tile: 0, flags: SpriteFlags { bits: 0 } }
    }
}

impl Sprite {
    /// The byte at `offset` (0 to 3) of the entry.
    pub fn get_at_offset(&self, offset: u8) -> (r: u8)
        requires
            offset <= 3,
        ensures
            r == self@.byte_at(offset),
    {
        match offset {
            0 => self.y,
            1 => self.x,
            2 => self.tile,
            _ => self.flags.bits(),
        }
    }

    /// Replaces the byte at `offset` (0 to 3) of the entry.
    pub fn set_at_offset(&mut self, offset: u8, data: u8)
        requires
            offset <= 3,
        ensures
            final(self)@ == old(self)@.with_byte(offset, data),
    {
        match offset {
            0 => self.y = data,
            1 => self.x = data,
            2 => self.tile = data,
            _ => self.flags = SpriteFlags::from_bits_truncate(data),
        }
    }

    pub fn y(&self) -> (r: u8)
        ensures
            r == self@.y,
    {
        self.y
    }

    pub fn x(&self) -> (r: u8)
        ensures
            r == self@.x,
    {
        self.x
    }

    pub fn set_y(&mut self, data: u8)
        ensures
            final(self)@ == (SpriteState { y: data, ..old(self)@ }),
    {
        self.y = data;
    }

    pub fn set_x(&mut self, data: u8)
        ensures
            final(self)@ == (SpriteState { x: data, ..old(self)@ }),
    {
        self.x = data;
    }

    pub fn tile(&self) -> (r: u8)
        ensures
            r == self@.tile,
    {
        self.tile
    }

    pub fn set_tile(&mut self, data: u8)
        ensures
            final(self)@ == (SpriteState { tile: data, ..old(self)@ }),
    {
        self.tile = data;
    }

    pub fn flags(&self) -> (r: u8)
        ensures
            r == self@.flags,
    {
        self.flags.bits()
    }

    pub fn set_flags(&mut self, data: u8)
        ensures
            final(self)@ == (SpriteState { flags: data, ..old(self)@ }),
    {
        self.flags = SpriteFlags::from_bits_truncate(data);
    }

    pub fn priority(&self) -> (r: bool)
        ensures
            r == self@.priority(),
    {
        self.flags.bits() & SPRITE_PRIORITY != 0
    }

    pub fn y_flip(&self) -> (r: bool)
        ensures
            r == self@.y_flip(),
    {
        self.flags.bits() & SPRITE_Y_FLIP != 0
    }

    pub fn x_flip(&self) -> (r: bool)
        ensures
            r == self@.x_flip(),
    {
        self.flags.bits() & SPRITE_X_FLIP != 0
    }

    pub fn dmg_palette(&self) -> (r: bool)
        ensures
            r == self@.dmg_palette(),
    {
        self.flags.bits() & SPRITE_PALETTE != 0
    }
}

/// An array of `N` sprites with all bytes zero.
pub(super) fn zero_sprites<const N: usize>() -> (r: [Sprite; N])
    ensures
        forall|i: int| 0 <= i < N ==> (#[trigger] r@[i])@ == SpriteState::zero(),
{
    let zero = Sprite::default();
    let mut sprites = [zero;N];
    let mut k: usize = 0;
    while k < N
        invariant
            k <= N,
            zero@ == SpriteState::zero(),
            forall|i: int| 0 <= i < k ==> (#[trigger] sprites@[i])@ == SpriteState::zero(),
        decreases N - k,
    {
        sprites[k] = zero;
        k += 1;
    }
    sprites
}

/// The mathematical model of a sprite picked for a scanline.
pub ghost struct SelectedState {
    pub sprite: SpriteState,
    /// Position of the sprite in object attribute memory.
    pub index: u8,
}

/// A sprite picked for a scanline, with its position in object attribute memory.
#[derive(Clone, Copy, Debug)]
pub struct SelectedSprite {
    sprite: Sprite,
    index: u8,
}

impl View for SelectedSprite {
    type V = SelectedState;

    closed spec fn view(&self) -> SelectedState {
        SelectedState { sprite: self.sprite@, index: self.index }
    }
}

impl SelectedSprite {
    pub fn new(sprite: Sprite, index: u8) -> (r: SelectedSprite)
        ensures
            r@ == (SelectedState { sprite: sprite@, index }),
    {
        SelectedSprite { sprite, index }
    }

    pub fn sprite(&self) -> (r: Sprite)
        ensures
            r@ == self@.sprite,
    {
        self.sprite
    }

    pub fn index(&self) -> (r: u8)
        ensures
            r == self@.index,
    {
        self.index
    }
}

} // verus!
