//! The button register.
use vstd::prelude::*;

verus! {

/// The eight buttons.
#[derive(Copy, Clone, PartialEq, Eq, Structural, Debug)]
pub enum JoypadButtons {
    Start,
    Select,
    B,
    A,
    Down,
    Up,
    Left,
    Right,
}

impl JoypadButtons {
    /// The bit that stands for the button in the button set.
    pub open spec fn mask(self) -> u8 {
        match self {
            JoypadButtons::Start => 0x80,
            JoypadButtons::Select => 0x40,
            JoypadButtons::B => 0x20,
            JoypadButtons::A => 0x10,
            JoypadButtons::Down => 0x08,
            JoypadButtons::Up => 0x04,
            JoypadButtons::Left => 0x02,
            JoypadButtons::Right => 0x01,
        }
    }
}

/// A set of buttons, one bit each.
struct Buttons {
    bits: u8,
}

impl Buttons {
    fn from(button: JoypadButtons) -> (r: Buttons)
        ensures
            r.bits == button.mask(),
    {
        match button {
            JoypadButtons::Start => Buttons { bits: 0x80 },
            JoypadButtons::Select => Buttons { bits: 0x40 },
            JoypadButtons::B => Buttons { bits: 0x20 },
            JoypadButtons::A => Buttons { bits: 0x10 },
            JoypadButtons::Down => Buttons { bits: 0x08 },
            JoypadButtons::Up => Buttons { bits: 0x04 },
            JoypadButtons::Left => Buttons { bits: 0x02 },
            JoypadButtons::Right => Buttons { bits: 0x01 },
        }
    }

    fn bits(&self) -> (r: u8)
        ensures
            r == self.bits,
    {
        self.bits
    }

    fn insert(&mut self, other: Buttons)
        ensures
            final(self).bits == old(self).bits | other.bits,
    {
        self.bits = self.bits | other.bits;
    }

    fn remove(&mut self, other: Buttons)
        ensures
            final(self).bits == old(self).bits & !other.bits,
    {
        self.bits = self.bits & !other.bits;
    }
}

/// The mathematical model of the button register.
pub ghost struct JoypadState {
    pub button_select: bool,
    pub direction_select: bool,
    /// One bit per button; a pressed button has its bit clear.
    pub buttons: u8,
}

impl JoypadState {
    /// What a read of the register returns: 0xCF, masked by the complement of
    /// the action half of the button set unless `button_select` holds, and by
    /// the complement of the whole set unless `direction_select` holds.
    pub open spec fn read(self) -> u8 {
        let first: u8 = if !self.button_select {
            0xCFu8 & (!self.buttons >> 4u8)
        } else {
            0xCFu8
        };
        if !self.direction_select {
            first & !self.buttons
        } else {
            first
        }
    }

    /// The register after a write of `value`: each select flag holds when its
    /// bit in `value` is clear.
    pub open spec fn write(self, value: u8) -> JoypadState {
        JoypadState {
            button_select: (value >> 5u8) & 1 == 0,
            direction_select: (value >> 4u8) & 1 == 0,
            ..self
        }
    }

    /// The register after `button` went down.
    pub open spec fn press(self, button: JoypadButtons) -> JoypadState {
        JoypadState { buttons: self.buttons & !button.mask(), ..self }
    }

    /// The register after `button` came up.
    pub open spec fn release(self, button: JoypadButtons) -> JoypadState {
        JoypadState { buttons: self.buttons | button.mask(), ..self }
    }

    /// The register at power-on.
    pub open spec fn initial() -> JoypadState {
        JoypadState { button_select: true, direction_select: true, buttons: 0 }
    }
}

/// The button register.
pub struct JoyPad {
    button_select: bool,
    direction_select: bool,
    buttons: Buttons,
}

impl View for JoyPad {
    type V = JoypadState;

    closed spec fn view(&self) -> JoypadState {
        JoypadState {
            button_select: self.button_select,
            direction_select: self.direction_select,
            buttons: self.buttons.bits,
        }
    }
}

impl Default for JoyPad {
    fn default() -> (r: Self)
        ensures
            r@ == JoypadState::initial(),
    {
        JoyPad { button_select: true, direction_select: true, buttons: Buttons { bits: 0 } }
    }
}

impl JoyPad {
    pub fn button_select(&self) -> (r: bool)
        ensures
            r == self@.button_select,
    {
        self.button_select
    }

    pub fn direction_select(&self) -> (r: bool)
        ensures
            r == self@.direction_select,
    {
        self.direction_select
    }

    pub fn read_joypad(&self) -> (r: u8)
        ensures
            r == self@.read(),
    {
        let mut output: u8 = 0xCF;
        if !self.button_select {
            output = output & (!self.buttons.bits() >> 4u8);
        }
        if !self.direction_select() {
            output = output & !self.buttons.bits();
        }
        output
    }

    pub fn write_joypad(&mut self, value: u8)
        ensures
            final(self)@ == old(self)@.write(value),
    {
        self.button_select = ((value >> 5u8) & 1) == 0;
        self.direction_select = ((value >> 4u8) & 1) == 0;
    }

    pub fn press_joypad(&mut self, button: JoypadButtons)
        ensures
            final(self)@ == old(self)@.press(button),
    {
        self.buttons.remove(Buttons::from(button))
    }

    pub fn release_joypad(&mut self, button: JoypadButtons)
        ensures
            final(self)@ == old(self)@.release(button),
    {
        self.buttons.insert(Buttons::from(button))
    }
}

} // verus!
