//! A cycle-level core for an 8-bit handheld console: the processor, the memory
//! bus, the timer, the interrupt controller and the pixel pipeline.
//!
//! Every component keeps its state private and exposes a mathematical model
//! of it through `view()`; the contracts of the executable functions relate
//! the model after a call to the model before it.
use vstd::prelude::*;

pub mod bits;
pub mod cartridge;
pub mod cpu;
pub mod dbg;
pub mod instruction;
pub mod joypad;
pub mod mmu;
pub mod ppu;
pub mod screen;
pub mod timer;

verus! {

/// Width of the visible picture in pixels.
pub const XRES: usize = 160;

/// Height of the visible picture in pixels.
pub const YRES: usize = 144;

} // verus!
