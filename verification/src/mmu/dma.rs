//! The state of a block transfer into object attribute memory.
use vstd::prelude::*;

verus! {

/// Number of bytes that one transfer copies.
pub const DMA_LENGTH: u8 = 0xA0;

/// The mathematical model of the transfer unit.
pub ghost struct DmaState {
    /// Offset of the next byte to copy.
    pub address_byte: u8,
    /// High byte of the source address.
    pub value: u8,
    /// Machine cycles to wait before the first byte is copied.
    pub start_delay: u8,
    pub in_transfer: bool,
}

impl DmaState {
    /// While a transfer runs, the next offset lies inside the block.
    pub open spec fn wf(self) -> bool {
        self.in_transfer ==> self.address_byte < DMA_LENGTH
    }

    /// The unit after a transfer from page `start` has been asked for.
    pub open spec fn start(self, start: u8) -> DmaState {
        DmaState { address_byte: 0, value: start, start_delay: 2, in_transfer: true }
    }

    /// The unit at rest.
    pub open spec fn idle() -> DmaState {
        DmaState { address_byte: 0, value: 0, start_delay: 0, in_transfer: false }
    }
}

/// The transfer unit.
pub struct OamDma {
    pub(super) address_byte: u8,
    pub(super) value: u8,
    pub(super) start_delay: u8,
    pub(super) in_transfer: bool,
}

impl Default for OamDma {
    fn default() -> (r: Self)
        ensures
            r@ == DmaState::idle(),
    {
        OamDma { address_byte: 0, value: 0, start_delay: 0, in_transfer: false }
    }
}

impl OamDma {
    /// Starts a transfer from page `start`.
    pub fn dma_start(&mut self, start: u8)
        ensures
            final(self)@ == old(self)@.start(start),
            final(self)@.wf(),
    {
        self.address_byte = 0;
        self.start_delay = 2;
        self.in_transfer = true;
        self.value = start;
    }

    /// Whether a transfer runs.
    pub fn in_transfer(&self) -> (r: bool)
        ensures
            r == self@.in_transfer,
    {
        self.in_transfer
    }

    /// What a read of the transfer register returns: the offset of the next byte.
    pub fn read_register(&self) -> (r: u8)
        ensures
            r == self@.address_byte,
    {
        self.address_byte
    }
}

} // verus!
