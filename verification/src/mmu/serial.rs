//! The two registers of the serial link.
use vstd::prelude::*;

verus! {

/// The bits of the serial control register that are kept: the clock source,
/// the clock speed and the transfer-start bit.
pub const SERIAL_CONTROL_MASK: u8 = 0x83;

/// The mathematical model of the serial link.
pub ghost struct SerialState {
    pub data: u8,
    pub control: u8,
}

/// The control register of the serial link.
struct SerialControl {
    bits: u8,
}

impl SerialControl {
    fn from_bits_truncate(bits: u8) -> (r: SerialControl)
        ensures
            r.bits == bits & SERIAL_CONTROL_MASK,
    {
        SerialControl { bits: bits & SERIAL_CONTROL_MASK }
    }

    fn bits(&self) -> (r: u8)
        ensures
            r == self.bits,
    {
        self.bits
    }
}

/// The serial link.
pub struct Serial {
    data: u8,
    control: SerialControl,
}

impl View for Serial {
    type V = SerialState;

    closed spec fn view(&self) -> SerialState {
        SerialState { data: self.data, control: self.control.bits }
    }
}

impl Serial {
    pub fn new() -> (r: Serial)
        ensures
            r@ == (SerialState { data: 0, control: 0 }),
    {
        Serial { data: 0, control: SerialControl { bits: 0 } }
    }

    pub fn get_data(&self) -> (r: u8)
        ensures
            r == self@.data,
    {
        self.data
    }

    pub fn get_control(&self) -> (r: u8)
        ensures
            r == self@.control,
    {
        self.control.bits()
    }

    pub fn write_data(&mut self, value: u8)
        ensures
            final(self)@ == (SerialState { data: value, ..old(self)@ }),
    {
        self.data = value;
    }

    /// Writes the control register; only the bits of `SERIAL_CONTROL_MASK` are kept.
    pub fn write_control(&mut self, value: u8)
        ensures
            final(self)@ == (SerialState { control: value & SERIAL_CONTROL_MASK, ..old(self)@ }),
    {
        self.control = SerialControl::from_bits_truncate(value);
    }
}

} // verus!
