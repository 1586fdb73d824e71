//! The timer: a free-running divider, and a counter that advances on the
//! falling edge of one selected divider bit and raises an interrupt one tick
//! after it has wrapped.
use vstd::prelude::*;
use crate::bits::{high_byte, lemma_mask_u8, lemma_mask_u16};
use crate::mmu::interrupts::{Interrupts, InterruptsState, InterruptType};

verus! {

/// The bits of the control register that are kept: the enable bit, the two
/// frequency bits and the three unused high bits.
pub const TIMER_CONTROL_MASK: u8 = 0xE7;

/// Address of the divider register.
pub const DIVIDER_REGISTER: u16 = 0xFF04;

/// Address of the counter register.
pub const COUNTER_REGISTER: u16 = 0xFF05;

/// Address of the modulo register.
pub const MODULO_REGISTER: u16 = 0xFF06;

/// Address of the control register.
pub const CONTROL_REGISTER: u16 = 0xFF07;

/// The mathematical model of the timer.
pub ghost struct TimerState {
    pub divider: u16,
    pub counter: u8,
    pub modulo: u8,
    pub control: u8,
    pub interrupt_next: bool,
    pub during_interrupt: bool,
}

impl TimerState {
    /// The counter is running.
    pub open spec fn enabled(self) -> bool {
        self.control & 0x04 != 0
    }

    /// The position of the divider bit that the frequency bits select.
    pub open spec fn selected_index(self) -> u16 {
        let freq = self.control & 0x03;
        if freq == 0 {
            9
        } else if freq == 1 {
            3
        } else if freq == 2 {
            5
        } else {
            7
        }
    }

    /// The value of the selected divider bit.
    pub open spec fn selected_bit(self) -> bool {
        (self.divider >> self.selected_index()) & 1 == 1
    }

    /// The timer after the counter has advanced by one; a wrap to zero
    /// schedules the interrupt for the next tick.
    pub open spec fn increment(self) -> TimerState {
        let counter: u8 = if self.counter == 0xFF {
            0
        } else {
            (self.counter + 1) as u8
        };
        TimerState { counter, interrupt_next: counter == 0, ..self }
    }

    /// The timer after a write to the divider register: the divider is zero,
    /// and the counter has advanced if that made the selected bit fall.
    pub open spec fn write_div(self) -> TimerState {
        let reset = TimerState { divider: 0, ..self };
        if self.selected_bit() && !reset.selected_bit() {
            reset.increment()
        } else {
            reset
        }
    }

    /// The timer after a write to the counter register: a scheduled interrupt
    /// is dropped, and in the tick of a reload the modulo wins over `data`.
    pub open spec fn write_counter(self, data: u8) -> TimerState {
        TimerState {
            interrupt_next: false,
            counter: if self.during_interrupt {
                self.modulo
            } else {
                data
            },
            ..self
        }
    }

    /// The timer after a write to the modulo register: in the tick of a reload
    /// the counter takes the new modulo too.
    pub open spec fn write_modulo(self, data: u8) -> TimerState {
        TimerState {
            modulo: data,
            counter: if self.during_interrupt {
                data
            } else {
                self.counter
            },
            ..self
        }
    }

    /// The timer after a write to the control register: the counter advances
    /// if the write makes the gated selected bit fall.
    pub open spec fn write_control(self, data: u8) -> TimerState {
        let next = TimerState { control: data & TIMER_CONTROL_MASK, ..self };
        let old_bit = self.enabled() && self.selected_bit();
        let new_bit = next.enabled() && next.selected_bit();
        if old_bit && !new_bit {
            next.increment()
        } else {
            next
        }
    }

    /// The timer with the divider advanced by one, wrapping at 16 bits.
    pub open spec fn advance(self) -> TimerState {
        TimerState {
            divider: if self.divider == 0xFFFF {
                0
            } else {
                (self.divider + 1) as u16
            },
            ..self
        }
    }

    /// The first half of a tick: a scheduled interrupt is raised and the
    /// counter reloaded from the modulo.
    pub open spec fn deliver(self, irq: InterruptsState) -> (TimerState, InterruptsState) {
        if self.interrupt_next {
            (
                TimerState {
                    interrupt_next: false,
                    counter: self.modulo,
                    during_interrupt: true,
                    ..self
                },
                irq.request(InterruptType::Timer),
            )
        } else {
            (TimerState { during_interrupt: false, ..self }, irq)
        }
    }

    /// One hardware tick.
    pub open spec fn tick(self, irq: InterruptsState) -> (TimerState, InterruptsState) {
        let (before, irq_after) = self.deliver(irq);
        let after = before.advance();
        if before.enabled() && before.selected_bit() && !after.selected_bit() {
            (after.increment(), irq_after)
        } else {
            (after, irq_after)
        }
    }

    /// What a read of the register at `address` returns.
    pub open spec fn read(self, address: u16) -> u8
        recommends
            DIVIDER_REGISTER <= address <= CONTROL_REGISTER,
    {
        if address == DIVIDER_REGISTER {
            high_byte(self.divider)
        } else if address == COUNTER_REGISTER {
            self.counter
        } else if address == MODULO_REGISTER {
            self.modulo
        } else {
            self.control
        }
    }

    /// The timer as it stands after the boot program.
    pub open spec fn after_boot() -> TimerState {
        TimerState {
            divider: 0xABCC,
            counter: 0,
            modulo: 0,
            control: 0,
            interrupt_next: false,
            during_interrupt: false,
        }
    }
}

/// The divider register reads as zero right after any write to it.
pub proof fn lemma_divider_reads_zero_after_write(t: TimerState)
    ensures
        t.write_div().divider == 0,
        t.write_div().read(DIVIDER_REGISTER) == 0,
{
}

/// A counter that wraps raises its interrupt one tick late: when the counter
/// holds 0xFF, the timer runs and the selected divider bit falls on the next
/// tick, then after that tick the counter is zero and no request was made by
/// it, and after one more tick the timer interrupt is requested and the
/// counter holds the modulo.
pub proof fn lemma_overflow_interrupt_is_deferred(t: TimerState, irq: InterruptsState)
    requires
        t.enabled(),
        t.counter == 0xFF,
        !t.interrupt_next,
        t.selected_bit(),
        !t.advance().selected_bit(),
    ensures
        t.tick(irq).0.counter == 0,
        t.tick(irq).1 == irq,
        t.tick(irq).0.tick(t.tick(irq).1).1 == irq.request(InterruptType::Timer),
        t.tick(irq).0.tick(t.tick(irq).1).1.requested & 0x04 != 0,
        t.tick(irq).0.tick(t.tick(irq).1).0.counter == t.modulo,
{
    crate::mmu::interrupts::lemma_request(irq, InterruptType::Timer, InterruptType::Timer);
    let (t1, i1) = t.tick(irq);
    assert(t1.counter == 0);
    assert(t1.interrupt_next);
    assert(!t1.selected_bit());
}

/// In the tick in which the counter is reloaded, a write to the counter
/// register leaves the modulo in the counter, whatever was written.
pub proof fn lemma_write_during_reload(t: TimerState, irq: InterruptsState, data: u8)
    requires
        t.interrupt_next,
    ensures
        t.deliver(irq).0.counter == t.modulo,
        t.deliver(irq).0.during_interrupt,
        t.deliver(irq).1 == irq.request(InterruptType::Timer),
        t.deliver(irq).0.write_counter(data).counter == t.modulo,
{
}

/// An interrupt is requested by a tick only if the counter wrapped before
/// it: without a scheduled interrupt the request register is not touched.
pub proof fn lemma_no_request_without_wrap(t: TimerState, irq: InterruptsState)
    requires
        !t.interrupt_next,
    ensures
        t.tick(irq).1 == irq,
{
}

/// At the fastest rate the selected divider bit falls exactly when the low
/// four bits of the divider are all set.
pub proof fn lemma_fastest_rate_edge(t: TimerState)
    requires
        t.control & 0x03 == 1,
    ensures
        (t.selected_bit() && !t.advance().selected_bit()) <==> t.divider % 16 == 15,
{
    let d = t.divider;
    let e = t.advance().divider;
    assert(e == if d == 0xFFFF { 0u16 } else { (d + 1) as u16 });
    lemma_bit_three(d, e);
}

proof fn lemma_bit_three(d: u16, e: u16)
    by (bit_vector)
    requires
        e == if d == 0xFFFF { 0u16 } else { (d + 1) as u16 },
    ensures
        ((d >> 3u16) & 1 == 1 && !((e >> 3u16) & 1 == 1)) <==> d % 16 == 15,
{
}

/// The control register of the timer.
struct TimerControl {
    bits: u8,
}

impl TimerControl {
    fn from_bits_truncate(bits: u8) -> (r: TimerControl)
        ensures
            r.bits == bits & TIMER_CONTROL_MASK,
    {
        TimerControl { bits: bits & TIMER_CONTROL_MASK }
    }

    fn bits(&self) -> (r: u8)
        ensures
            r == self.bits,
    {
        self.bits
    }

    fn timer_enabled(&self) -> (r: bool)
        ensures
            r == (self.bits & 0x04 != 0),
    {
        self.bits & 0x04 != 0
    }

    fn freq_divider_bit(&self) -> (r: u16)
        ensures
            r == if self.bits & 0x03 == 0 {
                9u16
            } else if self.bits & 0x03 == 1 {
                3u16
            } else if self.bits & 0x03 == 2 {
                5u16
            } else {
                7u16
            },
    {
        proof {
            lemma_mask_u8(self.bits);
        }
        match self.bits & 0b11 {
            0 => 9,
            1 => 3,
            2 => 5,
            _ => 7,
        }
    }
}

/// The timer.
pub struct Timer {
    divider: u16,
    counter: u8,
    modulo: u8,
    control: TimerControl,
    interrupt_next: bool,
    during_interrupt: bool,
}

impl View for Timer {
    type V = TimerState;

    closed spec fn view(&self) -> TimerState {
        TimerState {
            divider: self.divider,
            counter: self.counter,
            modulo: self.modulo,
            control: self.control.bits,
            interrupt_next: self.interrupt_next,
            during_interrupt: self.during_interrupt,
        }
    }
}

impl Default for Timer {
    fn default() -> (r: Self)
        ensures
            r@ == TimerState::after_boot(),
    {
        Timer {
            divider: 0xABCC,
            counter: 0,
            modulo: 0,
            control: TimerControl { bits: 0 },
            interrupt_next: false,
            during_interrupt: false,
        }
    }
}

impl Timer {
    /// Reads one of the four timer registers.
    pub fn timer_read(&self, address: u16) -> (r: u8)
        requires
            DIVIDER_REGISTER <= address <= CONTROL_REGISTER,
        ensures
            r == self@.read(address),
    {
        proof {
            lemma_mask_u16(self.divider);
        }
        match address {
            0xFF04 => (self.divider >> 8) as u8,
            0xFF05 => self.counter,
            0xFF06 => self.modulo,
            _ => self.control.bits(),
        }
    }

    /// A write to the divider register: whatever is written, the divider
    /// becomes zero.
    pub fn write_div(&mut self)
        ensures
            final(self)@ == old(self)@.write_div(),
            final(self)@.divider == 0,
    {
        let old_divider_bit = self.divider_bit();
        self.divider = 0;
        let new_divider_bit = self.divider_bit();
        if old_divider_bit && !new_divider_bit {
            self.increment_timer();
        }
    }

    /// A write to the counter register.
    pub fn write_counter(&mut self, data: u8)
        ensures
            final(self)@ == old(self)@.write_counter(data),
    {
        self.interrupt_next = false;
        self.counter = if self.during_interrupt { self.modulo } else { data };
    }

    /// A write to the modulo register.
    pub fn write_modulo(&mut self, data: u8)
        ensures
            final(self)@ == old(self)@.write_modulo(data),
    {
        self.modulo = data;
        if self.during_interrupt {
            self.counter = self.modulo;
        }
    }

    /// A write to the control register.
    pub fn write_control(&mut self, data: u8)
        ensures
            final(self)@ == old(self)@.write_control(data),
    {
        let old_enable = self.control.timer_enabled();
        let old_divider_bit = old_enable && self.divider_bit();
        self.control = TimerControl::from_bits_truncate(data);
        let new_enable = self.control.timer_enabled();
        let new_divider_bit = new_enable && self.divider_bit();
        if old_divider_bit && !new_divider_bit {
            self.increment_timer();
        }
    }

    /// Advances the timer by one hardware tick.
    pub fn ticks(&mut self, interrupt: &mut Interrupts)
        ensures
            (final(self)@, final(interrupt)@) == old(self)@.tick(old(interrupt)@),
    {
        self.during_interrupt = false;
        if self.interrupt_next {
            interrupt.request_interrupt(InterruptType::Timer);
            self.interrupt_next = false;
            self.counter = self.modulo;
            self.during_interrupt = true;
        }
        let old_divider_bit = self.divider_bit();
        self.divider = self.divider.wrapping_add(1);
        let new_divider_bit = self.divider_bit();
        if self.control.timer_enabled() && old_divider_bit && !new_divider_bit {
            self.increment_timer();
        }
    }

    fn increment_timer(&mut self)
        ensures
            final(self)@ == old(self)@.increment(),
    {
        self.counter = self.counter.wrapping_add(1);
        self.interrupt_next = self.counter == 0;
    }

    fn divider_bit(&self) -> (r: bool)
        ensures
            r == self@.selected_bit(),
    {
        let bit = self.control.freq_divider_bit();
        (self.divider >> bit) & 1 == 1
    }
}

} // verus!
