//! The interrupt controller: which sources are enabled, which have asked for
//! service, and which of them is served first.
use vstd::prelude::*;
use crate::cpu::{CPU, CpuState};

verus! {

/// The five interrupt sources, in the order in which they are served.
#[derive(Copy, Clone, PartialEq, Eq, Structural, Debug)]
pub enum InterruptType {
    Vblank,
    LcdStat,
    Timer,
    Serial,
    Joypad,
}

impl InterruptType {
    /// The position of the source in the order of service, the first being 0.
    pub open spec fn index(self) -> u8 {
        match self {
            InterruptType::Vblank => 0,
            InterruptType::LcdStat => 1,
            InterruptType::Timer => 2,
            InterruptType::Serial => 3,
            InterruptType::Joypad => 4,
        }
    }

    /// The bit that stands for the source in the two flag registers.
    pub open spec fn mask(self) -> u8 {
        match self {
            InterruptType::Vblank => 0x01,
            InterruptType::LcdStat => 0x02,
            InterruptType::Timer => 0x04,
            InterruptType::Serial => 0x08,
            InterruptType::Joypad => 0x10,
        }
    }

    /// The address at which service of the source starts.
    pub open spec fn vector(self) -> u16 {
        match self {
            InterruptType::Vblank => 0x40,
            InterruptType::LcdStat => 0x48,
            InterruptType::Timer => 0x50,
            InterruptType::Serial => 0x58,
            InterruptType::Joypad => 0x60,
        }
    }

    /// The source at a position in the order of service.
    pub open spec fn of_index(value: u8) -> Option<InterruptType> {
        if value == 0 {
            Some(InterruptType::Vblank)
        } else if value == 1 {
            Some(InterruptType::LcdStat)
        } else if value == 2 {
            Some(InterruptType::Timer)
        } else if value == 3 {
            Some(InterruptType::Serial)
        } else if value == 4 {
            Some(InterruptType::Joypad)
        } else {
            None
        }
    }

    /// The source at position `value` in the order of service; positions
    /// above 4 name no source.
    pub fn try_from(value: u8) -> (r: Result<InterruptType, ()>)
        ensures
            r.is_ok() <==> value <= 4,
            r.is_ok() ==> Some(r->Ok_0) == Self::of_index(value) && r->Ok_0.index() == value,
    {
        match value {
            0 => Ok(InterruptType::Vblank),
            1 => Ok(InterruptType::LcdStat),
            2 => Ok(InterruptType::Timer),
            3 => Ok(InterruptType::Serial),
            4 => Ok(InterruptType::Joypad),
            _ => Err(()),
        }
    }
}

/// One register of interrupt bits.
struct InterruptFlags {
    bits: u8,
}

impl InterruptFlags {
    fn from_bits_truncate(bits: u8) -> (r: InterruptFlags)
        ensures
            r.bits == bits,
    {
        InterruptFlags { bits }
    }

    fn bits(&self) -> (r: u8)
        ensures
            r == self.bits,
    {
        self.bits
    }

    fn from(interrupt: InterruptType) -> (r: InterruptFlags)
        ensures
            r.bits == interrupt.mask(),
    {
        match interrupt {
            InterruptType::Vblank => InterruptFlags { bits: 0x01 },
            InterruptType::LcdStat => InterruptFlags { bits: 0x02 },
            InterruptType::Timer => InterruptFlags { bits: 0x04 },
            InterruptType::Serial => InterruptFlags { bits: 0x08 },
            InterruptType::Joypad => InterruptFlags { bits: 0x10 },
        }
    }

    fn insert(&mut self, other: InterruptFlags)
        ensures
            final(self).bits == old(self).bits | other.bits,
    {
        self.bits = self.bits | other.bits;
    }
}

/// The mathematical model of the interrupt controller: its two registers.
pub ghost struct InterruptsState {
    pub enabled: u8,
    pub requested: u8,
}

impl InterruptsState {
    /// A source is pending when it is both enabled and requested.
    pub open spec fn pending(self, t: InterruptType) -> bool {
        self.requested & t.mask() != 0 && self.enabled & t.mask() != 0
    }

    /// Some source is pending.
    pub open spec fn any_pending(self) -> bool {
        exists|t: InterruptType| self.pending(t)
    }

    /// The pending source that is served first, if any source is pending.
    pub open spec fn highest_pending(self) -> Option<InterruptType> {
        if self.pending(InterruptType::Vblank) {
            Some(InterruptType::Vblank)
        } else if self.pending(InterruptType::LcdStat) {
            Some(InterruptType::LcdStat)
        } else if self.pending(InterruptType::Timer) {
            Some(InterruptType::Timer)
        } else if self.pending(InterruptType::Serial) {
            Some(InterruptType::Serial)
        } else if self.pending(InterruptType::Joypad) {
            Some(InterruptType::Joypad)
        } else {
            None
        }
    }

    /// The controller after source `t` has asked for service.
    pub open spec fn request(self, t: InterruptType) -> InterruptsState {
        InterruptsState { requested: self.requested | t.mask(), ..self }
    }

    /// The controller after the request of source `t` has been taken.
    pub open spec fn acknowledge(self, t: InterruptType) -> InterruptsState {
        InterruptsState { requested: self.requested & !t.mask(), ..self }
    }
}

proof fn lemma_one_bit(r: u8, m: u8, other: u8)
    by (bit_vector)
    ensures
        m != 0 ==> (r | m) & m != 0,
        (r & !m) & m == 0,
        m & other == 0 ==> (r | m) & other == r & other,
        m & other == 0 ==> (r & !m) & other == r & other,
{
}

proof fn lemma_masks_disjoint(t: InterruptType, u: InterruptType)
    ensures
        t.mask() != 0,
        t != u ==> t.mask() & u.mask() == 0,
{
    assert(0x01u8 & 0x02u8 == 0 && 0x01u8 & 0x04u8 == 0 && 0x01u8 & 0x08u8 == 0 && 0x01u8 & 0x10u8
        == 0 && 0x02u8 & 0x04u8 == 0 && 0x02u8 & 0x08u8 == 0 && 0x02u8 & 0x10u8 == 0 && 0x04u8
        & 0x08u8 == 0 && 0x04u8 & 0x10u8 == 0 && 0x08u8 & 0x10u8 == 0 && 0x02u8 & 0x01u8 == 0
        && 0x04u8 & 0x01u8 == 0 && 0x08u8 & 0x01u8 == 0 && 0x10u8 & 0x01u8 == 0 && 0x04u8 & 0x02u8
        == 0 && 0x08u8 & 0x02u8 == 0 && 0x10u8 & 0x02u8 == 0 && 0x08u8 & 0x04u8 == 0 && 0x10u8
        & 0x04u8 == 0 && 0x10u8 & 0x08u8 == 0) by (bit_vector);
}

/// The source that `highest_pending` names is pending and no source before it
/// is; it names none exactly when no source is pending.
pub proof fn lemma_highest_pending(s: InterruptsState)
    ensures
        match s.highest_pending() {
            Some(t) => s.pending(t) && forall|u: InterruptType|
                u.index() < t.index() ==> !s.pending(u),
            None => forall|u: InterruptType| !s.pending(u),
        },
        s.highest_pending() is Some <==> s.any_pending(),
{
    if s.any_pending() {
        let t = choose|t: InterruptType| s.pending(t);
        assert(s.pending(t));
    }
}

/// A request makes its source requested and changes no other source.
pub proof fn lemma_request(s: InterruptsState, t: InterruptType, u: InterruptType)
    ensures
        s.request(t).requested & t.mask() != 0,
        s.request(t).enabled == s.enabled,
        u != t ==> s.request(t).pending(u) == s.pending(u),
        s.pending(u) ==> s.request(t).pending(u),
{
    lemma_masks_disjoint(t, u);
    if u != t {
        lemma_one_bit(s.requested, t.mask(), u.mask());
    } else {
        lemma_one_bit(s.requested, t.mask(), 0);
    }
}

/// Taking a request leaves its source not pending and changes no other source.
pub proof fn lemma_acknowledge(s: InterruptsState, t: InterruptType, u: InterruptType)
    ensures
        !s.acknowledge(t).pending(t),
        u != t ==> s.acknowledge(t).pending(u) == s.pending(u),
{
    lemma_masks_disjoint(t, u);
    lemma_one_bit(s.requested, t.mask(), 0);
    if u != t {
        lemma_one_bit(s.requested, t.mask(), u.mask());
    }
}

/// The interrupt controller.
pub struct Interrupts {
    enabled: InterruptFlags,
    requested: InterruptFlags,
}

impl View for Interrupts {
    type V = InterruptsState;

    closed spec fn view(&self) -> InterruptsState {
        InterruptsState { enabled: self.enabled.bits, requested: self.requested.bits }
    }
}

impl Default for Interrupts {
    fn default() -> (r: Self)
        ensures
            r@ == (InterruptsState { enabled: 0, requested: 0 }),
    {
        Interrupts {
            enabled: InterruptFlags::from_bits_truncate(0),
            requested: InterruptFlags::from_bits_truncate(0),
        }
    }
}

impl Interrupts {
    pub fn write_enabled(&mut self, value: u8)
        ensures
            final(self)@ == (InterruptsState { enabled: value, ..old(self)@ }),
    {
        self.enabled = InterruptFlags::from_bits_truncate(value);
    }

    pub fn write_requested(&mut self, value: u8)
        ensures
            final(self)@ == (InterruptsState { requested: value, ..old(self)@ }),
    {
        self.requested = InterruptFlags::from_bits_truncate(value);
    }

    pub fn read_enable(&self) -> (r: u8)
        ensures
            r == self@.enabled,
    {
        self.enabled.bits()
    }

    pub fn read_requested(&self) -> (r: u8)
        ensures
            r == self@.requested,
    {
        self.requested.bits()
    }

    /// Takes the request of `interrupt` if that source is pending: the request
    /// bit is cleared, and the processor leaves the halted state and has its
    /// master enable cleared. Otherwise nothing changes.
    pub fn int_check_remove(&mut self, interrupt: InterruptType, cpu: &mut CPU) -> (taken: bool)
        ensures
            taken == old(self)@.pending(interrupt),
            taken ==> final(self)@ == old(self)@.acknowledge(interrupt) && final(cpu)@ == (CpuState {
                halted: false,
                ime: false,
                ..old(cpu)@
            }),
            !taken ==> final(self)@ == old(self)@ && final(cpu)@ == old(cpu)@,
    {
        let it = InterruptFlags::from(interrupt);
        if self.requested.bits() & it.bits() != 0 && self.enabled.bits() & it.bits() != 0 {
            self.write_requested(self.requested.bits() & !it.bits());
            cpu.set_halted(false);
            cpu.set_ime(false);
            return true;
        }
        false
    }

    /// Whether `interrupt` is pending.
    pub fn int_check(&mut self, interrupt: InterruptType) -> (r: bool)
        ensures
            r == old(self)@.pending(interrupt),
            final(self)@ == old(self)@,
    {
        let it = InterruptFlags::from(interrupt);
        if self.requested.bits() & it.bits() != 0 && self.enabled.bits() & it.bits() != 0 {
            return true;
        }
        false
    }

    /// Takes the request of the pending source that is served first, with the
    /// effects of `int_check_remove` on the processor; without a pending source
    /// nothing changes.
    pub fn get_highest_interrupt(&mut self, cpu: &mut CPU) -> (r: Option<InterruptType>)
        ensures
            r == old(self)@.highest_pending(),
            match r {
                Some(t) => final(self)@ == old(self)@.acknowledge(t) && final(cpu)@ == (CpuState {
                    halted: false,
                    ime: false,
                    ..old(cpu)@
                }),
                None => final(self)@ == old(self)@ && final(cpu)@ == old(cpu)@,
            },
    {
        let mut count: u8 = 0;
        while count < 5
            invariant
                count <= 5,
                self@ == old(self)@,
                cpu@ == old(cpu)@,
                forall|u: InterruptType| u.index() < count ==> !self@.pending(u),
            decreases 5 - count,
        {
            let t = InterruptType::try_from(count).unwrap();
            if self.int_check_remove(t, cpu) {
                return Some(t);
            }
            count += 1;
        }
        None
    }

    /// The pending source that is served first, if there is one. Nothing changes.
    pub fn peek_highest_interrupt(&mut self) -> (r: Option<InterruptType>)
        ensures
            r == old(self)@.highest_pending(),
            final(self)@ == old(self)@,
    {
        let mut count: u8 = 0;
        while count < 5
            invariant
                count <= 5,
                self@ == old(self)@,
                forall|u: InterruptType| u.index() < count ==> !self@.pending(u),
            decreases 5 - count,
        {
            let t = InterruptType::try_from(count).unwrap();
            if self.int_check(t) {
                return Some(t);
            }
            count += 1;
        }
        None
    }

    /// The address at which service of `int_type` starts.
    pub fn interrupt_addresses(&mut self, int_type: InterruptType) -> (r: u16)
        ensures
            r == int_type.vector(),
            final(self)@ == old(self)@,
    {
        match int_type {
            InterruptType::Vblank => 0x40,
            InterruptType::LcdStat => 0x48,
            InterruptType::Timer => 0x50,
            InterruptType::Serial => 0x58,
            InterruptType::Joypad => 0x60,
        }
    }

    /// Records that `interrupt` asks for service.
    pub fn request_interrupt(&mut self, interrupt: InterruptType)
        ensures
            final(self)@ == old(self)@.request(interrupt),
    {
        self.requested.insert(InterruptFlags::from(interrupt));
    }
}

} // verus!
