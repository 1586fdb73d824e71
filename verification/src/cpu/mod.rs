//! The register file of the processor and the operations on it.
use vstd::prelude::*;
use crate::bits::{pair, high_byte, low_byte, lemma_mask_u8, lemma_join_u16};
use crate::dbg::{DBG, acknowledge_serial};
use crate::instruction::Instruction;
use crate::mmu::{MMU, MmuState, DmaTransfer};
use execute::{Step, execute_spec};

pub mod execute;
pub mod laws;
pub mod opcodes;

verus! {

/// Mask of the Zero flag in the flag register.
pub const FLAG_Z: u8 = 0x80;

/// Mask of the Subtract flag in the flag register.
pub const FLAG_N: u8 = 0x40;

/// Mask of the Half-carry flag in the flag register.
pub const FLAG_H: u8 = 0x20;

/// Mask of the Carry flag in the flag register.
pub const FLAG_C: u8 = 0x10;

/// The mathematical model of the register file.
pub ghost struct CpuState {
    pub a: u8,
    pub b: u8,
    pub c: u8,
    pub d: u8,
    pub e: u8,
    pub f: u8,
    pub h: u8,
    pub l: u8,
    pub sp: u16,
    pub pc: u16,
    pub halted: bool,
    pub ime: bool,
    pub ei: bool,
    pub ticks: usize,
}

/// The flag register that holds the four flags above the low nibble of `low`.
pub open spec fn flags_byte(z: bool, n: bool, h: bool, c: bool, low: u8) -> u8 {
    (if z { 0x80u8 } else { 0u8 }) | (if n { 0x40u8 } else { 0u8 }) | (if h { 0x20u8 } else { 0u8 })
        | (if c { 0x10u8 } else { 0u8 }) | (low & 0x0Fu8)
}

/// Reading a flag out of `flags_byte` gives what was put in, and the low
/// nibble is the one that was passed.
pub proof fn lemma_flags_byte(z: bool, n: bool, h: bool, c: bool, low: u8)
    by (bit_vector)
    ensures
        (flags_byte(z, n, h, c, low) & 0x80 != 0) == z,
        (flags_byte(z, n, h, c, low) & 0x40 != 0) == n,
        (flags_byte(z, n, h, c, low) & 0x20 != 0) == h,
        (flags_byte(z, n, h, c, low) & 0x10 != 0) == c,
        flags_byte(z, n, h, c, low) & 0x0F == low & 0x0F,
{
}

/// A flag register is determined by its four flags and its low nibble.
pub proof fn lemma_flags_byte_of(f: u8)
    by (bit_vector)
    ensures
        flags_byte(f & 0x80 != 0, f & 0x40 != 0, f & 0x20 != 0, f & 0x10 != 0, f) == f,
{
}

/// Setting or clearing one flag bit, as a change of one argument of `flags_byte`.
proof fn lemma_set_one_flag(f: u8, bit: bool)
    by (bit_vector)
    ensures
        (if bit { f | 0x80 } else { f & 0x7F }) == flags_byte(bit, f & 0x40 != 0, f & 0x20 != 0, f & 0x10 != 0, f),
        (if bit { f | 0x40 } else { f & 0xBF }) == flags_byte(f & 0x80 != 0, bit, f & 0x20 != 0, f & 0x10 != 0, f),
        (if bit { f | 0x20 } else { f & 0xDF }) == flags_byte(f & 0x80 != 0, f & 0x40 != 0, bit, f & 0x10 != 0, f),
        (if bit { f | 0x10 } else { f & 0xEF }) == flags_byte(f & 0x80 != 0, f & 0x40 != 0, f & 0x20 != 0, bit, f),
{
}

impl CpuState {
    /// The Zero flag.
    pub open spec fn flag_z(self) -> bool {
        self.f & FLAG_Z != 0
    }

    /// The Subtract flag.
    pub open spec fn flag_n(self) -> bool {
        self.f & FLAG_N != 0
    }

    /// The Half-carry flag.
    pub open spec fn flag_h(self) -> bool {
        self.f & FLAG_H != 0
    }

    /// The Carry flag.
    pub open spec fn flag_c(self) -> bool {
        self.f & FLAG_C != 0
    }

    /// The same registers with the four flags replaced.
    pub open spec fn with_flags(self, z: bool, n: bool, h: bool, c: bool) -> CpuState {
        CpuState { f: flags_byte(z, n, h, c, self.f), ..self }
    }

    /// The register pair AF.
    pub open spec fn af(self) -> u16 {
        pair(self.a, self.f)
    }

    /// The register pair BC.
    pub open spec fn bc(self) -> u16 {
        pair(self.b, self.c)
    }

    /// The register pair DE.
    pub open spec fn de(self) -> u16 {
        pair(self.d, self.e)
    }

    /// The register pair HL.
    pub open spec fn hl(self) -> u16 {
        pair(self.h, self.l)
    }

    /// The same registers with HL replaced.
    pub open spec fn with_hl(self, hl: u16) -> CpuState {
        CpuState { h: high_byte(hl), l: low_byte(hl), ..self }
    }

    /// The same registers with the program counter moved on by `k`, wrapping
    /// at 16 bits.
    pub open spec fn advance(self, k: u16) -> CpuState {
        CpuState { pc: add16(self.pc, k), ..self }
    }

    /// The register that code `n` names in the order B, C, D, E, H, L.
    pub open spec fn with_r6(self, n: u8, v: u8) -> CpuState
        recommends
            n <= 5,
    {
        if n == 0 {
            CpuState { b: v, ..self }
        } else if n == 1 {
            CpuState { c: v, ..self }
        } else if n == 2 {
            CpuState { d: v, ..self }
        } else if n == 3 {
            CpuState { e: v, ..self }
        } else if n == 4 {
            CpuState { h: v, ..self }
        } else {
            CpuState { l: v, ..self }
        }
    }

    /// The value of the register that code `n` names in the order A, B, C, D,
    /// E, H, L.
    pub open spec fn r7(self, n: u8) -> u8
        recommends
            n <= 6,
    {
        if n == 0 {
            self.a
        } else if n == 1 {
            self.b
        } else if n == 2 {
            self.c
        } else if n == 3 {
            self.d
        } else if n == 4 {
            self.e
        } else if n == 5 {
            self.h
        } else {
            self.l
        }
    }

    /// The same registers with the one that code `n` names in the order A, B,
    /// C, D, E, H, L replaced.
    pub open spec fn with_r7(self, n: u8, v: u8) -> CpuState
        recommends
            n <= 6,
    {
        if n == 0 {
            CpuState { a: v, ..self }
        } else if n == 1 {
            CpuState { b: v, ..self }
        } else if n == 2 {
            CpuState { c: v, ..self }
        } else if n == 3 {
            CpuState { d: v, ..self }
        } else if n == 4 {
            CpuState { e: v, ..self }
        } else if n == 5 {
            CpuState { h: v, ..self }
        } else {
            CpuState { l: v, ..self }
        }
    }

    /// The same registers with the pair that code `k` names in the order BC,
    /// DE, HL, SP replaced.
    pub open spec fn with_pair(self, k: u8, v: u16) -> CpuState
        recommends
            k <= 3,
    {
        if k == 0 {
            CpuState { b: high_byte(v), c: low_byte(v), ..self }
        } else if k == 1 {
            CpuState { d: high_byte(v), e: low_byte(v), ..self }
        } else if k == 2 {
            CpuState { h: high_byte(v), l: low_byte(v), ..self }
        } else {
            CpuState { sp: v, ..self }
        }
    }

    /// Whether the condition that code `m` names holds: not Zero, Zero, not
    /// Carry, Carry.
    pub open spec fn condition(self, m: u8) -> bool
        recommends
            m <= 3,
    {
        if m == 0 {
            !self.flag_z()
        } else if m == 1 {
            self.flag_z()
        } else if m == 2 {
            !self.flag_c()
        } else {
            self.flag_c()
        }
    }

    /// The four unused bits of the flag register are clear.
    pub open spec fn low_flags_clear(self) -> bool {
        self.f & 0x0F == 0
    }

    /// The state after power-on without a boot program: everything zero.
    pub open spec fn zeroed() -> CpuState {
        CpuState {
            a: 0,
            b: 0,
            c: 0,
            d: 0,
            e: 0,
            f: 0,
            h: 0,
            l: 0,
            sp: 0,
            pc: 0,
            halted: false,
            ime: false,
            ei: false,
            ticks: 0,
        }
    }

    /// The state that the boot program leaves behind.
    pub open spec fn after_boot() -> CpuState {
        CpuState {
            a: 0x01,
            b: 0x00,
            c: 0x13,
            d: 0x00,
            e: 0xD8,
            f: 0xB0,
            h: 0x01,
            l: 0x4D,
            sp: 0xFFFE,
            pc: 0x0100,
            halted: false,
            ime: false,
            ei: false,
            ticks: 0,
        }
    }
}

/// What a read gives after the text sink has cleared the serial control
/// register: zero at that register, and what was there elsewhere.
pub proof fn lemma_acknowledged_read(mmu: MmuState, address: u16)
    ensures
        mmu.write(0xFF02, 0).read(address) == if address == 0xFF02 {
            0
        } else {
            mmu.read(address)
        },
{
    assert(0u8 & crate::mmu::serial::SERIAL_CONTROL_MASK == 0) by (bit_vector);
}

/// The sum of two 16-bit values, wrapping at 16 bits.
pub open spec fn add16(a: u16, b: u16) -> u16 {
    if a + b > 0xFFFF {
        (a + b - 0x10000) as u16
    } else {
        (a + b) as u16
    }
}

/// The difference of two 16-bit values, wrapping at 16 bits.
pub open spec fn sub16(a: u16, b: u16) -> u16 {
    if a < b {
        (a - b + 0x10000) as u16
    } else {
        (a - b) as u16
    }
}

/// The 16-bit value moved by a signed 8-bit offset, wrapping at 16 bits.
pub open spec fn offset16(a: u16, e: i8) -> u16 {
    if a + e > 0xFFFF {
        (a + e - 0x10000) as u16
    } else if a + e < 0 {
        (a + e + 0x10000) as u16
    } else {
        (a + e) as u16
    }
}

/// The state after `v` has been pushed: the high byte goes to the address
/// below the stack pointer, the low byte to the one below that, and the stack
/// pointer ends at the low byte.
pub open spec fn push16(cpu: CpuState, mmu: MmuState, v: u16) -> (CpuState, MmuState) {
    let sp1 = sub16(cpu.sp, 1);
    let sp2 = sub16(sp1, 1);
    (CpuState { sp: sp2, ..cpu }, mmu.write(sp1, high_byte(v)).write(sp2, low_byte(v)))
}

/// The registers after a 16-bit value has been popped, and that value: the
/// low byte is read at the stack pointer, the high byte above it, and the
/// stack pointer ends above both.
pub open spec fn pop16(cpu: CpuState, mmu: MmuState) -> (CpuState, u16) {
    let low = mmu.read(cpu.sp);
    let high = mmu.read(add16(cpu.sp, 1));
    (CpuState { sp: add16(cpu.sp, 2), ..cpu }, pair(high, low))
}

/// Pushing a value and popping it again gives the value back, with its two
/// bytes stored above the new stack pointer, and puts the stack pointer where
/// it was, provided the two cells below the stack pointer keep what is
/// written to them.
pub proof fn lemma_push_pop_round_trip(cpu: CpuState, mmu: MmuState, v: u16)
    requires
        mmu.wf(),
        mmu.keeps_written(sub16(cpu.sp, 1)),
        mmu.keeps_written(sub16(cpu.sp, 2)),
    ensures
        ({
            let (cpu1, mmu1) = push16(cpu, mmu, v);
            let (cpu2, popped) = pop16(cpu1, mmu1);
            &&& popped == v
            &&& cpu2.sp == cpu.sp
            &&& cpu2 == cpu
            &&& mmu1.read(sub16(cpu.sp, 1)) == high_byte(v)
            &&& mmu1.read(sub16(cpu.sp, 2)) == low_byte(v)
        }),
{
    let sp1 = sub16(cpu.sp, 1);
    let sp2 = sub16(sp1, 1);
    assert(sp2 == sub16(cpu.sp, 2));
    let m1 = mmu.write(sp1, high_byte(v));
    crate::mmu::lemma_write_wf(mmu, sp1, high_byte(v));
    crate::mmu::lemma_read_after_write(mmu, sp1, high_byte(v));
    crate::mmu::lemma_read_other_after_write(mmu, sp1, high_byte(v), sp2);
    crate::mmu::lemma_read_after_write(m1, sp2, low_byte(v));
    crate::mmu::lemma_read_other_after_write(m1, sp2, low_byte(v), sp1);
    crate::bits::lemma_pair_split(v);
}

/// The instruction that `byte` stands for when it is found at the program
/// counter: the byte after it and the 16-bit value after it, low byte first,
/// are its immediate operands.
pub open spec fn decode_at(cpu: CpuState, mmu: MmuState, byte: u8) -> Instruction
    recommends
        opcodes::opcode_defined(byte),
{
    let n1 = mmu.read(add16(cpu.pc, 1));
    let n2 = mmu.read(add16(cpu.pc, 2));
    opcodes::decode_spec(cpu, mmu, byte, n1 as u16, pair(n2, n1))
}

/// Machine cycles that the entry into an interrupt's service takes.
pub const INTERRUPT_CYCLES: u8 = 5;

/// The outcome of fetching, decoding and executing the instruction at the
/// program counter.
pub open spec fn step_spec(cpu: CpuState, mmu: MmuState) -> Step
    recommends
        opcodes::opcode_defined(mmu.read(cpu.pc)),
{
    execute_spec(cpu, mmu, decode_at(cpu, mmu, mmu.read(cpu.pc)))
}

/// A count of ticks moved on by four, wrapping at the width of the count.
pub open spec fn four_more(ticks: usize) -> usize {
    if ticks + 4 > usize::MAX {
        (ticks + 4 - usize::MAX - 1) as usize
    } else {
        (ticks + 4) as usize
    }
}

/// The state after `n` machine cycles have passed: the bus has run them and
/// the processor has counted four ticks for each.
pub open spec fn pass_cycles(cpu: CpuState, mmu: MmuState, n: nat) -> (CpuState, MmuState)
    decreases n,
{
    if n == 0 {
        (cpu, mmu)
    } else {
        pass_cycles(
            CpuState { ticks: four_more(cpu.ticks), ..cpu },
            mmu.machine_cycle(),
            (n - 1) as nat,
        )
    }
}

/// The state after the entry into the service of the pending interrupt that
/// is served first: the high byte of the program counter is pushed, the
/// request is taken (which clears the master enable and the halted state)
/// and its vector becomes the program counter, then the low byte is pushed.
/// If the first push has left no interrupt pending, the program counter
/// becomes 0.
pub open spec fn service_interrupt(cpu: CpuState, mmu: MmuState) -> (CpuState, MmuState) {
    let sp1 = sub16(cpu.sp, 1);
    let sp2 = sub16(sp1, 1);
    let first = mmu.write(sp1, high_byte(cpu.pc));
    match first.interrupts.highest_pending() {
        Some(t) => (
            CpuState { sp: sp2, pc: t.vector(), halted: false, ime: false, ..cpu },
            (MmuState { interrupts: first.interrupts.acknowledge(t), ..first }).write(
                sp2,
                low_byte(cpu.pc),
            ),
        ),
        None => (CpuState { sp: sp2, pc: 0, ..cpu }, first.write(sp2, low_byte(cpu.pc))),
    }
}

/// The state after the instruction part of one step: a halted processor
/// lets one machine cycle pass and wakes up if an interrupt is pending; a
/// running one lets the text sink look at the serial link, executes the
/// instruction at the program counter and lets its cycles pass.
pub open spec fn advance_spec(cpu: CpuState, mmu: MmuState) -> (CpuState, MmuState) {
    if cpu.halted {
        let (waited, bus) = pass_cycles(cpu, mmu, 1);
        (
            if bus.interrupts.highest_pending() is Some {
                CpuState { halted: false, ..waited }
            } else {
                waited
            },
            bus,
        )
    } else {
        let step = step_spec(cpu, acknowledge_serial(mmu));
        pass_cycles(step.cpu, step.mmu, step.cycles as nat)
    }
}

/// The state after the interrupt part of one step: with the master enable
/// set and an interrupt pending, its service is entered; then an enable
/// that was asked for by the previous instruction takes effect.
pub open spec fn dispatch_spec(cpu: CpuState, mmu: MmuState) -> (CpuState, MmuState) {
    let (served, bus) = if cpu.ime && mmu.interrupts.highest_pending() is Some {
        let (entered, written) = service_interrupt(cpu, mmu);
        pass_cycles(entered, written, INTERRUPT_CYCLES as nat)
    } else {
        (cpu, mmu)
    };
    (
        if served.ei {
            CpuState { ime: true, ei: false, ..served }
        } else {
            served
        },
        bus,
    )
}

/// The state after one step of the processor.
pub open spec fn do_cycle_spec(cpu: CpuState, mmu: MmuState) -> (CpuState, MmuState) {
    let (advanced, bus) = advance_spec(cpu, mmu);
    dispatch_spec(advanced, bus)
}

/// Whether a step can be taken: a running processor needs a defined opcode
/// at the program counter.
pub open spec fn can_step_spec(cpu: CpuState, mmu: MmuState) -> bool {
    cpu.halted || opcodes::opcode_defined(acknowledge_serial(mmu).read(cpu.pc))
}

/// The carry that enters an addition or subtraction.
pub open spec fn carry_in(use_carry: bool, flag_c: bool) -> int {
    if use_carry && flag_c {
        1
    } else {
        0
    }
}

/// The 8-bit sum of `a`, `n` and the incoming carry.
pub open spec fn add_result(a: u8, n: u8, c: int) -> u8 {
    if a + n + c > 0xFF {
        (a + n + c - 0x100) as u8
    } else {
        (a + n + c) as u8
    }
}

/// The 8-bit difference of `a`, `n` and the incoming borrow.
pub open spec fn sub_result(a: u8, n: u8, c: int) -> u8 {
    if a < n + c {
        (a - n - c + 0x100) as u8
    } else {
        (a - n - c) as u8
    }
}

/// The byte with its two nibbles exchanged.
pub open spec fn swap_result(n: u8) -> u8 {
    ((n % 16) * 16 + n / 16) as u8
}

/// Reading the flags after `with_flags` gives the flags that were set, and the
/// unused bits stay as they were.
pub proof fn lemma_with_flags(s: CpuState, z: bool, n: bool, h: bool, c: bool)
    ensures
        s.with_flags(z, n, h, c).flag_z() == z,
        s.with_flags(z, n, h, c).flag_n() == n,
        s.with_flags(z, n, h, c).flag_h() == h,
        s.with_flags(z, n, h, c).flag_c() == c,
        s.with_flags(z, n, h, c).f & 0x0F == s.f & 0x0F,
        s.low_flags_clear() ==> s.with_flags(z, n, h, c).low_flags_clear(),
        s.with_flags(s.flag_z(), s.flag_n(), s.flag_h(), s.flag_c()) == s,
{
    lemma_flags_byte(z, n, h, c, s.f);
    lemma_flags_byte_of(s.f);
}

/// The register file.
#[derive(Debug)]
pub struct CPU {
    a: u8,
    b: u8,
    c: u8,
    d: u8,
    e: u8,
    f: u8,
    h: u8,
    l: u8,
    sp: u16,
    pc: u16,
    halted: bool,
    ime: bool,
    ei: bool,
    ticks: usize,
}

impl View for CPU {
    type V = CpuState;

    closed spec fn view(&self) -> CpuState {
        CpuState {
            a: self.a,
            b: self.b,
            c: self.c,
            d: self.d,
            e: self.e,
            f: self.f,
            h: self.h,
            l: self.l,
            sp: self.sp,
            pc: self.pc,
            halted: self.halted,
            ime: self.ime,
            ei: self.ei,
            ticks: self.ticks,
        }
    }
}

impl Default for CPU {
    fn default() -> (cpu: Self)
        ensures
            cpu@ == CpuState::after_boot(),
    {
        CPU {
            a: 0x01,
            b: 0x00,
            c: 0x13,
            d: 0x00,
            e: 0xD8,
            f: 0xB0,
            h: 0x01,
            l: 0x4D,
            sp: 0xFFFE,
            pc: 0x0100,
            halted: false,
            ime: false,
            ei: false,
            ticks: 0,
        }
    }
}

impl CPU {
    pub fn new() -> (cpu: CPU)
        ensures
            cpu@ == CpuState::zeroed(),
    {
        CPU {
            a: 0,
            b: 0,
            c: 0,
            d: 0,
            e: 0,
            f: 0,
            h: 0,
            l: 0,
            sp: 0,
            pc: 0,
            halted: false,
            ime: false,
            ei: false,
            ticks: 0,
        }
    }

    pub fn get_flag_z(&self) -> (r: bool)
        ensures
            r == self@.flag_z(),
    {
        self.f & FLAG_Z != 0
    }

    pub fn get_flag_n(&self) -> (r: bool)
        ensures
            r == self@.flag_n(),
    {
        self.f & FLAG_N != 0
    }

    pub fn get_flag_h(&self) -> (r: bool)
        ensures
            r == self@.flag_h(),
    {
        self.f & FLAG_H != 0
    }

    pub fn get_flag_c(&self) -> (r: bool)
        ensures
            r == self@.flag_c(),
    {
        self.f & FLAG_C != 0
    }

    /// Sets the Zero flag when `bit` holds and clears it otherwise.
    pub fn set_flag_z(&mut self, bit: bool)
        ensures
            final(self)@ == old(self)@.with_flags(
                bit,
                old(self)@.flag_n(),
                old(self)@.flag_h(),
                old(self)@.flag_c(),
            ),
            final(self)@.flag_z() == bit,
    {
        proof {
            lemma_set_one_flag(self.f, bit);
            lemma_with_flags(self@, bit, self@.flag_n(), self@.flag_h(), self@.flag_c());
        }
        self.f = if bit { self.f | 0b10000000 } else { self.f & 0b01111111 };
    }

    /// Sets the Subtract flag when `bit` holds and clears it otherwise.
    pub fn set_flag_n(&mut self, bit: bool)
        ensures
            final(self)@ == old(self)@.with_flags(
                old(self)@.flag_z(),
                bit,
                old(self)@.flag_h(),
                old(self)@.flag_c(),
            ),
            final(self)@.flag_n() == bit,
    {
        proof {
            lemma_set_one_flag(self.f, bit);
            lemma_with_flags(self@, self@.flag_z(), bit, self@.flag_h(), self@.flag_c());
        }
        self.f = if bit { self.f | 0b01000000 } else { self.f & 0b10111111 };
    }

    /// Sets the Half-carry flag when `bit` holds and clears it otherwise.
    pub fn set_flag_h(&mut self, bit: bool)
        ensures
            final(self)@ == old(self)@.with_flags(
                old(self)@.flag_z(),
                old(self)@.flag_n(),
                bit,
                old(self)@.flag_c(),
            ),
            final(self)@.flag_h() == bit,
    {
        proof {
            lemma_set_one_flag(self.f, bit);
            lemma_with_flags(self@, self@.flag_z(), self@.flag_n(), bit, self@.flag_c());
        }
        self.f = if bit { self.f | 0b00100000 } else { self.f & 0b11011111 };
    }

    /// Sets the Carry flag when `bit` holds and clears it otherwise.
    pub fn set_flag_c(&mut self, bit: bool)
        ensures
            final(self)@ == old(self)@.with_flags(
                old(self)@.flag_z(),
                old(self)@.flag_n(),
                old(self)@.flag_h(),
                bit,
            ),
            final(self)@.flag_c() == bit,
    {
        proof {
            lemma_set_one_flag(self.f, bit);
            lemma_with_flags(self@, self@.flag_z(), self@.flag_n(), self@.flag_h(), bit);
        }
        self.f = if bit { self.f | 0b00010000 } else { self.f & 0b11101111 };
    }

    /// Replaces all four flags at once.
    pub(crate) fn set_flags(&mut self, z: bool, n: bool, h: bool, c: bool)
        ensures
            final(self)@ == old(self)@.with_flags(z, n, h, c),
    {
        let zb: u8 = if z { 0x80 } else { 0 };
        let nb: u8 = if n { 0x40 } else { 0 };
        let hb: u8 = if h { 0x20 } else { 0 };
        let cb: u8 = if c { 0x10 } else { 0 };
        self.f = zb | nb | hb | cb | (self.f & 0x0F);
    }

    /// Moves the program counter on by `k`, wrapping at 16 bits.
    pub(crate) fn advance_pc(&mut self, k: u16)
        ensures
            final(self)@ == old(self)@.advance(k),
    {
        self.pc = self.pc.wrapping_add(k);
    }

    /// Writes the register that code `n` names in the order B, C, D, E, H, L.
    pub(crate) fn set_r6(&mut self, n: u8, v: u8)
        requires
            n <= 5,
        ensures
            final(self)@ == old(self)@.with_r6(n, v),
    {
        match n {
            0 => self.b = v,
            1 => self.c = v,
            2 => self.d = v,
            3 => self.e = v,
            4 => self.h = v,
            _ => self.l = v,
        }
    }

    /// Reads the register that code `n` names in the order A, B, C, D, E, H, L.
    pub(crate) fn get_r7(&self, n: u8) -> (r: u8)
        requires
            n <= 6,
        ensures
            r == self@.r7(n),
    {
        match n {
            0 => self.a,
            1 => self.b,
            2 => self.c,
            3 => self.d,
            4 => self.e,
            5 => self.h,
            _ => self.l,
        }
    }

    /// Writes the register that code `n` names in the order A, B, C, D, E, H, L.
    pub(crate) fn set_r7(&mut self, n: u8, v: u8)
        requires
            n <= 6,
        ensures
            final(self)@ == old(self)@.with_r7(n, v),
    {
        match n {
            0 => self.a = v,
            1 => self.b = v,
            2 => self.c = v,
            3 => self.d = v,
            4 => self.e = v,
            5 => self.h = v,
            _ => self.l = v,
        }
    }

    /// Writes the pair that code `k` names in the order BC, DE, HL, SP.
    pub(crate) fn set_pair(&mut self, k: u8, v: u16)
        requires
            k <= 3,
        ensures
            final(self)@ == old(self)@.with_pair(k, v),
    {
        match k {
            0 => {
                self.b = (v / 256) as u8;
                self.c = (v % 256) as u8;
            },
            1 => {
                self.d = (v / 256) as u8;
                self.e = (v % 256) as u8;
            },
            2 => {
                self.h = (v / 256) as u8;
                self.l = (v % 256) as u8;
            },
            _ => self.sp = v,
        }
    }

    /// Whether the condition that code `m` names holds.
    pub(crate) fn check_condition(&self, m: u8) -> (r: bool)
        requires
            m <= 3,
        ensures
            r == self@.condition(m),
    {
        match m {
            0 => !self.get_flag_z(),
            1 => self.get_flag_z(),
            2 => !self.get_flag_c(),
            _ => self.get_flag_c(),
        }
    }

    /// Pushes `v`: high byte first, the stack pointer going down by one
    /// before each byte.
    pub(crate) fn push_word(&mut self, mmu: &mut MMU, v: u16)
        ensures
            (final(self)@, final(mmu)@) == push16(old(self)@, old(mmu)@, v),
            old(mmu)@.wf() ==> final(mmu)@.wf(),
    {
        let high: u8 = (v / 256) as u8;
        let low: u8 = (v % 256) as u8;
        self.sp = self.sp.wrapping_sub(1);
        mmu.write_byte(self.sp, high);
        self.sp = self.sp.wrapping_sub(1);
        mmu.write_byte(self.sp, low);
    }

    /// Pushes the program counter.
    pub fn push_stack(&mut self, mmu: &mut MMU)
        ensures
            (final(self)@, final(mmu)@) == push16(old(self)@, old(mmu)@, old(self)@.pc),
            old(mmu)@.wf() ==> final(mmu)@.wf(),
    {
        let pc = self.pc;
        self.push_word(mmu, pc);
    }

    /// Pops a 16-bit value: low byte first, the stack pointer going up by one
    /// after each byte.
    pub fn pop_stack(&mut self, mmu: &mut MMU) -> (r: u16)
        ensures
            (final(self)@, r) == pop16(old(self)@, old(mmu)@),
            final(mmu)@ == old(mmu)@,
    {
        let low = mmu.read_byte(self.sp);
        self.sp = self.sp.wrapping_add(1);
        let high = mmu.read_byte(self.sp);
        self.sp = self.sp.wrapping_add(1);
        proof {
            lemma_join_u16(high, low);
        }
        ((high as u16) << 8) | (low as u16)
    }

    /// Decodes the opcode `byte` found at the program counter, reading the
    /// two bytes that follow it.
    pub fn decode(&mut self, byte: u8, mmu: &MMU) -> (instruction: Instruction)
        requires
            opcodes::opcode_defined(byte),
        ensures
            instruction == decode_at(old(self)@, mmu@, byte),
            instruction.well_formed(),
            final(self)@ == old(self)@,
    {
        let n1 = mmu.read_byte(self.pc.wrapping_add(1)) as u16;
        let n2 = mmu.read_byte(self.pc.wrapping_add(2)) as u16;
        proof {
            lemma_join_u16(n2 as u8, n1 as u8);
        }
        let d16: u16 = (n2 << 8) | n1;
        opcodes::decoder(self, mmu, byte, n1, d16)
    }

    /// Decodes the opcode `byte` of the second table.
    pub fn cb_decode(&mut self, byte: u8, mmu: &MMU) -> (instruction: Instruction)
        ensures
            instruction == opcodes::cb_decode_spec(old(self)@, mmu@, byte),
            instruction.well_formed(),
            final(self)@ == old(self)@,
    {
        opcodes::cb_decoder(self, byte, mmu)
    }

    /// Executes one decoded instruction and returns the machine cycles it took.
    pub fn excute(&mut self, instruction: &Instruction, mmu: &mut MMU) -> (cycles: u8)
        requires
            instruction.well_formed(),
        ensures
            (Step { cpu: final(self)@, mmu: final(mmu)@, cycles }) == execute_spec(
                old(self)@,
                old(mmu)@,
                *instruction,
            ),
            old(mmu)@.wf() ==> final(mmu)@.wf(),
    {
        execute::executer(self, instruction, mmu)
    }

    /// Fetches, decodes and executes the instruction at the program counter
    /// and returns the machine cycles it took.
    pub fn run_instruction(&mut self, mmu: &mut MMU) -> (cycles: u8)
        requires
            opcodes::opcode_defined(old(mmu)@.read(old(self)@.pc)),
        ensures
            (Step { cpu: final(self)@, mmu: final(mmu)@, cycles }) == step_spec(
                old(self)@,
                old(mmu)@,
            ),
            old(mmu)@.wf() ==> final(mmu)@.wf(),
    {
        let byte = mmu.read_byte(self.pc);
        let instruction = self.decode(byte, mmu);
        self.excute(&instruction, mmu)
    }

    /// Whether `do_cycle` can be called: a running processor needs a defined
    /// opcode at the program counter.
    pub fn can_step(&self, mmu: &MMU) -> (r: bool)
        ensures
            r == can_step_spec(self@, mmu@),
    {
        if self.halted {
            return true;
        }
        let byte = if mmu.read_byte(0xFF02) == 0x81 && self.pc == 0xFF02 {
            0
        } else {
            mmu.read_byte(self.pc)
        };
        proof {
            if mmu@.read(0xFF02) == 0x81 {
                lemma_acknowledged_read(mmu@, self.pc);
            }
        }
        opcodes::is_defined_opcode(byte)
    }

    /// One step of the processor: an instruction, or a machine cycle of
    /// waiting while halted; then, if due, the entry into an interrupt's
    /// service.
    pub fn do_cycle(&mut self, mmu: &mut MMU, dbg: &mut DBG)
        requires
            old(mmu)@.wf(),
            can_step_spec(old(self)@, old(mmu)@),
        ensures
            (final(self)@, final(mmu)@) == do_cycle_spec(old(self)@, old(mmu)@),
            final(dbg)@ == if old(self)@.halted {
                old(dbg)@
            } else {
                old(dbg)@.update(old(mmu)@)
            },
            final(mmu)@.wf(),
    {
        if self.halted {
            self.cycle(mmu, 1);
            if mmu.peek_interrupt().is_some() {
                self.halted = false;
            }
        } else {
            dbg.dbg_update(mmu);
            dbg.dbg_print();
            let m = self.run_instruction(mmu);
            self.cycle(mmu, m);
        }
        if self.ime && mmu.peek_interrupt().is_some() {
            self.interrupt_handle(mmu);
            self.cycle(mmu, INTERRUPT_CYCLES);
        }
        if self.ei {
            self.ime = true;
            self.ei = false;
        }
    }

    /// Lets `cycles` machine cycles pass: four hardware ticks of the timer
    /// and the pixel pipeline and one step of the block transfer for each.
    pub fn cycle(&mut self, mmu: &mut MMU, cycles: u8)
        requires
            old(mmu)@.wf(),
        ensures
            (final(self)@, final(mmu)@) == pass_cycles(old(self)@, old(mmu)@, cycles as nat),
            final(mmu)@.wf(),
    {
        let mut done: u8 = 0;
        while done < cycles
            invariant
                done <= cycles,
                mmu@.wf(),
                pass_cycles(self@, mmu@, (cycles - done) as nat) == pass_cycles(
                    old(self)@,
                    old(mmu)@,
                    cycles as nat,
                ),
            decreases cycles - done,
        {
            mmu.tick();
            mmu.tick();
            mmu.tick();
            mmu.tick();
            mmu.dma_tick();
            self.ticks = self.ticks.wrapping_add(4);
            done += 1;
        }
    }

    /// Enters the service of the pending interrupt that is served first.
    pub fn interrupt_handle(&mut self, mmu: &mut MMU)
        ensures
            (final(self)@, final(mmu)@) == service_interrupt(old(self)@, old(mmu)@),
            old(mmu)@.wf() ==> final(mmu)@.wf(),
    {
        let pc = self.pc;
        self.sp = self.sp.wrapping_sub(1);
        mmu.write_byte(self.sp, (pc / 256) as u8);
        match mmu.take_interrupt(self) {
            Some(highest_interrupt) => {
                self.pc = mmu.interrupt_address(highest_interrupt);
            },
            None => {
                self.pc = 0;
            },
        }
        self.sp = self.sp.wrapping_sub(1);
        mmu.write_byte(self.sp, (pc % 256) as u8);
    }

    pub fn get_a(&mut self) -> (r: u8)
        ensures
            r == old(self)@.a,
            final(self)@ == old(self)@,
    {
        self.a
    }

    pub fn get_b(&mut self) -> (r: u8)
        ensures
            r == old(self)@.b,
            final(self)@ == old(self)@,
    {
        self.b
    }

    pub fn get_c(&mut self) -> (r: u8)
        ensures
            r == old(self)@.c,
            final(self)@ == old(self)@,
    {
        self.c
    }

    pub fn get_d(&mut self) -> (r: u8)
        ensures
            r == old(self)@.d,
            final(self)@ == old(self)@,
    {
        self.d
    }

    pub fn get_e(&mut self) -> (r: u8)
        ensures
            r == old(self)@.e,
            final(self)@ == old(self)@,
    {
        self.e
    }

    pub fn get_h(&mut self) -> (r: u8)
        ensures
            r == old(self)@.h,
            final(self)@ == old(self)@,
    {
        self.h
    }

    pub fn get_l(&mut self) -> (r: u8)
        ensures
            r == old(self)@.l,
            final(self)@ == old(self)@,
    {
        self.l
    }

    pub fn get_pc(&mut self) -> (r: u16)
        ensures
            r == old(self)@.pc,
            final(self)@ == old(self)@,
    {
        self.pc
    }

    pub fn get_sp(&mut self) -> (r: u16)
        ensures
            r == old(self)@.sp,
            final(self)@ == old(self)@,
    {
        self.sp
    }

    pub fn set_pc(&mut self, pc: u16)
        ensures
            final(self)@ == (CpuState { pc, ..old(self)@ }),
    {
        self.pc = pc;
    }

    pub fn set_sp(&mut self, sp: u16)
        ensures
            final(self)@ == (CpuState { sp, ..old(self)@ }),
    {
        self.sp = sp;
    }

    pub fn get_af(&mut self) -> (r: u16)
        ensures
            r == old(self)@.af(),
            final(self)@ == old(self)@,
    {
        proof {
            lemma_join_u16(self.a, self.f);
        }
        let a: u16 = (self.a as u16) << 8;
        a | (self.f as u16)
    }

    pub fn get_bc(&mut self) -> (r: u16)
        ensures
            r == old(self)@.bc(),
            final(self)@ == old(self)@,
    {
        proof {
            lemma_join_u16(self.b, self.c);
        }
        let b: u16 = (self.b as u16) << 8;
        b | (self.c as u16)
    }

    pub fn get_de(&mut self) -> (r: u16)
        ensures
            r == old(self)@.de(),
            final(self)@ == old(self)@,
    {
        proof {
            lemma_join_u16(self.d, self.e);
        }
        let d: u16 = (self.d as u16) << 8;
        d | (self.e as u16)
    }

    pub fn get_hl(&mut self) -> (r: u16)
        ensures
            r == old(self)@.hl(),
            final(self)@ == old(self)@,
    {
        proof {
            lemma_join_u16(self.h, self.l);
        }
        let h: u16 = (self.h as u16) << 8;
        h | (self.l as u16)
    }

    pub fn set_hl(&mut self, hl: u16)
        ensures
            final(self)@ == old(self)@.with_hl(hl),
            final(self)@.hl() == hl,
    {
        self.h = (hl / 256) as u8;
        self.l = (hl % 256) as u8;
    }

    pub fn get_halted(&mut self) -> (r: bool)
        ensures
            r == old(self)@.halted,
            final(self)@ == old(self)@,
    {
        self.halted
    }

    pub fn set_halted(&mut self, b: bool)
        ensures
            final(self)@ == (CpuState { halted: b, ..old(self)@ }),
    {
        self.halted = b;
    }

    pub fn set_ime(&mut self, b: bool)
        ensures
            final(self)@ == (CpuState { ime: b, ..old(self)@ }),
    {
        self.ime = b;
    }

    pub fn get_ticks(&mut self) -> (r: usize)
        ensures
            r == old(self)@.ticks,
            final(self)@ == old(self)@,
    {
        self.ticks
    }

    /// Adds `n`, and the Carry flag when `carry` asks for it, to the
    /// accumulator's value and sets the flags; the sum is returned, the
    /// accumulator itself is left alone.
    pub fn alu_add(&mut self, n: &u8, carry: bool) -> (result: u8)
        ensures
            result == add_result(old(self)@.a, *n, carry_in(carry, old(self)@.flag_c())),
            final(self)@ == old(self)@.with_flags(
                result == 0,
                false,
                (old(self)@.a & 0x0F) + (*n & 0x0F) + carry_in(carry, old(self)@.flag_c()) > 0x0F,
                old(self)@.a + *n + carry_in(carry, old(self)@.flag_c()) > 0xFF,
            ),
            final(self)@.flag_z() <==> result == 0,
            !final(self)@.flag_n(),
            final(self)@.flag_h() <==> (old(self)@.a & 0x0F) + (*n & 0x0F) + carry_in(
                carry,
                old(self)@.flag_c(),
            ) > 0x0F,
            final(self)@.flag_c() <==> old(self)@.a + *n + carry_in(carry, old(self)@.flag_c())
                > 0xFF,
    {
        let c: u8 = if carry && self.get_flag_c() { 1 } else { 0 };
        let result = self.a.wrapping_add(*n).wrapping_add(c);
        proof {
            lemma_mask_u8(self.a);
            lemma_mask_u8(*n);
        }
        let half = (self.a & 0x0F) + (*n & 0x0F) + c > 0xF;
        let full = (self.a as u16) + (*n as u16) + (c as u16) > 0xFF;
        proof {
            lemma_with_flags(self@, result == 0, false, half, full);
        }
        self.set_flags(result == 0, false, half, full);
        result
    }

    /// Subtracts `n`, and the Carry flag when `carry` asks for it, from the
    /// accumulator's value and sets the flags; the difference is returned, the
    /// accumulator itself is left alone.
    pub fn alu_sub(&mut self, n: &u8, carry: bool) -> (result: u8)
        ensures
            result == sub_result(old(self)@.a, *n, carry_in(carry, old(self)@.flag_c())),
            final(self)@ == old(self)@.with_flags(
                result == 0,
                true,
                (old(self)@.a & 0x0F) < (*n & 0x0F) + carry_in(carry, old(self)@.flag_c()),
                old(self)@.a < *n + carry_in(carry, old(self)@.flag_c()),
            ),
            final(self)@.flag_z() <==> result == 0,
            final(self)@.flag_n(),
            final(self)@.flag_h() <==> (old(self)@.a & 0x0F) < (*n & 0x0F) + carry_in(
                carry,
                old(self)@.flag_c(),
            ),
            final(self)@.flag_c() <==> old(self)@.a < *n + carry_in(carry, old(self)@.flag_c()),
    {
        let c: u8 = if carry && self.get_flag_c() { 1 } else { 0 };
        let result = self.a.wrapping_sub(*n).wrapping_sub(c);
        proof {
            lemma_mask_u8(self.a);
            lemma_mask_u8(*n);
        }
        let half = (self.a & 0x0F) < (*n & 0x0F) + c;
        let full = (self.a as u16) < (*n as u16) + (c as u16);
        proof {
            lemma_with_flags(self@, result == 0, true, half, full);
        }
        self.set_flags(result == 0, true, half, full);
        result
    }

    /// Exchanges the two nibbles of `n` and sets the flags: Zero when `n` is
    /// zero, the other three clear.
    pub fn swap(&mut self, n: &u8) -> (result: u8)
        ensures
            result == swap_result(*n),
            final(self)@ == old(self)@.with_flags(*n == 0, false, false, false),
    {
        self.set_flags(*n == 0, false, false, false);
        proof {
            lemma_mask_u8(*n);
            lemma_swap(*n);
        }
        (*n << 4) | (*n >> 4)
    }
}

/// The two nibbles of a byte, exchanged by shifts, are the byte `swap_result` names.
proof fn lemma_swap(n: u8)
    by (bit_vector)
    ensures
        (n << 4) | (n >> 4) == (n % 16) * 16 + n / 16,
{
}

} // verus!
