//! Laws of the instruction set, stated over the model of one execution step.
use vstd::prelude::*;
use crate::bits::low_byte;
use crate::cpu::{
    CpuState, pop16, lemma_with_flags, service_interrupt, dispatch_spec, sub16, step_spec, decode_at,
};
use crate::mmu::interrupts::{InterruptType, lemma_acknowledge, lemma_highest_pending};
use crate::mmu::{INTERRUPT_ENABLE, INTERRUPT_REQUEST};
use crate::cpu::execute::{
    class_of, execute_spec, load8_spec, load16_spec, alu8_spec, alu16_spec, misc_spec, rotate_spec,
    bit_spec, control_spec, offset_flags, Class, Step,
};
use crate::instruction::Instruction;
use crate::mmu::MmuState;

verus! {

/// A conditional jump, call or return takes fewer cycles when its condition
/// fails than when it holds: 3 against 4 for an absolute jump, 2 against 3
/// for a relative jump, 3 against 6 for a call and 2 against 5 for a return.
pub proof fn lemma_conditional_cycles(cpu: CpuState, mmu: MmuState, nn: u16, e: i8, m: u8)
    requires
        m <= 3,
    ensures
        execute_spec(cpu, mmu, Instruction::Jpcc(nn, m)).cycles == if cpu.condition(m) {
            4u8
        } else {
            3u8
        },
        execute_spec(cpu, mmu, Instruction::Jrcc(e, m)).cycles == if cpu.condition(m) {
            3u8
        } else {
            2u8
        },
        execute_spec(cpu, mmu, Instruction::Callcc(nn, m)).cycles == if cpu.condition(m) {
            6u8
        } else {
            3u8
        },
        execute_spec(cpu, mmu, Instruction::Retcc(m)).cycles == if cpu.condition(m) {
            5u8
        } else {
            2u8
        },
{
    reveal(control_spec);
    assert(class_of(Instruction::Jpcc(nn, m)) is Control);
    assert(class_of(Instruction::Jrcc(e, m)) is Control);
    assert(class_of(Instruction::Callcc(nn, m)) is Control);
    assert(class_of(Instruction::Retcc(m)) is Control);
    assert(control_spec(cpu, mmu, Instruction::Jpcc(nn, m)).cycles == if cpu.condition(m) {
        4u8
    } else {
        3u8
    });
    assert(control_spec(cpu, mmu, Instruction::Jrcc(e, m)).cycles == if cpu.condition(m) {
        3u8
    } else {
        2u8
    });
    assert(control_spec(cpu, mmu, Instruction::Callcc(nn, m)).cycles == if cpu.condition(m) {
        6u8
    } else {
        3u8
    });
    assert(control_spec(cpu, mmu, Instruction::Retcc(m)).cycles == if cpu.condition(m) {
        5u8
    } else {
        2u8
    });
}

/// The no-operation moves the program counter on by one, takes one cycle and
/// changes nothing else, so no flag either.
pub proof fn lemma_nop(cpu: CpuState, mmu: MmuState)
    ensures
        execute_spec(cpu, mmu, Instruction::Nop) == (Step { cpu: cpu.advance(1), mmu, cycles: 1 }),
        execute_spec(cpu, mmu, Instruction::Nop).cpu.f == cpu.f,
{
    reveal(misc_spec);
}

/// Where the opcode 0x00 stands at the program counter, a step of fetching,
/// decoding and executing moves the program counter on by one, takes one
/// cycle and changes nothing else.
pub proof fn lemma_nop_step(cpu: CpuState, mmu: MmuState)
    requires
        mmu.read(cpu.pc) == 0x00,
    ensures
        step_spec(cpu, mmu) == (Step { cpu: cpu.advance(1), mmu, cycles: 1 }),
        step_spec(cpu, mmu).cpu.f == cpu.f,
{
    assert(decode_at(cpu, mmu, 0x00) == Instruction::Nop);
    lemma_nop(cpu, mmu);
}

/// A comparison changes the flags only: the accumulator stays.
pub proof fn lemma_compare_keeps_accumulator(cpu: CpuState, mmu: MmuState, n: u8)
    ensures
        execute_spec(cpu, mmu, Instruction::Cp(n)).cpu.a == cpu.a,
        execute_spec(cpu, mmu, Instruction::CpHl(n)).cpu.a == cpu.a,
        execute_spec(cpu, mmu, Instruction::CpD8(n)).cpu.a == cpu.a,
{
    reveal(alu8_spec);
    assert(class_of(Instruction::Cp(n)) is Alu8);
    assert(class_of(Instruction::CpHl(n)) is Alu8);
    assert(class_of(Instruction::CpD8(n)) is Alu8);
    assert(alu8_spec(cpu, mmu, Instruction::Cp(n)).cpu.a == cpu.a);
    assert(alu8_spec(cpu, mmu, Instruction::CpHl(n)).cpu.a == cpu.a);
    assert(alu8_spec(cpu, mmu, Instruction::CpD8(n)).cpu.a == cpu.a);
}

/// Replacing the four flags never sets one of the unused bits.
proof fn lemma_flags_keep_low_bits()
    ensures
        forall|s: CpuState, z: bool, n: bool, h: bool, c: bool|
            s.low_flags_clear() ==> (#[trigger] s.with_flags(z, n, h, c)).low_flags_clear(),
{
    assert forall|s: CpuState, z: bool, n: bool, h: bool, c: bool|
        s.low_flags_clear() implies (#[trigger] s.with_flags(z, n, h, c)).low_flags_clear() by {
        lemma_with_flags(s, z, n, h, c);
    }
}

proof fn lemma_masked_low_bits(x: u8)
    by (bit_vector)
    ensures
        (x & 0xF0) & 0x0F == 0,
{
}

/// No instruction sets one of the four unused bits of the flag register.
pub proof fn lemma_low_flags_stay_clear(cpu: CpuState, mmu: MmuState, i: Instruction)
    requires
        cpu.low_flags_clear(),
    ensures
        execute_spec(cpu, mmu, i).cpu.low_flags_clear(),
{
    lemma_flags_keep_low_bits();
    match class_of(i) {
        Class::Load8 => {
            reveal(load8_spec);
            assert(load8_spec(cpu, mmu, i).cpu.f == cpu.f);
        },
        Class::Load16 => {
            reveal(load16_spec);
            match i {
                Instruction::Popnn(n) => {
                    lemma_masked_low_bits(low_byte(pop16(cpu, mmu).1));
                },
                Instruction::LdHlSp(e) => {
                    assert(load16_spec(cpu, mmu, i).cpu.f == offset_flags(cpu, e).f);
                },
                _ => {
                    assert(load16_spec(cpu, mmu, i).cpu.f == cpu.f);
                },
            }
        },
        Class::Alu8 => {
            lemma_alu8_low_flags(cpu, mmu, i);
        },
        Class::Alu16 => {
            reveal(alu16_spec);
            assert(alu16_spec(cpu, mmu, i).cpu.low_flags_clear());
        },
        Class::Misc => {
            reveal(misc_spec);
            assert(misc_spec(cpu, mmu, i).cpu.low_flags_clear());
        },
        Class::Rotate => {
            reveal(rotate_spec);
            assert(rotate_spec(cpu, mmu, i).cpu.low_flags_clear());
        },
        Class::Bit => {
            reveal(bit_spec);
            assert(bit_spec(cpu, mmu, i).cpu.low_flags_clear());
        },
        Class::Control => {
            reveal(control_spec);
            assert(control_spec(cpu, mmu, i).cpu.f == cpu.f);
        },
    }
}

proof fn lemma_alu8_low_flags(cpu: CpuState, mmu: MmuState, i: Instruction)
    requires
        cpu.low_flags_clear(),
    ensures
        alu8_spec(cpu, mmu, i).cpu.low_flags_clear(),
{
    reveal(alu8_spec);
    lemma_flags_keep_low_bits();
}


/// Entering the service of an interrupt takes the pending source that is
/// served first: the program counter becomes its vector, its request is
/// cleared, and with it the master enable and the halted state, while the
/// other sources stay as they were. This is stated for a stack that does not
/// lie on one of the two interrupt registers.
pub proof fn lemma_service_takes_first_pending(
    cpu: CpuState,
    mmu: MmuState,
    t: InterruptType,
    u: InterruptType,
)
    requires
        mmu.interrupts.highest_pending() == Some(t),
        sub16(cpu.sp, 1) != INTERRUPT_REQUEST,
        sub16(cpu.sp, 1) != INTERRUPT_ENABLE,
        sub16(cpu.sp, 2) != INTERRUPT_REQUEST,
        sub16(cpu.sp, 2) != INTERRUPT_ENABLE,
    ensures
        mmu.interrupts.pending(t),
        u.index() < t.index() ==> !mmu.interrupts.pending(u),
        service_interrupt(cpu, mmu).0.pc == t.vector(),
        !service_interrupt(cpu, mmu).0.ime,
        !service_interrupt(cpu, mmu).0.halted,
        service_interrupt(cpu, mmu).0.sp == sub16(cpu.sp, 2),
        service_interrupt(cpu, mmu).1.interrupts == mmu.interrupts.acknowledge(t),
        !service_interrupt(cpu, mmu).1.interrupts.pending(t),
        u != t ==> service_interrupt(cpu, mmu).1.interrupts.pending(u) == mmu.interrupts.pending(u),
{
    lemma_highest_pending(mmu.interrupts);
    lemma_acknowledge(mmu.interrupts, t, u);
    assert(sub16(sub16(cpu.sp, 1), 1) == sub16(cpu.sp, 2));
}

/// Without the master enable, or without a pending source, no interrupt is
/// served: the interrupt part of a step changes nothing but the two enable
/// flags.
pub proof fn lemma_no_service_without_enable(cpu: CpuState, mmu: MmuState)
    requires
        !cpu.ime || mmu.interrupts.highest_pending() is None,
    ensures
        dispatch_spec(cpu, mmu).1 == mmu,
        dispatch_spec(cpu, mmu).0 == if cpu.ei {
            CpuState { ime: true, ei: false, ..cpu }
        } else {
            cpu
        },
{
}

} // verus!
