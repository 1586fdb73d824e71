//! What each instruction does: the model of one execution step, and the
//! executable dispatch that is proved to follow it.
use vstd::prelude::*;
use crate::bits::{high_byte, low_byte, pair, lemma_mask_u8};
use crate::cpu::{
    CPU, CpuState, add16, sub16, offset16, push16, pop16, add_result, sub_result, swap_result,
    carry_in};
use crate::instruction::Instruction;
use crate::mmu::{MMU, MmuState};

verus! {

/// First address of the page that the short loads and stores reach.
pub const HIGH_PAGE: u16 = 0xFF00;

/// The outcome of one instruction: the registers and the memory after it,
/// and the machine cycles it took.
pub ghost struct Step {
    pub cpu: CpuState,
    pub mmu: MmuState,
    pub cycles: u8,
}

/// A signed byte read as the unsigned byte with the same bits.
pub open spec fn as_unsigned(e: i8) -> u8 {
    if e < 0 {
        (e + 256) as u8
    } else {
        e as u8
    }
}

/// The accumulator and flags after an addition of `n`.
pub open spec fn add_state(cpu: CpuState, n: u8, carry: bool) -> CpuState {
    let c = carry_in(carry, cpu.flag_c());
    let r = add_result(cpu.a, n, c);
    CpuState {
        a: r,
        ..cpu.with_flags(r == 0, false, (cpu.a & 0x0F) + (n & 0x0F) + c > 0x0F, cpu.a + n + c > 0xFF)
    }
}

/// The flags after a subtraction of `n`; the accumulator is left alone.
pub open spec fn compare_state(cpu: CpuState, n: u8, carry: bool) -> CpuState {
    let c = carry_in(carry, cpu.flag_c());
    let r = sub_result(cpu.a, n, c);
    cpu.with_flags(r == 0, true, (cpu.a & 0x0F) < (n & 0x0F) + c, cpu.a < n + c)
}

/// The accumulator and flags after a subtraction of `n`.
pub open spec fn sub_state(cpu: CpuState, n: u8, carry: bool) -> CpuState {
    let c = carry_in(carry, cpu.flag_c());
    CpuState { a: sub_result(cpu.a, n, c), ..compare_state(cpu, n, carry) }
}

/// The accumulator and flags after a logical operation with result `r`.
pub open spec fn logic_state(cpu: CpuState, r: u8, half: bool) -> CpuState {
    CpuState { a: r, ..cpu.with_flags(r == 0, false, half, false) }
}

/// The byte after an increment, wrapping at 8 bits.
pub open spec fn inc8(v: u8) -> u8 {
    if v == 0xFF {
        0
    } else {
        (v + 1) as u8
    }
}

/// The byte after a decrement, wrapping at 8 bits.
pub open spec fn dec8(v: u8) -> u8 {
    if v == 0 {
        0xFF
    } else {
        (v - 1) as u8
    }
}

/// The flags after an increment that gave `r` from an operand `operand`:
/// Carry is kept.
pub open spec fn inc_flags(cpu: CpuState, r: u8, operand: u8) -> CpuState {
    cpu.with_flags(r == 0, false, (operand & 0x0F) + 1 > 0x0F, cpu.flag_c())
}

/// The flags after a decrement that gave `r` from an operand `operand`:
/// Carry is kept.
pub open spec fn dec_flags(cpu: CpuState, r: u8, operand: u8) -> CpuState {
    cpu.with_flags(r == 0, true, operand & 0x0F == 0, cpu.flag_c())
}

/// The flags after a signed byte `e` was added to the stack pointer: Zero
/// and Subtract clear, Half-carry and Carry from the unsigned addition of
/// the low byte of the stack pointer and the byte `e`.
pub open spec fn offset_flags(cpu: CpuState, e: i8) -> CpuState {
    cpu.with_flags(
        false,
        false,
        (cpu.sp % 16) + (as_unsigned(e) % 16) > 0x0F,
        (cpu.sp % 256) + as_unsigned(e) > 0xFF,
    )
}

/// The accumulator after decimal adjustment, and the new Carry flag.
pub open spec fn daa_result(a: u8, n: bool, h: bool, c: bool) -> (u8, bool) {
    if n {
        let adjust: u8 = ((if c {
            0x60int
        } else {
            0int
        }) + (if h {
            0x06int
        } else {
            0int
        })) as u8;
        (sub_result(a, adjust, 0), c)
    } else {
        let low = h || a & 0x0F > 0x09;
        let high = c || a > 0x99;
        let adjust: u8 = ((if high {
            0x60int
        } else {
            0int
        }) + (if low {
            0x06int
        } else {
            0int
        })) as u8;
        (add_result(a, adjust, 0), high)
    }
}

/// The kinds of rotate and shift.
pub enum Shift {
    /// Rotate left; bit 7 goes to bit 0 and to Carry.
    Rlc,
    /// Rotate left through Carry.
    Rl,
    /// Rotate right; bit 0 goes to bit 7 and to Carry.
    Rrc,
    /// Rotate right through Carry.
    Rr,
    /// Shift left; bit 0 becomes 0.
    Sla,
    /// Shift right; bit 7 stays.
    Sra,
    /// Shift right; bit 7 becomes 0.
    Srl,
}

/// The byte that a rotate or shift of `v` gives, with `carry` the Carry flag
/// before it.
pub open spec fn shift_result(kind: Shift, v: u8, carry: bool) -> u8 {
    let cin: int = if carry {
        1
    } else {
        0
    };
    match kind {
        Shift::Rlc => ((v % 128) * 2 + v / 128) as u8,
        Shift::Rl => ((v % 128) * 2 + cin) as u8,
        Shift::Rrc => (v / 2 + (v % 2) * 128) as u8,
        Shift::Rr => (v / 2 + cin * 128) as u8,
        Shift::Sla => ((v % 128) * 2) as u8,
        Shift::Sra => (v / 2 + (v / 128) * 128) as u8,
        Shift::Srl => (v / 2) as u8,
    }
}

/// The Carry flag that a rotate or shift of `v` gives: the bit that left.
pub open spec fn shift_carry(kind: Shift, v: u8) -> bool {
    match kind {
        Shift::Rlc => v >= 128,
        Shift::Rl => v >= 128,
        Shift::Sla => v >= 128,
        _ => v % 2 == 1,
    }
}

/// A rotate of the accumulator in its short form: Zero, Subtract and
/// Half-carry are cleared whatever the result.
pub open spec fn rotate_a(cpu: CpuState, kind: Shift, v: u8) -> RegisterStep {
    RegisterStep {
        cpu: CpuState {
            a: shift_result(kind, v, cpu.flag_c()),
            ..cpu.with_flags(false, false, false, shift_carry(kind, v))
        }.advance(1),
        cycles: 1,
    }
}

/// The outcome of an instruction that does not write memory.
pub ghost struct RegisterStep {
    pub cpu: CpuState,
    pub cycles: u8,
}

/// The outcome with the memory unchanged.
pub open spec fn keep(mmu: MmuState, s: RegisterStep) -> Step {
    Step { cpu: s.cpu, mmu, cycles: s.cycles }
}

/// The outcome of a write of `r` to the operand that code `n` names (A, B, C,
/// D, E, H, L, the byte at HL) by an instruction of the second table: the
/// program counter moves on by two; a register takes two cycles, memory four.
pub open spec fn store_operand(cpu: CpuState, mmu: MmuState, n: u8, r: u8) -> Step
    recommends
        n <= 7,
{
    if n == 7 {
        Step { cpu: cpu.advance(2), mmu: mmu.write(cpu.hl(), r), cycles: 4 }
    } else {
        Step { cpu: cpu.with_r7(n, r).advance(2), mmu, cycles: 2 }
    }
}

/// The outcome of a rotate or shift of the second table on operand `n` with
/// value `v`: Zero tells whether the result is zero.
pub open spec fn shift_operand(cpu: CpuState, mmu: MmuState, kind: Shift, n: u8, v: u8) -> Step
    recommends
        n <= 7,
{
    let r = shift_result(kind, v, cpu.flag_c());
    store_operand(cpu.with_flags(r == 0, false, false, shift_carry(kind, v)), mmu, n, r)
}

/// The 8-bit loads.
#[verifier::opaque]
pub open spec fn load8_spec(cpu: CpuState, mmu: MmuState, i: Instruction) -> Step {
    match i {
        Instruction::LdN(n, v) => Step { cpu: cpu.with_r6(n, v).advance(2), mmu, cycles: 2 },
        Instruction::LdAR2(n, v) => Step {
            cpu: CpuState { a: v, ..cpu }.advance(1),
            mmu,
            cycles: if n == 0 {
                1
            } else {
                2
            },
        },
        Instruction::LdAnn(v) => Step { cpu: CpuState { a: v, ..cpu }.advance(3), mmu, cycles: 4 },
        Instruction::LdAd8(v) => Step { cpu: CpuState { a: v, ..cpu }.advance(2), mmu, cycles: 2 },
        Instruction::LdBR2(v, m) => Step {
            cpu: cpu.with_r6(0, v).advance(1),
            mmu,
            cycles: if m {
                2
            } else {
                1
            },
        },
        Instruction::LdCR2(v, m) => Step {
            cpu: cpu.with_r6(1, v).advance(1),
            mmu,
            cycles: if m {
                2
            } else {
                1
            },
        },
        Instruction::LdDR2(v, m) => Step {
            cpu: cpu.with_r6(2, v).advance(1),
            mmu,
            cycles: if m {
                2
            } else {
                1
            },
        },
        Instruction::LdER2(v, m) => Step {
            cpu: cpu.with_r6(3, v).advance(1),
            mmu,
            cycles: if m {
                2
            } else {
                1
            },
        },
        Instruction::LdHR2(v, m) => Step {
            cpu: cpu.with_r6(4, v).advance(1),
            mmu,
            cycles: if m {
                2
            } else {
                1
            },
        },
        Instruction::LdLR2(v, m) => Step {
            cpu: cpu.with_r6(5, v).advance(1),
            mmu,
            cycles: if m {
                2
            } else {
                1
            },
        },
        Instruction::LdHlR2(v, immediate) => Step {
            cpu: cpu.advance(
                if immediate {
                    2
                } else {
                    1
                },
            ),
            mmu: mmu.write(cpu.hl(), v),
            cycles: if immediate {
                3
            } else {
                2
            },
        },
        Instruction::LdnA(n, a) => Step { cpu: cpu.with_r6(n, a).advance(1), mmu, cycles: 1 },
        Instruction::Ldn16A(address, a) => Step {
            cpu: cpu.advance(1),
            mmu: mmu.write(address, a),
            cycles: 2,
        },
        Instruction::Lda16A(address, a) => Step {
            cpu: cpu.advance(3),
            mmu: mmu.write(address, a),
            cycles: 4,
        },
        Instruction::LdAc(c) => Step {
            cpu: CpuState { a: mmu.read((HIGH_PAGE + c) as u16), ..cpu }.advance(2),
            mmu,
            cycles: 2,
        },
        Instruction::LdCa(a) => Step {
            cpu: cpu.advance(2),
            mmu: mmu.write((HIGH_PAGE + cpu.c) as u16, a),
            cycles: 2,
        },
        Instruction::LddAHl(hl) => Step {
            cpu: CpuState { a: mmu.read(hl), ..cpu }.with_hl(sub16(hl, 1)).advance(1),
            mmu,
            cycles: 2,
        },
        Instruction::LddHlA(hl) => Step {
            cpu: cpu.with_hl(sub16(hl, 1)).advance(1),
            mmu: mmu.write(hl, cpu.a),
            cycles: 2,
        },
        Instruction::LdIAHl(hl) => Step {
            cpu: CpuState { a: mmu.read(hl), ..cpu }.with_hl(add16(hl, 1)).advance(1),
            mmu,
            cycles: 2,
        },
        Instruction::LdIHlA(hl) => Step {
            cpu: cpu.with_hl(add16(hl, 1)).advance(1),
            mmu: mmu.write(hl, cpu.a),
            cycles: 2,
        },
        Instruction::LdHnA(n) => Step {
            cpu: cpu.advance(2),
            mmu: mmu.write((HIGH_PAGE + n) as u16, cpu.a),
            cycles: 3,
        },
        Instruction::LdHAn(n) => Step {
            cpu: CpuState { a: mmu.read((HIGH_PAGE + n) as u16), ..cpu }.advance(2),
            mmu,
            cycles: 3,
        },
        _ => Step { cpu, mmu, cycles: 0 },
    }
}

/// The registers after a pop into the pair that code `n` names in the order
/// AF, BC, DE, HL. The four unused bits of the flag register stay clear.
pub open spec fn pop_into(cpu: CpuState, n: u8, v: u16) -> CpuState
    recommends
        n <= 3,
{
    if n == 0 {
        CpuState { a: high_byte(v), f: low_byte(v) & 0xF0, ..cpu }
    } else {
        cpu.with_pair((n - 1) as u8, v)
    }
}

/// The 16-bit loads and the stack instructions.
#[verifier::opaque]
pub open spec fn load16_spec(cpu: CpuState, mmu: MmuState, i: Instruction) -> Step {
    match i {
        Instruction::LdBc(v) => Step { cpu: cpu.with_pair(0, v).advance(3), mmu, cycles: 3 },
        Instruction::LdDe(v) => Step { cpu: cpu.with_pair(1, v).advance(3), mmu, cycles: 3 },
        Instruction::LdHl(v) => Step { cpu: cpu.with_pair(2, v).advance(3), mmu, cycles: 3 },
        Instruction::LdSp(v) => Step { cpu: cpu.with_pair(3, v).advance(3), mmu, cycles: 3 },
        Instruction::LdSpHl(hl) => Step { cpu: cpu.with_pair(3, hl).advance(1), mmu, cycles: 3 },
        Instruction::LdHlSp(e) => Step {
            cpu: offset_flags(cpu, e).with_hl(offset16(cpu.sp, e)).advance(2),
            mmu,
            cycles: 3,
        },
        Instruction::LdnnSp(address) => Step {
            cpu: cpu.advance(3),
            mmu: mmu.write(address, low_byte(cpu.sp)).write(add16(address, 1), high_byte(cpu.sp)),
            cycles: 5,
        },
        Instruction::Pushnn(v) => Step {
            cpu: push16(cpu, mmu, v).0.advance(1),
            mmu: push16(cpu, mmu, v).1,
            cycles: 4,
        },
        Instruction::Popnn(n) => Step {
            cpu: pop_into(pop16(cpu, mmu).0, n, pop16(cpu, mmu).1).advance(1),
            mmu,
            cycles: 3,
        },
        _ => Step { cpu, mmu, cycles: 0 },
    }
}

/// The outcome of an instruction that leaves memory alone, is `length` bytes
/// long and takes `cycles` machine cycles; `cpu` holds the registers after it
/// but for the program counter.
pub open spec fn alu_step(mmu: MmuState, cpu: CpuState, length: u16, cycles: u8) -> Step {
    Step { cpu: cpu.advance(length), mmu, cycles }
}

/// The 8-bit arithmetic and logic instructions.
#[verifier::opaque]
pub open spec fn alu8_spec(cpu: CpuState, mmu: MmuState, i: Instruction) -> Step {
    match i {
        Instruction::AddN(n) => alu_step(mmu, add_state(cpu, n, false), 1, 1),
        Instruction::AddHl(n) => alu_step(mmu, add_state(cpu, n, false), 1, 2),
        Instruction::AddD8(n) => alu_step(mmu, add_state(cpu, n, false), 2, 2),
        Instruction::AdcN(n) => alu_step(mmu, add_state(cpu, n, true), 1, 1),
        Instruction::AdcHl(n) => alu_step(mmu, add_state(cpu, n, true), 1, 2),
        Instruction::AdcD8(n) => alu_step(mmu, add_state(cpu, n, true), 2, 2),
        Instruction::SubN(n) => alu_step(mmu, sub_state(cpu, n, false), 1, 1),
        Instruction::SubHl(n) => alu_step(mmu, sub_state(cpu, n, false), 1, 2),
        Instruction::SubD8(n) => alu_step(mmu, sub_state(cpu, n, false), 2, 2),
        Instruction::SbcN(n) => alu_step(mmu, sub_state(cpu, n, true), 1, 1),
        Instruction::SbcHl(n) => alu_step(mmu, sub_state(cpu, n, true), 1, 2),
        Instruction::SbcD8(n) => alu_step(mmu, sub_state(cpu, n, true), 2, 2),
        Instruction::Andn(n) => alu_step(mmu, logic_state(cpu, cpu.a & n, true), 1, 1),
        Instruction::AndHl(n) => alu_step(mmu, logic_state(cpu, cpu.a & n, true), 1, 2),
        Instruction::AndD8(n) => alu_step(mmu, logic_state(cpu, cpu.a & n, true), 2, 2),
        Instruction::OrN(n) => alu_step(mmu, logic_state(cpu, cpu.a | n, false), 1, 1),
        Instruction::OrHl(n) => alu_step(mmu, logic_state(cpu, cpu.a | n, false), 1, 2),
        Instruction::OrD8(n) => alu_step(mmu, logic_state(cpu, cpu.a | n, false), 2, 2),
        Instruction::Xor(n) => alu_step(mmu, logic_state(cpu, cpu.a ^ n, false), 1, 1),
        Instruction::XorHl(n) => alu_step(mmu, logic_state(cpu, cpu.a ^ n, false), 1, 2),
        Instruction::XorD8(n) => alu_step(mmu, logic_state(cpu, cpu.a ^ n, false), 2, 2),
        Instruction::Cp(n) => alu_step(mmu, compare_state(cpu, n, false), 1, 1),
        Instruction::CpHl(n) => alu_step(mmu, compare_state(cpu, n, false), 1, 2),
        Instruction::CpD8(n) => alu_step(mmu, compare_state(cpu, n, false), 2, 2),
        Instruction::IncN(n, operand) => alu_step(
            mmu,
            inc_flags(cpu, inc8(cpu.r7(n)), operand).with_r7(n, inc8(cpu.r7(n))),
            1,
            1,
        ),
        Instruction::IncHl(hl) => Step {
            cpu: inc_flags(cpu, inc8(mmu.read(hl)), mmu.read(hl)).advance(1),
            mmu: mmu.write(hl, inc8(mmu.read(hl))),
            cycles: 3,
        },
        Instruction::DecN(n, operand) => alu_step(
            mmu,
            dec_flags(cpu, dec8(cpu.r7(n)), operand).with_r7(n, dec8(cpu.r7(n))),
            1,
            1,
        ),
        Instruction::DecHl(hl) => Step {
            cpu: dec_flags(cpu, dec8(mmu.read(hl)), mmu.read(hl)).advance(1),
            mmu: mmu.write(hl, dec8(mmu.read(hl))),
            cycles: 3,
        },
        _ => Step { cpu, mmu, cycles: 0 },
    }
}

/// The 16-bit arithmetic instructions. An addition to HL keeps Zero and
/// takes Half-carry from bit 11 and Carry from bit 15; increments and
/// decrements of pairs touch no flag.
#[verifier::opaque]
pub open spec fn alu16_spec(cpu: CpuState, mmu: MmuState, i: Instruction) -> Step {
    match i {
        Instruction::AddHlN(nn) => Step {
            cpu: cpu.with_flags(
                cpu.flag_z(),
                false,
                (cpu.hl() % 4096) + (nn % 4096) > 0x0FFF,
                cpu.hl() + nn > 0xFFFF,
            ).with_hl(add16(cpu.hl(), nn)).advance(1),
            mmu,
            cycles: 2,
        },
        Instruction::AddSpN(e) => Step {
            cpu: offset_flags(cpu, e).with_pair(3, offset16(cpu.sp, e)).advance(2),
            mmu,
            cycles: 4,
        },
        Instruction::IncNN(k, nn) => Step {
            cpu: cpu.with_pair(k, add16(nn, 1)).advance(1),
            mmu,
            cycles: 2,
        },
        Instruction::DecNN(k, nn) => Step {
            cpu: cpu.with_pair(k, sub16(nn, 1)).advance(1),
            mmu,
            cycles: 2,
        },
        _ => Step { cpu, mmu, cycles: 0 },
    }
}

/// Nibble swap, decimal adjustment, complement, the carry instructions, and
/// the instructions that control the processor. A halt takes effect only
/// when no interrupt is pending; enabling interrupts is deferred by one
/// instruction, disabling them is not.
#[verifier::opaque]
pub open spec fn misc_spec(cpu: CpuState, mmu: MmuState, i: Instruction) -> Step {
    match i {
        Instruction::SwapN(n, v) => Step {
            cpu: cpu.with_flags(v == 0, false, false, false).with_r7(n, swap_result(v)).advance(2),
            mmu,
            cycles: 2,
        },
        Instruction::SwapHl(v) => Step {
            cpu: cpu.with_flags(v == 0, false, false, false).advance(2),
            mmu: mmu.write(cpu.hl(), swap_result(v)),
            cycles: 4,
        },
        Instruction::Daa => {
            let (a, carry) = daa_result(cpu.a, cpu.flag_n(), cpu.flag_h(), cpu.flag_c());
            Step {
                cpu: CpuState { a, ..cpu.with_flags(a == 0, cpu.flag_n(), false, carry) }.advance(
                    1,
                ),
                mmu,
                cycles: 1,
            }
        },
        Instruction::Cpl(a) => Step {
            cpu: CpuState { a: !a, ..cpu.with_flags(cpu.flag_z(), true, true, cpu.flag_c()) }.advance(
                1,
            ),
            mmu,
            cycles: 1,
        },
        Instruction::Ccf => Step {
            cpu: cpu.with_flags(cpu.flag_z(), false, false, !cpu.flag_c()).advance(1),
            mmu,
            cycles: 1,
        },
        Instruction::Scf => Step {
            cpu: cpu.with_flags(cpu.flag_z(), false, false, true).advance(1),
            mmu,
            cycles: 1,
        },
        Instruction::Nop => Step { cpu: cpu.advance(1), mmu, cycles: 1 },
        Instruction::Halt => Step {
            cpu: CpuState { halted: mmu.interrupts.highest_pending() is None, ..cpu }.advance(1),
            mmu,
            cycles: 1,
        },
        Instruction::Stop => Step { cpu: cpu.advance(2), mmu, cycles: 1 },
        Instruction::Di => Step { cpu: CpuState { ime: false, ..cpu }.advance(1), mmu, cycles: 1 },
        Instruction::Ei => Step { cpu: CpuState { ei: true, ..cpu }.advance(1), mmu, cycles: 1 },
        _ => Step { cpu, mmu, cycles: 0 },
    }
}

/// The rotates and shifts.
#[verifier::opaque]
pub open spec fn rotate_spec(cpu: CpuState, mmu: MmuState, i: Instruction) -> Step {
    match i {
        Instruction::Rlca(a) => keep(mmu, rotate_a(cpu, Shift::Rlc, a)),
        Instruction::Rla(a) => keep(mmu, rotate_a(cpu, Shift::Rl, a)),
        Instruction::Rrca(a) => keep(mmu, rotate_a(cpu, Shift::Rrc, a)),
        Instruction::Rra(a) => keep(mmu, rotate_a(cpu, Shift::Rr, a)),
        Instruction::RlcN(n, v) => shift_operand(cpu, mmu, Shift::Rlc, n, v),
        Instruction::RlN(n, v) => shift_operand(cpu, mmu, Shift::Rl, n, v),
        Instruction::RrcN(n, v) => shift_operand(cpu, mmu, Shift::Rrc, n, v),
        Instruction::RrN(n, v) => shift_operand(cpu, mmu, Shift::Rr, n, v),
        Instruction::SlaN(n, v) => shift_operand(cpu, mmu, Shift::Sla, n, v),
        Instruction::SraN(n, v) => shift_operand(cpu, mmu, Shift::Sra, n, v),
        Instruction::SrlN(n, v) => shift_operand(cpu, mmu, Shift::Srl, n, v),
        _ => Step { cpu, mmu, cycles: 0 },
    }
}

/// Bit test, set and reset. A test sets Zero from the tested bit, clears
/// Subtract, sets Half-carry and keeps Carry; set and reset touch no flag.
#[verifier::opaque]
pub open spec fn bit_spec(cpu: CpuState, mmu: MmuState, i: Instruction) -> Step {
    match i {
        Instruction::BitbR(mask, v) => Step {
            cpu: cpu.with_flags(v & mask == 0, false, true, cpu.flag_c()).advance(2),
            mmu,
            cycles: 2,
        },
        Instruction::BitbHl(mask, v) => Step {
            cpu: cpu.with_flags(v & mask == 0, false, true, cpu.flag_c()).advance(2),
            mmu,
            cycles: 4,
        },
        Instruction::SetbR(mask, v, n) => store_operand(cpu, mmu, n, v | mask),
        Instruction::ResbR(mask, v, n) => store_operand(cpu, mmu, n, v & !mask),
        _ => Step { cpu, mmu, cycles: 0 },
    }
}

/// Cycles of a conditional absolute jump that is not taken.
pub const JP_NOT_TAKEN: u8 = 3;

/// Cycles of a conditional absolute jump that is taken.
pub const JP_TAKEN: u8 = 4;

/// Cycles of a conditional relative jump that is not taken.
pub const JR_NOT_TAKEN: u8 = 2;

/// Cycles of a conditional relative jump that is taken.
pub const JR_TAKEN: u8 = 3;

/// Cycles of a conditional call that is not taken.
pub const CALL_NOT_TAKEN: u8 = 3;

/// Cycles of a conditional call that is taken.
pub const CALL_TAKEN: u8 = 6;

/// Cycles of a conditional return that is not taken.
pub const RET_NOT_TAKEN: u8 = 2;

/// Cycles of a conditional return that is taken.
pub const RET_TAKEN: u8 = 5;

/// The outcome of a call to `target` from an instruction of `length` bytes:
/// the address of the next instruction is pushed.
pub open spec fn call_step(cpu: CpuState, mmu: MmuState, target: u16, length: u16, cycles: u8) -> Step {
    let (pushed, memory) = push16(cpu, mmu, add16(cpu.pc, length));
    Step { cpu: CpuState { pc: target, ..pushed }, mmu: memory, cycles }
}

/// The outcome of a return: the program counter is popped.
pub open spec fn return_step(cpu: CpuState, mmu: MmuState, cycles: u8) -> Step {
    let (popped, target) = pop16(cpu, mmu);
    Step { cpu: CpuState { pc: target, ..popped }, mmu, cycles }
}

/// Jumps, calls, restarts and returns.
#[verifier::opaque]
pub open spec fn control_spec(cpu: CpuState, mmu: MmuState, i: Instruction) -> Step {
    match i {
        Instruction::Jpnn(nn) => Step { cpu: CpuState { pc: nn, ..cpu }, mmu, cycles: 4 },
        Instruction::Jpcc(nn, m) => if cpu.condition(m) {
            Step { cpu: CpuState { pc: nn, ..cpu }, mmu, cycles: JP_TAKEN }
        } else {
            Step { cpu: cpu.advance(3), mmu, cycles: JP_NOT_TAKEN }
        },
        Instruction::JpHl(hl) => Step { cpu: CpuState { pc: hl, ..cpu }, mmu, cycles: 1 },
        Instruction::JrN(e) => Step {
            cpu: CpuState { pc: offset16(add16(cpu.pc, 2), e), ..cpu },
            mmu,
            cycles: 3,
        },
        Instruction::Jrcc(e, m) => if cpu.condition(m) {
            Step {
                cpu: CpuState { pc: offset16(add16(cpu.pc, 2), e), ..cpu },
                mmu,
                cycles: JR_TAKEN,
            }
        } else {
            Step { cpu: cpu.advance(2), mmu, cycles: JR_NOT_TAKEN }
        },
        Instruction::Callnn(nn) => call_step(cpu, mmu, nn, 3, 6),
        Instruction::Callcc(nn, m) => if cpu.condition(m) {
            call_step(cpu, mmu, nn, 3, CALL_TAKEN)
        } else {
            Step { cpu: cpu.advance(3), mmu, cycles: CALL_NOT_TAKEN }
        },
        Instruction::Rst(n) => call_step(cpu, mmu, n as u16, 1, 4),
        Instruction::Ret => return_step(cpu, mmu, 4),
        Instruction::Retcc(m) => if cpu.condition(m) {
            return_step(cpu, mmu, RET_TAKEN)
        } else {
            Step { cpu: cpu.advance(1), mmu, cycles: RET_NOT_TAKEN }
        },
        Instruction::Reti => {
            let s = return_step(cpu, mmu, 4);
            Step { cpu: CpuState { ime: true, ..s.cpu }, ..s }
        },
        _ => Step { cpu, mmu, cycles: 0 },
    }
}

/// The classes of instructions.
pub enum Class {
    Load8,
    Load16,
    Alu8,
    Alu16,
    Misc,
    Rotate,
    Bit,
    Control,
}

/// The class that an instruction belongs to.
pub open spec fn class_of(i: Instruction) -> Class {
    match i {
        Instruction::LdN(..)
        | Instruction::LdAR2(..)
        | Instruction::LdAnn(..)
        | Instruction::LdAd8(..)
        | Instruction::LdBR2(..)
        | Instruction::LdCR2(..)
        | Instruction::LdDR2(..)
        | Instruction::LdER2(..)
        | Instruction::LdHR2(..)
        | Instruction::LdLR2(..)
        | Instruction::LdHlR2(..)
        | Instruction::LdnA(..)
        | Instruction::Ldn16A(..)
        | Instruction::Lda16A(..)
        | Instruction::LdAc(..)
        | Instruction::LdCa(..)
        | Instruction::LddAhl
        | Instruction::LddAHl(..)
        | Instruction::LddHlA(..)
        | Instruction::LdIAHl(..)
        | Instruction::LdIHlA(..)
        | Instruction::LdHnA(..)
        | Instruction::LdHAn(..) => Class::Load8,
        Instruction::LdBc(..)
        | Instruction::LdDe(..)
        | Instruction::LdHl(..)
        | Instruction::LdSp(..)
        | Instruction::LdSpHl(..)
        | Instruction::LdHlSp(..)
        | Instruction::LdnnSp(..)
        | Instruction::Pushnn(..)
        | Instruction::Popnn(..) => Class::Load16,
        Instruction::AddHlN(..)
        | Instruction::AddSpN(..)
        | Instruction::IncNN(..)
        | Instruction::DecNN(..) => Class::Alu16,
        Instruction::SwapN(..)
        | Instruction::SwapHl(..)
        | Instruction::Daa
        | Instruction::Cpl(..)
        | Instruction::Ccf
        | Instruction::Scf
        | Instruction::Nop
        | Instruction::Halt
        | Instruction::Stop
        | Instruction::Di
        | Instruction::Ei => Class::Misc,
        Instruction::Rlca(..)
        | Instruction::Rla(..)
        | Instruction::Rrca(..)
        | Instruction::Rra(..)
        | Instruction::RlcN(..)
        | Instruction::RlN(..)
        | Instruction::RrcN(..)
        | Instruction::RrN(..)
        | Instruction::SlaN(..)
        | Instruction::SraN(..)
        | Instruction::SrlN(..) => Class::Rotate,
        Instruction::BitbR(..)
        | Instruction::BitbHl(..)
        | Instruction::SetbR(..)
        | Instruction::ResbR(..) => Class::Bit,
        Instruction::Jpnn(..)
        | Instruction::Jpcc(..)
        | Instruction::JpHl(..)
        | Instruction::JrN(..)
        | Instruction::Jrcc(..)
        | Instruction::Callnn(..)
        | Instruction::Callcc(..)
        | Instruction::Rst(..)
        | Instruction::Ret
        | Instruction::Retcc(..)
        | Instruction::Reti => Class::Control,
        _ => Class::Alu8,
    }
}

/// The outcome of executing instruction `i` on the given registers and memory.
pub open spec fn execute_spec(cpu: CpuState, mmu: MmuState, i: Instruction) -> Step
    recommends
        i.well_formed(),
{
    match class_of(i) {
        Class::Load8 => load8_spec(cpu, mmu, i),
        Class::Load16 => load16_spec(cpu, mmu, i),
        Class::Alu8 => alu8_spec(cpu, mmu, i),
        Class::Alu16 => alu16_spec(cpu, mmu, i),
        Class::Misc => misc_spec(cpu, mmu, i),
        Class::Rotate => rotate_spec(cpu, mmu, i),
        Class::Bit => bit_spec(cpu, mmu, i),
        Class::Control => control_spec(cpu, mmu, i),
    }
}

/// The bits of a byte before and after a shift by one place, as arithmetic.
proof fn lemma_shifts(v: u8)
    by (bit_vector)
    ensures
        (v << 1) | 1 == (v % 128) * 2 + 1,
        (v << 1) | 0 == (v % 128) * 2,
        v << 1 == (v % 128) * 2,
        (v >> 1) | 0x80 == v / 2 + 128,
        (v >> 1) | 0 == v / 2,
        v >> 1 == v / 2,
        (v >> 1) | (v & 0x80) == v / 2 + (v / 128) * 128,
        (v & 0x80 == 0x80) == (v >= 128),
        (v & 0x01 == 0x01) == (v % 2 == 1),
{
}

/// A signed byte read as the unsigned byte with the same bits.
fn to_unsigned(e: i8) -> (r: u8)
    ensures
        r == as_unsigned(e),
{
    if e < 0 {
        (e as i16 + 256) as u8
    } else {
        e as u8
    }
}

/// Computes a rotate or shift of `v` and the bit that left.
fn shift_byte(kind: Shift, v: u8, carry: bool) -> (r: (u8, bool))
    ensures
        r.0 == shift_result(kind, v, carry),
        r.1 == shift_carry(kind, v),
{
    proof {
        lemma_shifts(v);
    }
    let top = v & 0x80 == 0x80;
    let bottom = v & 0x01 == 0x01;
    match kind {
        Shift::Rlc => ((v << 1) | (if top { 1 } else { 0 }), top),
        Shift::Rl => ((v << 1) | (if carry { 1 } else { 0 }), top),
        Shift::Rrc => ((v >> 1) | (if bottom { 0x80 } else { 0 }), bottom),
        Shift::Rr => ((v >> 1) | (if carry { 0x80 } else { 0 }), bottom),
        Shift::Sla => (v << 1, top),
        Shift::Sra => ((v >> 1) | (v & 0x80), bottom),
        Shift::Srl => (v >> 1, bottom),
    }
}

/// Writes `r` to the operand that code `n` names and moves past an
/// instruction of the second table.
fn write_operand(cpu: &mut CPU, mmu: &mut MMU, n: u8, r: u8) -> (cycles: u8)
    requires
        n <= 7,
    ensures
        (Step { cpu: final(cpu)@, mmu: final(mmu)@, cycles }) == store_operand(
            old(cpu)@,
            old(mmu)@,
            n,
            r,
        ),
        old(mmu)@.wf() ==> final(mmu)@.wf(),
{
    if n == 7 {
        let hl = cpu.get_hl();
        mmu.write_byte(hl, r);
        cpu.advance_pc(2);
        4
    } else {
        cpu.set_r7(n, r);
        cpu.advance_pc(2);
        2
    }
}

/// Executes a rotate or shift of the second table.
fn shift_into(cpu: &mut CPU, mmu: &mut MMU, kind: Shift, n: u8, v: u8) -> (cycles: u8)
    requires
        n <= 7,
    ensures
        (Step { cpu: final(cpu)@, mmu: final(mmu)@, cycles }) == shift_operand(
            old(cpu)@,
            old(mmu)@,
            kind,
            n,
            v,
        ),
        old(mmu)@.wf() ==> final(mmu)@.wf(),
{
    let (r, carry) = shift_byte(kind, v, cpu.get_flag_c());
    cpu.set_flags(r == 0, false, false, carry);
    write_operand(cpu, mmu, n, r)
}

/// Executes a rotate of the accumulator in its short form.
fn rotate_accumulator(cpu: &mut CPU, kind: Shift, v: u8) -> (cycles: u8)
    ensures
        (RegisterStep { cpu: final(cpu)@, cycles }) == rotate_a(old(cpu)@, kind, v),
{
    let (r, carry) = shift_byte(kind, v, cpu.get_flag_c());
    cpu.set_flags(false, false, false, carry);
    cpu.a = r;
    cpu.advance_pc(1);
    1
}

/// Executes a call to `target` from an instruction of `length` bytes.
fn call(cpu: &mut CPU, mmu: &mut MMU, target: u16, length: u16, cycles: u8) -> (taken: u8)
    ensures
        (Step { cpu: final(cpu)@, mmu: final(mmu)@, cycles: taken }) == call_step(
            old(cpu)@,
            old(mmu)@,
            target,
            length,
            cycles,
        ),
        old(mmu)@.wf() ==> final(mmu)@.wf(),
{
    let next = cpu.pc.wrapping_add(length);
    cpu.push_word(mmu, next);
    cpu.pc = target;
    cycles
}

/// Executes a return.
fn ret(cpu: &mut CPU, mmu: &mut MMU, cycles: u8) -> (taken: u8)
    ensures
        (Step { cpu: final(cpu)@, mmu: final(mmu)@, cycles: taken }) == return_step(
            old(cpu)@,
            old(mmu)@,
            cycles,
        ),
        final(mmu)@ == old(mmu)@,
{
    let target = cpu.pop_stack(mmu);
    cpu.pc = target;
    cycles
}

/// Whether the instruction is an 8-bit load that writes memory.
pub open spec fn is_store8(i: Instruction) -> bool {
    i matches Instruction::LdHlR2(..) || i matches Instruction::Ldn16A(..) || i matches Instruction::Lda16A(
        ..,
    ) || i matches Instruction::LdCa(..) || i matches Instruction::LddHlA(..)
        || i matches Instruction::LdIHlA(..) || i matches Instruction::LdHnA(..)
}

/// Executes an 8-bit load that writes memory.
fn exec_store8(cpu: &mut CPU, instruction: &Instruction, mmu: &mut MMU) -> (cycles: u8)
    requires
        is_store8(*instruction),
    ensures
        (Step { cpu: final(cpu)@, mmu: final(mmu)@, cycles }) == load8_spec(
            old(cpu)@,
            old(mmu)@,
            *instruction,
        ),
        old(mmu)@.wf() ==> final(mmu)@.wf(),
{
    reveal(load8_spec);
    match instruction {
        Instruction::LdHlR2(v, immediate) => {
            let hl = cpu.get_hl();
            mmu.write_byte(hl, *v);
            if *immediate {
                cpu.advance_pc(2);
                3
            } else {
                cpu.advance_pc(1);
                2
            }
        },
        Instruction::Ldn16A(address, a) => {
            mmu.write_byte(*address, *a);
            cpu.advance_pc(1);
            2
        },
        Instruction::Lda16A(address, a) => {
            mmu.write_byte(*address, *a);
            cpu.advance_pc(3);
            4
        },
        Instruction::LdCa(a) => {
            mmu.write_byte(HIGH_PAGE + cpu.c as u16, *a);
            cpu.advance_pc(2);
            2
        },
        Instruction::LddHlA(hl) => {
            mmu.write_byte(*hl, cpu.a);
            cpu.set_hl(hl.wrapping_sub(1));
            cpu.advance_pc(1);
            2
        },
        Instruction::LdIHlA(hl) => {
            mmu.write_byte(*hl, cpu.a);
            cpu.set_hl(hl.wrapping_add(1));
            cpu.advance_pc(1);
            2
        },
        Instruction::LdHnA(n) => {
            mmu.write_byte(HIGH_PAGE + *n as u16, cpu.a);
            cpu.advance_pc(2);
            3
        },
        _ => vstd::pervasive::unreached(),
    }
}

/// Executes an 8-bit load that writes a register.
fn exec_fetch8(cpu: &mut CPU, instruction: &Instruction, mmu: &mut MMU) -> (cycles: u8)
    requires
        instruction.well_formed(),
        class_of(*instruction) is Load8,
        !is_store8(*instruction),
    ensures
        (Step { cpu: final(cpu)@, mmu: final(mmu)@, cycles }) == load8_spec(
            old(cpu)@,
            old(mmu)@,
            *instruction,
        ),
        final(mmu)@ == old(mmu)@,
{
    reveal(load8_spec);
    match instruction {
        Instruction::LdN(n, v) => {
            cpu.set_r6(*n, *v);
            cpu.advance_pc(2);
            2
        },
        Instruction::LdAR2(n, v) => {
            cpu.a = *v;
            cpu.advance_pc(1);
            if *n == 0 {
                1
            } else {
                2
            }
        },
        Instruction::LdAnn(v) => {
            cpu.a = *v;
            cpu.advance_pc(3);
            4
        },
        Instruction::LdAd8(v) => {
            cpu.a = *v;
            cpu.advance_pc(2);
            2
        },
        Instruction::LdBR2(v, m) => {
            cpu.b = *v;
            cpu.advance_pc(1);
            if *m {
                2
            } else {
                1
            }
        },
        Instruction::LdCR2(v, m) => {
            cpu.c = *v;
            cpu.advance_pc(1);
            if *m {
                2
            } else {
                1
            }
        },
        Instruction::LdDR2(v, m) => {
            cpu.d = *v;
            cpu.advance_pc(1);
            if *m {
                2
            } else {
                1
            }
        },
        Instruction::LdER2(v, m) => {
            cpu.e = *v;
            cpu.advance_pc(1);
            if *m {
                2
            } else {
                1
            }
        },
        Instruction::LdHR2(v, m) => {
            cpu.h = *v;
            cpu.advance_pc(1);
            if *m {
                2
            } else {
                1
            }
        },
        Instruction::LdLR2(v, m) => {
            cpu.l = *v;
            cpu.advance_pc(1);
            if *m {
                2
            } else {
                1
            }
        },
        Instruction::LdnA(n, a) => {
            cpu.set_r6(*n, *a);
            cpu.advance_pc(1);
            1
        },
        Instruction::LdAc(c) => {
            cpu.a = mmu.read_byte(HIGH_PAGE + *c as u16);
            cpu.advance_pc(2);
            2
        },
        Instruction::LddAHl(hl) => {
            cpu.a = mmu.read_byte(*hl);
            cpu.set_hl(hl.wrapping_sub(1));
            cpu.advance_pc(1);
            2
        },
        Instruction::LdIAHl(hl) => {
            cpu.a = mmu.read_byte(*hl);
            cpu.set_hl(hl.wrapping_add(1));
            cpu.advance_pc(1);
            2
        },
        Instruction::LdHAn(n) => {
            cpu.a = mmu.read_byte(HIGH_PAGE + *n as u16);
            cpu.advance_pc(2);
            3
        },
        _ => vstd::pervasive::unreached(),
    }
}

/// Executes an 8-bit load.
fn exec_load8(cpu: &mut CPU, instruction: &Instruction, mmu: &mut MMU) -> (cycles: u8)
    requires
        instruction.well_formed(),
        class_of(*instruction) is Load8,
    ensures
        (Step { cpu: final(cpu)@, mmu: final(mmu)@, cycles }) == load8_spec(
            old(cpu)@,
            old(mmu)@,
            *instruction,
        ),
        old(mmu)@.wf() ==> final(mmu)@.wf(),
{
    match instruction {
        Instruction::LdHlR2(..)
        | Instruction::Ldn16A(..)
        | Instruction::Lda16A(..)
        | Instruction::LdCa(..)
        | Instruction::LddHlA(..)
        | Instruction::LdIHlA(..)
        | Instruction::LdHnA(..) => exec_store8(cpu, instruction, mmu),
        _ => exec_fetch8(cpu, instruction, mmu),
    }
}

/// Executes a 16-bit load or a stack instruction.
fn exec_load16(cpu: &mut CPU, instruction: &Instruction, mmu: &mut MMU) -> (cycles: u8)
    requires
        instruction.well_formed(),
        class_of(*instruction) is Load16,
    ensures
        (Step { cpu: final(cpu)@, mmu: final(mmu)@, cycles }) == load16_spec(
            old(cpu)@,
            old(mmu)@,
            *instruction,
        ),
        old(mmu)@.wf() ==> final(mmu)@.wf(),
{
    reveal(load16_spec);
    match instruction {
        Instruction::LdBc(v) => {
            cpu.set_pair(0, *v);
            cpu.advance_pc(3);
            3
        },
        Instruction::LdDe(v) => {
            cpu.set_pair(1, *v);
            cpu.advance_pc(3);
            3
        },
        Instruction::LdHl(v) => {
            cpu.set_pair(2, *v);
            cpu.advance_pc(3);
            3
        },
        Instruction::LdSp(v) => {
            cpu.set_pair(3, *v);
            cpu.advance_pc(3);
            3
        },
        Instruction::LdSpHl(hl) => {
            cpu.set_pair(3, *hl);
            cpu.advance_pc(1);
            3
        },
        Instruction::LdHlSp(e) => {
            let result = add_offset(cpu, *e);
            cpu.set_hl(result);
            cpu.advance_pc(2);
            3
        },
        Instruction::LdnnSp(address) => {
            mmu.write_byte(*address, (cpu.sp % 256) as u8);
            mmu.write_byte(address.wrapping_add(1), (cpu.sp / 256) as u8);
            cpu.advance_pc(3);
            5
        },
        Instruction::Pushnn(v) => {
            cpu.push_word(mmu, *v);
            cpu.advance_pc(1);
            4
        },
        Instruction::Popnn(n) => {
            let v = cpu.pop_stack(mmu);
            if *n == 0 {
                cpu.a = (v / 256) as u8;
                cpu.f = ((v % 256) as u8) & 0xF0;
            } else {
                cpu.set_pair(*n - 1, v);
            }
            cpu.advance_pc(1);
            3
        },
        _ => vstd::pervasive::unreached(),
    }
}

/// Sets the flags for the addition of the signed byte `e` to the stack
/// pointer and returns the sum.
fn add_offset(cpu: &mut CPU, e: i8) -> (r: u16)
    ensures
        r == offset16(old(cpu)@.sp, e),
        final(cpu)@ == offset_flags(old(cpu)@, e),
{
    let sp = cpu.sp;
    let n = to_unsigned(e);
    let half = (sp % 16) + (n % 16) as u16 > 0x0F;
    let carry = (sp % 256) + n as u16 > 0xFF;
    cpu.set_flags(false, false, half, carry);
    sp.wrapping_add_signed(e as i16)
}

/// Executes an 8-bit arithmetic or logic instruction.
fn exec_alu8(cpu: &mut CPU, instruction: &Instruction, mmu: &mut MMU) -> (cycles: u8)
    requires
        instruction.well_formed(),
        class_of(*instruction) is Alu8,
    ensures
        (Step { cpu: final(cpu)@, mmu: final(mmu)@, cycles }) == alu8_spec(
            old(cpu)@,
            old(mmu)@,
            *instruction,
        ),
        old(mmu)@.wf() ==> final(mmu)@.wf(),
{
    reveal(alu8_spec);
    match instruction {
        Instruction::AddN(n) => {
            cpu.a = cpu.alu_add(n, false);
            cpu.advance_pc(1);
            1
        },
        Instruction::AddHl(n) => {
            cpu.a = cpu.alu_add(n, false);
            cpu.advance_pc(1);
            2
        },
        Instruction::AddD8(n) => {
            cpu.a = cpu.alu_add(n, false);
            cpu.advance_pc(2);
            2
        },
        Instruction::AdcN(n) => {
            cpu.a = cpu.alu_add(n, true);
            cpu.advance_pc(1);
            1
        },
        Instruction::AdcHl(n) => {
            cpu.a = cpu.alu_add(n, true);
            cpu.advance_pc(1);
            2
        },
        Instruction::AdcD8(n) => {
            cpu.a = cpu.alu_add(n, true);
            cpu.advance_pc(2);
            2
        },
        Instruction::SubN(n) => {
            cpu.a = cpu.alu_sub(n, false);
            cpu.advance_pc(1);
            1
        },
        Instruction::SubHl(n) => {
            cpu.a = cpu.alu_sub(n, false);
            cpu.advance_pc(1);
            2
        },
        Instruction::SubD8(n) => {
            cpu.a = cpu.alu_sub(n, false);
            cpu.advance_pc(2);
            2
        },
        Instruction::SbcN(n) => {
            cpu.a = cpu.alu_sub(n, true);
            cpu.advance_pc(1);
            1
        },
        Instruction::SbcHl(n) => {
            cpu.a = cpu.alu_sub(n, true);
            cpu.advance_pc(1);
            2
        },
        Instruction::SbcD8(n) => {
            cpu.a = cpu.alu_sub(n, true);
            cpu.advance_pc(2);
            2
        },
        Instruction::Andn(n) => {
            logic(cpu, cpu.a & *n, true);
            cpu.advance_pc(1);
            1
        },
        Instruction::AndHl(n) => {
            logic(cpu, cpu.a & *n, true);
            cpu.advance_pc(1);
            2
        },
        Instruction::AndD8(n) => {
            logic(cpu, cpu.a & *n, true);
            cpu.advance_pc(2);
            2
        },
        Instruction::OrN(n) => {
            logic(cpu, cpu.a | *n, false);
            cpu.advance_pc(1);
            1
        },
        Instruction::OrHl(n) => {
            logic(cpu, cpu.a | *n, false);
            cpu.advance_pc(1);
            2
        },
        Instruction::OrD8(n) => {
            logic(cpu, cpu.a | *n, false);
            cpu.advance_pc(2);
            2
        },
        Instruction::Xor(n) => {
            logic(cpu, cpu.a ^ *n, false);
            cpu.advance_pc(1);
            1
        },
        Instruction::XorHl(n) => {
            logic(cpu, cpu.a ^ *n, false);
            cpu.advance_pc(1);
            2
        },
        Instruction::XorD8(n) => {
            logic(cpu, cpu.a ^ *n, false);
            cpu.advance_pc(2);
            2
        },
        Instruction::Cp(n) => {
            let _ = cpu.alu_sub(n, false);
            cpu.advance_pc(1);
            1
        },
        Instruction::CpHl(n) => {
            let _ = cpu.alu_sub(n, false);
            cpu.advance_pc(1);
            2
        },
        Instruction::CpD8(n) => {
            let _ = cpu.alu_sub(n, false);
            cpu.advance_pc(2);
            2
        },
        Instruction::IncN(n, operand) => {
            let r = cpu.get_r7(*n).wrapping_add(1);
            set_inc_flags(cpu, r, *operand);
            cpu.set_r7(*n, r);
            cpu.advance_pc(1);
            1
        },
        Instruction::IncHl(hl) => {
            let n = mmu.read_byte(*hl);
            let r = n.wrapping_add(1);
            mmu.write_byte(*hl, r);
            set_inc_flags(cpu, r, n);
            cpu.advance_pc(1);
            3
        },
        Instruction::DecN(n, operand) => {
            let r = cpu.get_r7(*n).wrapping_sub(1);
            set_dec_flags(cpu, r, *operand);
            cpu.set_r7(*n, r);
            cpu.advance_pc(1);
            1
        },
        Instruction::DecHl(hl) => {
            let n = mmu.read_byte(*hl);
            let r = n.wrapping_sub(1);
            mmu.write_byte(*hl, r);
            set_dec_flags(cpu, r, n);
            cpu.advance_pc(1);
            3
        },
        _ => vstd::pervasive::unreached(),
    }
}

/// Stores the result of a logical operation and sets the flags for it.
fn logic(cpu: &mut CPU, r: u8, half: bool)
    ensures
        final(cpu)@ == logic_state(old(cpu)@, r, half),
{
    cpu.set_flags(r == 0, false, half, false);
    cpu.a = r;
}

/// Sets the flags for an increment.
fn set_inc_flags(cpu: &mut CPU, r: u8, operand: u8)
    ensures
        final(cpu)@ == inc_flags(old(cpu)@, r, operand),
{
    proof {
        lemma_mask_u8(operand);
    }
    let carry = cpu.get_flag_c();
    cpu.set_flags(r == 0, false, (operand & 0x0F) + 1 > 0x0F, carry);
}

/// Sets the flags for a decrement.
fn set_dec_flags(cpu: &mut CPU, r: u8, operand: u8)
    ensures
        final(cpu)@ == dec_flags(old(cpu)@, r, operand),
{
    let carry = cpu.get_flag_c();
    cpu.set_flags(r == 0, true, (operand & 0x0F) == 0, carry);
}

/// Executes a 16-bit arithmetic instruction.
fn exec_alu16(cpu: &mut CPU, instruction: &Instruction, mmu: &mut MMU) -> (cycles: u8)
    requires
        instruction.well_formed(),
        class_of(*instruction) is Alu16,
    ensures
        (Step { cpu: final(cpu)@, mmu: final(mmu)@, cycles }) == alu16_spec(
            old(cpu)@,
            old(mmu)@,
            *instruction,
        ),
        final(mmu)@ == old(mmu)@,
{
    reveal(alu16_spec);
    match instruction {
        Instruction::AddHlN(nn) => {
            let hl = cpu.get_hl();
            let zero = cpu.get_flag_z();
            let half = (hl % 4096) + (*nn % 4096) > 0x0FFF;
            let carry = hl as u32 + *nn as u32 > 0xFFFF;
            cpu.set_flags(zero, false, half, carry);
            cpu.set_hl(hl.wrapping_add(*nn));
            cpu.advance_pc(1);
            2
        },
        Instruction::AddSpN(e) => {
            let result = add_offset(cpu, *e);
            cpu.set_pair(3, result);
            cpu.advance_pc(2);
            4
        },
        Instruction::IncNN(k, nn) => {
            cpu.set_pair(*k, nn.wrapping_add(1));
            cpu.advance_pc(1);
            2
        },
        Instruction::DecNN(k, nn) => {
            cpu.set_pair(*k, nn.wrapping_sub(1));
            cpu.advance_pc(1);
            2
        },
        _ => vstd::pervasive::unreached(),
    }
}

/// Adjusts the accumulator to packed decimal and returns the new Carry flag.
fn decimal_adjust(a: u8, n: bool, h: bool, c: bool) -> (r: (u8, bool))
    ensures
        r == daa_result(a, n, h, c),
{
    if n {
        let high: u8 = if c { 0x60 } else { 0 };
        let low: u8 = if h { 0x06 } else { 0 };
        (a.wrapping_sub(high + low), c)
    } else {
        let fix_low = h || a & 0x0F > 0x09;
        let fix_high = c || a > 0x99;
        let high: u8 = if fix_high { 0x60 } else { 0 };
        let low: u8 = if fix_low { 0x06 } else { 0 };
        (a.wrapping_add(high + low), fix_high)
    }
}

/// Executes a swap, a decimal adjustment, a complement, a carry instruction
/// or an instruction that controls the processor.
fn exec_misc(cpu: &mut CPU, instruction: &Instruction, mmu: &mut MMU) -> (cycles: u8)
    requires
        instruction.well_formed(),
        class_of(*instruction) is Misc,
    ensures
        (Step { cpu: final(cpu)@, mmu: final(mmu)@, cycles }) == misc_spec(
            old(cpu)@,
            old(mmu)@,
            *instruction,
        ),
        old(mmu)@.wf() ==> final(mmu)@.wf(),
{
    reveal(misc_spec);
    match instruction {
        Instruction::SwapN(n, v) => {
            let r = cpu.swap(v);
            cpu.set_r7(*n, r);
            cpu.advance_pc(2);
            2
        },
        Instruction::SwapHl(v) => {
            let hl = cpu.get_hl();
            let r = cpu.swap(v);
            mmu.write_byte(hl, r);
            cpu.advance_pc(2);
            4
        },
        Instruction::Daa => {
            let n = cpu.get_flag_n();
            let (a, carry) = decimal_adjust(cpu.a, n, cpu.get_flag_h(), cpu.get_flag_c());
            cpu.set_flags(a == 0, n, false, carry);
            cpu.a = a;
            cpu.advance_pc(1);
            1
        },
        Instruction::Cpl(a) => {
            let zero = cpu.get_flag_z();
            let carry = cpu.get_flag_c();
            cpu.set_flags(zero, true, true, carry);
            cpu.a = !*a;
            cpu.advance_pc(1);
            1
        },
        Instruction::Ccf => {
            let zero = cpu.get_flag_z();
            let carry = cpu.get_flag_c();
            cpu.set_flags(zero, false, false, !carry);
            cpu.advance_pc(1);
            1
        },
        Instruction::Scf => {
            let zero = cpu.get_flag_z();
            cpu.set_flags(zero, false, false, true);
            cpu.advance_pc(1);
            1
        },
        Instruction::Nop => {
            cpu.advance_pc(1);
            1
        },
        Instruction::Halt => {
            let pending = mmu.peek_interrupt();
            cpu.set_halted(pending.is_none());
            cpu.advance_pc(1);
            1
        },
        Instruction::Stop => {
            cpu.advance_pc(2);
            1
        },
        Instruction::Di => {
            cpu.ime = false;
            cpu.advance_pc(1);
            1
        },
        Instruction::Ei => {
            cpu.ei = true;
            cpu.advance_pc(1);
            1
        },
        _ => vstd::pervasive::unreached(),
    }
}

/// Executes a rotate or shift.
fn exec_rotate(cpu: &mut CPU, instruction: &Instruction, mmu: &mut MMU) -> (cycles: u8)
    requires
        instruction.well_formed(),
        class_of(*instruction) is Rotate,
    ensures
        (Step { cpu: final(cpu)@, mmu: final(mmu)@, cycles }) == rotate_spec(
            old(cpu)@,
            old(mmu)@,
            *instruction,
        ),
        old(mmu)@.wf() ==> final(mmu)@.wf(),
{
    reveal(rotate_spec);
    match instruction {
        Instruction::Rlca(a) => rotate_accumulator(cpu, Shift::Rlc, *a),
        Instruction::Rla(a) => rotate_accumulator(cpu, Shift::Rl, *a),
        Instruction::Rrca(a) => rotate_accumulator(cpu, Shift::Rrc, *a),
        Instruction::Rra(a) => rotate_accumulator(cpu, Shift::Rr, *a),
        Instruction::RlcN(n, v) => shift_into(cpu, mmu, Shift::Rlc, *n, *v),
        Instruction::RlN(n, v) => shift_into(cpu, mmu, Shift::Rl, *n, *v),
        Instruction::RrcN(n, v) => shift_into(cpu, mmu, Shift::Rrc, *n, *v),
        Instruction::RrN(n, v) => shift_into(cpu, mmu, Shift::Rr, *n, *v),
        Instruction::SlaN(n, v) => shift_into(cpu, mmu, Shift::Sla, *n, *v),
        Instruction::SraN(n, v) => shift_into(cpu, mmu, Shift::Sra, *n, *v),
        Instruction::SrlN(n, v) => shift_into(cpu, mmu, Shift::Srl, *n, *v),
        _ => vstd::pervasive::unreached(),
    }
}

/// Executes a bit test, set or reset.
fn exec_bit(cpu: &mut CPU, instruction: &Instruction, mmu: &mut MMU) -> (cycles: u8)
    requires
        instruction.well_formed(),
        class_of(*instruction) is Bit,
    ensures
        (Step { cpu: final(cpu)@, mmu: final(mmu)@, cycles }) == bit_spec(
            old(cpu)@,
            old(mmu)@,
            *instruction,
        ),
        old(mmu)@.wf() ==> final(mmu)@.wf(),
{
    reveal(bit_spec);
    match instruction {
        Instruction::BitbR(mask, v) => {
            let carry = cpu.get_flag_c();
            cpu.set_flags(*v & *mask == 0, false, true, carry);
            cpu.advance_pc(2);
            2
        },
        Instruction::BitbHl(mask, v) => {
            let carry = cpu.get_flag_c();
            cpu.set_flags(*v & *mask == 0, false, true, carry);
            cpu.advance_pc(2);
            4
        },
        Instruction::SetbR(mask, v, n) => write_operand(cpu, mmu, *n, *v | *mask),
        Instruction::ResbR(mask, v, n) => write_operand(cpu, mmu, *n, *v & !*mask),
        _ => vstd::pervasive::unreached(),
    }
}

/// Executes a jump, call, restart or return.
fn exec_control(cpu: &mut CPU, instruction: &Instruction, mmu: &mut MMU) -> (cycles: u8)
    requires
        instruction.well_formed(),
        class_of(*instruction) is Control,
    ensures
        (Step { cpu: final(cpu)@, mmu: final(mmu)@, cycles }) == control_spec(
            old(cpu)@,
            old(mmu)@,
            *instruction,
        ),
        old(mmu)@.wf() ==> final(mmu)@.wf(),
{
    reveal(control_spec);
    match instruction {
        Instruction::Jpnn(nn) => {
            cpu.pc = *nn;
            4
        },
        Instruction::Jpcc(nn, m) => {
            if cpu.check_condition(*m) {
                cpu.pc = *nn;
                JP_TAKEN
            } else {
                cpu.advance_pc(3);
                JP_NOT_TAKEN
            }
        },
        Instruction::JpHl(hl) => {
            cpu.pc = *hl;
            1
        },
        Instruction::JrN(e) => {
            cpu.pc = cpu.pc.wrapping_add(2).wrapping_add_signed(*e as i16);
            3
        },
        Instruction::Jrcc(e, m) => {
            if cpu.check_condition(*m) {
                cpu.pc = cpu.pc.wrapping_add(2).wrapping_add_signed(*e as i16);
                JR_TAKEN
            } else {
                cpu.advance_pc(2);
                JR_NOT_TAKEN
            }
        },
        Instruction::Callnn(nn) => call(cpu, mmu, *nn, 3, 6),
        Instruction::Callcc(nn, m) => {
            if cpu.check_condition(*m) {
                call(cpu, mmu, *nn, 3, CALL_TAKEN)
            } else {
                cpu.advance_pc(3);
                CALL_NOT_TAKEN
            }
        },
        Instruction::Rst(n) => call(cpu, mmu, *n as u16, 1, 4),
        Instruction::Ret => ret(cpu, mmu, 4),
        Instruction::Retcc(m) => {
            if cpu.check_condition(*m) {
                ret(cpu, mmu, RET_TAKEN)
            } else {
                cpu.advance_pc(1);
                RET_NOT_TAKEN
            }
        },
        Instruction::Reti => {
            let cycles = ret(cpu, mmu, 4);
            cpu.ime = true;
            cycles
        },
        _ => vstd::pervasive::unreached(),
    }
}

/// Executes one decoded instruction and returns the machine cycles it took.
pub fn executer(cpu: &mut CPU, instruction: &Instruction, mmu: &mut MMU) -> (cycles: u8)
    requires
        instruction.well_formed(),
    ensures
        (Step { cpu: final(cpu)@, mmu: final(mmu)@, cycles }) == execute_spec(
            old(cpu)@,
            old(mmu)@,
            *instruction,
        ),
        old(mmu)@.wf() ==> final(mmu)@.wf(),
{
    match instruction {
        Instruction::LdN(..)
        | Instruction::LdAR2(..)
        | Instruction::LdAnn(..)
        | Instruction::LdAd8(..)
        | Instruction::LdBR2(..)
        | Instruction::LdCR2(..)
        | Instruction::LdDR2(..)
        | Instruction::LdER2(..)
        | Instruction::LdHR2(..)
        | Instruction::LdLR2(..)
        | Instruction::LdHlR2(..)
        | Instruction::LdnA(..)
        | Instruction::Ldn16A(..)
        | Instruction::Lda16A(..)
        | Instruction::LdAc(..)
        | Instruction::LdCa(..)
        | Instruction::LddAhl
        | Instruction::LddAHl(..)
        | Instruction::LddHlA(..)
        | Instruction::LdIAHl(..)
        | Instruction::LdIHlA(..)
        | Instruction::LdHnA(..)
        | Instruction::LdHAn(..) => exec_load8(cpu, instruction, mmu),
        Instruction::LdBc(..)
        | Instruction::LdDe(..)
        | Instruction::LdHl(..)
        | Instruction::LdSp(..)
        | Instruction::LdSpHl(..)
        | Instruction::LdHlSp(..)
        | Instruction::LdnnSp(..)
        | Instruction::Pushnn(..)
        | Instruction::Popnn(..) => exec_load16(cpu, instruction, mmu),
        Instruction::AddHlN(..)
        | Instruction::AddSpN(..)
        | Instruction::IncNN(..)
        | Instruction::DecNN(..) => exec_alu16(cpu, instruction, mmu),
        Instruction::SwapN(..)
        | Instruction::SwapHl(..)
        | Instruction::Daa
        | Instruction::Cpl(..)
        | Instruction::Ccf
        | Instruction::Scf
        | Instruction::Nop
        | Instruction::Halt
        | Instruction::Stop
        | Instruction::Di
        | Instruction::Ei => exec_misc(cpu, instruction, mmu),
        Instruction::Rlca(..)
        | Instruction::Rla(..)
        | Instruction::Rrca(..)
        | Instruction::Rra(..)
        | Instruction::RlcN(..)
        | Instruction::RlN(..)
        | Instruction::RrcN(..)
        | Instruction::RrN(..)
        | Instruction::SlaN(..)
        | Instruction::SraN(..)
        | Instruction::SrlN(..) => exec_rotate(cpu, instruction, mmu),
        Instruction::BitbR(..)
        | Instruction::BitbHl(..)
        | Instruction::SetbR(..)
        | Instruction::ResbR(..) => exec_bit(cpu, instruction, mmu),
        Instruction::Jpnn(..)
        | Instruction::Jpcc(..)
        | Instruction::JpHl(..)
        | Instruction::JrN(..)
        | Instruction::Jrcc(..)
        | Instruction::Callnn(..)
        | Instruction::Callcc(..)
        | Instruction::Rst(..)
        | Instruction::Ret
        | Instruction::Retcc(..)
        | Instruction::Reti => exec_control(cpu, instruction, mmu),
        _ => exec_alu8(cpu, instruction, mmu),
    }
}

} // verus!
