//! The two opcode tables: from an opcode byte, the register file and the
//! bytes that follow the opcode to the decoded instruction.
//!
//! The model of decoding is written by the fields of the opcode (row, column,
//! operand and operation numbers); the executable tables list the opcodes one
//! by one and are proved to agree with it.
use vstd::prelude::*;
use crate::bits::low_byte;
use crate::cpu::{CPU, CpuState};
use crate::instruction::Instruction;
use crate::mmu::{MMU, MmuState};

verus! {

/// The eleven opcode bytes that stand for no instruction.
pub open spec fn opcode_defined(byte: u8) -> bool {
    byte != 0xD3 && byte != 0xDB && byte != 0xDD && byte != 0xE3 && byte != 0xE4 && byte != 0xEB
        && byte != 0xEC && byte != 0xED && byte != 0xF4 && byte != 0xFC && byte != 0xFD
}

/// Whether `byte` stands for an instruction.
pub fn is_defined_opcode(byte: u8) -> (r: bool)
    ensures
        r == opcode_defined(byte),
{
    !(byte == 0xD3 || byte == 0xDB || byte == 0xDD || byte == 0xE3 || byte == 0xE4 || byte == 0xEB
        || byte == 0xEC || byte == 0xED || byte == 0xF4 || byte == 0xFC || byte == 0xFD)
}

/// A byte read as a signed number in two's complement.
pub open spec fn as_signed(n: u8) -> i8 {
    if n >= 128 {
        (n - 256) as i8
    } else {
        n as i8
    }
}

/// A byte read as a signed number in two's complement.
pub fn to_signed(n: u8) -> (r: i8)
    ensures
        r == as_signed(n),
{
    if n >= 128 {
        (n as i16 - 256) as i8
    } else {
        n as i8
    }
}

/// The value of the operand that number `r` names in the order B, C, D, E,
/// H, L, the byte at HL, A.
pub open spec fn operand(cpu: CpuState, mmu: MmuState, r: int) -> u8
    recommends
        0 <= r <= 7,
{
    if r == 0 {
        cpu.b
    } else if r == 1 {
        cpu.c
    } else if r == 2 {
        cpu.d
    } else if r == 3 {
        cpu.e
    } else if r == 4 {
        cpu.h
    } else if r == 5 {
        cpu.l
    } else if r == 6 {
        mmu.read(cpu.hl())
    } else {
        cpu.a
    }
}

/// The code that instructions use for operand number `r`: A is 0, B to L are
/// 1 to 6 and the byte at HL is 7.
pub open spec fn operand_code(r: int) -> u8
    recommends
        0 <= r <= 7,
{
    if r == 7 {
        0
    } else {
        (r + 1) as u8
    }
}

/// The value of the pair that number `p` names in the order BC, DE, HL, SP.
pub open spec fn pair_value(cpu: CpuState, p: int) -> u16
    recommends
        0 <= p <= 3,
{
    if p == 0 {
        cpu.bc()
    } else if p == 1 {
        cpu.de()
    } else if p == 2 {
        cpu.hl()
    } else {
        cpu.sp
    }
}

/// The byte with only bit `bit` set.
pub open spec fn bit_mask(bit: int) -> u8
    recommends
        0 <= bit <= 7,
{
    if bit == 0 {
        0x01
    } else if bit == 1 {
        0x02
    } else if bit == 2 {
        0x04
    } else if bit == 3 {
        0x08
    } else if bit == 4 {
        0x10
    } else if bit == 5 {
        0x20
    } else if bit == 6 {
        0x40
    } else {
        0x80
    }
}

/// Opcodes 0x40 to 0x7F: loads between operands. The destination is operand
/// number `(byte / 8) % 8`, the source operand number `byte % 8`; the pair of
/// two memory operands is the halt instruction.
pub open spec fn decode_load_block(cpu: CpuState, mmu: MmuState, byte: u8) -> Instruction
    recommends
        0x40 <= byte <= 0x7F,
{
    let dst = (byte as int / 8) % 8;
    let src = byte as int % 8;
    let value = operand(cpu, mmu, src);
    if dst == 6 && src == 6 {
        Instruction::Halt
    } else if dst == 7 {
        Instruction::LdAR2(
            if src == 6 {
                1
            } else {
                0
            },
            value,
        )
    } else if dst == 6 {
        Instruction::LdHlR2(value, false)
    } else if src == 7 {
        Instruction::LdnA(dst as u8, cpu.a)
    } else if dst == 0 {
        Instruction::LdBR2(value, src == 6)
    } else if dst == 1 {
        Instruction::LdCR2(value, src == 6)
    } else if dst == 2 {
        Instruction::LdDR2(value, src == 6)
    } else if dst == 3 {
        Instruction::LdER2(value, src == 6)
    } else if dst == 4 {
        Instruction::LdHR2(value, src == 6)
    } else {
        Instruction::LdLR2(value, src == 6)
    }
}

/// The arithmetic instruction with operation number `op` (add, add with
/// carry, subtract, subtract with carry, and, exclusive or, or, compare) on
/// `value`, in the form for a register, for the byte at HL or for an
/// immediate byte.
pub open spec fn alu_instruction(op: int, value: u8, from_memory: bool, immediate: bool) -> Instruction
    recommends
        0 <= op <= 7,
{
    if op == 0 {
        if immediate {
            Instruction::AddD8(value)
        } else if from_memory {
            Instruction::AddHl(value)
        } else {
            Instruction::AddN(value)
        }
    } else if op == 1 {
        if immediate {
            Instruction::AdcD8(value)
        } else if from_memory {
            Instruction::AdcHl(value)
        } else {
            Instruction::AdcN(value)
        }
    } else if op == 2 {
        if immediate {
            Instruction::SubD8(value)
        } else if from_memory {
            Instruction::SubHl(value)
        } else {
            Instruction::SubN(value)
        }
    } else if op == 3 {
        if immediate {
            Instruction::SbcD8(value)
        } else if from_memory {
            Instruction::SbcHl(value)
        } else {
            Instruction::SbcN(value)
        }
    } else if op == 4 {
        if immediate {
            Instruction::AndD8(value)
        } else if from_memory {
            Instruction::AndHl(value)
        } else {
            Instruction::Andn(value)
        }
    } else if op == 5 {
        if immediate {
            Instruction::XorD8(value)
        } else if from_memory {
            Instruction::XorHl(value)
        } else {
            Instruction::Xor(value)
        }
    } else if op == 6 {
        if immediate {
            Instruction::OrD8(value)
        } else if from_memory {
            Instruction::OrHl(value)
        } else {
            Instruction::OrN(value)
        }
    } else {
        if immediate {
            Instruction::CpD8(value)
        } else if from_memory {
            Instruction::CpHl(value)
        } else {
            Instruction::Cp(value)
        }
    }
}

/// Opcodes 0x00 to 0x3F, by column `byte % 16` and row `byte / 16`; columns
/// 4 to 6 and 12 to 14 work on operand number `byte / 8`.
pub open spec fn decode_low(cpu: CpuState, mmu: MmuState, byte: u8, n: u8, d16: u16) -> Instruction
    recommends
        byte < 0x40,
{
    let col = byte as int % 16;
    let row = byte as int / 16;
    let r = byte as int / 8;
    let e = as_signed(n);
    if col == 0 {
        if row == 0 {
            Instruction::Nop
        } else if row == 1 {
            Instruction::Stop
        } else if row == 2 {
            Instruction::Jrcc(e, 0)
        } else {
            Instruction::Jrcc(e, 2)
        }
    } else if col == 1 {
        if row == 0 {
            Instruction::LdBc(d16)
        } else if row == 1 {
            Instruction::LdDe(d16)
        } else if row == 2 {
            Instruction::LdHl(d16)
        } else {
            Instruction::LdSp(d16)
        }
    } else if col == 2 {
        if row == 0 {
            Instruction::Ldn16A(cpu.bc(), cpu.a)
        } else if row == 1 {
            Instruction::Ldn16A(cpu.de(), cpu.a)
        } else if row == 2 {
            Instruction::LdIHlA(cpu.hl())
        } else {
            Instruction::LddHlA(cpu.hl())
        }
    } else if col == 3 {
        Instruction::IncNN(row as u8, pair_value(cpu, row))
    } else if col == 4 || col == 12 {
        if r == 6 {
            Instruction::IncHl(cpu.hl())
        } else {
            Instruction::IncN(operand_code(r), operand(cpu, mmu, r))
        }
    } else if col == 5 || col == 13 {
        if r == 6 {
            Instruction::DecHl(cpu.hl())
        } else {
            Instruction::DecN(operand_code(r), operand(cpu, mmu, r))
        }
    } else if col == 6 || col == 14 {
        if r == 6 {
            Instruction::LdHlR2(n, true)
        } else if r == 7 {
            Instruction::LdAd8(n)
        } else {
            Instruction::LdN(r as u8, n)
        }
    } else if col == 7 {
        if row == 0 {
            Instruction::Rlca(cpu.a)
        } else if row == 1 {
            Instruction::Rla(cpu.a)
        } else if row == 2 {
            Instruction::Daa
        } else {
            Instruction::Scf
        }
    } else if col == 8 {
        if row == 0 {
            Instruction::LdnnSp(d16)
        } else if row == 1 {
            Instruction::JrN(e)
        } else if row == 2 {
            Instruction::Jrcc(e, 1)
        } else {
            Instruction::Jrcc(e, 3)
        }
    } else if col == 9 {
        Instruction::AddHlN(pair_value(cpu, row))
    } else if col == 10 {
        if row == 0 {
            Instruction::LdAR2(1, mmu.read(cpu.bc()))
        } else if row == 1 {
            Instruction::LdAR2(1, mmu.read(cpu.de()))
        } else if row == 2 {
            Instruction::LdIAHl(cpu.hl())
        } else {
            Instruction::LddAHl(cpu.hl())
        }
    } else if col == 11 {
        Instruction::DecNN(row as u8, pair_value(cpu, row))
    } else {
        if row == 0 {
            Instruction::Rrca(cpu.a)
        } else if row == 1 {
            Instruction::Rra(cpu.a)
        } else if row == 2 {
            Instruction::Cpl(cpu.a)
        } else {
            Instruction::Ccf
        }
    }
}

/// Opcodes 0xC0 to 0xFF but the prefix 0xCB, by column `byte % 16` and row
/// `byte / 16 - 12`. Conditions are numbered not Zero, Zero, not Carry, Carry.
pub open spec fn decode_high(cpu: CpuState, mmu: MmuState, byte: u8, n: u8, d16: u16) -> Instruction
    recommends
        byte >= 0xC0,
        byte != 0xCB,
        opcode_defined(byte),
{
    let col = byte as int % 16;
    let row = byte as int / 16 - 12;
    let e = as_signed(n);
    if col == 0 {
        if row == 0 {
            Instruction::Retcc(0)
        } else if row == 1 {
            Instruction::Retcc(2)
        } else if row == 2 {
            Instruction::LdHnA(n)
        } else {
            Instruction::LdHAn(n)
        }
    } else if col == 1 {
        Instruction::Popnn(
            if row == 3 {
                0
            } else {
                (row + 1) as u8
            },
        )
    } else if col == 2 {
        if row == 0 {
            Instruction::Jpcc(d16, 0)
        } else if row == 1 {
            Instruction::Jpcc(d16, 2)
        } else if row == 2 {
            Instruction::LdCa(cpu.a)
        } else {
            Instruction::LdAc(cpu.c)
        }
    } else if col == 3 {
        if row == 0 {
            Instruction::Jpnn(d16)
        } else {
            Instruction::Di
        }
    } else if col == 4 {
        if row == 0 {
            Instruction::Callcc(d16, 0)
        } else {
            Instruction::Callcc(d16, 2)
        }
    } else if col == 5 {
        Instruction::Pushnn(
            if row == 0 {
                cpu.bc()
            } else if row == 1 {
                cpu.de()
            } else if row == 2 {
                cpu.hl()
            } else {
                cpu.af()
            },
        )
    } else if col == 6 || col == 14 {
        alu_instruction((byte as int / 8) % 8, n, false, true)
    } else if col == 7 || col == 15 {
        Instruction::Rst((byte - 0xC7) as u8)
    } else if col == 8 {
        if row == 0 {
            Instruction::Retcc(1)
        } else if row == 1 {
            Instruction::Retcc(3)
        } else if row == 2 {
            Instruction::AddSpN(e)
        } else {
            Instruction::LdHlSp(e)
        }
    } else if col == 9 {
        if row == 0 {
            Instruction::Ret
        } else if row == 1 {
            Instruction::Reti
        } else if row == 2 {
            Instruction::JpHl(cpu.hl())
        } else {
            Instruction::LdSpHl(cpu.hl())
        }
    } else if col == 10 {
        if row == 0 {
            Instruction::Jpcc(d16, 1)
        } else if row == 1 {
            Instruction::Jpcc(d16, 3)
        } else if row == 2 {
            Instruction::Lda16A(d16, cpu.a)
        } else {
            Instruction::LdAnn(mmu.read(d16))
        }
    } else if col == 11 {
        Instruction::Ei
    } else if col == 12 {
        if row == 0 {
            Instruction::Callcc(d16, 1)
        } else {
            Instruction::Callcc(d16, 3)
        }
    } else {
        Instruction::Callnn(d16)
    }
}

/// The instruction that a byte of the second table stands for. The operand
/// is number `byte % 8`; `byte / 64` tells rotates and shifts from bit tests,
/// resets and sets, and `(byte / 8) % 8` is the operation or the bit.
pub open spec fn cb_decode_spec(cpu: CpuState, mmu: MmuState, byte: u8) -> Instruction {
    let r = byte as int % 8;
    let value = operand(cpu, mmu, r);
    let code = operand_code(r);
    let group = byte as int / 64;
    let sub = (byte as int / 8) % 8;
    if group == 0 {
        if sub == 0 {
            Instruction::RlcN(code, value)
        } else if sub == 1 {
            Instruction::RrcN(code, value)
        } else if sub == 2 {
            Instruction::RlN(code, value)
        } else if sub == 3 {
            Instruction::RrN(code, value)
        } else if sub == 4 {
            Instruction::SlaN(code, value)
        } else if sub == 5 {
            Instruction::SraN(code, value)
        } else if sub == 6 {
            if r == 6 {
                Instruction::SwapHl(value)
            } else {
                Instruction::SwapN(code, value)
            }
        } else {
            Instruction::SrlN(code, value)
        }
    } else if group == 1 {
        if r == 6 {
            Instruction::BitbHl(bit_mask(sub), value)
        } else {
            Instruction::BitbR(bit_mask(sub), value)
        }
    } else if group == 2 {
        Instruction::ResbR(bit_mask(sub), value, code)
    } else {
        Instruction::SetbR(bit_mask(sub), value, code)
    }
}

/// The instruction that `byte` stands for, given the registers, the memory,
/// the byte `n1` that follows the opcode and the 16-bit value `d16` that the
/// two following bytes make. Of `n1` only the low byte counts.
pub open spec fn decode_spec(cpu: CpuState, mmu: MmuState, byte: u8, n1: u16, d16: u16) -> Instruction
    recommends
        opcode_defined(byte),
{
    let n = low_byte(n1);
    if byte == 0xCB {
        cb_decode_spec(cpu, mmu, n)
    } else if byte < 0x40 {
        decode_low(cpu, mmu, byte, n, d16)
    } else if byte < 0x80 {
        decode_load_block(cpu, mmu, byte)
    } else if byte < 0xC0 {
        alu_instruction((byte as int / 8) % 8, operand(cpu, mmu, byte as int % 8), byte % 8 == 6, false)
    } else {
        decode_high(cpu, mmu, byte, n, d16)
    }
}

impl Instruction {
    /// The register, pair and condition codes of the instruction lie in the
    /// range of its family.
    pub open spec fn well_formed(self) -> bool {
        match self {
            Instruction::LdN(n, _) => n <= 5,
            Instruction::LdAR2(n, _) => n <= 1,
            Instruction::LdnA(n, _) => n <= 5,
            Instruction::LddAhl => false,
            Instruction::Popnn(n) => n <= 3,
            Instruction::IncN(n, _) => n <= 6,
            Instruction::DecN(n, _) => n <= 6,
            Instruction::IncNN(k, _) => k <= 3,
            Instruction::DecNN(k, _) => k <= 3,
            Instruction::SwapN(n, _) => n <= 6,
            Instruction::RlcN(n, _) => n <= 7,
            Instruction::RlN(n, _) => n <= 7,
            Instruction::RrcN(n, _) => n <= 7,
            Instruction::RrN(n, _) => n <= 7,
            Instruction::SlaN(n, _) => n <= 7,
            Instruction::SraN(n, _) => n <= 7,
            Instruction::SrlN(n, _) => n <= 7,
            Instruction::SetbR(_, _, n) => n <= 7,
            Instruction::ResbR(_, _, n) => n <= 7,
            Instruction::Jpcc(_, m) => m <= 3,
            Instruction::Jrcc(_, m) => m <= 3,
            Instruction::Callcc(_, m) => m <= 3,
            Instruction::Retcc(m) => m <= 3,
            _ => true,
        }
    }
}

/// Every defined opcode decodes to a well-formed instruction.
pub proof fn lemma_decode_well_formed(cpu: CpuState, mmu: MmuState, byte: u8, n1: u16, d16: u16)
    requires
        opcode_defined(byte),
    ensures
        decode_spec(cpu, mmu, byte, n1, d16).well_formed(),
{
}

/// Decodes the opcodes 0x00 to 0x3F.
fn decode_first_quarter(cpu: &mut CPU, mmu: &MMU, byte: u8, n: u8, d16: u16) -> (instruction:
    Instruction)
    requires
        byte < 0x40,
    ensures
        instruction == decode_low(old(cpu)@, mmu@, byte, n, d16),
        final(cpu)@ == old(cpu)@,
{
    let e: i8 = to_signed(n);
    match byte {
        0x00 => Instruction::Nop,
        0x01 => Instruction::LdBc(d16),
        0x02 => Instruction::Ldn16A(cpu.get_bc(), cpu.get_a()),
        0x03 => Instruction::IncNN(0, cpu.get_bc()),
        0x04 => Instruction::IncN(1, cpu.get_b()),
        0x05 => Instruction::DecN(1, cpu.get_b()),
        0x06 => Instruction::LdN(0, n),
        0x07 => Instruction::Rlca(cpu.get_a()),
        0x08 => Instruction::LdnnSp(d16),
        0x09 => Instruction::AddHlN(cpu.get_bc()),
        0x0A => Instruction::LdAR2(1, mmu.read_byte(cpu.get_bc())),
        0x0B => Instruction::DecNN(0, cpu.get_bc()),
        0x0C => Instruction::IncN(2, cpu.get_c()),
        0x0D => Instruction::DecN(2, cpu.get_c()),
        0x0E => Instruction::LdN(1, n),
        0x0F => Instruction::Rrca(cpu.get_a()),
        0x10 => Instruction::Stop,
        0x11 => Instruction::LdDe(d16),
        0x12 => Instruction::Ldn16A(cpu.get_de(), cpu.get_a()),
        0x13 => Instruction::IncNN(1, cpu.get_de()),
        0x14 => Instruction::IncN(3, cpu.get_d()),
        0x15 => Instruction::DecN(3, cpu.get_d()),
        0x16 => Instruction::LdN(2, n),
        0x17 => Instruction::Rla(cpu.get_a()),
        0x18 => Instruction::JrN(e),
        0x19 => Instruction::AddHlN(cpu.get_de()),
        0x1A => Instruction::LdAR2(1, mmu.read_byte(cpu.get_de())),
        0x1B => Instruction::DecNN(1, cpu.get_de()),
        0x1C => Instruction::IncN(4, cpu.get_e()),
        0x1D => Instruction::DecN(4, cpu.get_e()),
        0x1E => Instruction::LdN(3, n),
        0x1F => Instruction::Rra(cpu.get_a()),
        0x20 => Instruction::Jrcc(e, 0),
        0x21 => Instruction::LdHl(d16),
        0x22 => Instruction::LdIHlA(cpu.get_hl()),
        0x23 => Instruction::IncNN(2, cpu.get_hl()),
        0x24 => Instruction::IncN(5, cpu.get_h()),
        0x25 => Instruction::DecN(5, cpu.get_h()),
        0x26 => Instruction::LdN(4, n),
        0x27 => Instruction::Daa,
        0x28 => Instruction::Jrcc(e, 1),
        0x29 => Instruction::AddHlN(cpu.get_hl()),
        0x2A => Instruction::LdIAHl(cpu.get_hl()),
        0x2B => Instruction::DecNN(2, cpu.get_hl()),
        0x2C => Instruction::IncN(6, cpu.get_l()),
        0x2D => Instruction::DecN(6, cpu.get_l()),
        0x2E => Instruction::LdN(5, n),
        0x2F => Instruction::Cpl(cpu.get_a()),
        0x30 => Instruction::Jrcc(e, 2),
        0x31 => Instruction::LdSp(d16),
        0x32 => Instruction::LddHlA(cpu.get_hl()),
        0x33 => Instruction::IncNN(3, cpu.get_sp()),
        0x34 => Instruction::IncHl(cpu.get_hl()),
        0x35 => Instruction::DecHl(cpu.get_hl()),
        0x36 => Instruction::LdHlR2(n, true),
        0x37 => Instruction::Scf,
        0x38 => Instruction::Jrcc(e, 3),
        0x39 => Instruction::AddHlN(cpu.get_sp()),
        0x3A => Instruction::LddAHl(cpu.get_hl()),
        0x3B => Instruction::DecNN(3, cpu.get_sp()),
        0x3C => Instruction::IncN(0, cpu.get_a()),
        0x3D => Instruction::DecN(0, cpu.get_a()),
        0x3E => Instruction::LdAd8(n),
        0x3F => Instruction::Ccf,
        _ => vstd::pervasive::unreached(),
    }
}

/// Decodes the opcodes 0x40 to 0x7F.
fn decode_second_quarter(cpu: &mut CPU, mmu: &MMU, byte: u8) -> (instruction: Instruction)
    requires
        0x40 <= byte < 0x80,
    ensures
        instruction == decode_load_block(old(cpu)@, mmu@, byte),
        final(cpu)@ == old(cpu)@,
{
    match byte {
        0x40 => Instruction::LdBR2(cpu.get_b(), false),
        0x41 => Instruction::LdBR2(cpu.get_c(), false),
        0x42 => Instruction::LdBR2(cpu.get_d(), false),
        0x43 => Instruction::LdBR2(cpu.get_e(), false),
        0x44 => Instruction::LdBR2(cpu.get_h(), false),
        0x45 => Instruction::LdBR2(cpu.get_l(), false),
        0x46 => Instruction::LdBR2(mmu.read_byte(cpu.get_hl()), true),
        0x47 => Instruction::LdnA(0, cpu.get_a()),
        0x48 => Instruction::LdCR2(cpu.get_b(), false),
        0x49 => Instruction::LdCR2(cpu.get_c(), false),
        0x4A => Instruction::LdCR2(cpu.get_d(), false),
        0x4B => Instruction::LdCR2(cpu.get_e(), false),
        0x4C => Instruction::LdCR2(cpu.get_h(), false),
        0x4D => Instruction::LdCR2(cpu.get_l(), false),
        0x4E => Instruction::LdCR2(mmu.read_byte(cpu.get_hl()), true),
        0x4F => Instruction::LdnA(1, cpu.get_a()),
        0x50 => Instruction::LdDR2(cpu.get_b(), false),
        0x51 => Instruction::LdDR2(cpu.get_c(), false),
        0x52 => Instruction::LdDR2(cpu.get_d(), false),
        0x53 => Instruction::LdDR2(cpu.get_e(), false),
        0x54 => Instruction::LdDR2(cpu.get_h(), false),
        0x55 => Instruction::LdDR2(cpu.get_l(), false),
        0x56 => Instruction::LdDR2(mmu.read_byte(cpu.get_hl()), true),
        0x57 => Instruction::LdnA(2, cpu.get_a()),
        0x58 => Instruction::LdER2(cpu.get_b(), false),
        0x59 => Instruction::LdER2(cpu.get_c(), false),
        0x5A => Instruction::LdER2(cpu.get_d(), false),
        0x5B => Instruction::LdER2(cpu.get_e(), false),
        0x5C => Instruction::LdER2(cpu.get_h(), false),
        0x5D => Instruction::LdER2(cpu.get_l(), false),
        0x5E => Instruction::LdER2(mmu.read_byte(cpu.get_hl()), true),
        0x5F => Instruction::LdnA(3, cpu.get_a()),
        0x60 => Instruction::LdHR2(cpu.get_b(), false),
        0x61 => Instruction::LdHR2(cpu.get_c(), false),
        0x62 => Instruction::LdHR2(cpu.get_d(), false),
        0x63 => Instruction::LdHR2(cpu.get_e(), false),
        0x64 => Instruction::LdHR2(cpu.get_h(), false),
        0x65 => Instruction::LdHR2(cpu.get_l(), false),
        0x66 => Instruction::LdHR2(mmu.read_byte(cpu.get_hl()), true),
        0x67 => Instruction::LdnA(4, cpu.get_a()),
        0x68 => Instruction::LdLR2(cpu.get_b(), false),
        0x69 => Instruction::LdLR2(cpu.get_c(), false),
        0x6A => Instruction::LdLR2(cpu.get_d(), false),
        0x6B => Instruction::LdLR2(cpu.get_e(), false),
        0x6C => Instruction::LdLR2(cpu.get_h(), false),
        0x6D => Instruction::LdLR2(cpu.get_l(), false),
        0x6E => Instruction::LdLR2(mmu.read_byte(cpu.get_hl()), true),
        0x6F => Instruction::LdnA(5, cpu.get_a()),
        0x70 => Instruction::LdHlR2(cpu.get_b(), false),
        0x71 => Instruction::LdHlR2(cpu.get_c(), false),
        0x72 => Instruction::LdHlR2(cpu.get_d(), false),
        0x73 => Instruction::LdHlR2(cpu.get_e(), false),
        0x74 => Instruction::LdHlR2(cpu.get_h(), false),
        0x75 => Instruction::LdHlR2(cpu.get_l(), false),
        0x76 => Instruction::Halt,
        0x77 => Instruction::LdHlR2(cpu.get_a(), false),
        0x78 => Instruction::LdAR2(0, cpu.get_b()),
        0x79 => Instruction::LdAR2(0, cpu.get_c()),
        0x7A => Instruction::LdAR2(0, cpu.get_d()),
        0x7B => Instruction::LdAR2(0, cpu.get_e()),
        0x7C => Instruction::LdAR2(0, cpu.get_h()),
        0x7D => Instruction::LdAR2(0, cpu.get_l()),
        0x7E => Instruction::LdAR2(1, mmu.read_byte(cpu.get_hl())),
        0x7F => Instruction::LdAR2(0, cpu.get_a()),
        _ => vstd::pervasive::unreached(),
    }
}

/// Decodes the opcodes 0x80 to 0xBF.
fn decode_third_quarter(cpu: &mut CPU, mmu: &MMU, byte: u8) -> (instruction: Instruction)
    requires
        0x80 <= byte < 0xC0,
    ensures
        instruction == alu_instruction(
            (byte as int / 8) % 8,
            operand(old(cpu)@, mmu@, byte as int % 8),
            byte % 8 == 6,
            false,
        ),
        final(cpu)@ == old(cpu)@,
{
    match byte {
        0x80 => Instruction::AddN(cpu.get_b()),
        0x81 => Instruction::AddN(cpu.get_c()),
        0x82 => Instruction::AddN(cpu.get_d()),
        0x83 => Instruction::AddN(cpu.get_e()),
        0x84 => Instruction::AddN(cpu.get_h()),
        0x85 => Instruction::AddN(cpu.get_l()),
        0x86 => Instruction::AddHl(mmu.read_byte(cpu.get_hl())),
        0x87 => Instruction::AddN(cpu.get_a()),
        0x88 => Instruction::AdcN(cpu.get_b()),
        0x89 => Instruction::AdcN(cpu.get_c()),
        0x8A => Instruction::AdcN(cpu.get_d()),
        0x8B => Instruction::AdcN(cpu.get_e()),
        0x8C => Instruction::AdcN(cpu.get_h()),
        0x8D => Instruction::AdcN(cpu.get_l()),
        0x8E => Instruction::AdcHl(mmu.read_byte(cpu.get_hl())),
        0x8F => Instruction::AdcN(cpu.get_a()),
        0x90 => Instruction::SubN(cpu.get_b()),
        0x91 => Instruction::SubN(cpu.get_c()),
        0x92 => Instruction::SubN(cpu.get_d()),
        0x93 => Instruction::SubN(cpu.get_e()),
        0x94 => Instruction::SubN(cpu.get_h()),
        0x95 => Instruction::SubN(cpu.get_l()),
        0x96 => Instruction::SubHl(mmu.read_byte(cpu.get_hl())),
        0x97 => Instruction::SubN(cpu.get_a()),
        0x98 => Instruction::SbcN(cpu.get_b()),
        0x99 => Instruction::SbcN(cpu.get_c()),
        0x9A => Instruction::SbcN(cpu.get_d()),
        0x9B => Instruction::SbcN(cpu.get_e()),
        0x9C => Instruction::SbcN(cpu.get_h()),
        0x9D => Instruction::SbcN(cpu.get_l()),
        0x9E => Instruction::SbcHl(mmu.read_byte(cpu.get_hl())),
        0x9F => Instruction::SbcN(cpu.get_a()),
        0xA0 => Instruction::Andn(cpu.get_b()),
        0xA1 => Instruction::Andn(cpu.get_c()),
        0xA2 => Instruction::Andn(cpu.get_d()),
        0xA3 => Instruction::Andn(cpu.get_e()),
        0xA4 => Instruction::Andn(cpu.get_h()),
        0xA5 => Instruction::Andn(cpu.get_l()),
        0xA6 => Instruction::AndHl(mmu.read_byte(cpu.get_hl())),
        0xA7 => Instruction::Andn(cpu.get_a()),
        0xA8 => Instruction::Xor(cpu.get_b()),
        0xA9 => Instruction::Xor(cpu.get_c()),
        0xAA => Instruction::Xor(cpu.get_d()),
        0xAB => Instruction::Xor(cpu.get_e()),
        0xAC => Instruction::Xor(cpu.get_h()),
        0xAD => Instruction::Xor(cpu.get_l()),
        0xAE => Instruction::XorHl(mmu.read_byte(cpu.get_hl())),
        0xAF => Instruction::Xor(cpu.get_a()),
        0xB0 => Instruction::OrN(cpu.get_b()),
        0xB1 => Instruction::OrN(cpu.get_c()),
        0xB2 => Instruction::OrN(cpu.get_d()),
        0xB3 => Instruction::OrN(cpu.get_e()),
        0xB4 => Instruction::OrN(cpu.get_h()),
        0xB5 => Instruction::OrN(cpu.get_l()),
        0xB6 => Instruction::OrHl(mmu.read_byte(cpu.get_hl())),
        0xB7 => Instruction::OrN(cpu.get_a()),
        0xB8 => Instruction::Cp(cpu.get_b()),
        0xB9 => Instruction::Cp(cpu.get_c()),
        0xBA => Instruction::Cp(cpu.get_d()),
        0xBB => Instruction::Cp(cpu.get_e()),
        0xBC => Instruction::Cp(cpu.get_h()),
        0xBD => Instruction::Cp(cpu.get_l()),
        0xBE => Instruction::CpHl(mmu.read_byte(cpu.get_hl())),
        0xBF => Instruction::Cp(cpu.get_a()),
        _ => vstd::pervasive::unreached(),
    }
}

/// Decodes the opcodes 0xC0 to 0xFF but the prefix 0xCB.
fn decode_fourth_quarter(cpu: &mut CPU, mmu: &MMU, byte: u8, n: u8, d16: u16) -> (instruction:
    Instruction)
    requires
        byte >= 0xC0,
        byte != 0xCB,
        opcode_defined(byte),
    ensures
        instruction == decode_high(old(cpu)@, mmu@, byte, n, d16),
        final(cpu)@ == old(cpu)@,
{
    let e: i8 = to_signed(n);
    match byte {
        0xC0 => Instruction::Retcc(0),
        0xC1 => Instruction::Popnn(1),
        0xC2 => Instruction::Jpcc(d16, 0),
        0xC3 => Instruction::Jpnn(d16),
        0xC4 => Instruction::Callcc(d16, 0),
        0xC5 => Instruction::Pushnn(cpu.get_bc()),
        0xC6 => Instruction::AddD8(n),
        0xC7 => Instruction::Rst(0x00),
        0xC8 => Instruction::Retcc(1),
        0xC9 => Instruction::Ret,
        0xCA => Instruction::Jpcc(d16, 1),
        0xCC => Instruction::Callcc(d16, 1),
        0xCD => Instruction::Callnn(d16),
        0xCE => Instruction::AdcD8(n),
        0xCF => Instruction::Rst(0x08),
        0xD0 => Instruction::Retcc(2),
        0xD1 => Instruction::Popnn(2),
        0xD2 => Instruction::Jpcc(d16, 2),
        0xD4 => Instruction::Callcc(d16, 2),
        0xD5 => Instruction::Pushnn(cpu.get_de()),
        0xD6 => Instruction::SubD8(n),
        0xD7 => Instruction::Rst(0x10),
        0xD8 => Instruction::Retcc(3),
        0xD9 => Instruction::Reti,
        0xDA => Instruction::Jpcc(d16, 3),
        0xDC => Instruction::Callcc(d16, 3),
        0xDE => Instruction::SbcD8(n),
        0xDF => Instruction::Rst(0x18),
        0xE0 => Instruction::LdHnA(n),
        0xE1 => Instruction::Popnn(3),
        0xE2 => Instruction::LdCa(cpu.get_a()),
        0xE5 => Instruction::Pushnn(cpu.get_hl()),
        0xE6 => Instruction::AndD8(n),
        0xE7 => Instruction::Rst(0x20),
        0xE8 => Instruction::AddSpN(e),
        0xE9 => Instruction::JpHl(cpu.get_hl()),
        0xEA => Instruction::Lda16A(d16, cpu.get_a()),
        0xEE => Instruction::XorD8(n),
        0xEF => Instruction::Rst(0x28),
        0xF0 => Instruction::LdHAn(n),
        0xF1 => Instruction::Popnn(0),
        0xF2 => Instruction::LdAc(cpu.get_c()),
        0xF3 => Instruction::Di,
        0xF5 => Instruction::Pushnn(cpu.get_af()),
        0xF6 => Instruction::OrD8(n),
        0xF7 => Instruction::Rst(0x30),
        0xF8 => Instruction::LdHlSp(e),
        0xF9 => Instruction::LdSpHl(cpu.get_hl()),
        0xFA => Instruction::LdAnn(mmu.read_byte(d16)),
        0xFB => Instruction::Ei,
        0xFE => Instruction::CpD8(n),
        0xFF => Instruction::Rst(0x38),
        _ => vstd::pervasive::unreached(),
    }
}

/// Decodes an opcode of the first table.
pub fn decoder(cpu: &mut CPU, mmu: &MMU, byte: u8, n1: u16, d16: u16) -> (instruction: Instruction)
    requires
        opcode_defined(byte),
    ensures
        instruction == decode_spec(old(cpu)@, mmu@, byte, n1, d16),
        instruction.well_formed(),
        final(cpu)@ == old(cpu)@,
{
    proof {
        lemma_decode_well_formed(cpu@, mmu@, byte, n1, d16);
    }
    let n: u8 = (n1 % 256) as u8;
    match byte {
        0x00..=0x3F => decode_first_quarter(cpu, mmu, byte, n, d16),
        0x40..=0x7F => decode_second_quarter(cpu, mmu, byte),
        0x80..=0xBF => decode_third_quarter(cpu, mmu, byte),
        0xCB => cpu.cb_decode(n, mmu),
        _ => decode_fourth_quarter(cpu, mmu, byte, n, d16),
    }
}

/// Decodes an opcode of the second table, the one behind the prefix 0xCB.
pub fn cb_decoder(cpu: &mut CPU, byte: u8, mmu: &MMU) -> (instruction: Instruction)
    ensures
        instruction == cb_decode_spec(old(cpu)@, mmu@, byte),
        instruction.well_formed(),
        final(cpu)@ == old(cpu)@,
{
    match byte {
        0x00 => Instruction::RlcN(1, cpu.get_b()),
        0x01 => Instruction::RlcN(2, cpu.get_c()),
        0x02 => Instruction::RlcN(3, cpu.get_d()),
        0x03 => Instruction::RlcN(4, cpu.get_e()),
        0x04 => Instruction::RlcN(5, cpu.get_h()),
        0x05 => Instruction::RlcN(6, cpu.get_l()),
        0x06 => Instruction::RlcN(7, mmu.read_byte(cpu.get_hl())),
        0x07 => Instruction::RlcN(0, cpu.get_a()),
        0x08 => Instruction::RrcN(1, cpu.get_b()),
        0x09 => Instruction::RrcN(2, cpu.get_c()),
        0x0A => Instruction::RrcN(3, cpu.get_d()),
        0x0B => Instruction::RrcN(4, cpu.get_e()),
        0x0C => Instruction::RrcN(5, cpu.get_h()),
        0x0D => Instruction::RrcN(6, cpu.get_l()),
        0x0E => Instruction::RrcN(7, mmu.read_byte(cpu.get_hl())),
        0x0F => Instruction::RrcN(0, cpu.get_a()),
        0x10 => Instruction::RlN(1, cpu.get_b()),
        0x11 => Instruction::RlN(2, cpu.get_c()),
        0x12 => Instruction::RlN(3, cpu.get_d()),
        0x13 => Instruction::RlN(4, cpu.get_e()),
        0x14 => Instruction::RlN(5, cpu.get_h()),
        0x15 => Instruction::RlN(6, cpu.get_l()),
        0x16 => Instruction::RlN(7, mmu.read_byte(cpu.get_hl())),
        0x17 => Instruction::RlN(0, cpu.get_a()),
        0x18 => Instruction::RrN(1, cpu.get_b()),
        0x19 => Instruction::RrN(2, cpu.get_c()),
        0x1A => Instruction::RrN(3, cpu.get_d()),
        0x1B => Instruction::RrN(4, cpu.get_e()),
        0x1C => Instruction::RrN(5, cpu.get_h()),
        0x1D => Instruction::RrN(6, cpu.get_l()),
        0x1E => Instruction::RrN(7, mmu.read_byte(cpu.get_hl())),
        0x1F => Instruction::RrN(0, cpu.get_a()),
        0x20 => Instruction::SlaN(1, cpu.get_b()),
        0x21 => Instruction::SlaN(2, cpu.get_c()),
        0x22 => Instruction::SlaN(3, cpu.get_d()),
        0x23 => Instruction::SlaN(4, cpu.get_e()),
        0x24 => Instruction::SlaN(5, cpu.get_h()),
        0x25 => Instruction::SlaN(6, cpu.get_l()),
        0x26 => Instruction::SlaN(7, mmu.read_byte(cpu.get_hl())),
        0x27 => Instruction::SlaN(0, cpu.get_a()),
        0x28 => Instruction::SraN(1, cpu.get_b()),
        0x29 => Instruction::SraN(2, cpu.get_c()),
        0x2A => Instruction::SraN(3, cpu.get_d()),
        0x2B => Instruction::SraN(4, cpu.get_e()),
        0x2C => Instruction::SraN(5, cpu.get_h()),
        0x2D => Instruction::SraN(6, cpu.get_l()),
        0x2E => Instruction::SraN(7, mmu.read_byte(cpu.get_hl())),
        0x2F => Instruction::SraN(0, cpu.get_a()),
        0x30 => Instruction::SwapN(1, cpu.get_b()),
        0x31 => Instruction::SwapN(2, cpu.get_c()),
        0x32 => Instruction::SwapN(3, cpu.get_d()),
        0x33 => Instruction::SwapN(4, cpu.get_e()),
        0x34 => Instruction::SwapN(5, cpu.get_h()),
        0x35 => Instruction::SwapN(6, cpu.get_l()),
        0x36 => Instruction::SwapHl(mmu.read_byte(cpu.get_hl())),
        0x37 => Instruction::SwapN(0, cpu.get_a()),
        0x38 => Instruction::SrlN(1, cpu.get_b()),
        0x39 => Instruction::SrlN(2, cpu.get_c()),
        0x3A => Instruction::SrlN(3, cpu.get_d()),
        0x3B => Instruction::SrlN(4, cpu.get_e()),
        0x3C => Instruction::SrlN(5, cpu.get_h()),
        0x3D => Instruction::SrlN(6, cpu.get_l()),
        0x3E => Instruction::SrlN(7, mmu.read_byte(cpu.get_hl())),
        0x3F => Instruction::SrlN(0, cpu.get_a()),
        0x40 => Instruction::BitbR(0b00000001, cpu.get_b()),
        0x41 => Instruction::BitbR(0b00000001, cpu.get_c()),
        0x42 => Instruction::BitbR(0b00000001, cpu.get_d()),
        0x43 => Instruction::BitbR(0b00000001, cpu.get_e()),
        0x44 => Instruction::BitbR(0b00000001, cpu.get_h()),
        0x45 => Instruction::BitbR(0b00000001, cpu.get_l()),
        0x46 => Instruction::BitbHl(0b00000001, mmu.read_byte(cpu.get_hl())),
        0x47 => Instruction::BitbR(0b00000001, cpu.get_a()),
        0x48 => Instruction::BitbR(0b00000010, cpu.get_b()),
        0x49 => Instruction::BitbR(0b00000010, cpu.get_c()),
        0x4A => Instruction::BitbR(0b00000010, cpu.get_d()),
        0x4B => Instruction::BitbR(0b00000010, cpu.get_e()),
        0x4C => Instruction::BitbR(0b00000010, cpu.get_h()),
        0x4D => Instruction::BitbR(0b00000010, cpu.get_l()),
        0x4E => Instruction::BitbHl(0b00000010, mmu.read_byte(cpu.get_hl())),
        0x4F => Instruction::BitbR(0b00000010, cpu.get_a()),
        0x50 => Instruction::BitbR(0b00000100, cpu.get_b()),
        0x51 => Instruction::BitbR(0b00000100, cpu.get_c()),
        0x52 => Instruction::BitbR(0b00000100, cpu.get_d()),
        0x53 => Instruction::BitbR(0b00000100, cpu.get_e()),
        0x54 => Instruction::BitbR(0b00000100, cpu.get_h()),
        0x55 => Instruction::BitbR(0b00000100, cpu.get_l()),
        0x56 => Instruction::BitbHl(0b00000100, mmu.read_byte(cpu.get_hl())),
        0x57 => Instruction::BitbR(0b00000100, cpu.get_a()),
        0x58 => Instruction::BitbR(0b00001000, cpu.get_b()),
        0x59 => Instruction::BitbR(0b00001000, cpu.get_c()),
        0x5A => Instruction::BitbR(0b00001000, cpu.get_d()),
        0x5B => Instruction::BitbR(0b00001000, cpu.get_e()),
        0x5C => Instruction::BitbR(0b00001000, cpu.get_h()),
        0x5D => Instruction::BitbR(0b00001000, cpu.get_l()),
        0x5E => Instruction::BitbHl(0b00001000, mmu.read_byte(cpu.get_hl())),
        0x5F => Instruction::BitbR(0b00001000, cpu.get_a()),
        0x60 => Instruction::BitbR(0b00010000, cpu.get_b()),
        0x61 => Instruction::BitbR(0b00010000, cpu.get_c()),
        0x62 => Instruction::BitbR(0b00010000, cpu.get_d()),
        0x63 => Instruction::BitbR(0b00010000, cpu.get_e()),
        0x64 => Instruction::BitbR(0b00010000, cpu.get_h()),
        0x65 => Instruction::BitbR(0b00010000, cpu.get_l()),
        0x66 => Instruction::BitbHl(0b00010000, mmu.read_byte(cpu.get_hl())),
        0x67 => Instruction::BitbR(0b00010000, cpu.get_a()),
        0x68 => Instruction::BitbR(0b00100000, cpu.get_b()),
        0x69 => Instruction::BitbR(0b00100000, cpu.get_c()),
        0x6A => Instruction::BitbR(0b00100000, cpu.get_d()),
        0x6B => Instruction::BitbR(0b00100000, cpu.get_e()),
        0x6C => Instruction::BitbR(0b00100000, cpu.get_h()),
        0x6D => Instruction::BitbR(0b00100000, cpu.get_l()),
        0x6E => Instruction::BitbHl(0b00100000, mmu.read_byte(cpu.get_hl())),
        0x6F => Instruction::BitbR(0b00100000, cpu.get_a()),
        0x70 => Instruction::BitbR(0b01000000, cpu.get_b()),
        0x71 => Instruction::BitbR(0b01000000, cpu.get_c()),
        0x72 => Instruction::BitbR(0b01000000, cpu.get_d()),
        0x73 => Instruction::BitbR(0b01000000, cpu.get_e()),
        0x74 => Instruction::BitbR(0b01000000, cpu.get_h()),
        0x75 => Instruction::BitbR(0b01000000, cpu.get_l()),
        0x76 => Instruction::BitbHl(0b01000000, mmu.read_byte(cpu.get_hl())),
        0x77 => Instruction::BitbR(0b01000000, cpu.get_a()),
        0x78 => Instruction::BitbR(0b10000000, cpu.get_b()),
        0x79 => Instruction::BitbR(0b10000000, cpu.get_c()),
        0x7A => Instruction::BitbR(0b10000000, cpu.get_d()),
        0x7B => Instruction::BitbR(0b10000000, cpu.get_e()),
        0x7C => Instruction::BitbR(0b10000000, cpu.get_h()),
        0x7D => Instruction::BitbR(0b10000000, cpu.get_l()),
        0x7E => Instruction::BitbHl(0b10000000, mmu.read_byte(cpu.get_hl())),
        0x7F => Instruction::BitbR(0b10000000, cpu.get_a()),
        0x80 => Instruction::ResbR(0b00000001, cpu.get_b(), 1),
        0x81 => Instruction::ResbR(0b00000001, cpu.get_c(), 2),
        0x82 => Instruction::ResbR(0b00000001, cpu.get_d(), 3),
        0x83 => Instruction::ResbR(0b00000001, cpu.get_e(), 4),
        0x84 => Instruction::ResbR(0b00000001, cpu.get_h(), 5),
        0x85 => Instruction::ResbR(0b00000001, cpu.get_l(), 6),
        0x86 => Instruction::ResbR(0b00000001, mmu.read_byte(cpu.get_hl()), 7),
        0x87 => Instruction::ResbR(0b00000001, cpu.get_a(), 0),
        0x88 => Instruction::ResbR(0b00000010, cpu.get_b(), 1),
        0x89 => Instruction::ResbR(0b00000010, cpu.get_c(), 2),
        0x8A => Instruction::ResbR(0b00000010, cpu.get_d(), 3),
        0x8B => Instruction::ResbR(0b00000010, cpu.get_e(), 4),
        0x8C => Instruction::ResbR(0b00000010, cpu.get_h(), 5),
        0x8D => Instruction::ResbR(0b00000010, cpu.get_l(), 6),
        0x8E => Instruction::ResbR(0b00000010, mmu.read_byte(cpu.get_hl()), 7),
        0x8F => Instruction::ResbR(0b00000010, cpu.get_a(), 0),
        0x90 => Instruction::ResbR(0b00000100, cpu.get_b(), 1),
        0x91 => Instruction::ResbR(0b00000100, cpu.get_c(), 2),
        0x92 => Instruction::ResbR(0b00000100, cpu.get_d(), 3),
        0x93 => Instruction::ResbR(0b00000100, cpu.get_e(), 4),
        0x94 => Instruction::ResbR(0b00000100, cpu.get_h(), 5),
        0x95 => Instruction::ResbR(0b00000100, cpu.get_l(), 6),
        0x96 => Instruction::ResbR(0b00000100, mmu.read_byte(cpu.get_hl()), 7),
        0x97 => Instruction::ResbR(0b00000100, cpu.get_a(), 0),
        0x98 => Instruction::ResbR(0b00001000, cpu.get_b(), 1),
        0x99 => Instruction::ResbR(0b00001000, cpu.get_c(), 2),
        0x9A => Instruction::ResbR(0b00001000, cpu.get_d(), 3),
        0x9B => Instruction::ResbR(0b00001000, cpu.get_e(), 4),
        0x9C => Instruction::ResbR(0b00001000, cpu.get_h(), 5),
        0x9D => Instruction::ResbR(0b00001000, cpu.get_l(), 6),
        0x9E => Instruction::ResbR(0b00001000, mmu.read_byte(cpu.get_hl()), 7),
        0x9F => Instruction::ResbR(0b00001000, cpu.get_a(), 0),
        0xA0 => Instruction::ResbR(0b00010000, cpu.get_b(), 1),
        0xA1 => Instruction::ResbR(0b00010000, cpu.get_c(), 2),
        0xA2 => Instruction::ResbR(0b00010000, cpu.get_d(), 3),
        0xA3 => Instruction::ResbR(0b00010000, cpu.get_e(), 4),
        0xA4 => Instruction::ResbR(0b00010000, cpu.get_h(), 5),
        0xA5 => Instruction::ResbR(0b00010000, cpu.get_l(), 6),
        0xA6 => Instruction::ResbR(0b00010000, mmu.read_byte(cpu.get_hl()), 7),
        0xA7 => Instruction::ResbR(0b00010000, cpu.get_a(), 0),
        0xA8 => Instruction::ResbR(0b00100000, cpu.get_b(), 1),
        0xA9 => Instruction::ResbR(0b00100000, cpu.get_c(), 2),
        0xAA => Instruction::ResbR(0b00100000, cpu.get_d(), 3),
        0xAB => Instruction::ResbR(0b00100000, cpu.get_e(), 4),
        0xAC => Instruction::ResbR(0b00100000, cpu.get_h(), 5),
        0xAD => Instruction::ResbR(0b00100000, cpu.get_l(), 6),
        0xAE => Instruction::ResbR(0b00100000, mmu.read_byte(cpu.get_hl()), 7),
        0xAF => Instruction::ResbR(0b00100000, cpu.get_a(), 0),
        0xB0 => Instruction::ResbR(0b01000000, cpu.get_b(), 1),
        0xB1 => Instruction::ResbR(0b01000000, cpu.get_c(), 2),
        0xB2 => Instruction::ResbR(0b01000000, cpu.get_d(), 3),
        0xB3 => Instruction::ResbR(0b01000000, cpu.get_e(), 4),
        0xB4 => Instruction::ResbR(0b01000000, cpu.get_h(), 5),
        0xB5 => Instruction::ResbR(0b01000000, cpu.get_l(), 6),
        0xB6 => Instruction::ResbR(0b01000000, mmu.read_byte(cpu.get_hl()), 7),
        0xB7 => Instruction::ResbR(0b01000000, cpu.get_a(), 0),
        0xB8 => Instruction::ResbR(0b10000000, cpu.get_b(), 1),
        0xB9 => Instruction::ResbR(0b10000000, cpu.get_c(), 2),
        0xBA => Instruction::ResbR(0b10000000, cpu.get_d(), 3),
        0xBB => Instruction::ResbR(0b10000000, cpu.get_e(), 4),
        0xBC => Instruction::ResbR(0b10000000, cpu.get_h(), 5),
        0xBD => Instruction::ResbR(0b10000000, cpu.get_l(), 6),
        0xBE => Instruction::ResbR(0b10000000, mmu.read_byte(cpu.get_hl()), 7),
        0xBF => Instruction::ResbR(0b10000000, cpu.get_a(), 0),
        0xC0 => Instruction::SetbR(0b00000001, cpu.get_b(), 1),
        0xC1 => Instruction::SetbR(0b00000001, cpu.get_c(), 2),
        0xC2 => Instruction::SetbR(0b00000001, cpu.get_d(), 3),
        0xC3 => Instruction::SetbR(0b00000001, cpu.get_e(), 4),
        0xC4 => Instruction::SetbR(0b00000001, cpu.get_h(), 5),
        0xC5 => Instruction::SetbR(0b00000001, cpu.get_l(), 6),
        0xC6 => Instruction::SetbR(0b00000001, mmu.read_byte(cpu.get_hl()), 7),
        0xC7 => Instruction::SetbR(0b00000001, cpu.get_a(), 0),
        0xC8 => Instruction::SetbR(0b00000010, cpu.get_b(), 1),
        0xC9 => Instruction::SetbR(0b00000010, cpu.get_c(), 2),
        0xCA => Instruction::SetbR(0b00000010, cpu.get_d(), 3),
        0xCB => Instruction::SetbR(0b00000010, cpu.get_e(), 4),
        0xCC => Instruction::SetbR(0b00000010, cpu.get_h(), 5),
        0xCD => Instruction::SetbR(0b00000010, cpu.get_l(), 6),
        0xCE => Instruction::SetbR(0b00000010, mmu.read_byte(cpu.get_hl()), 7),
        0xCF => Instruction::SetbR(0b00000010, cpu.get_a(), 0),
        0xD0 => Instruction::SetbR(0b00000100, cpu.get_b(), 1),
        0xD1 => Instruction::SetbR(0b00000100, cpu.get_c(), 2),
        0xD2 => Instruction::SetbR(0b00000100, cpu.get_d(), 3),
        0xD3 => Instruction::SetbR(0b00000100, cpu.get_e(), 4),
        0xD4 => Instruction::SetbR(0b00000100, cpu.get_h(), 5),
        0xD5 => Instruction::SetbR(0b00000100, cpu.get_l(), 6),
        0xD6 => Instruction::SetbR(0b00000100, mmu.read_byte(cpu.get_hl()), 7),
        0xD7 => Instruction::SetbR(0b00000100, cpu.get_a(), 0),
        0xD8 => Instruction::SetbR(0b00001000, cpu.get_b(), 1),
        0xD9 => Instruction::SetbR(0b00001000, cpu.get_c(), 2),
        0xDA => Instruction::SetbR(0b00001000, cpu.get_d(), 3),
        0xDB => Instruction::SetbR(0b00001000, cpu.get_e(), 4),
        0xDC => Instruction::SetbR(0b00001000, cpu.get_h(), 5),
        0xDD => Instruction::SetbR(0b00001000, cpu.get_l(), 6),
        0xDE => Instruction::SetbR(0b00001000, mmu.read_byte(cpu.get_hl()), 7),
        0xDF => Instruction::SetbR(0b00001000, cpu.get_a(), 0),
        0xE0 => Instruction::SetbR(0b00010000, cpu.get_b(), 1),
        0xE1 => Instruction::SetbR(0b00010000, cpu.get_c(), 2),
        0xE2 => Instruction::SetbR(0b00010000, cpu.get_d(), 3),
        0xE3 => Instruction::SetbR(0b00010000, cpu.get_e(), 4),
        0xE4 => Instruction::SetbR(0b00010000, cpu.get_h(), 5),
        0xE5 => Instruction::SetbR(0b00010000, cpu.get_l(), 6),
        0xE6 => Instruction::SetbR(0b00010000, mmu.read_byte(cpu.get_hl()), 7),
        0xE7 => Instruction::SetbR(0b00010000, cpu.get_a(), 0),
        0xE8 => Instruction::SetbR(0b00100000, cpu.get_b(), 1),
        0xE9 => Instruction::SetbR(0b00100000, cpu.get_c(), 2),
        0xEA => Instruction::SetbR(0b00100000, cpu.get_d(), 3),
        0xEB => Instruction::SetbR(0b00100000, cpu.get_e(), 4),
        0xEC => Instruction::SetbR(0b00100000, cpu.get_h(), 5),
        0xED => Instruction::SetbR(0b00100000, cpu.get_l(), 6),
        0xEE => Instruction::SetbR(0b00100000, mmu.read_byte(cpu.get_hl()), 7),
        0xEF => Instruction::SetbR(0b00100000, cpu.get_a(), 0),
        0xF0 => Instruction::SetbR(0b01000000, cpu.get_b(), 1),
        0xF1 => Instruction::SetbR(0b01000000, cpu.get_c(), 2),
        0xF2 => Instruction::SetbR(0b01000000, cpu.get_d(), 3),
        0xF3 => Instruction::SetbR(0b01000000, cpu.get_e(), 4),
        0xF4 => Instruction::SetbR(0b01000000, cpu.get_h(), 5),
        0xF5 => Instruction::SetbR(0b01000000, cpu.get_l(), 6),
        0xF6 => Instruction::SetbR(0b01000000, mmu.read_byte(cpu.get_hl()), 7),
        0xF7 => Instruction::SetbR(0b01000000, cpu.get_a(), 0),
        0xF8 => Instruction::SetbR(0b10000000, cpu.get_b(), 1),
        0xF9 => Instruction::SetbR(0b10000000, cpu.get_c(), 2),
        0xFA => Instruction::SetbR(0b10000000, cpu.get_d(), 3),
        0xFB => Instruction::SetbR(0b10000000, cpu.get_e(), 4),
        0xFC => Instruction::SetbR(0b10000000, cpu.get_h(), 5),
        0xFD => Instruction::SetbR(0b10000000, cpu.get_l(), 6),
        0xFE => Instruction::SetbR(0b10000000, mmu.read_byte(cpu.get_hl()), 7),
        0xFF => Instruction::SetbR(0b10000000, cpu.get_a(), 0),
    }
}

} // verus!
