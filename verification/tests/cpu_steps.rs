use gameboy_core::cpu::execute::executer;
use gameboy_core::cpu::opcodes::{cb_decoder, decoder, is_defined_opcode, to_signed};
use gameboy_core::cpu::CPU;
use gameboy_core::dbg::DBG;
use gameboy_core::instruction::Instruction;
use gameboy_core::mmu::MMU;

fn machine(program: &[u8]) -> (CPU, MMU, DBG) {
    let mut mmu = MMU::new();
    mmu.from_rom_file(program);
    (CPU::new(), mmu, DBG::default())
}

fn run_until_halted(cpu: &mut CPU, mmu: &mut MMU, dbg: &mut DBG, limit: usize) -> usize {
    let mut steps = 0;
    while !cpu.get_halted() {
        assert!(steps < limit, "the program did not halt");
        assert!(cpu.can_step(mmu));
        cpu.do_cycle(mmu, dbg);
        steps += 1;
    }
    steps
}

#[test]
fn load_increment_halt() {
    let (mut cpu, mut mmu, mut dbg) = machine(&[0x3E, 0x05, 0x3C, 0x76]);
    let steps = run_until_halted(&mut cpu, &mut mmu, &mut dbg, 10);
    assert_eq!(steps, 3);
    assert_eq!(cpu.get_a(), 6);
    assert!(!cpu.get_flag_z());
    assert!(cpu.get_halted());
    assert_eq!(cpu.get_pc(), 4);
}

#[test]
fn nop_moves_on_by_one_and_takes_one_cycle() {
    let (mut cpu, mut mmu, _) = machine(&[0x00]);
    cpu.set_flag_z(true);
    cpu.set_flag_c(true);
    let before = cpu.get_af();
    let cycles = cpu.run_instruction(&mut mmu);
    assert_eq!(cycles, 1);
    assert_eq!(cpu.get_pc(), 1);
    assert_eq!(cpu.get_af(), before);
}

#[test]
fn nop_counts_four_ticks() {
    let (mut cpu, mut mmu, mut dbg) = machine(&[0x00]);
    cpu.do_cycle(&mut mmu, &mut dbg);
    assert_eq!(cpu.get_ticks(), 4);
    assert_eq!(cpu.get_pc(), 1);
}

#[test]
fn new_cpu_is_zero_and_default_is_after_boot() {
    let mut cpu = CPU::new();
    assert_eq!(cpu.get_af(), 0);
    assert_eq!(cpu.get_bc(), 0);
    assert_eq!(cpu.get_de(), 0);
    assert_eq!(cpu.get_hl(), 0);
    assert_eq!(cpu.get_sp(), 0);
    assert_eq!(cpu.get_pc(), 0);
    let mut boot = CPU::default();
    assert_eq!(boot.get_af(), 0x01B0);
    assert_eq!(boot.get_bc(), 0x0013);
    assert_eq!(boot.get_de(), 0x00D8);
    assert_eq!(boot.get_hl(), 0x014D);
    assert_eq!(boot.get_sp(), 0xFFFE);
    assert_eq!(boot.get_pc(), 0x0100);
    assert!(boot.get_flag_z() && !boot.get_flag_n() && boot.get_flag_h() && boot.get_flag_c());
}

#[test]
fn flags_are_set_and_cleared_one_by_one() {
    let mut cpu = CPU::new();
    cpu.set_flag_z(true);
    assert_eq!(cpu.get_af(), 0x80);
    cpu.set_flag_n(true);
    assert_eq!(cpu.get_af(), 0xC0);
    cpu.set_flag_h(true);
    assert_eq!(cpu.get_af(), 0xE0);
    cpu.set_flag_c(true);
    assert_eq!(cpu.get_af(), 0xF0);
    cpu.set_flag_z(false);
    assert_eq!(cpu.get_af(), 0x70);
    cpu.set_flag_h(false);
    assert_eq!(cpu.get_af(), 0x50);
    assert!(!cpu.get_flag_z() && cpu.get_flag_n() && !cpu.get_flag_h() && cpu.get_flag_c());
}

#[test]
fn set_hl_splits_the_word() {
    let mut cpu = CPU::new();
    cpu.set_hl(0xBEEF);
    assert_eq!(cpu.get_h(), 0xBE);
    assert_eq!(cpu.get_l(), 0xEF);
    assert_eq!(cpu.get_hl(), 0xBEEF);
}

fn cpu_with_a(a: u8) -> (CPU, MMU) {
    let mut cpu = CPU::new();
    let mut mmu = MMU::new();
    executer(&mut cpu, &Instruction::LdAd8(a), &mut mmu);
    (cpu, mmu)
}

#[test]
fn add_sets_half_carry_and_carry() {
    let (mut cpu, _) = cpu_with_a(0x3A);
    let r = cpu.alu_add(&0xC6, false);
    assert_eq!(r, 0x00);
    assert!(cpu.get_flag_z());
    assert!(!cpu.get_flag_n());
    assert!(cpu.get_flag_h());
    assert!(cpu.get_flag_c());
    assert_eq!(cpu.get_a(), 0x3A);
}

#[test]
fn add_without_carry_out() {
    let (mut cpu, _) = cpu_with_a(0x12);
    let r = cpu.alu_add(&0x34, false);
    assert_eq!(r, 0x46);
    assert!(!cpu.get_flag_z() && !cpu.get_flag_n() && !cpu.get_flag_h() && !cpu.get_flag_c());
}

#[test]
fn adc_takes_the_carry_in() {
    let (mut cpu, _) = cpu_with_a(0x0F);
    cpu.set_flag_c(true);
    let r = cpu.alu_add(&0x00, true);
    assert_eq!(r, 0x10);
    assert!(cpu.get_flag_h());
    assert!(!cpu.get_flag_c());
    let (mut cpu, _) = cpu_with_a(0xFF);
    cpu.set_flag_c(true);
    let r = cpu.alu_add(&0x00, true);
    assert_eq!(r, 0x00);
    assert!(cpu.get_flag_z() && cpu.get_flag_h() && cpu.get_flag_c());
    let (mut cpu, _) = cpu_with_a(0x0F);
    cpu.set_flag_c(true);
    let r = cpu.alu_add(&0x00, false);
    assert_eq!(r, 0x0F);
    assert!(!cpu.get_flag_h());
}

#[test]
fn add_flags_agree_with_their_definitions_on_every_pair() {
    for a in 0..=255u8 {
        for b in 0..=255u8 {
            for c in 0..2u16 {
                let (mut cpu, _) = cpu_with_a(a);
                cpu.set_flag_c(c == 1);
                let r = cpu.alu_add(&b, true);
                let sum = a as u16 + b as u16 + c;
                assert_eq!(r, (sum & 0xFF) as u8);
                assert_eq!(cpu.get_flag_z(), r == 0);
                assert_eq!(cpu.get_flag_c(), sum > 0xFF);
                assert_eq!(cpu.get_flag_h(), (a & 0xF) as u16 + (b & 0xF) as u16 + c > 0xF);
                assert!(!cpu.get_flag_n());
            }
        }
    }
}

#[test]
fn sub_sets_borrow_flags() {
    let (mut cpu, _) = cpu_with_a(0x3E);
    let r = cpu.alu_sub(&0x3E, false);
    assert_eq!(r, 0);
    assert!(cpu.get_flag_z() && cpu.get_flag_n() && !cpu.get_flag_h() && !cpu.get_flag_c());
    let (mut cpu, _) = cpu_with_a(0x3E);
    let r = cpu.alu_sub(&0x0F, false);
    assert_eq!(r, 0x2F);
    assert!(!cpu.get_flag_z() && cpu.get_flag_n() && cpu.get_flag_h() && !cpu.get_flag_c());
    let (mut cpu, _) = cpu_with_a(0x3E);
    let r = cpu.alu_sub(&0x40, false);
    assert_eq!(r, 0xFE);
    assert!(!cpu.get_flag_z() && cpu.get_flag_n() && !cpu.get_flag_h() && cpu.get_flag_c());
}

#[test]
fn sub_flags_agree_with_their_definitions_on_every_pair() {
    for a in 0..=255u8 {
        for b in 0..=255u8 {
            for c in 0..2u16 {
                let (mut cpu, _) = cpu_with_a(a);
                cpu.set_flag_c(c == 1);
                let r = cpu.alu_sub(&b, true);
                assert_eq!(r, a.wrapping_sub(b).wrapping_sub(c as u8));
                assert_eq!(cpu.get_flag_z(), r == 0);
                assert_eq!(cpu.get_flag_c(), (a as u16) < b as u16 + c);
                assert_eq!(cpu.get_flag_h(), ((a & 0xF) as u16) < (b & 0xF) as u16 + c);
                assert!(cpu.get_flag_n());
            }
        }
    }
}

#[test]
fn swap_exchanges_nibbles() {
    let mut cpu = CPU::new();
    cpu.set_flag_c(true);
    assert_eq!(cpu.swap(&0xA5), 0x5A);
    assert!(!cpu.get_flag_z() && !cpu.get_flag_c());
    assert_eq!(cpu.swap(&0x00), 0x00);
    assert!(cpu.get_flag_z());
    assert_eq!(cpu.swap(&0xF0), 0x0F);
}

#[test]
fn push_then_pop_gives_the_value_back() {
    let mut cpu = CPU::new();
    let mut mmu = MMU::new();
    cpu.set_sp(0xD000);
    cpu.set_pc(0xABCD);
    cpu.push_stack(&mut mmu);
    assert_eq!(cpu.get_sp(), 0xCFFE);
    assert_eq!(mmu.read_byte(0xCFFF), 0xAB);
    assert_eq!(mmu.read_byte(0xCFFE), 0xCD);
    let v = cpu.pop_stack(&mut mmu);
    assert_eq!(v, 0xABCD);
    assert_eq!(cpu.get_sp(), 0xD000);
}

#[test]
fn push_wraps_the_stack_pointer() {
    let mut cpu = CPU::new();
    let mut mmu = MMU::new();
    cpu.set_sp(0x0001);
    cpu.set_pc(0x1234);
    cpu.push_stack(&mut mmu);
    assert_eq!(cpu.get_sp(), 0xFFFF);
    assert_eq!(mmu.read_byte(0x0000), 0x12);
    assert_eq!(mmu.read_byte(0xFFFF), 0x34);
}

#[test]
fn push_into_the_divider_does_not_round_trip() {
    let mut cpu = CPU::new();
    let mut mmu = MMU::new();
    cpu.set_sp(0xFF05);
    cpu.set_pc(0x7711);
    cpu.push_stack(&mut mmu);
    assert_eq!(cpu.get_sp(), 0xFF03);
    assert_eq!(mmu.read_byte(0xFF04), 0x00);
    assert_ne!(cpu.pop_stack(&mut mmu), 0x7711);
}

#[test]
fn conditional_jump_cycles() {
    let (mut cpu, mut mmu) = cpu_with_a(0);
    cpu.set_pc(0x100);
    cpu.set_flag_z(false);
    assert_eq!(executer(&mut cpu, &Instruction::Jpcc(0x1234, 1), &mut mmu), 3);
    assert_eq!(cpu.get_pc(), 0x103);
    assert_eq!(executer(&mut cpu, &Instruction::Jpcc(0x1234, 0), &mut mmu), 4);
    assert_eq!(cpu.get_pc(), 0x1234);
    cpu.set_flag_c(true);
    assert_eq!(executer(&mut cpu, &Instruction::Jpcc(0x2000, 2), &mut mmu), 3);
    assert_eq!(executer(&mut cpu, &Instruction::Jpcc(0x2000, 3), &mut mmu), 4);
    assert_eq!(cpu.get_pc(), 0x2000);
}

#[test]
fn conditional_relative_jump_cycles() {
    let (mut cpu, mut mmu) = cpu_with_a(0);
    cpu.set_pc(0x100);
    cpu.set_flag_z(true);
    assert_eq!(executer(&mut cpu, &Instruction::Jrcc(5, 0), &mut mmu), 2);
    assert_eq!(cpu.get_pc(), 0x102);
    assert_eq!(executer(&mut cpu, &Instruction::Jrcc(-4, 1), &mut mmu), 3);
    assert_eq!(cpu.get_pc(), 0x100);
    assert_eq!(executer(&mut cpu, &Instruction::JrN(-2), &mut mmu), 3);
    assert_eq!(cpu.get_pc(), 0x100);
}

#[test]
fn conditional_call_cycles() {
    let (mut cpu, mut mmu) = cpu_with_a(0);
    cpu.set_pc(0x200);
    cpu.set_sp(0xD000);
    cpu.set_flag_z(true);
    assert_eq!(executer(&mut cpu, &Instruction::Callcc(0x4000, 0), &mut mmu), 3);
    assert_eq!(cpu.get_pc(), 0x203);
    assert_eq!(cpu.get_sp(), 0xD000);
    assert_eq!(executer(&mut cpu, &Instruction::Callcc(0x4000, 1), &mut mmu), 6);
    assert_eq!(cpu.get_pc(), 0x4000);
    assert_eq!(cpu.get_sp(), 0xCFFE);
    assert_eq!(mmu.read_byte(0xCFFF), 0x02);
    assert_eq!(mmu.read_byte(0xCFFE), 0x06);
}

#[test]
fn conditional_return_cycles() {
    let (mut cpu, mut mmu) = cpu_with_a(0);
    cpu.set_pc(0x200);
    cpu.set_sp(0xD000);
    assert_eq!(executer(&mut cpu, &Instruction::Callnn(0x4000), &mut mmu), 6);
    cpu.set_flag_c(false);
    assert_eq!(executer(&mut cpu, &Instruction::Retcc(3), &mut mmu), 2);
    assert_eq!(cpu.get_pc(), 0x4001);
    assert_eq!(executer(&mut cpu, &Instruction::Retcc(2), &mut mmu), 5);
    assert_eq!(cpu.get_pc(), 0x203);
    assert_eq!(cpu.get_sp(), 0xD000);
}

#[test]
fn restart_calls_its_vector() {
    let (mut cpu, mut mmu) = cpu_with_a(0);
    cpu.set_pc(0x300);
    cpu.set_sp(0xD000);
    assert_eq!(executer(&mut cpu, &Instruction::Rst(0x28), &mut mmu), 4);
    assert_eq!(cpu.get_pc(), 0x28);
    assert_eq!(executer(&mut cpu, &Instruction::Ret, &mut mmu), 4);
    assert_eq!(cpu.get_pc(), 0x301);
}

#[test]
fn compare_leaves_the_accumulator() {
    let (mut cpu, mut mmu) = cpu_with_a(0x42);
    assert_eq!(executer(&mut cpu, &Instruction::Cp(0x42), &mut mmu), 1);
    assert_eq!(cpu.get_a(), 0x42);
    assert!(cpu.get_flag_z() && cpu.get_flag_n());
    assert_eq!(executer(&mut cpu, &Instruction::CpD8(0x43), &mut mmu), 2);
    assert_eq!(cpu.get_a(), 0x42);
    assert!(!cpu.get_flag_z() && cpu.get_flag_c());
}

#[test]
fn add_to_hl_uses_bits_eleven_and_fifteen() {
    let (mut cpu, mut mmu) = cpu_with_a(0);
    cpu.set_hl(0x0FFF);
    cpu.set_flag_z(true);
    assert_eq!(executer(&mut cpu, &Instruction::AddHlN(0x0001), &mut mmu), 2);
    assert_eq!(cpu.get_hl(), 0x1000);
    assert!(cpu.get_flag_z() && !cpu.get_flag_n() && cpu.get_flag_h() && !cpu.get_flag_c());
    cpu.set_hl(0x8000);
    executer(&mut cpu, &Instruction::AddHlN(0x8000), &mut mmu);
    assert_eq!(cpu.get_hl(), 0x0000);
    assert!(cpu.get_flag_z() && !cpu.get_flag_h() && cpu.get_flag_c());
    cpu.set_hl(0x00FF);
    executer(&mut cpu, &Instruction::AddHlN(0x0001), &mut mmu);
    assert!(!cpu.get_flag_h() && !cpu.get_flag_c());
}

#[test]
fn load_hl_from_sp_plus_offset_takes_flags_from_the_low_byte() {
    let (mut cpu, mut mmu) = cpu_with_a(0);
    cpu.set_sp(0xFFF8);
    cpu.set_flag_z(true);
    assert_eq!(executer(&mut cpu, &Instruction::LdHlSp(2), &mut mmu), 3);
    assert_eq!(cpu.get_hl(), 0xFFFA);
    assert!(!cpu.get_flag_z() && !cpu.get_flag_n() && !cpu.get_flag_h() && !cpu.get_flag_c());
    cpu.set_sp(0x00FF);
    executer(&mut cpu, &Instruction::LdHlSp(1), &mut mmu);
    assert_eq!(cpu.get_hl(), 0x0100);
    assert!(cpu.get_flag_h() && cpu.get_flag_c());
    cpu.set_sp(0x0001);
    executer(&mut cpu, &Instruction::LdHlSp(-1), &mut mmu);
    assert_eq!(cpu.get_hl(), 0x0000);
    assert!(cpu.get_flag_h() && cpu.get_flag_c());
    cpu.set_sp(0x0000);
    executer(&mut cpu, &Instruction::LdHlSp(-1), &mut mmu);
    assert_eq!(cpu.get_hl(), 0xFFFF);
    assert!(!cpu.get_flag_h() && !cpu.get_flag_c());
    assert_eq!(cpu.get_sp(), 0x0000);
    assert_eq!(executer(&mut cpu, &Instruction::AddSpN(-1), &mut mmu), 4);
    assert_eq!(cpu.get_sp(), 0xFFFF);
}

#[test]
fn decimal_adjust_after_add_and_subtract() {
    let (mut cpu, mut mmu) = cpu_with_a(0x45);
    let r = cpu.alu_add(&0x38, false);
    executer(&mut cpu, &Instruction::LdAd8(r), &mut mmu);
    assert_eq!(cpu.get_a(), 0x7D);
    assert_eq!(executer(&mut cpu, &Instruction::Daa, &mut mmu), 1);
    assert_eq!(cpu.get_a(), 0x83);
    assert!(!cpu.get_flag_c() && !cpu.get_flag_h());
    let (mut cpu, mut mmu) = cpu_with_a(0x99);
    let r = cpu.alu_add(&0x01, false);
    executer(&mut cpu, &Instruction::LdAd8(r), &mut mmu);
    executer(&mut cpu, &Instruction::Daa, &mut mmu);
    assert_eq!(cpu.get_a(), 0x00);
    assert!(cpu.get_flag_z() && cpu.get_flag_c());
    let (mut cpu, mut mmu) = cpu_with_a(0x83);
    let r = cpu.alu_sub(&0x38, false);
    executer(&mut cpu, &Instruction::LdAd8(r), &mut mmu);
    executer(&mut cpu, &Instruction::Daa, &mut mmu);
    assert_eq!(cpu.get_a(), 0x45);
    assert!(cpu.get_flag_n());
}

#[test]
fn short_rotates_clear_zero() {
    let (mut cpu, mut mmu) = cpu_with_a(0);
    cpu.set_flag_z(true);
    assert_eq!(executer(&mut cpu, &Instruction::Rlca(0x80), &mut mmu), 1);
    assert_eq!(cpu.get_a(), 0x01);
    assert!(!cpu.get_flag_z() && cpu.get_flag_c());
    executer(&mut cpu, &Instruction::Rla(0x00), &mut mmu);
    assert_eq!(cpu.get_a(), 0x01);
    assert!(!cpu.get_flag_z() && !cpu.get_flag_c());
    executer(&mut cpu, &Instruction::Rrca(0x01), &mut mmu);
    assert_eq!(cpu.get_a(), 0x80);
    assert!(cpu.get_flag_c());
    executer(&mut cpu, &Instruction::Rra(0x02), &mut mmu);
    assert_eq!(cpu.get_a(), 0x81);
    assert!(!cpu.get_flag_c());
}

#[test]
fn long_rotates_and_shifts_set_zero() {
    let (mut cpu, mut mmu) = cpu_with_a(0);
    assert_eq!(executer(&mut cpu, &Instruction::SlaN(1, 0x80), &mut mmu), 2);
    assert_eq!(cpu.get_b(), 0x00);
    assert!(cpu.get_flag_z() && cpu.get_flag_c());
    executer(&mut cpu, &Instruction::SraN(2, 0x81), &mut mmu);
    assert_eq!(cpu.get_c(), 0xC0);
    assert!(!cpu.get_flag_z() && cpu.get_flag_c());
    executer(&mut cpu, &Instruction::SrlN(3, 0x81), &mut mmu);
    assert_eq!(cpu.get_d(), 0x40);
    executer(&mut cpu, &Instruction::RlcN(4, 0x85), &mut mmu);
    assert_eq!(cpu.get_e(), 0x0B);
    cpu.set_flag_c(false);
    executer(&mut cpu, &Instruction::RlN(5, 0x80), &mut mmu);
    assert_eq!(cpu.get_h(), 0x00);
    assert!(cpu.get_flag_z() && cpu.get_flag_c());
    executer(&mut cpu, &Instruction::RrN(6, 0x00), &mut mmu);
    assert_eq!(cpu.get_l(), 0x80);
    executer(&mut cpu, &Instruction::RrcN(0, 0x01), &mut mmu);
    assert_eq!(cpu.get_a(), 0x80);
    cpu.set_hl(0xC000);
    assert_eq!(executer(&mut cpu, &Instruction::SrlN(7, 0xFF), &mut mmu), 4);
    assert_eq!(mmu.read_byte(0xC000), 0x7F);
}

#[test]
fn bit_test_set_and_reset() {
    let (mut cpu, mut mmu) = cpu_with_a(0);
    cpu.set_flag_c(true);
    assert_eq!(executer(&mut cpu, &Instruction::BitbR(0x80, 0x7F), &mut mmu), 2);
    assert!(cpu.get_flag_z() && !cpu.get_flag_n() && cpu.get_flag_h() && cpu.get_flag_c());
    executer(&mut cpu, &Instruction::BitbR(0x01, 0x01), &mut mmu);
    assert!(!cpu.get_flag_z());
    let flags = cpu.get_af() & 0xFF;
    assert_eq!(executer(&mut cpu, &Instruction::SetbR(0x10, 0x01, 1), &mut mmu), 2);
    assert_eq!(cpu.get_b(), 0x11);
    executer(&mut cpu, &Instruction::ResbR(0x01, 0x11, 1), &mut mmu);
    assert_eq!(cpu.get_b(), 0x10);
    cpu.set_hl(0xC123);
    assert_eq!(executer(&mut cpu, &Instruction::ResbR(0x80, 0xFF, 7), &mut mmu), 4);
    assert_eq!(mmu.read_byte(0xC123), 0x7F);
    assert_eq!(cpu.get_af() & 0xFF, flags);
}

#[test]
fn pop_af_keeps_the_low_flag_bits_clear() {
    let (mut cpu, mut mmu) = cpu_with_a(0);
    cpu.set_sp(0xD000);
    executer(&mut cpu, &Instruction::Pushnn(0x12FF), &mut mmu);
    assert_eq!(executer(&mut cpu, &Instruction::Popnn(0), &mut mmu), 3);
    assert_eq!(cpu.get_af(), 0x12F0);
    executer(&mut cpu, &Instruction::Pushnn(0xBEEF), &mut mmu);
    executer(&mut cpu, &Instruction::Popnn(2), &mut mmu);
    assert_eq!(cpu.get_de(), 0xBEEF);
}

#[test]
fn increment_and_decrement_keep_carry() {
    let (mut cpu, mut mmu) = cpu_with_a(0x0F);
    cpu.set_flag_c(true);
    assert_eq!(executer(&mut cpu, &Instruction::IncN(0, 0x0F), &mut mmu), 1);
    assert_eq!(cpu.get_a(), 0x10);
    assert!(cpu.get_flag_h() && cpu.get_flag_c() && !cpu.get_flag_n());
    executer(&mut cpu, &Instruction::DecN(0, 0x10), &mut mmu);
    assert_eq!(cpu.get_a(), 0x0F);
    assert!(cpu.get_flag_h() && cpu.get_flag_c() && cpu.get_flag_n());
    cpu.set_hl(0xC000);
    mmu.write_byte(0xC000, 0xFF);
    assert_eq!(executer(&mut cpu, &Instruction::IncHl(0xC000), &mut mmu), 3);
    assert_eq!(mmu.read_byte(0xC000), 0x00);
    assert!(cpu.get_flag_z());
    assert_eq!(executer(&mut cpu, &Instruction::IncNN(0, 0xFFFF), &mut mmu), 2);
    assert_eq!(cpu.get_bc(), 0x0000);
    assert!(cpu.get_flag_z());
}

#[test]
fn stop_is_two_bytes_long() {
    let (mut cpu, mut mmu) = cpu_with_a(0);
    cpu.set_pc(0x10);
    assert_eq!(executer(&mut cpu, &Instruction::Stop, &mut mmu), 1);
    assert_eq!(cpu.get_pc(), 0x12);
}

#[test]
fn high_page_loads_and_stores() {
    let (mut cpu, mut mmu) = cpu_with_a(0x5A);
    assert_eq!(executer(&mut cpu, &Instruction::LdHnA(0x80), &mut mmu), 3);
    assert_eq!(mmu.read_byte(0xFF80), 0x5A);
    executer(&mut cpu, &Instruction::LdAd8(0), &mut mmu);
    assert_eq!(executer(&mut cpu, &Instruction::LdHAn(0x80), &mut mmu), 3);
    assert_eq!(cpu.get_a(), 0x5A);
    executer(&mut cpu, &Instruction::LdN(1, 0x90), &mut mmu);
    assert_eq!(cpu.get_c(), 0x90);
    assert_eq!(executer(&mut cpu, &Instruction::LdCa(0x77), &mut mmu), 2);
    assert_eq!(mmu.read_byte(0xFF90), 0x77);
    assert_eq!(executer(&mut cpu, &Instruction::LdAc(0x90), &mut mmu), 2);
    assert_eq!(cpu.get_a(), 0x77);
}

#[test]
fn decoder_reads_registers_and_immediates() {
    let (mut cpu, mut mmu) = cpu_with_a(0x11);
    cpu.set_hl(0xC010);
    mmu.write_byte(0xC010, 0x99);
    assert_eq!(decoder(&mut cpu, &mmu, 0x00, 0, 0), Instruction::Nop);
    assert_eq!(decoder(&mut cpu, &mmu, 0x3E, 0x05, 0x3C05), Instruction::LdAd8(0x05));
    assert_eq!(decoder(&mut cpu, &mmu, 0x3C, 0, 0), Instruction::IncN(0, 0x11));
    assert_eq!(decoder(&mut cpu, &mmu, 0x76, 0, 0), Instruction::Halt);
    assert_eq!(decoder(&mut cpu, &mmu, 0x7E, 0, 0), Instruction::LdAR2(1, 0x99));
    assert_eq!(decoder(&mut cpu, &mmu, 0x46, 0, 0), Instruction::LdBR2(0x99, true));
    assert_eq!(decoder(&mut cpu, &mmu, 0x47, 0, 0), Instruction::LdnA(0, 0x11));
    assert_eq!(decoder(&mut cpu, &mmu, 0x86, 0, 0), Instruction::AddHl(0x99));
    assert_eq!(decoder(&mut cpu, &mmu, 0xBF, 0, 0), Instruction::Cp(0x11));
    assert_eq!(decoder(&mut cpu, &mmu, 0xC3, 0x34, 0x1234), Instruction::Jpnn(0x1234));
    assert_eq!(decoder(&mut cpu, &mmu, 0x20, 0xFE, 0x00FE), Instruction::Jrcc(-2, 0));
    assert_eq!(decoder(&mut cpu, &mmu, 0xF8, 0x80, 0x0080), Instruction::LdHlSp(-128));
    assert_eq!(decoder(&mut cpu, &mmu, 0xE5, 0, 0), Instruction::Pushnn(0xC010));
    assert_eq!(decoder(&mut cpu, &mmu, 0xF1, 0, 0), Instruction::Popnn(0));
    assert_eq!(decoder(&mut cpu, &mmu, 0xFF, 0, 0), Instruction::Rst(0x38));
    assert_eq!(decoder(&mut cpu, &mmu, 0x36, 0x42, 0), Instruction::LdHlR2(0x42, true));
    assert_eq!(decoder(&mut cpu, &mmu, 0xCB, 0x37, 0), Instruction::SwapN(0, 0x11));
    assert_eq!(decoder(&mut cpu, &mmu, 0xCB, 0x7E, 0), Instruction::BitbHl(0x80, 0x99));
}

#[test]
fn second_table_decodes_by_fields() {
    let (mut cpu, mut mmu) = cpu_with_a(0x11);
    cpu.set_hl(0xC010);
    mmu.write_byte(0xC010, 0x99);
    executer(&mut cpu, &Instruction::LdN(0, 0x22), &mut mmu);
    assert_eq!(cb_decoder(&mut cpu, 0x00, &mmu), Instruction::RlcN(1, 0x22));
    assert_eq!(cb_decoder(&mut cpu, 0x0F, &mmu), Instruction::RrcN(0, 0x11));
    assert_eq!(cb_decoder(&mut cpu, 0x16, &mmu), Instruction::RlN(7, 0x99));
    assert_eq!(cb_decoder(&mut cpu, 0x36, &mmu), Instruction::SwapHl(0x99));
    assert_eq!(cb_decoder(&mut cpu, 0x40, &mmu), Instruction::BitbR(0x01, 0x22));
    assert_eq!(cb_decoder(&mut cpu, 0x86, &mmu), Instruction::ResbR(0x01, 0x99, 7));
    assert_eq!(cb_decoder(&mut cpu, 0xFF, &mmu), Instruction::SetbR(0x80, 0x11, 0));
}

#[test]
fn eleven_opcodes_are_undefined() {
    let undefined = [0xD3u8, 0xDB, 0xDD, 0xE3, 0xE4, 0xEB, 0xEC, 0xED, 0xF4, 0xFC, 0xFD];
    let mut count = 0;
    for byte in 0..=255u8 {
        if !is_defined_opcode(byte) {
            assert!(undefined.contains(&byte));
            count += 1;
        }
    }
    assert_eq!(count, 11);
    let cpu = CPU::new();
    let mut mmu = MMU::new();
    mmu.write_byte(0, 0xD3);
    assert!(!cpu.can_step(&mmu));
    mmu.write_byte(0, 0x00);
    assert!(cpu.can_step(&mmu));
}

#[test]
fn bytes_are_read_as_signed() {
    assert_eq!(to_signed(0x00), 0);
    assert_eq!(to_signed(0x7F), 127);
    assert_eq!(to_signed(0x80), -128);
    assert_eq!(to_signed(0xFF), -1);
}

#[test]
fn enabling_interrupts_is_deferred_by_one_instruction() {
    // EI; NOP; NOP with the timer interrupt enabled and requested.
    let (mut cpu, mut mmu, mut dbg) = machine(&[0xFB, 0x00, 0x00]);
    cpu.set_sp(0xD000);
    mmu.write_byte(0xFFFF, 0x04);
    mmu.write_byte(0xFF0F, 0x04);
    cpu.do_cycle(&mut mmu, &mut dbg);
    assert_eq!(cpu.get_pc(), 1);
    cpu.do_cycle(&mut mmu, &mut dbg);
    assert_eq!(cpu.get_pc(), 0x50);
    assert_eq!(cpu.get_sp(), 0xCFFE);
    assert_eq!(mmu.read_byte(0xCFFF), 0x00);
    assert_eq!(mmu.read_byte(0xCFFE), 0x02);
    assert_eq!(mmu.read_byte(0xFF0F) & 0x04, 0);
}

#[test]
fn disabling_interrupts_is_immediate() {
    let (mut cpu, mut mmu, mut dbg) = machine(&[0xF3, 0x00]);
    cpu.set_ime(true);
    mmu.write_byte(0xFFFF, 0x01);
    cpu.do_cycle(&mut mmu, &mut dbg);
    mmu.write_byte(0xFF0F, 0x01);
    cpu.do_cycle(&mut mmu, &mut dbg);
    assert_eq!(cpu.get_pc(), 2);
}

#[test]
fn halt_with_a_pending_interrupt_does_not_halt() {
    let (mut cpu, mut mmu, mut dbg) = machine(&[0x76, 0x00]);
    mmu.write_byte(0xFFFF, 0x04);
    mmu.write_byte(0xFF0F, 0x04);
    cpu.do_cycle(&mut mmu, &mut dbg);
    assert!(!cpu.get_halted());
    assert_eq!(cpu.get_pc(), 1);
}

#[test]
fn halted_cpu_wakes_on_an_enabled_request_only() {
    let (mut cpu, mut mmu, mut dbg) = machine(&[0x76, 0x3C]);
    cpu.do_cycle(&mut mmu, &mut dbg);
    assert!(cpu.get_halted());
    let ticks = cpu.get_ticks();
    mmu.write_byte(0xFF0F, 0x04);
    cpu.do_cycle(&mut mmu, &mut dbg);
    assert!(cpu.get_halted());
    assert_eq!(cpu.get_ticks(), ticks + 4);
    mmu.write_byte(0xFFFF, 0x04);
    cpu.do_cycle(&mut mmu, &mut dbg);
    assert!(!cpu.get_halted());
    cpu.do_cycle(&mut mmu, &mut dbg);
    assert_eq!(cpu.get_a(), 1);
}

#[test]
fn lower_numbered_interrupt_is_served_first() {
    let (mut cpu, mut mmu, mut dbg) = machine(&[0x00]);
    cpu.set_sp(0xD000);
    cpu.set_ime(true);
    mmu.write_byte(0xFFFF, 0x1F);
    mmu.write_byte(0xFF0F, 0x14);
    cpu.do_cycle(&mut mmu, &mut dbg);
    assert_eq!(cpu.get_pc(), 0x50);
    assert_eq!(mmu.read_byte(0xFF0F), 0x10);
}

#[test]
fn every_defined_opcode_runs() {
    for opcode in 0..=255u8 {
        if !is_defined_opcode(opcode) {
            continue;
        }
        for second in [0x00u8, 0x36, 0x7E, 0x86, 0xC6, 0xFF] {
            let mut cpu = CPU::default();
            let mut mmu = MMU::new();
            cpu.set_pc(0xC000);
            cpu.set_sp(0xD000);
            cpu.set_hl(0xC800);
            mmu.write_byte(0xC000, opcode);
            mmu.write_byte(0xC001, second);
            mmu.write_byte(0xC002, 0xC1);
            assert!(cpu.can_step(&mmu));
            let cycles = cpu.run_instruction(&mut mmu);
            assert!((1..=6).contains(&cycles), "opcode {:#04X}", opcode);
            assert_eq!(cpu.get_af() & 0x000F, 0, "opcode {:#04X}", opcode);
        }
    }
}

#[test]
fn every_second_table_opcode_takes_two_or_four_cycles() {
    for opcode in 0..=255u8 {
        let mut cpu = CPU::default();
        let mut mmu = MMU::new();
        cpu.set_pc(0xC000);
        cpu.set_hl(0xC800);
        mmu.write_byte(0xC000, 0xCB);
        mmu.write_byte(0xC001, opcode);
        let cycles = cpu.run_instruction(&mut mmu);
        let on_memory = opcode & 7 == 6;
        assert_eq!(cycles, if on_memory { 4 } else { 2 }, "opcode {:#04X}", opcode);
        assert_eq!(cpu.get_pc(), 0xC002);
        assert_eq!(cpu.get_af() & 0x000F, 0);
    }
}

#[test]
fn push_then_pop_round_trips_all_over_work_memory() {
    for sp in (0xC002..=0xDFFFu16).step_by(97) {
        for value in [0x0000u16, 0x00FF, 0xFF00, 0x1234, 0xFFFF] {
            let mut cpu = CPU::new();
            let mut mmu = MMU::new();
            cpu.set_sp(sp);
            cpu.set_pc(value);
            cpu.push_stack(&mut mmu);
            assert_eq!(cpu.get_sp(), sp - 2);
            assert_eq!(mmu.read_byte(sp - 1), (value >> 8) as u8);
            assert_eq!(mmu.read_byte(sp - 2), value as u8);
            assert_eq!(cpu.pop_stack(&mut mmu), value);
            assert_eq!(cpu.get_sp(), sp);
        }
    }
}

#[test]
fn program_counter_wraps() {
    let mut cpu = CPU::new();
    let mut mmu = MMU::new();
    cpu.set_pc(0xFFFE);
    // 0xFFFE holds 0x00 (no operation); 0xFFFF is the interrupt enable register.
    assert_eq!(cpu.run_instruction(&mut mmu), 1);
    assert_eq!(cpu.get_pc(), 0xFFFF);
    assert_eq!(cpu.run_instruction(&mut mmu), 1);
    assert_eq!(cpu.get_pc(), 0x0000);
}
