use gameboy_core::cpu::CPU;
use gameboy_core::dbg::DBG;
use gameboy_core::joypad::{JoyPad, JoypadButtons};
use gameboy_core::mmu::dma::OamDma;
use gameboy_core::mmu::interrupts::{InterruptType, Interrupts};
use gameboy_core::mmu::serial::Serial;
use gameboy_core::mmu::{DmaTransfer, MMU};
use gameboy_core::timer::Timer;

#[test]
fn timer_overflow_raises_its_interrupt_one_tick_late() {
    let mut timer = Timer::default();
    let mut interrupts = Interrupts::default();
    timer.write_modulo(0x42);
    timer.write_control(0x05);
    timer.write_div();
    for _ in 0..15 {
        timer.ticks(&mut interrupts);
    }
    timer.write_counter(0xFF);
    assert_eq!(timer.timer_read(0xFF05), 0xFF);
    timer.ticks(&mut interrupts);
    assert_eq!(timer.timer_read(0xFF05), 0x00);
    assert_eq!(interrupts.read_requested() & 0x04, 0);
    timer.ticks(&mut interrupts);
    assert_eq!(interrupts.read_requested() & 0x04, 0x04);
    assert_eq!(timer.timer_read(0xFF05), 0x42);
}

#[test]
fn timer_counts_every_sixteen_ticks_at_the_fastest_rate() {
    let mut timer = Timer::default();
    let mut interrupts = Interrupts::default();
    timer.write_control(0x05);
    timer.write_div();
    timer.write_counter(0);
    for _ in 0..15 {
        timer.ticks(&mut interrupts);
    }
    assert_eq!(timer.timer_read(0xFF05), 0);
    timer.ticks(&mut interrupts);
    assert_eq!(timer.timer_read(0xFF05), 1);
    for _ in 0..32 {
        timer.ticks(&mut interrupts);
    }
    assert_eq!(timer.timer_read(0xFF05), 3);
}

#[test]
fn timer_rates_select_divider_bits() {
    for (control, period) in [(0x04u8, 1024u32), (0x05, 16), (0x06, 64), (0x07, 256)] {
        let mut timer = Timer::default();
        let mut interrupts = Interrupts::default();
        timer.write_control(control);
        timer.write_div();
        timer.write_counter(0);
        for _ in 0..period - 1 {
            timer.ticks(&mut interrupts);
        }
        assert_eq!(timer.timer_read(0xFF05), 0);
        timer.ticks(&mut interrupts);
        assert_eq!(timer.timer_read(0xFF05), 1);
    }
}

#[test]
fn stopped_timer_does_not_count() {
    let mut timer = Timer::default();
    let mut interrupts = Interrupts::default();
    timer.write_control(0x01);
    timer.write_div();
    timer.write_counter(0);
    for _ in 0..64 {
        timer.ticks(&mut interrupts);
    }
    assert_eq!(timer.timer_read(0xFF05), 0);
    assert_eq!(timer.timer_read(0xFF07), 0x01);
}

#[test]
fn divider_reads_zero_after_any_write() {
    let mut timer = Timer::default();
    assert_eq!(timer.timer_read(0xFF04), 0xAB);
    timer.write_div();
    assert_eq!(timer.timer_read(0xFF04), 0x00);
    let mut mmu = MMU::new();
    assert_eq!(mmu.read_byte(0xFF04), 0xAB);
    for value in [0x00u8, 0x01, 0x7F, 0xFF] {
        for _ in 0..300 {
            mmu.tick();
        }
        mmu.write_byte(0xFF04, value);
        assert_eq!(mmu.read_byte(0xFF04), 0x00);
    }
}

#[test]
fn divider_write_advances_even_a_stopped_counter() {
    let mut timer = Timer::default();
    timer.write_control(0x01);
    timer.write_counter(5);
    // The divider starts at 0xABCC, where bit 3 is set.
    timer.write_div();
    assert_eq!(timer.timer_read(0xFF05), 6);
}

#[test]
fn divider_counts_up_every_256_ticks() {
    let mut timer = Timer::default();
    let mut interrupts = Interrupts::default();
    timer.write_div();
    for _ in 0..255 {
        timer.ticks(&mut interrupts);
    }
    assert_eq!(timer.timer_read(0xFF04), 0);
    timer.ticks(&mut interrupts);
    assert_eq!(timer.timer_read(0xFF04), 1);
}

#[test]
fn divider_write_can_advance_the_counter() {
    let mut timer = Timer::default();
    let mut interrupts = Interrupts::default();
    timer.write_control(0x05);
    timer.write_div();
    timer.write_counter(7);
    for _ in 0..8 {
        timer.ticks(&mut interrupts);
    }
    // Bit 3 of the divider is set now, so the reset makes it fall.
    timer.write_div();
    assert_eq!(timer.timer_read(0xFF05), 8);
    timer.write_div();
    assert_eq!(timer.timer_read(0xFF05), 8);
}

#[test]
fn control_write_can_advance_the_counter() {
    let mut timer = Timer::default();
    let mut interrupts = Interrupts::default();
    timer.write_control(0x05);
    timer.write_div();
    timer.write_counter(0);
    for _ in 0..8 {
        timer.ticks(&mut interrupts);
    }
    timer.write_control(0x01);
    assert_eq!(timer.timer_read(0xFF05), 1);
    assert_eq!(timer.timer_read(0xFF07), 0x01);
    timer.write_control(0xFF);
    assert_eq!(timer.timer_read(0xFF07), 0xE7);
}

#[test]
fn counter_write_during_reload_is_replaced_by_the_modulo() {
    let mut timer = Timer::default();
    let mut interrupts = Interrupts::default();
    timer.write_modulo(0x20);
    timer.write_control(0x05);
    timer.write_div();
    timer.write_counter(0xFF);
    for _ in 0..16 {
        timer.ticks(&mut interrupts);
    }
    assert_eq!(timer.timer_read(0xFF05), 0x00);
    timer.ticks(&mut interrupts);
    timer.write_counter(0x99);
    assert_eq!(timer.timer_read(0xFF05), 0x20);
    timer.write_modulo(0x30);
    assert_eq!(timer.timer_read(0xFF05), 0x30);
    assert_eq!(timer.timer_read(0xFF06), 0x30);
    timer.ticks(&mut interrupts);
    timer.write_counter(0x99);
    assert_eq!(timer.timer_read(0xFF05), 0x99);
}

#[test]
fn counter_write_before_the_deferred_tick_cancels_the_interrupt() {
    let mut timer = Timer::default();
    let mut interrupts = Interrupts::default();
    timer.write_modulo(0x20);
    timer.write_control(0x05);
    timer.write_div();
    timer.write_counter(0xFF);
    for _ in 0..16 {
        timer.ticks(&mut interrupts);
    }
    timer.write_counter(0x55);
    timer.ticks(&mut interrupts);
    assert_eq!(interrupts.read_requested(), 0);
    assert_eq!(timer.timer_read(0xFF05), 0x55);
}

#[test]
fn interrupt_vectors() {
    let mut interrupts = Interrupts::default();
    assert_eq!(interrupts.interrupt_addresses(InterruptType::Vblank), 0x40);
    assert_eq!(interrupts.interrupt_addresses(InterruptType::LcdStat), 0x48);
    assert_eq!(interrupts.interrupt_addresses(InterruptType::Timer), 0x50);
    assert_eq!(interrupts.interrupt_addresses(InterruptType::Serial), 0x58);
    assert_eq!(interrupts.interrupt_addresses(InterruptType::Joypad), 0x60);
}

#[test]
fn interrupt_sources_by_position() {
    assert_eq!(InterruptType::try_from(0), Ok(InterruptType::Vblank));
    assert_eq!(InterruptType::try_from(1), Ok(InterruptType::LcdStat));
    assert_eq!(InterruptType::try_from(2), Ok(InterruptType::Timer));
    assert_eq!(InterruptType::try_from(3), Ok(InterruptType::Serial));
    assert_eq!(InterruptType::try_from(4), Ok(InterruptType::Joypad));
    assert_eq!(InterruptType::try_from(5), Err(()));
    assert_eq!(InterruptType::try_from(255), Err(()));
}

#[test]
fn peek_does_not_change_anything() {
    let mut interrupts = Interrupts::default();
    interrupts.write_enabled(0x1F);
    interrupts.request_interrupt(InterruptType::Serial);
    interrupts.request_interrupt(InterruptType::LcdStat);
    assert_eq!(interrupts.peek_highest_interrupt(), Some(InterruptType::LcdStat));
    assert_eq!(interrupts.peek_highest_interrupt(), Some(InterruptType::LcdStat));
    assert_eq!(interrupts.read_requested(), 0x0A);
    assert!(interrupts.int_check(InterruptType::Serial));
    assert!(!interrupts.int_check(InterruptType::Timer));
}

#[test]
fn consume_clears_request_halt_and_master_enable() {
    let mut interrupts = Interrupts::default();
    let mut cpu = CPU::new();
    cpu.set_halted(true);
    cpu.set_ime(true);
    interrupts.write_enabled(0x1F);
    interrupts.request_interrupt(InterruptType::Joypad);
    interrupts.request_interrupt(InterruptType::Timer);
    assert_eq!(interrupts.get_highest_interrupt(&mut cpu), Some(InterruptType::Timer));
    assert_eq!(interrupts.read_requested(), 0x10);
    assert!(!cpu.get_halted());
    assert_eq!(interrupts.get_highest_interrupt(&mut cpu), Some(InterruptType::Joypad));
    assert_eq!(interrupts.get_highest_interrupt(&mut cpu), None);
    assert_eq!(interrupts.read_requested(), 0x00);
}

#[test]
fn disabled_source_is_not_pending() {
    let mut interrupts = Interrupts::default();
    let mut cpu = CPU::new();
    cpu.set_halted(true);
    interrupts.write_enabled(0x02);
    interrupts.write_requested(0x05);
    assert_eq!(interrupts.peek_highest_interrupt(), None);
    assert!(!interrupts.int_check_remove(InterruptType::Vblank, &mut cpu));
    assert!(cpu.get_halted());
    assert_eq!(interrupts.read_requested(), 0x05);
    assert_eq!(interrupts.read_enable(), 0x02);
}

#[test]
fn serial_control_keeps_three_bits() {
    let mut serial = Serial::new();
    assert_eq!(serial.get_data(), 0);
    assert_eq!(serial.get_control(), 0);
    serial.write_data(0x41);
    serial.write_control(0xFF);
    assert_eq!(serial.get_data(), 0x41);
    assert_eq!(serial.get_control(), 0x83);
    serial.write_control(0x81);
    assert_eq!(serial.get_control(), 0x81);
}

#[test]
fn joypad_register_reads() {
    let mut pad = JoyPad::default();
    assert!(pad.button_select() && pad.direction_select());
    assert_eq!(pad.read_joypad(), 0xCF);
    pad.release_joypad(JoypadButtons::Start);
    pad.release_joypad(JoypadButtons::A);
    pad.release_joypad(JoypadButtons::Right);
    pad.write_joypad(0x20);
    assert!(!pad.button_select() && pad.direction_select());
    assert_eq!(pad.read_joypad(), 0xCF & (!0x91u8 >> 4));
    assert_eq!(pad.read_joypad(), 0x06);
    pad.write_joypad(0x10);
    assert!(pad.button_select() && !pad.direction_select());
    assert_eq!(pad.read_joypad(), 0xCF & !0x91u8);
    assert_eq!(pad.read_joypad(), 0x4E);
    pad.press_joypad(JoypadButtons::Right);
    assert_eq!(pad.read_joypad(), 0x4F);
    pad.write_joypad(0x30);
    assert_eq!(pad.read_joypad(), 0x06);
    pad.write_joypad(0x00);
    assert_eq!(pad.read_joypad(), 0xCF);
}

#[test]
fn joypad_is_mapped_at_ff00() {
    let mut mmu = MMU::new();
    mmu.release_joypad(JoypadButtons::Down);
    mmu.write_byte(0xFF00, 0x10);
    assert_eq!(mmu.read_byte(0xFF00), 0xCF & !0x08u8);
    mmu.press_joypad(JoypadButtons::Down);
    assert_eq!(mmu.read_byte(0xFF00), 0xCF);
}

#[test]
fn dma_register_reads_the_next_offset() {
    let mut dma = OamDma::default();
    assert!(!dma.in_transfer());
    dma.dma_start(0xC1);
    assert!(dma.in_transfer());
    assert_eq!(dma.read_register(), 0);
}

#[test]
fn dma_copies_a_page_into_oam() {
    let mut mmu = MMU::new();
    for i in 0..0xA0u16 {
        mmu.write_byte(0xC100 + i, (i as u8) ^ 0x5A);
    }
    mmu.write_byte(0xFF46, 0xC1);
    assert_eq!(mmu.read_byte(0xFE00), 0xFF);
    mmu.write_byte(0xFE00, 0x12);
    mmu.dma_tick();
    mmu.dma_tick();
    assert_eq!(mmu.read_byte(0xFF46), 0);
    mmu.dma_tick();
    assert_eq!(mmu.read_byte(0xFF46), 1);
    for _ in 0..0x9E {
        mmu.dma_tick();
    }
    assert_eq!(mmu.read_byte(0xFE00), 0xFF);
    mmu.dma_tick();
    assert_eq!(mmu.read_byte(0xFF46), 0xA0);
    for i in 0..0xA0u16 {
        assert_eq!(mmu.read_byte(0xFE00 + i), (i as u8) ^ 0x5A);
    }
    mmu.dma_tick();
    assert_eq!(mmu.read_byte(0xFF46), 0xA0);
}

#[test]
fn dma_runs_one_byte_per_machine_cycle() {
    let mut mmu = MMU::new();
    let mut cpu = CPU::new();
    mmu.write_byte(0xC000, 0x77);
    mmu.write_byte(0xFF46, 0xC0);
    cpu.cycle(&mut mmu, 3);
    assert_eq!(mmu.read_byte(0xFF46), 1);
    assert_eq!(cpu.get_ticks(), 12);
    cpu.cycle(&mut mmu, 159);
    assert_eq!(mmu.read_byte(0xFE00), 0x77);
}

#[test]
fn memory_regions_have_names() {
    let mmu = MMU::new();
    assert_eq!(mmu.mmu_section(0x0000), "ROM Bank 0 | ROM0");
    assert_eq!(mmu.mmu_section(0x3FFF), "ROM Bank 0 | ROM0");
    assert_eq!(mmu.mmu_section(0x4000), "ROM Bank 1 - Switchable | ROMX");
    assert_eq!(mmu.mmu_section(0x8000), "CHR RAM | VRAM");
    assert_eq!(mmu.mmu_section(0x9800), "BG Map 1 | VRAM");
    assert_eq!(mmu.mmu_section(0x9C00), "BG Map 2 | VRAM");
    assert_eq!(mmu.mmu_section(0xA000), "Cartridge RAM | SRAM");
    assert_eq!(mmu.mmu_section(0xC000), "RAM Bank 0 | WRAM0");
    assert_eq!(mmu.mmu_section(0xD000), "RAM Bank 1-7 - switchable - Color only | WRAMX");
    assert_eq!(mmu.mmu_section(0xE000), "Reserved - Echo RAM | ECHO");
    assert_eq!(mmu.mmu_section(0xFE00), "Object Attribute Memory | OAM");
    assert_eq!(mmu.mmu_section(0xFEA0), "Reserved - Unusable | USED");
    assert_eq!(mmu.mmu_section(0xFF00), "I/O Registers | IO Registers");
    assert_eq!(mmu.mmu_section(0xFF80), "Zero Page | HRAM");
    assert_eq!(mmu.mmu_section(0xFFFE), "Zero Page | HRAM");
    assert_eq!(mmu.mmu_section(0xFFFF), "IE Register");
}

#[test]
fn bus_routes_by_address() {
    let mut mmu = MMU::new();
    mmu.write_byte(0x8000, 0x11);
    mmu.write_byte(0x9FFF, 0x22);
    mmu.write_byte(0xC000, 0x33);
    mmu.write_byte(0xFE9F, 0x44);
    mmu.write_byte(0xFF80, 0x55);
    mmu.write_byte(0xFFFF, 0x1F);
    mmu.write_byte(0xFF0F, 0xE3);
    mmu.write_byte(0xFF01, 0x66);
    mmu.write_byte(0xFF02, 0xFF);
    mmu.write_byte(0xFF06, 0x77);
    mmu.write_byte(0xFF07, 0xFF);
    mmu.write_byte(0xFF42, 0x88);
    mmu.write_byte(0xFF10, 0x99);
    assert_eq!(mmu.read_byte(0x8000), 0x11);
    assert_eq!(mmu.read_byte(0x9FFF), 0x22);
    assert_eq!(mmu.read_byte(0xC000), 0x33);
    assert_eq!(mmu.read_byte(0xFE9F), 0x44);
    assert_eq!(mmu.read_byte(0xFF80), 0x55);
    assert_eq!(mmu.read_byte(0xFFFF), 0x1F);
    assert_eq!(mmu.read_byte(0xFF0F), 0xE3);
    assert_eq!(mmu.read_byte(0xFF01), 0x66);
    assert_eq!(mmu.read_byte(0xFF02), 0x83);
    assert_eq!(mmu.read_byte(0xFF06), 0x77);
    assert_eq!(mmu.read_byte(0xFF07), 0xE7);
    assert_eq!(mmu.read_byte(0xFF42), 0x88);
    assert_eq!(mmu.read_byte(0xFF10), 0x99);
    assert_eq!(mmu.read_io(0xFF42), 0x88);
    mmu.write_io(0xFF43, 0x12);
    assert_eq!(mmu.read_io(0xFF43), 0x12);
}

#[test]
fn rom_image_reads_back_unmodified() {
    let mut image = vec![0u8; 0x150];
    for (i, byte) in image.iter_mut().enumerate() {
        *byte = (i * 7 + 3) as u8;
    }
    let mut mmu = MMU::new();
    mmu.from_rom_file(&image);
    for (i, byte) in image.iter().enumerate() {
        assert_eq!(mmu.read_byte(i as u16), *byte);
    }
    assert_eq!(mmu.read_byte(0x150), 0);
}

#[test]
fn debug_sink_collects_lines() {
    let mut mmu = MMU::new();
    let mut dbg = DBG::default();
    let mut send = |mmu: &mut MMU, dbg: &mut DBG, byte: u8| {
        mmu.write_byte(0xFF01, byte);
        mmu.write_byte(0xFF02, 0x81);
        dbg.dbg_update(mmu);
        assert_eq!(mmu.read_byte(0xFF02), 0x00);
    };
    dbg.dbg_update(&mut mmu);
    assert_eq!(dbg.take_line(), None);
    send(&mut mmu, &mut dbg, b'\n');
    assert_eq!(dbg.take_line(), Some(b"empty".to_vec()));
    assert_eq!(dbg.take_line(), None);
    send(&mut mmu, &mut dbg, b'o');
    send(&mut mmu, &mut dbg, b'k');
    assert_eq!(dbg.take_line(), None);
    send(&mut mmu, &mut dbg, b'\n');
    assert_eq!(dbg.take_line(), Some(b"DBG: ok".to_vec()));
    send(&mut mmu, &mut dbg, b'\n');
    assert_eq!(dbg.take_line(), Some(b"DBG: ".to_vec()));
    dbg.dbg_print();
}

#[test]
fn debug_sink_ignores_other_control_values() {
    let mut mmu = MMU::new();
    let mut dbg = DBG::default();
    mmu.write_byte(0xFF01, b'x');
    mmu.write_byte(0xFF02, 0x80);
    dbg.dbg_update(&mut mmu);
    assert_eq!(mmu.read_byte(0xFF02), 0x80);
    mmu.write_byte(0xFF01, b'\n');
    mmu.write_byte(0xFF02, 0x81);
    dbg.dbg_update(&mut mmu);
    assert_eq!(dbg.take_line(), Some(b"empty".to_vec()));
}
