//! The memory bus: one 64 KiB address space, with video memory, object
//! attribute memory and the device registers routed to their owners by
//! address.
//!
//! | range             | owner                          |
//! |-------------------|--------------------------------|
//! | `0x0000..=0x7FFF` | program image                  |
//! | `0x8000..=0x9FFF` | video memory                   |
//! | `0xA000..=0xFDFF` | cartridge, work and echo memory|
//! | `0xFE00..=0xFE9F` | object attribute memory        |
//! | `0xFEA0..=0xFEFF` | unused                         |
//! | `0xFF00..=0xFF7F` | device registers               |
//! | `0xFF80..=0xFFFE` | high memory                    |
//! | `0xFFFF`          | interrupt enable register      |
use vstd::prelude::*;

pub mod dma;
pub mod interrupts;
pub mod serial;

use crate::joypad::{JoyPad, JoypadState};
use crate::ppu::{PPU, PpuState, VRAM_START, VRAM_END};
use crate::ppu::lcd::is_lcd_register;
use crate::timer::{Timer, TimerState};
use dma::{DmaState, OamDma};
use interrupts::{Interrupts, InterruptsState, InterruptType};
use crate::cpu::{CPU, CpuState};
use serial::{Serial, SerialState, SERIAL_CONTROL_MASK};

verus! {

/// Number of bytes of the address space.
pub const MEMORY_SIZE: usize = 65536;

/// First address of object attribute memory.
pub const OAM_START: u16 = 0xFE00;

/// Last address of object attribute memory.
pub const OAM_END: u16 = 0xFE9F;

/// First address of the device registers.
pub const IO_START: u16 = 0xFF00;

/// Last address of the device registers.
pub const IO_END: u16 = 0xFF7F;

/// Address of the interrupt enable register.
pub const INTERRUPT_ENABLE: u16 = 0xFFFF;

/// Address of the interrupt request register.
pub const INTERRUPT_REQUEST: u16 = 0xFF0F;

/// A unit that copies one byte per call while a block transfer runs.
pub trait DmaTransfer {
    fn dma_tick(&mut self);
}

impl DmaTransfer for MMU {
    /// One step of the block transfer into object attribute memory: after a
    /// delay of two steps, one byte is copied per step.
    fn dma_tick(&mut self)
        ensures
            final(self)@ == old(self)@.dma_tick(),
            old(self)@.wf() ==> final(self)@.wf(),
    {
        if self.oam_dma.in_transfer() {
            if self.oam_dma.start_delay > 0 {
                self.oam_dma.start_delay -= 1;
            } else if self.oam_dma.address_byte < 0xA0 {
                let offset = self.oam_dma.address_byte as u16;
                let byte = self.read_byte(self.oam_dma.value as u16 * 0x100 + offset);
                self.ppu.write_oam(0xFE00 + offset, byte);
                self.oam_dma.address_byte += 1;
                self.oam_dma.in_transfer = self.oam_dma.address_byte < 0xA0;
            } else {
                self.oam_dma.in_transfer = false;
            }
        }
    }
}

/// The mathematical model of the bus and of everything behind it.
pub ghost struct MmuState {
    pub ram: Seq<u8>,
    pub serial: SerialState,
    pub timer: TimerState,
    pub interrupts: InterruptsState,
    pub ppu: PpuState,
    pub oam_dma: DmaState,
    pub joypad: JoypadState,
}

impl MmuState {
    pub open spec fn wf(self) -> bool {
        &&& self.ram.len() == MEMORY_SIZE
        &&& self.ppu.wf()
        &&& self.oam_dma.wf()
    }

    /// What a read of the device register at `address` returns. Addresses
    /// without a device read the memory behind them.
    pub open spec fn read_io(self, address: u16) -> u8 {
        if address == 0xFF00 {
            self.joypad.read()
        } else if address == 0xFF01 {
            self.serial.data
        } else if address == 0xFF02 {
            self.serial.control
        } else if 0xFF04 <= address <= 0xFF07 {
            self.timer.read(address)
        } else if address == 0xFF46 {
            self.oam_dma.address_byte
        } else if is_lcd_register(address) {
            self.ppu.lcd.read(address)
        } else if address == INTERRUPT_REQUEST {
            self.interrupts.requested
        } else {
            self.ram[address as int]
        }
    }

    /// What a read at `address` returns. Object attribute memory reads 0xFF
    /// while a block transfer runs.
    pub open spec fn read(self, address: u16) -> u8 {
        if VRAM_START <= address <= VRAM_END {
            self.ppu.read_vram(address)
        } else if OAM_START <= address <= OAM_END {
            if self.oam_dma.in_transfer {
                0xFF
            } else {
                self.ppu.read_oam(address)
            }
        } else if IO_START <= address <= IO_END {
            self.read_io(address)
        } else if address == INTERRUPT_ENABLE {
            self.interrupts.enabled
        } else {
            self.ram[address as int]
        }
    }

    /// The bus after a write of `value` to the device register at `address`.
    pub open spec fn write_io(self, address: u16, value: u8) -> MmuState {
        if address == 0xFF00 {
            MmuState { joypad: self.joypad.write(value), ..self }
        } else if address == 0xFF01 {
            MmuState { serial: SerialState { data: value, ..self.serial }, ..self }
        } else if address == 0xFF02 {
            MmuState {
                serial: SerialState { control: value & SERIAL_CONTROL_MASK, ..self.serial },
                ..self
            }
        } else if address == 0xFF04 {
            MmuState { timer: self.timer.write_div(), ..self }
        } else if address == 0xFF05 {
            MmuState { timer: self.timer.write_counter(value), ..self }
        } else if address == 0xFF06 {
            MmuState { timer: self.timer.write_modulo(value), ..self }
        } else if address == 0xFF07 {
            MmuState { timer: self.timer.write_control(value), ..self }
        } else if address == 0xFF46 {
            MmuState { oam_dma: self.oam_dma.start(value), ..self }
        } else if is_lcd_register(address) {
            MmuState { ppu: self.ppu.write_lcd(address, value), ..self }
        } else if address == INTERRUPT_REQUEST {
            MmuState {
                interrupts: InterruptsState { requested: value, ..self.interrupts },
                ..self
            }
        } else {
            MmuState { ram: self.ram.update(address as int, value), ..self }
        }
    }

    /// The bus after a write of `value` at `address`. A write to object
    /// attribute memory is dropped while a block transfer runs.
    pub open spec fn write(self, address: u16, value: u8) -> MmuState {
        if VRAM_START <= address <= VRAM_END {
            MmuState { ppu: self.ppu.write_vram(address, value), ..self }
        } else if OAM_START <= address <= OAM_END {
            if self.oam_dma.in_transfer {
                self
            } else {
                MmuState { ppu: self.ppu.write_oam(address, value), ..self }
            }
        } else if IO_START <= address <= IO_END {
            self.write_io(address, value)
        } else if address == INTERRUPT_ENABLE {
            MmuState { interrupts: InterruptsState { enabled: value, ..self.interrupts }, ..self }
        } else {
            MmuState { ram: self.ram.update(address as int, value), ..self }
        }
    }

    /// The bus after one hardware tick: the timer advances, then the pixel
    /// pipeline; each may request interrupts.
    pub open spec fn tick(self) -> MmuState {
        let (timer, after_timer) = self.timer.tick(self.interrupts);
        let (ppu, after_ppu) = self.ppu.tick(after_timer);
        MmuState { timer, ppu, interrupts: after_ppu, ..self }
    }

    /// The bus after one step of the block transfer: nothing while no
    /// transfer runs; the delay counts down first; then the byte at the next
    /// offset of the source page goes to the same offset of object attribute
    /// memory, and the transfer ends behind the last offset.
    pub open spec fn dma_tick(self) -> MmuState {
        let dma = self.oam_dma;
        if !dma.in_transfer {
            self
        } else if dma.start_delay > 0 {
            MmuState { oam_dma: DmaState { start_delay: (dma.start_delay - 1) as u8, ..dma }, ..self }
        } else if dma.address_byte < dma::DMA_LENGTH {
            let byte = self.read((dma.value * 0x100 + dma.address_byte) as u16);
            MmuState {
                ppu: self.ppu.write_oam((OAM_START + dma.address_byte) as u16, byte),
                oam_dma: DmaState {
                    address_byte: (dma.address_byte + 1) as u8,
                    in_transfer: dma.address_byte + 1 < dma::DMA_LENGTH,
                    ..dma
                },
                ..self
            }
        } else {
            MmuState { oam_dma: DmaState { in_transfer: false, ..dma }, ..self }
        }
    }

    /// The bus after one machine cycle: four hardware ticks and one step of
    /// the block transfer.
    pub open spec fn machine_cycle(self) -> MmuState {
        self.tick().tick().tick().tick().dma_tick()
    }

    /// The bus after `n` machine cycles.
    pub open spec fn machine_cycles(self, n: nat) -> MmuState
        decreases n,
    {
        if n == 0 {
            self
        } else {
            self.machine_cycle().machine_cycles((n - 1) as nat)
        }
    }

    /// The bus after the first `count` bytes of `image` have been written, in
    /// order, to the addresses from 0 up.
    pub open spec fn load(self, image: Seq<u8>, count: nat) -> MmuState
        recommends
            count <= image.len(),
            count <= MEMORY_SIZE,
        decreases count,
    {
        if count == 0 {
            self
        } else {
            self.load(image, (count - 1) as nat).write(
                (count - 1) as u16,
                image[count - 1],
            )
        }
    }

    /// A cell at `address` gives back what was last written to it, whatever
    /// that was, and no write to another such cell changes it: all of memory
    /// and the registers that store a byte as it is; object attribute memory
    /// only while no block transfer runs.
    pub open spec fn keeps_written(self, address: u16) -> bool {
        if OAM_START <= address <= OAM_END {
            !self.oam_dma.in_transfer
        } else {
            address != 0xFF00 && address != 0xFF02 && address != 0xFF04 && address != 0xFF05
                && address != 0xFF07 && address != 0xFF41 && address != 0xFF44 && address
                != 0xFF46
        }
    }

    /// The bus at power-on.
    pub open spec fn initial() -> MmuState {
        MmuState {
            ram: Seq::new(MEMORY_SIZE as nat, |i: int| 0u8),
            serial: SerialState { data: 0, control: 0 },
            timer: TimerState::after_boot(),
            interrupts: InterruptsState { enabled: 0, requested: 0 },
            ppu: PpuState::initial(crate::ppu::lcd::LcdState::initial(0), 400).write_lcd(
                0xFF47,
                0xFC,
            ).write_lcd(0xFF48, 0xFF).write_lcd(0xFF49, 0xFF),
            oam_dma: DmaState::idle(),
            joypad: JoypadState::initial(),
        }
    }
}

/// The name of the region that `address` lies in.
pub open spec fn section_name(address: u16) -> Seq<char> {
    if address < 0x4000 {
        "ROM Bank 0 | ROM0"@
    } else if address < 0x8000 {
        "ROM Bank 1 - Switchable | ROMX"@
    } else if address < 0x9800 {
        "CHR RAM | VRAM"@
    } else if address < 0x9C00 {
        "BG Map 1 | VRAM"@
    } else if address < 0xA000 {
        "BG Map 2 | VRAM"@
    } else if address < 0xC000 {
        "Cartridge RAM | SRAM"@
    } else if address < 0xD000 {
        "RAM Bank 0 | WRAM0"@
    } else if address < 0xE000 {
        "RAM Bank 1-7 - switchable - Color only | WRAMX"@
    } else if address < 0xFE00 {
        "Reserved - Echo RAM | ECHO"@
    } else if address < 0xFEA0 {
        "Object Attribute Memory | OAM"@
    } else if address < 0xFF00 {
        "Reserved - Unusable | USED"@
    } else if address < 0xFF80 {
        "I/O Registers | IO Registers"@
    } else if address < 0xFFFF {
        "Zero Page | HRAM"@
    } else {
        "IE Register"@
    }
}

/// A write keeps a well-formed bus well-formed.
pub proof fn lemma_write_wf(s: MmuState, address: u16, value: u8)
    requires
        s.wf(),
    ensures
        s.write(address, value).wf(),
{
    crate::ppu::lemma_write_lcd_wf(s.ppu, address, value);
}

/// Whatever is written to the divider register, it reads as zero right
/// afterwards.
pub proof fn lemma_divider_write_reads_zero(s: MmuState, value: u8)
    ensures
        s.write(crate::timer::DIVIDER_REGISTER, value).read(crate::timer::DIVIDER_REGISTER) == 0,
{
    crate::timer::lemma_divider_reads_zero_after_write(s.timer);
}

/// A cell that keeps what is written reads back the value written to it.
pub proof fn lemma_read_after_write(s: MmuState, address: u16, value: u8)
    requires
        s.wf(),
        s.keeps_written(address),
    ensures
        s.write(address, value).read(address) == value,
        s.write(address, value).keeps_written(address),
{
    if OAM_START <= address <= OAM_END {
        let low = address % 256;
        assert(low < 160);
    }
}

/// A write to one cell that keeps what is written leaves every other such
/// cell as it was.
pub proof fn lemma_read_other_after_write(s: MmuState, address: u16, value: u8, other: u16)
    requires
        s.wf(),
        s.keeps_written(address),
        s.keeps_written(other),
        other != address,
    ensures
        s.write(address, value).read(other) == s.read(other),
        s.write(address, value).keeps_written(other),
{
    if OAM_START <= address <= OAM_END && OAM_START <= other <= OAM_END {
        let low = address % 256;
        let low2 = other % 256;
        assert(low < 160 && low2 < 160 && low != low2);
    }
}

impl View for OamDma {
    type V = DmaState;

    closed spec fn view(&self) -> DmaState {
        DmaState {
            address_byte: self.address_byte,
            value: self.value,
            start_delay: self.start_delay,
            in_transfer: self.in_transfer,
        }
    }
}

/// The bus.
pub struct MMU {
    ram: [u8; 65536],
    serial: Serial,
    timer: Timer,
    interrupts: Interrupts,
    ppu: PPU,
    oam_dma: OamDma,
    joypad: JoyPad,
}

impl View for MMU {
    type V = MmuState;

    closed spec fn view(&self) -> MmuState {
        MmuState {
            ram: self.ram@,
            serial: self.serial@,
            timer: self.timer@,
            interrupts: self.interrupts@,
            ppu: self.ppu@,
            oam_dma: self.oam_dma@,
            joypad: self.joypad@,
        }
    }
}

impl Default for MMU {
    fn default() -> (r: Self)
        ensures
            r@ == MmuState::initial(),
            r@.wf(),
    {
        MMU::new()
    }
}

impl MMU {
    /// The bus at power-on: memory cleared, every device in its initial state.
    pub fn new() -> (r: MMU)
        ensures
            r@ == MmuState::initial(),
            r@.wf(),
    {
        let r = MMU {
            ram: [0;65536],
            serial: Serial::new(),
            timer: Timer::default(),
            interrupts: Interrupts::default(),
            ppu: PPU::default(),
            oam_dma: OamDma::default(),
            joypad: JoyPad::default(),
        };
        proof {
            assert(r@.ram =~= MmuState::initial().ram);
        }
        r
    }

    /// Reads the byte at `address`.
    pub fn read_byte(&self, address: u16) -> (r: u8)
        ensures
            r == self@.read(address),
    {
        proof {
            if 0xFE00 <= address && address <= 0xFE9F {
                assert(address % 256 == address - 0xFE00);
            }
        }
        if 0x8000 <= address && address <= 0x9FFF {
            self.ppu.read_vram(address)
        } else if 0xFE00 <= address && address <= 0xFE9F {
            if self.oam_dma.in_transfer() {
                0xFF
            } else {
                self.ppu.read_oam(address)
            }
        } else if 0xFF00 <= address && address <= 0xFF7F {
            self.read_io(address)
        } else if address == 0xFFFF {
            self.interrupts.read_enable()
        } else {
            self.ram[address as usize]
        }
    }

    /// Writes `value` at `address`.
    pub fn write_byte(&mut self, address: u16, value: u8)
        ensures
            final(self)@ == old(self)@.write(address, value),
            old(self)@.wf() ==> final(self)@.wf(),
    {
        proof {
            if self@.wf() {
                lemma_write_wf(self@, address, value);
            }
            if 0xFE00 <= address && address <= 0xFE9F {
                assert(address % 256 == address - 0xFE00);
            }
        }
        if 0x8000 <= address && address <= 0x9FFF {
            self.ppu.write_vram(address, value);
        } else if 0xFE00 <= address && address <= 0xFE9F {
            if !self.oam_dma.in_transfer() {
                self.ppu.write_oam(address, value);
            }
        } else if 0xFF00 <= address && address <= 0xFF7F {
            self.write_io(address, value);
        } else if address == 0xFFFF {
            self.interrupts.write_enabled(value);
        } else {
            self.ram[address as usize] = value;
        }
    }

    /// Reads the device register at `address`.
    pub fn read_io(&self, address: u16) -> (r: u8)
        ensures
            r == self@.read_io(address),
    {
        match address {
            0xFF00 => self.joypad.read_joypad(),
            0xFF01 => self.serial.get_data(),
            0xFF02 => self.serial.get_control(),
            0xFF04..=0xFF07 => self.timer.timer_read(address),
            0xFF40..=0xFF45 => self.ppu.read_lcd(address),
            0xFF46 => self.oam_dma.read_register(),
            0xFF47..=0xFF4B => self.ppu.read_lcd(address),
            0xFF0F => self.interrupts.read_requested(),
            _ => self.ram[address as usize],
        }
    }

    /// Writes `value` to the device register at `address`.
    pub fn write_io(&mut self, address: u16, value: u8)
        ensures
            final(self)@ == old(self)@.write_io(address, value),
    {
        match address {
            0xFF00 => self.joypad.write_joypad(value),
            0xFF01 => self.serial.write_data(value),
            0xFF02 => self.serial.write_control(value),
            0xFF04 => self.timer.write_div(),
            0xFF05 => self.timer.write_counter(value),
            0xFF06 => self.timer.write_modulo(value),
            0xFF07 => self.timer.write_control(value),
            0xFF40..=0xFF45 => self.ppu.write_lcd(address, value),
            0xFF46 => self.oam_dma.dma_start(value),
            0xFF47..=0xFF4B => self.ppu.write_lcd(address, value),
            0xFF0F => self.interrupts.write_requested(value),
            _ => self.ram[address as usize] = value,
        };
    }

    /// Writes the bytes of `rom_file`, in order, to the addresses from 0 up.
    /// An image that stays inside the program region can afterwards be read
    /// back byte for byte.
    pub fn from_rom_file(&mut self, rom_file: &[u8])
        requires
            rom_file@.len() <= MEMORY_SIZE,
        ensures
            final(self)@ == old(self)@.load(rom_file@, rom_file@.len()),
            old(self)@.wf() ==> final(self)@.wf(),
            forall|a: u16|
                a < rom_file@.len() && a < VRAM_START ==> #[trigger] final(self)@.read(a)
                    == rom_file@[a as int],
    {
        let mut i: usize = 0;
        while i < rom_file.len()
            invariant
                i <= rom_file@.len() <= MEMORY_SIZE,
                self@ == old(self)@.load(rom_file@, i as nat),
                old(self)@.wf() ==> self@.wf(),
                self@.ram.len() == MEMORY_SIZE,
                forall|a: u16|
                    a < i && a < VRAM_START ==> #[trigger] self@.read(a) == rom_file@[a as int],
            decreases rom_file@.len() - i,
        {
            let ghost before = self@;
            self.write_byte(i as u16, rom_file[i]);
            proof {
                assert forall|a: u16| a < i + 1 && a < VRAM_START implies #[trigger] self@.read(a)
                    == rom_file@[a as int] by {
                    if a < i {
                        assert(before.read(a) == rom_file@[a as int]);
                    }
                }
            }
            i += 1;
        }
    }

    /// Advances the timer and the pixel pipeline by one hardware tick.
    pub fn tick(&mut self)
        requires
            old(self)@.wf(),
        ensures
            final(self)@ == old(self)@.tick(),
            final(self)@.wf(),
    {
        self.timer.ticks(&mut self.interrupts);
        self.ppu.ppu_ticks(&mut self.interrupts);
    }

    /// The picture, one shade (0 to 3) per pixel, row by row.
    pub fn pixel(&self, x: usize, y: usize) -> (r: u8)
        requires
            x < crate::XRES,
            y < crate::YRES,
        ensures
            r == self@.ppu.video_buffer[x + y * crate::XRES],
    {
        self.ppu.pixel(x, y)
    }

    /// The number of frames completed, modulo 2^32.
    pub fn current_frame(&self) -> (r: u32)
        ensures
            r == self@.ppu.current_frame,
    {
        self.ppu.current_frame()
    }

    /// Records that `button` went down.
    pub fn press_joypad(&mut self, button: crate::joypad::JoypadButtons)
        ensures
            final(self)@ == (MmuState { joypad: old(self)@.joypad.press(button), ..old(self)@ }),
    {
        self.joypad.press_joypad(button);
    }

    /// Records that `button` came up.
    pub fn release_joypad(&mut self, button: crate::joypad::JoypadButtons)
        ensures
            final(self)@ == (MmuState { joypad: old(self)@.joypad.release(button), ..old(self)@ }),
    {
        self.joypad.release_joypad(button);
    }

    /// The pending interrupt source that is served first, if there is one.
    pub fn peek_interrupt(&mut self) -> (r: Option<InterruptType>)
        ensures
            r == old(self)@.interrupts.highest_pending(),
            final(self)@ == old(self)@,
    {
        self.interrupts.peek_highest_interrupt()
    }

    /// Takes the request of the pending source that is served first: its
    /// request bit is cleared and the processor leaves the halted state and
    /// has its master enable cleared. Without a pending source nothing changes.
    pub fn take_interrupt(&mut self, cpu: &mut CPU) -> (r: Option<InterruptType>)
        ensures
            r == old(self)@.interrupts.highest_pending(),
            match r {
                Some(t) => final(self)@ == (MmuState {
                    interrupts: old(self)@.interrupts.acknowledge(t),
                    ..old(self)@
                }) && final(cpu)@ == (CpuState { halted: false, ime: false, ..old(cpu)@ }),
                None => final(self)@ == old(self)@ && final(cpu)@ == old(cpu)@,
            },
    {
        self.interrupts.get_highest_interrupt(cpu)
    }

    /// The address at which service of `interrupt` starts.
    pub fn interrupt_address(&mut self, interrupt: InterruptType) -> (r: u16)
        ensures
            r == interrupt.vector(),
            final(self)@ == old(self)@,
    {
        self.interrupts.interrupt_addresses(interrupt)
    }

    /// Records that `interrupt` asks for service.
    pub fn request_interrupt(&mut self, interrupt: InterruptType)
        ensures
            final(self)@ == (MmuState {
                interrupts: old(self)@.interrupts.request(interrupt),
                ..old(self)@
            }),
    {
        self.interrupts.request_interrupt(interrupt);
    }

    /// The name of the region that `address` lies in.
    pub fn mmu_section(&self, address: u16) -> (r: &'static str)
        ensures
            r@ == section_name(address),
    {
        if address < 0x4000 {
            "ROM Bank 0 | ROM0"
        } else if address < 0x8000 {
            "ROM Bank 1 - Switchable | ROMX"
        } else if address < 0x9800 {
            "CHR RAM | VRAM"
        } else if address < 0x9C00 {
            "BG Map 1 | VRAM"
        } else if address < 0xA000 {
            "BG Map 2 | VRAM"
        } else if address < 0xC000 {
            "Cartridge RAM | SRAM"
        } else if address < 0xD000 {
            "RAM Bank 0 | WRAM0"
        } else if address < 0xE000 {
            "RAM Bank 1-7 - switchable - Color only | WRAMX"
        } else if address < 0xFE00 {
            "Reserved - Echo RAM | ECHO"
        } else if address < 0xFEA0 {
            "Object Attribute Memory | OAM"
        } else if address < 0xFF00 {
            "Reserved - Unusable | USED"
        } else if address < 0xFF80 {
            "I/O Registers | IO Registers"
        } else if address < 0xFFFF {
            "Zero Page | HRAM"
        } else {
            "IE Register"
        }
    }
}

} // verus!
