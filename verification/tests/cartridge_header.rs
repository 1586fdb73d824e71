use gameboy_core::cartridge::{Cartridge, Header};

fn image() -> Vec<u8> {
    let mut rom = vec![0u8; 0x8000];
    rom[0x100] = 0x00;
    rom[0x101] = 0xC3;
    rom[0x102] = 0x50;
    rom[0x103] = 0x01;
    for (i, byte) in b"TETRIS".iter().enumerate() {
        rom[0x134 + i] = *byte;
    }
    rom[0x144] = b'0';
    rom[0x145] = b'1';
    rom[0x147] = 0x03;
    rom[0x148] = 0x02;
    rom[0x149] = 0x01;
    rom[0x14B] = 0x33;
    rom[0x14C] = 0x07;
    let mut x: u8 = 0;
    for i in 0x134..=0x14C {
        x = x.wrapping_sub(rom[i]).wrapping_sub(1);
    }
    rom[0x14D] = x;
    rom[0x14E] = 0x12;
    rom[0x14F] = 0x34;
    rom
}

#[test]
fn header_is_read_from_its_place() {
    let rom = image();
    let mut cartridge = Cartridge::default();
    cartridge.from_rom_file(&rom);
    let mut title = b"TETRIS".to_vec();
    title.resize(16, 0);
    assert_eq!(cartridge.get_title(), title);
    assert_eq!(cartridge.get_type(), "MBC1+RAM+BATTERY");
    assert_eq!(cartridge.rom_size_code(), 2);
    assert_eq!(cartridge.rom_size(), 128);
    assert_eq!(cartridge.ram_size(), 1);
    assert_eq!(cartridge.rom_version(), 7);
    assert_eq!(cartridge.lic_name(), "Nintendo R&D1");
    assert!(cartridge.checksum_matches());
    assert_eq!(cartridge.read_cart(0x101), 0xC3);
    assert_eq!(cartridge.read_cart(0x134), b'T');
}

#[test]
fn wrong_checksum_is_noticed() {
    let mut rom = image();
    rom[0x14D] = rom[0x14D].wrapping_add(1);
    let mut cartridge = Cartridge::default();
    cartridge.from_rom_file(&rom);
    assert!(!cartridge.checksum_matches());
}

#[test]
fn old_licensee_code_is_used_unless_it_is_0x33() {
    let mut rom = image();
    rom[0x14B] = 0x08;
    let mut cartridge = Cartridge::default();
    cartridge.from_rom_file(&rom);
    assert_eq!(cartridge.lic_name(), "Capcom");
    let mut rom = image();
    rom[0x144] = b'A';
    rom[0x145] = b'4';
    let mut cartridge = Cartridge::default();
    cartridge.from_rom_file(&rom);
    assert_eq!(cartridge.lic_name(), "Konami (Yu-Gi-Oh!)");
    let mut rom = image();
    rom[0x144] = b'a';
    rom[0x145] = b'4';
    let mut cartridge = Cartridge::default();
    cartridge.from_rom_file(&rom);
    assert_eq!(cartridge.lic_name(), "Konami (Yu-Gi-Oh!)");
    let mut rom = image();
    rom[0x144] = b'G';
    let mut cartridge = Cartridge::default();
    cartridge.from_rom_file(&rom);
    assert_eq!(cartridge.lic_name(), "UNKNOWN");
    let mut rom = image();
    rom[0x145] = b' ';
    let mut cartridge = Cartridge::default();
    cartridge.from_rom_file(&rom);
    assert_eq!(cartridge.lic_name(), "UNKNOWN");
}

#[test]
fn licensee_and_type_tables() {
    let cartridge = Cartridge::default();
    assert_eq!(cartridge.get_lic(0x00), "None");
    assert_eq!(cartridge.get_lic(0x01), "Nintendo R&D1");
    assert_eq!(cartridge.get_lic(0x31), "Nintendo");
    assert_eq!(cartridge.get_lic(0x33), "Ocean/Acclaim");
    assert_eq!(cartridge.get_lic(0x96), "Yonezawa/s\u{2019}pal");
    assert_eq!(cartridge.get_lic(0xA4), "Konami (Yu-Gi-Oh!)");
    assert_eq!(cartridge.get_lic(0x02), "UNKNOWN");
    assert_eq!(cartridge.get_lic(0xFF), "UNKNOWN");
    assert_eq!(cartridge.get_type(), "ROM ONLY");
    assert_eq!(cartridge.lic_name(), "None");
    assert_eq!(cartridge.rom_size(), 32);
}

#[test]
fn every_cartridge_type_has_its_name() {
    let names = [
        (0x00u8, "ROM ONLY"),
        (0x01, "MBC1"),
        (0x02, "MBC1+RAM"),
        (0x05, "MBC2"),
        (0x06, "MBC2+BATTERY"),
        (0x08, "ROM+RAM"),
        (0x09, "ROM+RAM+BATTERY"),
        (0x0B, "MMM01"),
        (0x0F, "MBC3+TIMER+BATTERY"),
        (0x13, "MBC3+RAM+BATTERY"),
        (0x19, "MBC5"),
        (0x1E, "MBC5+RUMBLE+RAM+BATTERY"),
        (0x20, "MBC6"),
        (0x22, "MBC7+SENSOR+RUMBLE+RAM+BATTERY"),
        (0xFC, "POCKET CAMERA"),
        (0xFD, "BANDAI TAMA5"),
        (0xFE, "HuC3"),
        (0xFF, "HuC1+RAM+BATTERY"),
        (0x04, "UNKNOWN"),
        (0x21, "UNKNOWN"),
    ];
    for (code, name) in names {
        let mut data = vec![0u8; 0x48];
        data[0x47] = code;
        let mut cartridge = Cartridge::default();
        cartridge.load_header(&data);
        assert_eq!(cartridge.get_type(), name);
    }
}

#[test]
fn short_header_data_changes_only_what_it_reaches() {
    let mut cartridge = Cartridge::default();
    let mut full = vec![0u8; 0x50];
    full[0x47] = 0x19;
    full[0x48] = 0x05;
    full[0x4C] = 0x02;
    cartridge.load_header(&full);
    assert_eq!(cartridge.rom_size(), 1024);
    let mut short = vec![0u8; 0x48];
    short[0x47] = 0x01;
    cartridge.load_header(&short);
    assert_eq!(cartridge.get_type(), "MBC1");
    assert_eq!(cartridge.rom_size_code(), 5);
    assert_eq!(cartridge.rom_version(), 2);
    let long = vec![0xFFu8; 0x60];
    cartridge.load_header(&long);
    assert_eq!(cartridge.rom_size_code(), 0xFF);
    assert_eq!(cartridge.get_type(), "HuC1+RAM+BATTERY");
    cartridge.load_header(&[]);
    assert_eq!(cartridge.rom_size_code(), 0xFF);
}

#[test]
fn boot_program_covers_the_first_256_bytes() {
    let rom = image();
    let mut cartridge = Cartridge::default();
    cartridge.from_rom_file(&rom);
    let boot = vec![0xAAu8; 0x100];
    assert!(!cartridge.from_boot_file(&boot));
    assert_eq!(cartridge.read_cart(0x00), 0xAA);
    assert_eq!(cartridge.read_cart(0xFF), 0xAA);
    assert_eq!(cartridge.read_cart(0x101), 0xC3);
    let long = vec![0x55u8; 0x180];
    assert!(cartridge.from_boot_file(&long));
    assert_eq!(cartridge.read_cart(0xFF), 0x55);
    assert_eq!(cartridge.read_cart(0x101), 0xC3);
    assert!(!cartridge.from_boot_file(&[0x11, 0x22]));
    assert_eq!(cartridge.read_cart(0x00), 0x11);
    assert_eq!(cartridge.read_cart(0x01), 0x22);
    assert_eq!(cartridge.read_cart(0x02), 0x55);
}

#[test]
fn default_header_is_empty() {
    let _header = Header::default();
    let cartridge = Cartridge::default();
    assert_eq!(cartridge.get_title(), vec![0u8; 16]);
    assert_eq!(cartridge.rom_size_code(), 0);
    assert_eq!(cartridge.ram_size(), 0);
}
