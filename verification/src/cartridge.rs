//! The program image of a cartridge and the header at its fixed place.
use vstd::prelude::*;
use vstd::arithmetic::power2::{pow2, lemma_pow2_unfold, lemma_pow2_strictly_increases, lemma2_to64};

verus! {

/// Offset of the header in the image.
pub const HEADER_START: usize = 0x100;

/// Size of the header in bytes.
pub const HEADER_SIZE: usize = 0x50;

/// Size of the boot program in bytes.
pub const BOOT_SIZE: usize = 0x100;

/// The largest size code for which the size in KiB fits the machine word.
pub const MAX_SIZE_CODE: u8 = 26;

/// The mathematical model of a header. The fields follow each other in the
/// image in this order; two-byte fields have the high byte first.
pub ghost struct HeaderState {
    pub entry: Seq<u8>,
    pub logo: Seq<u8>,
    pub title: Seq<u8>,
    pub new_lic_code: u16,
    pub sgb_flag: u8,
    pub cartridge_type: u8,
    pub rom_size: u8,
    pub ram_size: u8,
    pub dest_code: u8,
    pub old_lic_code: u8,
    pub rom_version: u8,
    pub checksum: u8,
    pub global_checksum: u16,
}

/// A one-byte field after a load of `data`: the byte at `at` if `data`
/// reaches that far.
pub open spec fn loaded_byte(old: u8, data: Seq<u8>, at: int) -> u8 {
    if at < data.len() {
        data[at]
    } else {
        old
    }
}

/// A run of bytes after a load of `data`: each byte that `data` reaches is
/// replaced by the one at `start` plus its position.
pub open spec fn loaded_run(old: Seq<u8>, data: Seq<u8>, start: int) -> Seq<u8> {
    Seq::new(
        old.len(),
        |i: int|
            if start + i < data.len() {
                data[start + i]
            } else {
                old[i]
            },
    )
}

/// A two-byte field after a load of `data`: the high byte comes from `at`
/// and clears the low byte, which the byte behind it then fills.
pub open spec fn loaded_word(old: u16, data: Seq<u8>, at: int) -> u16 {
    if at + 1 < data.len() {
        (data[at] * 256 + data[at + 1]) as u16
    } else if at < data.len() {
        (data[at] * 256) as u16
    } else {
        old
    }
}

impl HeaderState {
    pub open spec fn wf(self) -> bool {
        self.entry.len() == 4 && self.logo.len() == 0x30 && self.title.len() == 16
    }

    /// The header after the bytes of `data` have been laid over it from its
    /// start; bytes of `data` beyond the header's size are not looked at.
    pub open spec fn load(self, data: Seq<u8>) -> HeaderState {
        HeaderState {
            entry: loaded_run(self.entry, data, 0),
            logo: loaded_run(self.logo, data, 4),
            title: loaded_run(self.title, data, 0x34),
            new_lic_code: loaded_word(self.new_lic_code, data, 0x44),
            sgb_flag: loaded_byte(self.sgb_flag, data, 0x46),
            cartridge_type: loaded_byte(self.cartridge_type, data, 0x47),
            rom_size: loaded_byte(self.rom_size, data, 0x48),
            ram_size: loaded_byte(self.ram_size, data, 0x49),
            dest_code: loaded_byte(self.dest_code, data, 0x4A),
            old_lic_code: loaded_byte(self.old_lic_code, data, 0x4B),
            rom_version: loaded_byte(self.rom_version, data, 0x4C),
            checksum: loaded_byte(self.checksum, data, 0x4D),
            global_checksum: loaded_word(self.global_checksum, data, 0x4E),
        }
    }

    /// The header with every byte zero.
    pub open spec fn zero() -> HeaderState {
        HeaderState {
            entry: Seq::new(4, |i: int| 0u8),
            logo: Seq::new(0x30, |i: int| 0u8),
            title: Seq::new(16, |i: int| 0u8),
            new_lic_code: 0,
            sgb_flag: 0,
            cartridge_type: 0,
            rom_size: 0,
            ram_size: 0,
            dest_code: 0,
            old_lic_code: 0,
            rom_version: 0,
            checksum: 0,
            global_checksum: 0,
        }
    }
}

/// The value of an ASCII character as a hexadecimal digit, upper or lower
/// case, if it is one.
pub open spec fn hex_digit(c: u8) -> Option<u8> {
    if 0x30 <= c <= 0x39 {
        Some((c - 0x30) as u8)
    } else if 0x41 <= c <= 0x46 {
        Some((c - 0x41 + 10) as u8)
    } else if 0x61 <= c <= 0x66 {
        Some((c - 0x61 + 10) as u8)
    } else {
        None
    }
}

/// The name of the licensee with code `lic_code`.
pub open spec fn licensee(lic_code: u8) -> Seq<char> {
    if lic_code == 0x00 {
        "None"@
    } else if lic_code == 0x01 {
        "Nintendo R&D1"@
    } else if lic_code == 0x08 {
        "Capcom"@
    } else if lic_code == 0x13 {
        "Electronic Arts"@
    } else if lic_code == 0x18 {
        "Hudson Soft"@
    } else if lic_code == 0x19 {
        "b-ai"@
    } else if lic_code == 0x20 {
        "kss"@
    } else if lic_code == 0x22 {
        "pow"@
    } else if lic_code == 0x24 {
        "PCM Complete"@
    } else if lic_code == 0x25 {
        "san-x"@
    } else if lic_code == 0x28 {
        "Kemco Japan"@
    } else if lic_code == 0x29 {
        "seta"@
    } else if lic_code == 0x30 {
        "Viacom"@
    } else if lic_code == 0x31 {
        "Nintendo"@
    } else if lic_code == 0x32 {
        "Bandai"@
    } else if lic_code == 0x33 {
        "Ocean/Acclaim"@
    } else if lic_code == 0x34 {
        "Konami"@
    } else if lic_code == 0x35 {
        "Hector"@
    } else if lic_code == 0x37 {
        "Taito"@
    } else if lic_code == 0x38 {
        "Hudson"@
    } else if lic_code == 0x39 {
        "Banpresto"@
    } else if lic_code == 0x41 {
        "Ubi Soft"@
    } else if lic_code == 0x42 {
        "Atlus"@
    } else if lic_code == 0x44 {
        "Malibu"@
    } else if lic_code == 0x46 {
        "angel"@
    } else if lic_code == 0x47 {
        "Bullet-Proof"@
    } else if lic_code == 0x49 {
        "irem"@
    } else if lic_code == 0x50 {
        "Absolute"@
    } else if lic_code == 0x51 {
        "Acclaim"@
    } else if lic_code == 0x52 {
        "Activision"@
    } else if lic_code == 0x53 {
        "American sammy"@
    } else if lic_code == 0x54 {
        "Konami"@
    } else if lic_code == 0x55 {
        "Hi tech entertainment"@
    } else if lic_code == 0x56 {
        "LJN"@
    } else if lic_code == 0x57 {
        "Matchbox"@
    } else if lic_code == 0x58 {
        "Mattel"@
    } else if lic_code == 0x59 {
        "Milton Bradley"@
    } else if lic_code == 0x60 {
        "Titus"@
    } else if lic_code == 0x61 {
        "Virgin"@
    } else if lic_code == 0x64 {
        "LucasArts"@
    } else if lic_code == 0x67 {
        "Ocean"@
    } else if lic_code == 0x69 {
        "Electronic Arts"@
    } else if lic_code == 0x70 {
        "Infogrames"@
    } else if lic_code == 0x71 {
        "Interplay"@
    } else if lic_code == 0x72 {
        "Broderbund"@
    } else if lic_code == 0x73 {
        "sculptured"@
    } else if lic_code == 0x75 {
        "sci"@
    } else if lic_code == 0x78 {
        "THQ"@
    } else if lic_code == 0x79 {
        "Accolade"@
    } else if lic_code == 0x80 {
        "misawa"@
    } else if lic_code == 0x83 {
        "lozc"@
    } else if lic_code == 0x86 {
        "Tokuma Shoten Intermedia"@
    } else if lic_code == 0x87 {
        "Tsukuda Original"@
    } else if lic_code == 0x91 {
        "Chunsoft"@
    } else if lic_code == 0x92 {
        "Video system"@
    } else if lic_code == 0x93 {
        "Ocean/Acclaim"@
    } else if lic_code == 0x95 {
        "Varie"@
    } else if lic_code == 0x96 {
        "Yonezawa/s’pal"@
    } else if lic_code == 0x97 {
        "Kaneko"@
    } else if lic_code == 0x99 {
        "Pack in soft"@
    } else if lic_code == 0xA4 {
        "Konami (Yu-Gi-Oh!)"@
    } else {
        "UNKNOWN"@
    }
}

/// The name of the cartridge hardware with code `code`.
pub open spec fn cartridge_kind(code: u8) -> Seq<char> {
    if code == 0x00 {
        "ROM ONLY"@
    } else if code == 0x01 {
        "MBC1"@
    } else if code == 0x02 {
        "MBC1+RAM"@
    } else if code == 0x03 {
        "MBC1+RAM+BATTERY"@
    } else if code == 0x05 {
        "MBC2"@
    } else if code == 0x06 {
        "MBC2+BATTERY"@
    } else if code == 0x08 {
        "ROM+RAM"@
    } else if code == 0x09 {
        "ROM+RAM+BATTERY"@
    } else if code == 0x0B {
        "MMM01"@
    } else if code == 0x0C {
        "MMM01+RAM"@
    } else if code == 0x0D {
        "MMM01+RAM+BATTERY"@
    } else if code == 0x0F {
        "MBC3+TIMER+BATTERY"@
    } else if code == 0x10 {
        "MBC3+TIMER+RAM+BATTERY"@
    } else if code == 0x11 {
        "MBC3"@
    } else if code == 0x12 {
        "MBC3+RAM"@
    } else if code == 0x13 {
        "MBC3+RAM+BATTERY"@
    } else if code == 0x19 {
        "MBC5"@
    } else if code == 0x1A {
        "MBC5+RAM"@
    } else if code == 0x1B {
        "MBC5+RAM+BATTERY"@
    } else if code == 0x1C {
        "MBC5+RUMBLE"@
    } else if code == 0x1D {
        "MBC5+RUMBLE+RAM"@
    } else if code == 0x1E {
        "MBC5+RUMBLE+RAM+BATTERY"@
    } else if code == 0x20 {
        "MBC6"@
    } else if code == 0x22 {
        "MBC7+SENSOR+RUMBLE+RAM+BATTERY"@
    } else if code == 0xFC {
        "POCKET CAMERA"@
    } else if code == 0xFD {
        "BANDAI TAMA5"@
    } else if code == 0xFE {
        "HuC3"@
    } else if code == 0xFF {
        "HuC1+RAM+BATTERY"@
    } else {
        "UNKNOWN"@
    }
}

/// The licensee code that a header gives: the old code, unless that is
/// 0x33 and points to the new code, which is two hexadecimal digits in
/// ASCII. A new code that is not two such digits gives none.
pub open spec fn licensee_code(header: HeaderState) -> Option<u8> {
    if header.old_lic_code == 0x33 {
        match (
            hex_digit((header.new_lic_code / 256) as u8),
            hex_digit((header.new_lic_code % 256) as u8),
        ) {
            (Some(high), Some(low)) => Some((high * 16 + low) as u8),
            _ => None,
        }
    } else {
        Some(header.old_lic_code)
    }
}

/// The checksum of the header bytes of an image: over the bytes from 0x134
/// to 0x14C, each byte and one more is subtracted, modulo 256.
pub open spec fn header_checksum(rom: Seq<u8>, upto: int) -> u8
    recommends
        0x134 <= upto <= 0x14D,
        upto <= rom.len(),
    decreases upto,
{
    if upto <= 0x134 {
        0
    } else {
        let before = header_checksum(rom, upto - 1);
        let minus_byte = if before < rom[upto - 1] {
            (before - rom[upto - 1] + 256) as u8
        } else {
            (before - rom[upto - 1]) as u8
        };
        if minus_byte == 0 {
            255
        } else {
            (minus_byte - 1) as u8
        }
    }
}

/// The mathematical model of a cartridge.
pub ghost struct CartridgeState {
    pub rom: Seq<u8>,
    pub ram: Seq<u8>,
    pub header: HeaderState,
}

/// The header of a program image.
pub struct Header {
    entry: [u8; 4],
    logo: [u8; 0x30],
    title: [u8; 16],
    new_lic_code: u16,
    sgb_flag: u8,
    cartridge_type: u8,
    rom_size: u8,
    ram_size: u8,
    dest_code: u8,
    old_lic_code: u8,
    rom_version: u8,
    checksum: u8,
    global_checksum: u16,
}

impl View for Header {
    type V = HeaderState;

    closed spec fn view(&self) -> HeaderState {
        HeaderState {
            entry: self.entry@,
            logo: self.logo@,
            title: self.title@,
            new_lic_code: self.new_lic_code,
            sgb_flag: self.sgb_flag,
            cartridge_type: self.cartridge_type,
            rom_size: self.rom_size,
            ram_size: self.ram_size,
            dest_code: self.dest_code,
            old_lic_code: self.old_lic_code,
            rom_version: self.rom_version,
            checksum: self.checksum,
            global_checksum: self.global_checksum,
        }
    }
}

impl Default for Header {
    fn default() -> (r: Self)
        ensures
            r@ == HeaderState::zero(),
            r@.wf(),
    {
        let header = Header {
            entry: [0;4],
            logo: [0;0x30],
            title: [0;16],
            new_lic_code: 0,
            sgb_flag: 0,
            cartridge_type: 0,
            rom_size: 0,
            ram_size: 0,
            dest_code: 0,
            old_lic_code: 0,
            rom_version: 0,
            checksum: 0,
            global_checksum: 0,
        };
        proof {
            assert(header@.entry =~= HeaderState::zero().entry);
            assert(header@.logo =~= HeaderState::zero().logo);
            assert(header@.title =~= HeaderState::zero().title);
        }
        header
    }
}

/// A cartridge: its program image, its memory and the header of the image.
pub struct Cartridge {
    rom: Vec<u8>,
    ram: Vec<u8>,
    header: Header,
}

impl View for Cartridge {
    type V = CartridgeState;

    closed spec fn view(&self) -> CartridgeState {
        CartridgeState { rom: self.rom@, ram: self.ram@, header: self.header@ }
    }
}

impl Default for Cartridge {
    fn default() -> (r: Self)
        ensures
            r@ == (CartridgeState {
                rom: Seq::empty(),
                ram: Seq::empty(),
                header: HeaderState::zero(),
            }),
    {
        Cartridge { rom: Vec::new(), ram: Vec::new(), header: Header::default() }
    }
}

/// The value of an ASCII character as a hexadecimal digit.
fn hex_value(c: u8) -> (r: Option<u8>)
    ensures
        r == hex_digit(c),
{
    if 0x30 <= c && c <= 0x39 {
        Some(c - 0x30)
    } else if 0x41 <= c && c <= 0x46 {
        Some(c - 0x41 + 10)
    } else if 0x61 <= c && c <= 0x66 {
        Some(c - 0x61 + 10)
    } else {
        None
    }
}

impl Header {
    /// Lays one byte of header data over the header at offset `i`.
    fn put(&mut self, i: usize, value: u8)
        requires
            i < HEADER_SIZE,
        ensures
            final(self)@ == byte_put(old(self)@, i as int, value),
    {
        if i < 4 {
            self.entry[i] = value;
        } else if i < 0x34 {
            self.logo[i - 4] = value;
        } else if i < 0x44 {
            self.title[i - 0x34] = value;
        } else if i < 0x46 {
            if i == 0x44 {
                self.new_lic_code = (value as u16) * 256;
            } else {
                self.new_lic_code = (self.new_lic_code / 256) * 256 + value as u16;
            }
        } else if i < 0x47 {
            self.sgb_flag = value;
        } else if i < 0x48 {
            self.cartridge_type = value;
        } else if i < 0x49 {
            self.rom_size = value;
        } else if i < 0x4A {
            self.ram_size = value;
        } else if i < 0x4B {
            self.dest_code = value;
        } else if i < 0x4C {
            self.old_lic_code = value;
        } else if i < 0x4D {
            self.rom_version = value;
        } else if i < 0x4E {
            self.checksum = value;
        } else {
            if i == 0x4E {
                self.global_checksum = (value as u16) * 256;
            } else {
                self.global_checksum = (self.global_checksum / 256) * 256 + value as u16;
            }
        }
    }
}

/// The header after one byte has been laid over it at offset `i`.
pub open spec fn byte_put(h: HeaderState, i: int, value: u8) -> HeaderState
    recommends
        0 <= i < HEADER_SIZE,
{
    if i < 4 {
        HeaderState { entry: h.entry.update(i, value), ..h }
    } else if i < 0x34 {
        HeaderState { logo: h.logo.update(i - 4, value), ..h }
    } else if i < 0x44 {
        HeaderState { title: h.title.update(i - 0x34, value), ..h }
    } else if i == 0x44 {
        HeaderState { new_lic_code: (value * 256) as u16, ..h }
    } else if i == 0x45 {
        HeaderState { new_lic_code: ((h.new_lic_code / 256) * 256 + value) as u16, ..h }
    } else if i == 0x46 {
        HeaderState { sgb_flag: value, ..h }
    } else if i == 0x47 {
        HeaderState { cartridge_type: value, ..h }
    } else if i == 0x48 {
        HeaderState { rom_size: value, ..h }
    } else if i == 0x49 {
        HeaderState { ram_size: value, ..h }
    } else if i == 0x4A {
        HeaderState { dest_code: value, ..h }
    } else if i == 0x4B {
        HeaderState { old_lic_code: value, ..h }
    } else if i == 0x4C {
        HeaderState { rom_version: value, ..h }
    } else if i == 0x4D {
        HeaderState { checksum: value, ..h }
    } else if i == 0x4E {
        HeaderState { global_checksum: (value * 256) as u16, ..h }
    } else {
        HeaderState { global_checksum: ((h.global_checksum / 256) * 256 + value) as u16, ..h }
    }
}

/// Laying the first `n + 1` bytes of `data` over a header is laying the
/// first `n` and then byte `n`.
proof fn lemma_load_step(h: HeaderState, data: Seq<u8>, n: int)
    requires
        h.wf(),
        0 <= n < data.len(),
        n < HEADER_SIZE,
    ensures
        h.load(data.take(n + 1)) == byte_put(h.load(data.take(n)), n, data[n]),
        h.load(data.take(n)).wf(),
{
    let before = h.load(data.take(n));
    let after = h.load(data.take(n + 1));
    let put = byte_put(before, n, data[n]);
    assert(after.entry =~= put.entry);
    assert(after.logo =~= put.logo);
    assert(after.title =~= put.title);
}

/// Bytes beyond the size of the header do not change what a load gives.
proof fn lemma_load_rest(h: HeaderState, data: Seq<u8>, n: int)
    requires
        h.wf(),
        HEADER_SIZE <= n <= data.len(),
    ensures
        h.load(data.take(n)) == h.load(data),
{
    let a = h.load(data.take(n));
    let b = h.load(data);
    assert(a.entry =~= b.entry);
    assert(a.logo =~= b.logo);
    assert(a.title =~= b.title);
}

impl Cartridge {
    /// Appends the bytes of `rom_file` to the program image and reads the
    /// header from its place in the image.
    pub fn from_rom_file(&mut self, rom_file: &[u8])
        requires
            old(self)@.rom.len() + rom_file@.len() >= HEADER_START + HEADER_SIZE,
            old(self)@.header.wf(),
        ensures
            final(self)@.rom == old(self)@.rom + rom_file@,
            final(self)@.ram == old(self)@.ram,
            final(self)@.header == old(self)@.header.load(
                final(self)@.rom.subrange(HEADER_START as int, HEADER_START + HEADER_SIZE),
            ),
            final(self)@.header.wf(),
    {
        let mut i: usize = 0;
        while i < rom_file.len()
            invariant
                i <= rom_file@.len(),
                self@.rom == old(self)@.rom + rom_file@.take(i as int),
                self@.ram == old(self)@.ram,
                self@.header == old(self)@.header,
            decreases rom_file@.len() - i,
        {
            self.rom.push(rom_file[i]);
            proof {
                assert(self@.rom =~= old(self)@.rom + rom_file@.take(i + 1));
            }
            i += 1;
        }
        proof {
            assert(rom_file@.take(rom_file@.len() as int) =~= rom_file@);
        }
        let mut header_values: [u8; 0x50] = [0;0x50];
        let mut k: usize = 0;
        while k < 0x50
            invariant
                k <= 0x50,
                self@.rom.len() >= HEADER_START + HEADER_SIZE,
                forall|j: int| 0 <= j < k ==> header_values@[j] == self@.rom[HEADER_START + j],
            decreases 0x50 - k,
        {
            header_values[k] = self.rom[0x100 + k];
            k += 1;
        }
        proof {
            assert(header_values@ =~= self@.rom.subrange(
                HEADER_START as int,
                HEADER_START + HEADER_SIZE,
            ));
        }
        self.load_header(&header_values);
    }

    /// Copies the boot program over the start of the program image: the
    /// first 256 bytes of `boot_file` at most. Returns whether `boot_file`
    /// was longer than that.
    pub fn from_boot_file(&mut self, boot_file: &[u8]) -> (too_long: bool)
        requires
            old(self)@.rom.len() >= boot_file@.len() || old(self)@.rom.len() >= BOOT_SIZE,
        ensures
            too_long == (boot_file@.len() > BOOT_SIZE),
            final(self)@.rom.len() == old(self)@.rom.len(),
            forall|i: int|
                0 <= i < final(self)@.rom.len() ==> final(self)@.rom[i] == if i
                    < boot_file@.len() && i < BOOT_SIZE {
                    boot_file@[i]
                } else {
                    old(self)@.rom[i]
                },
            final(self)@.ram == old(self)@.ram,
            final(self)@.header == old(self)@.header,
    {
        let mut i: usize = 0;
        while i < boot_file.len() && i < 0x100
            invariant
                i <= boot_file@.len(),
                i <= BOOT_SIZE,
                self@.rom.len() == old(self)@.rom.len(),
                self@.rom.len() >= boot_file@.len() || self@.rom.len() >= BOOT_SIZE,
                forall|j: int|
                    0 <= j < self@.rom.len() ==> self@.rom[j] == if j < i {
                        boot_file@[j]
                    } else {
                        old(self)@.rom[j]
                    },
                self@.ram == old(self)@.ram,
                self@.header == old(self)@.header,
            decreases boot_file@.len() - i,
        {
            self.rom.set(i, boot_file[i]);
            i += 1;
        }
        boot_file.len() > 0x100
    }

    /// The byte of the program image at `address`.
    pub fn read_cart(&self, address: u16) -> (r: u8)
        requires
            address < self@.rom.len(),
        ensures
            r == self@.rom[address as int],
    {
        self.rom[address as usize]
    }

    /// Lays the bytes of `data` over the header from its start; bytes of
    /// `data` beyond the header's size are not looked at.
    pub fn load_header(&mut self, data: &[u8])
        requires
            old(self)@.header.wf(),
        ensures
            final(self)@ == (CartridgeState {
                header: old(self)@.header.load(data@),
                ..old(self)@
            }),
            final(self)@.header.wf(),
    {
        let ghost start = self@.header;
        let mut i: usize = 0;
        proof {
            let a = start.load(data@.take(0));
            assert(a.entry =~= start.entry);
            assert(a.logo =~= start.logo);
            assert(a.title =~= start.title);
        }
        while i < data.len() && i < 0x50
            invariant
                i <= data@.len(),
                i <= HEADER_SIZE,
                start.wf(),
                start == old(self)@.header,
                self@ == (CartridgeState { header: start.load(data@.take(i as int)), ..old(self)@ }),
            decreases data@.len() - i,
        {
            proof {
                lemma_load_step(start, data@, i as int);
            }
            self.header.put(i, data[i]);
            i += 1;
        }
        proof {
            if i < HEADER_SIZE {
                assert(data@.take(i as int) =~= data@);
            } else {
                lemma_load_rest(start, data@, i as int);
            }
            let done = start.load(data@);
            assert(done.entry.len() == 4 && done.logo.len() == 0x30 && done.title.len() == 16);
        }
    }

    /// The sixteen bytes of the title.
    pub fn get_title(&self) -> (r: Vec<u8>)
        ensures
            r@ == self@.header.title,
    {
        let mut word: Vec<u8> = Vec::new();
        let mut i: usize = 0;
        while i < 16
            invariant
                i <= 16,
                word@ == self@.header.title.take(i as int),
            decreases 16 - i,
        {
            word.push(self.header.title[i]);
            proof {
                assert(word@ =~= self@.header.title.take(i + 1));
            }
            i += 1;
        }
        proof {
            assert(self@.header.title.take(16) =~= self@.header.title);
        }
        word
    }

    /// The name of the licensee that the header names.
    pub fn lic_name(&self) -> (r: &'static str)
        ensures
            r@ == match licensee_code(self@.header) {
                Some(code) => licensee(code),
                None => "UNKNOWN"@,
            },
    {
        if self.header.old_lic_code == 0x33 {
            let num1 = (self.header.new_lic_code / 256) as u8;
            let num2 = (self.header.new_lic_code % 256) as u8;
            let code1 = match hex_value(num1) {
                Some(x) => x,
                None => return "UNKNOWN",
            };
            let code2 = match hex_value(num2) {
                Some(x) => x,
                None => return "UNKNOWN",
            };
            self.get_lic(code1 * 16 + code2)
        } else {
            self.get_lic(self.header.old_lic_code)
        }
    }

    /// The size of the program image in KiB that the header's size code
    /// stands for: 32, doubled once for each unit of the code.
    pub fn rom_size(&self) -> (r: usize)
        requires
            self@.header.rom_size <= MAX_SIZE_CODE,
        ensures
            r == 32 * pow2(self@.header.rom_size as nat),
    {
        let mut size: usize = 32;
        let mut done: u8 = 0;
        proof {
            lemma2_to64();
        }
        while done < self.header.rom_size
            invariant
                done <= self.header.rom_size <= MAX_SIZE_CODE,
                size == 32 * pow2(done as nat),
                size <= 32 * pow2(26),
                pow2(26) == 0x4000000,
            decreases self.header.rom_size - done,
        {
            proof {
                lemma_pow2_unfold((done + 1) as nat);
                if done + 1 < 26 {
                    lemma_pow2_strictly_increases((done + 1) as nat, 26);
                }
            }
            size = size * 2;
            done += 1;
        }
        size
    }

    /// The header's size code for the program image.
    pub fn rom_size_code(&self) -> (r: u8)
        ensures
            r == self@.header.rom_size,
    {
        self.header.rom_size
    }

    /// The header's size code for the cartridge memory.
    pub fn ram_size(&self) -> (r: u8)
        ensures
            r == self@.header.ram_size,
    {
        self.header.ram_size
    }

    /// The version number of the program.
    pub fn rom_version(&self) -> (r: u8)
        ensures
            r == self@.header.rom_version,
    {
        self.header.rom_version
    }

    /// Whether the checksum in the header is the one that the header bytes
    /// of the program image give.
    pub fn checksum_matches(&self) -> (r: bool)
        requires
            self@.rom.len() >= HEADER_START + HEADER_SIZE,
        ensures
            r == (self@.header.checksum == header_checksum(self@.rom, 0x14D)),
    {
        let mut x: u8 = 0;
        let mut i: usize = 0x134;
        while i <= 0x14C
            invariant
                0x134 <= i <= 0x14D,
                self@.rom.len() >= HEADER_START + HEADER_SIZE,
                x == header_checksum(self@.rom, i as int),
            decreases 0x14D - i,
        {
            x = x.wrapping_sub(self.rom[i]).wrapping_sub(1);
            i += 1;
        }
        self.header.checksum == x
    }

    /// The name of the licensee with code `lic_code`.
    pub fn get_lic(&self, lic_code: u8) -> (r: &'static str)
        ensures
            r@ == licensee(lic_code),
    {
        match lic_code {
            0x00 => "None",
            0x01 => "Nintendo R&D1",
            0x08 => "Capcom",
            0x13 => "Electronic Arts",
            0x18 => "Hudson Soft",
            0x19 => "b-ai",
            0x20 => "kss",
            0x22 => "pow",
            0x24 => "PCM Complete",
            0x25 => "san-x",
            0x28 => "Kemco Japan",
            0x29 => "seta",
            0x30 => "Viacom",
            0x31 => "Nintendo",
            0x32 => "Bandai",
            0x33 => "Ocean/Acclaim",
            0x34 => "Konami",
            0x35 => "Hector",
            0x37 => "Taito",
            0x38 => "Hudson",
            0x39 => "Banpresto",
            0x41 => "Ubi Soft",
            0x42 => "Atlus",
            0x44 => "Malibu",
            0x46 => "angel",
            0x47 => "Bullet-Proof",
            0x49 => "irem",
            0x50 => "Absolute",
            0x51 => "Acclaim",
            0x52 => "Activision",
            0x53 => "American sammy",
            0x54 => "Konami",
            0x55 => "Hi tech entertainment",
            0x56 => "LJN",
            0x57 => "Matchbox",
            0x58 => "Mattel",
            0x59 => "Milton Bradley",
            0x60 => "Titus",
            0x61 => "Virgin",
            0x64 => "LucasArts",
            0x67 => "Ocean",
            0x69 => "Electronic Arts",
            0x70 => "Infogrames",
            0x71 => "Interplay",
            0x72 => "Broderbund",
            0x73 => "sculptured",
            0x75 => "sci",
            0x78 => "THQ",
            0x79 => "Accolade",
            0x80 => "misawa",
            0x83 => "lozc",
            0x86 => "Tokuma Shoten Intermedia",
            0x87 => "Tsukuda Original",
            0x91 => "Chunsoft",
            0x92 => "Video system",
            0x93 => "Ocean/Acclaim",
            0x95 => "Varie",
            0x96 => "Yonezawa/s’pal",
            0x97 => "Kaneko",
            0x99 => "Pack in soft",
            0xA4 => "Konami (Yu-Gi-Oh!)",
            _ => "UNKNOWN",
        }
    }

    /// The name of the cartridge hardware that the header names.
    pub fn get_type(&self) -> (r: &'static str)
        ensures
            r@ == cartridge_kind(self@.header.cartridge_type),
    {
        match self.header.cartridge_type {
            0x00 => "ROM ONLY",
            0x01 => "MBC1",
            0x02 => "MBC1+RAM",
            0x03 => "MBC1+RAM+BATTERY",
            0x05 => "MBC2",
            0x06 => "MBC2+BATTERY",
            0x08 => "ROM+RAM",
            0x09 => "ROM+RAM+BATTERY",
            0x0B => "MMM01",
            0x0C => "MMM01+RAM",
            0x0D => "MMM01+RAM+BATTERY",
            0x0F => "MBC3+TIMER+BATTERY",
            0x10 => "MBC3+TIMER+RAM+BATTERY",
            0x11 => "MBC3",
            0x12 => "MBC3+RAM",
            0x13 => "MBC3+RAM+BATTERY",
            0x19 => "MBC5",
            0x1A => "MBC5+RAM",
            0x1B => "MBC5+RAM+BATTERY",
            0x1C => "MBC5+RUMBLE",
            0x1D => "MBC5+RUMBLE+RAM",
            0x1E => "MBC5+RUMBLE+RAM+BATTERY",
            0x20 => "MBC6",
            0x22 => "MBC7+SENSOR+RUMBLE+RAM+BATTERY",
            0xFC => "POCKET CAMERA",
            0xFD => "BANDAI TAMA5",
            0xFE => "HuC3",
            0xFF => "HuC1+RAM+BATTERY",
            _ => "UNKNOWN",
        }
    }
}

} // verus!
