//! Cartridge images in the iNES 1.0 layout: a 16-byte header, an optional
//! 16-byte trainer block, the program ROM banks and the character ROM
//! banks.

use crate::bus::prg_byte;
use crate::mem::{Mem, MemFault};
use vstd::prelude::*;
use vstd::slice::{slice_subrange, slice_to_vec};

verus! {

pub const PRG_ROM_BANK_SIZE: usize = 16384;

pub const CHR_ROM_BANK_SIZE: usize = 8192;

pub const HEADER_SIZE: usize = 16;

pub const TRAINER_SIZE: usize = 16;

/// How the four logical nametables are laid over video RAM.
#[allow(non_camel_case_types)]
#[derive(Clone, Copy, Debug, PartialEq, Eq, Structural)]
pub enum Mirroring {
    HORIZONTAL,
    VERTICAL,
    FOUR_SCREEN,
}

/// The four bytes that open every image.
pub open spec fn nes_tag() -> Seq<u8> {
    seq![0x4Eu8, 0x45u8, 0x53u8, 0x1Au8]
}

/// Whether `image` is long enough to hold a header and opens with the tag.
pub open spec fn has_header(image: Seq<u8>) -> bool {
    image.len() >= HEADER_SIZE && image.subrange(0, 4) == nes_tag()
}

/// The format version in bits 2 and 3 of the second control byte; only
/// version 0 is read.
pub open spec fn format_version(control2: u8) -> int {
    (control2 as int / 4) % 4
}

/// The mirroring that the first control byte selects: bit 3 asks for four
/// screens, otherwise bit 0 tells vertical from horizontal.
pub open spec fn mirroring_of(control1: u8) -> Mirroring {
    if (control1 as int / 8) % 2 == 1 {
        Mirroring::FOUR_SCREEN
    } else if control1 as int % 2 == 1 {
        Mirroring::VERTICAL
    } else {
        Mirroring::HORIZONTAL
    }
}

/// Whether bit 2 of the first control byte announces a trainer block.
pub open spec fn has_trainer(control1: u8) -> bool {
    (control1 as int / 4) % 2 == 1
}

/// The mapper number: high nibble from the second control byte, low nibble
/// from the high nibble of the first.
pub open spec fn mapper_of(control1: u8, control2: u8) -> u8 {
    ((control2 as int / 16) * 16 + control1 as int / 16) as u8
}

/// Where program ROM starts in `image`.
pub open spec fn prg_start(image: Seq<u8>) -> int {
    HEADER_SIZE + if has_trainer(image[6]) {
        TRAINER_SIZE as int
    } else {
        0
    }
}

/// Where character ROM starts in `image`.
pub open spec fn chr_start(image: Seq<u8>) -> int {
    prg_start(image) + image[4] as int * PRG_ROM_BANK_SIZE
}

/// Where the banks that the header announces end in `image`.
pub open spec fn image_end(image: Seq<u8>) -> int {
    chr_start(image) + image[5] as int * CHR_ROM_BANK_SIZE
}

/// The contents of a cartridge.
pub struct RomState {
    pub chr_rom: Seq<u8>,
    pub prg_rom: Seq<u8>,
    pub mapper_type: u8,
    pub mirror_mode: Mirroring,
}

/// What went wrong with an image, if anything.
pub enum ImageError {
    /// Too short for a header, wrong tag, or shorter than its banks.
    Invalid,
    /// A header of a later format version.
    Unsupported,
}

impl ImageError {
    pub open spec fn message(self) -> Seq<char> {
        match self {
            ImageError::Invalid => "Not a valid .NES file!"@,
            ImageError::Unsupported => "Only supports iNES1.0."@,
        }
    }
}

/// The cartridge that `image` describes, or why it describes none.
pub open spec fn parse_image(image: Seq<u8>) -> Result<RomState, ImageError> {
    if !has_header(image) {
        Err(ImageError::Invalid)
    } else if format_version(image[7]) != 0 {
        Err(ImageError::Unsupported)
    } else if image.len() < image_end(image) {
        Err(ImageError::Invalid)
    } else {
        Ok(
            RomState {
                chr_rom: image.subrange(chr_start(image), image_end(image)),
                prg_rom: image.subrange(prg_start(image), chr_start(image)),
                mapper_type: mapper_of(image[6], image[7]),
                mirror_mode: mirroring_of(image[6]),
            },
        )
    }
}

/// The four parts of a cartridge, read off an image by `read_image`.
pub struct ImageParts {
    pub chr_rom: Vec<u8>,
    pub prg_rom: Vec<u8>,
    pub mapper_type: u8,
    pub mirror_mode: Mirroring,
}

impl View for ImageParts {
    type V = RomState;

    open spec fn view(&self) -> RomState {
        RomState {
            chr_rom: self.chr_rom@,
            prg_rom: self.prg_rom@,
            mapper_type: self.mapper_type,
            mirror_mode: self.mirror_mode,
        }
    }
}

fn has_tag(rom: &Vec<u8>) -> (r: bool)
    ensures
        r == has_header(rom@),
{
    if rom.len() < HEADER_SIZE {
        return false;
    }
    let r = rom[0] == 0x4E && rom[1] == 0x45 && rom[2] == 0x53 && rom[3] == 0x1A;
    proof {
        let head = rom@.subrange(0, 4);
        assert(head.len() == 4);
        assert(head[0] == rom@[0] && head[1] == rom@[1] && head[2] == rom@[2] && head[3]
            == rom@[3]);
        assert(nes_tag().len() == 4);
        if r {
            assert(head =~= nes_tag());
        } else {
            assert(nes_tag()[0] == 0x4E && nes_tag()[1] == 0x45 && nes_tag()[2] == 0x53
                && nes_tag()[3] == 0x1A);
        }
    }
    r
}

/// Reads the header of `rom` and cuts the banks it announces out of it.
pub fn read_image(rom: &Vec<u8>) -> (r: Result<ImageParts, ImageError>)
    ensures
        match (r, parse_image(rom@)) {
            (Ok(parts), Ok(state)) => parts@ == state,
            (Err(e), Err(expected)) => e == expected,
            _ => false,
        },
{
    if !has_tag(rom) {
        return Err(ImageError::Invalid);
    }
    let control1 = rom[6];
    let control2 = rom[7];
    if (control2 / 4) % 4 != 0 {
        return Err(ImageError::Unsupported);
    }
    let mirror_mode = if (control1 / 8) % 2 == 1 {
        Mirroring::FOUR_SCREEN
    } else if control1 % 2 == 1 {
        Mirroring::VERTICAL
    } else {
        Mirroring::HORIZONTAL
    };
    let prg_rom_size = rom[4] as usize * PRG_ROM_BANK_SIZE;
    let chr_rom_size = rom[5] as usize * CHR_ROM_BANK_SIZE;
    let mapper_type = (control2 / 16) * 16 + control1 / 16;
    let trainer = (control1 / 4) % 2 == 1;
    let prg_rom_start = HEADER_SIZE + if trainer {
        TRAINER_SIZE
    } else {
        0
    };
    let chr_rom_start = prg_rom_start + prg_rom_size;
    let end = chr_rom_start + chr_rom_size;
    if rom.len() < end {
        return Err(ImageError::Invalid);
    }
    let prg_rom = slice_to_vec(slice_subrange(rom.as_slice(), prg_rom_start, chr_rom_start));
    let chr_rom = slice_to_vec(slice_subrange(rom.as_slice(), chr_rom_start, end));
    Ok(ImageParts { chr_rom, prg_rom, mapper_type, mirror_mode })
}

fn invalid_message() -> (r: String)
    ensures
        r@ == ImageError::Invalid.message(),
{
    "Not a valid .NES file!".to_owned()
}

fn unsupported_message() -> (r: String)
    ensures
        r@ == ImageError::Unsupported.message(),
{
    "Only supports iNES1.0.".to_owned()
}

/// The words in which an image is refused.
pub fn describe(error: ImageError) -> (r: String)
    ensures
        r@ == error.message(),
{
    match error {
        ImageError::Invalid => invalid_message(),
        ImageError::Unsupported => unsupported_message(),
    }
}

/// A cartridge: its two ROM images, its mapper number and its mirroring.
pub struct Rom {
    chr_rom: Vec<u8>,
    prg_rom: Vec<u8>,
    mapper_type: u8,
    mirror_mode: Mirroring,
}

impl View for Rom {
    type V = RomState;

    closed spec fn view(&self) -> RomState {
        RomState {
            chr_rom: self.chr_rom@,
            prg_rom: self.prg_rom@,
            mapper_type: self.mapper_type,
            mirror_mode: self.mirror_mode,
        }
    }
}

impl Rom {
    /// Reads a cartridge from an image. An image that is too short for its
    /// header or its banks, or does not open with the tag, is not valid; one
    /// with a later format version is not supported.
    pub fn new(rom: &Vec<u8>) -> (r: Result<Self, String>)
        ensures
            match (r, parse_image(rom@)) {
                (Ok(cartridge), Ok(state)) => cartridge@ == state,
                (Err(msg), Err(error)) => msg@ == error.message(),
                _ => false,
            },
    {
        match read_image(rom) {
            Ok(parts) => Ok(
                Rom {
                    chr_rom: parts.chr_rom,
                    prg_rom: parts.prg_rom,
                    mapper_type: parts.mapper_type,
                    mirror_mode: parts.mirror_mode,
                },
            ),
            Err(error) => Err(describe(error)),
        }
    }

    /// Hands the cartridge's parts over to the machine that will own them.
    pub fn into_parts(self) -> (parts: ImageParts)
        ensures
            parts@ == self@,
    {
        ImageParts {
            chr_rom: self.chr_rom,
            prg_rom: self.prg_rom,
            mapper_type: self.mapper_type,
            mirror_mode: self.mirror_mode,
        }
    }
}

impl Mem for Rom {
    open spec fn read_spec(s: RomState, addr: u16) -> (u8, RomState) {
        (prg_byte(s.prg_rom, addr), s)
    }

    open spec fn write_spec(s: RomState, addr: u16, data: u8) -> (Result<(), MemFault>, RomState) {
        (Err(MemFault::ProgramRom { addr }), s)
    }

    /// The byte of program ROM that bus address `addr` reads; an address
    /// below the ROM window reads as 0.
    fn mem_read(&mut self, addr: u16) -> (r: u8) {
        assert(Self::read_spec(old(self)@, addr) == (prg_byte(old(self)@.prg_rom, addr), old(self)@));
        if addr < 0x8000 {
            return 0;
        }
        let rom_relative_addr = (addr - 0x8000) as usize;
        let index = if rom_relative_addr >= 0x4000 && self.prg_rom.len() == 0x4000 {
            rom_relative_addr % 0x4000
        } else {
            rom_relative_addr
        };
        if index < self.prg_rom.len() {
            self.prg_rom[index]
        } else {
            0
        }
    }

    /// A cartridge is read-only: every write is rejected.
    fn mem_write(&mut self, addr: u16, data: u8) -> (r: Result<(), MemFault>) {
        assert(Self::write_spec(old(self)@, addr, data) == (
            Err::<(), MemFault>(MemFault::ProgramRom { addr }),
            old(self)@,
        ));
        Err(MemFault::ProgramRom { addr })
    }
}

/// The parts of an image, to be laid out one after the other.
pub struct TestRom {
    pub header: Vec<u8>,
    pub trainer: Option<Vec<u8>>,
    pub pgp_rom: Vec<u8>,
    pub chr_rom: Vec<u8>,
}

/// The trainer block of `rom`, empty where it has none.
pub open spec fn trainer_bytes(trainer: Option<Vec<u8>>) -> Seq<u8> {
    match trainer {
        Some(t) => t@,
        None => Seq::<u8>::empty(),
    }
}

/// Lays the parts of an image out one after the other: header, trainer,
/// program ROM, character ROM.
pub fn create_rom(rom: TestRom) -> (result: Vec<u8>)
    ensures
        result@ == rom.header@ + trainer_bytes(rom.trainer) + rom.pgp_rom@ + rom.chr_rom@,
{
    let mut result: Vec<u8> = Vec::new();
    result.extend_from_slice(rom.header.as_slice());
    match &rom.trainer {
        Some(t) => {
            result.extend_from_slice(t.as_slice());
        },
        None => {
            assert(result@ + Seq::<u8>::empty() =~= result@);
        },
    }
    result.extend_from_slice(rom.pgp_rom.as_slice());
    result.extend_from_slice(rom.chr_rom.as_slice());
    result
}

/// A cartridge for trying things out: two banks of program ROM filled with
/// 1, one bank of character ROM filled with 2, mapper 3, vertical mirroring.
pub fn test_rom() -> (r: Rom)
    ensures
        r@ == (RomState {
            chr_rom: Seq::new(CHR_ROM_BANK_SIZE as nat, |i: int| 2u8),
            prg_rom: Seq::new(2 * PRG_ROM_BANK_SIZE as nat, |i: int| 1u8),
            mapper_type: 3,
            mirror_mode: Mirroring::VERTICAL,
        }),
{
    let header: Vec<u8> = vec![
        0x4E, 0x45, 0x53, 0x1A, 0x02, 0x01, 0x31, 0, 0, 0, 0, 0, 0, 0, 0, 0,
    ];
    let pgp_rom: Vec<u8> = vec![1; 2 * PRG_ROM_BANK_SIZE];
    let chr_rom: Vec<u8> = vec![2; CHR_ROM_BANK_SIZE];
    let image = create_rom(TestRom { header, trainer: None, pgp_rom, chr_rom });
    proof {
        let bytes = image@;
        assert(bytes.len() == 16 + 2 * 16384 + 8192);
        assert(bytes[0] == 0x4E && bytes[1] == 0x45 && bytes[2] == 0x53 && bytes[3] == 0x1A);
        assert(bytes[4] == 2 && bytes[5] == 1 && bytes[6] == 0x31 && bytes[7] == 0);
        assert(bytes.subrange(0, 4) =~= nes_tag());
        assert(prg_start(bytes) == 16);
        assert(chr_start(bytes) == 16 + 2 * 16384);
        assert(image_end(bytes) == bytes.len());
        assert(bytes.subrange(16, 32784) =~= Seq::new(
            2 * PRG_ROM_BANK_SIZE as nat,
            |i: int| 1u8,
        ));
        assert(bytes.subrange(32784, 40976) =~= Seq::new(
            CHR_ROM_BANK_SIZE as nat,
            |i: int| 2u8,
        ));
        assert(parse_image(bytes) is Ok);
    }
    Rom::new(&image).unwrap()
}

} // verus!
