//! A cartridge as the loader hands it over.

use crate::rom::{describe, parse_image, read_image, RomState};
use vstd::prelude::*;

pub use crate::rom::Mirroring;

verus! {

/// The contents of a cartridge image.
pub struct Cartridge {
    chr_rom: Vec<u8>,
    prg_rom: Vec<u8>,
    mapper_type: u8,
    mirror_mode: Mirroring,
}

impl View for Cartridge {
    type V = RomState;

    closed spec fn view(&self) -> RomState {
        RomState {
            chr_rom: self.chr_rom@,
            prg_rom: self.prg_rom@,
            mapper_type: self.mapper_type,
            mirror_mode: self.mirror_mode,
        }
    }
}

impl Cartridge {
    /// Reads a cartridge from an image, or says in words why the image is
    /// refused.
    pub fn new(rom: &Vec<u8>) -> (r: Result<Self, String>)
        ensures
            match (r, parse_image(rom@)) {
                (Ok(cartridge), Ok(state)) => cartridge@ == state,
                (Err(msg), Err(error)) => msg@ == error.message(),
                _ => false,
            },
    {
        match read_image(rom) {
            Ok(parts) => Ok(
                Cartridge {
                    chr_rom: parts.chr_rom,
                    prg_rom: parts.prg_rom,
                    mapper_type: parts.mapper_type,
                    mirror_mode: parts.mirror_mode,
                },
            ),
            Err(error) => Err(describe(error)),
        }
    }

    pub fn chr_rom(&self) -> (r: &Vec<u8>)
        ensures
            r@ == self@.chr_rom,
    {
        &self.chr_rom
    }

    pub fn prg_rom(&self) -> (r: &Vec<u8>)
        ensures
            r@ == self@.prg_rom,
    {
        &self.prg_rom
    }

    pub fn mapper_type(&self) -> (r: u8)
        ensures
            r == self@.mapper_type,
    {
        self.mapper_type
    }

    pub fn mirror_mode(&self) -> (r: Mirroring)
        ensures
            r == self@.mirror_mode,
    {
        self.mirror_mode
    }
}

} // verus!
