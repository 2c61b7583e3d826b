//! The PPU control register.

use crate::bits::contains_bits;
use vstd::prelude::*;

verus! {

/// Eight control flags, written by the CPU in one byte.
#[derive(Clone, Copy, Debug)]
pub struct ControlRegister {
    bits: u8,
}

impl View for ControlRegister {
    type V = u8;

    closed spec fn view(&self) -> u8 {
        self.bits
    }
}

/// The base address of the nametable that control byte `bits` selects.
pub open spec fn nametable_address(bits: u8) -> u16 {
    (0x2000 + 0x400 * (bits % 4)) as u16
}

/// How far the VRAM pointer moves after each data access.
pub open spec fn vram_jump_dist(bits: u8) -> u8 {
    if contains_bits(bits, ControlRegister::VRAM_INCREMENT_MODE) {
        32
    } else {
        1
    }
}

/// Whether control byte `bits` asks for an interrupt on entering vblank.
pub open spec fn nmi_enabled(bits: u8) -> bool {
    contains_bits(bits, ControlRegister::GENERATE_NMI)
}

impl ControlRegister {
    pub const NAMETABLE_1: u8 = 0b0000_0001;

    pub const NAMETABLE_2: u8 = 0b0000_0010;

    pub const VRAM_INCREMENT_MODE: u8 = 0b0000_0100;

    pub const SPRITE_PATTERN_ADDR: u8 = 0b0000_1000;

    pub const BACKGROUND_PATTERN_ADDR: u8 = 0b0001_0000;

    pub const SPRITE_SIZE: u8 = 0b0010_0000;

    pub const MASTER_SLAVE_SELECT: u8 = 0b0100_0000;

    pub const GENERATE_NMI: u8 = 0b1000_0000;

    pub fn new() -> (r: Self)
        ensures
            r@ == 0,
    {
        ControlRegister { bits: 0 }
    }

    pub fn bits(&self) -> (r: u8)
        ensures
            r == self@,
    {
        self.bits
    }

    pub fn contains(&self, mask: u8) -> (r: bool)
        ensures
            r == contains_bits(self@, mask),
    {
        self.bits & mask == mask
    }

    pub fn update(&mut self, data: u8)
        ensures
            final(self)@ == data,
    {
        self.bits = data;
    }

    pub fn get_nametable_address(&self) -> (r: u16)
        ensures
            r == nametable_address(self@),
    {
        0x2000 + 0x400 * ((self.bits % 4) as u16)
    }

    pub fn get_vram_jump_dist(&self) -> (r: u8)
        ensures
            r == vram_jump_dist(self@),
    {
        if self.contains(ControlRegister::VRAM_INCREMENT_MODE) {
            32
        } else {
            1
        }
    }

    pub fn get_sprite_pattern_table_address(&self) -> (r: u16)
        ensures
            r == if contains_bits(self@, Self::SPRITE_PATTERN_ADDR) {
                0x1000u16
            } else {
                0x0000u16
            },
    {
        if self.contains(ControlRegister::SPRITE_PATTERN_ADDR) {
            0x1000
        } else {
            0x0000
        }
    }

    pub fn get_background_pattern_table_address(&self) -> (r: u16)
        ensures
            r == if contains_bits(self@, Self::BACKGROUND_PATTERN_ADDR) {
                0x1000u16
            } else {
                0x0000u16
            },
    {
        if self.contains(ControlRegister::BACKGROUND_PATTERN_ADDR) {
            0x1000
        } else {
            0x0000
        }
    }

    pub fn get_sprite_size(&self) -> (r: u8)
        ensures
            r == if contains_bits(self@, Self::SPRITE_SIZE) {
                16u8
            } else {
                8u8
            },
    {
        if self.contains(ControlRegister::SPRITE_SIZE) {
            16
        } else {
            8
        }
    }

    pub fn get_master_slave_selection(&self) -> (r: u8)
        ensures
            r == if contains_bits(self@, Self::MASTER_SLAVE_SELECT) {
                1u8
            } else {
                0u8
            },
    {
        if self.contains(ControlRegister::MASTER_SLAVE_SELECT) {
            1
        } else {
            0
        }
    }

    pub fn generate_nmi(&self) -> (r: bool)
        ensures
            r == nmi_enabled(self@),
    {
        self.contains(ControlRegister::GENERATE_NMI)
    }
}

} // verus!
