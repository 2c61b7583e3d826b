//! The PPU status register.

use crate::bits::{assign_bits, contains_bits};
use vstd::prelude::*;

verus! {

/// Three status flags in the top bits of one byte, read by the CPU.
#[derive(Clone, Copy, Debug)]
pub struct StatusRegister {
    bits: u8,
}

impl View for StatusRegister {
    type V = u8;

    closed spec fn view(&self) -> u8 {
        self.bits
    }
}

/// Whether status byte `bits` says the PPU is in vertical blanking.
pub open spec fn in_vblank(bits: u8) -> bool {
    contains_bits(bits, StatusRegister::IN_VBLANK)
}

impl StatusRegister {
    pub const UNUSED1: u8 = 0b0000_0001;

    pub const UNUSED2: u8 = 0b0000_0010;

    pub const UNUSED3: u8 = 0b0000_0100;

    pub const UNUSED4: u8 = 0b0000_1000;

    pub const UNUSED5: u8 = 0b0001_0000;

    pub const SPRITE_OVERFLOW: u8 = 0b0010_0000;

    pub const SPRITE_0_HIT: u8 = 0b0100_0000;

    pub const IN_VBLANK: u8 = 0b1000_0000;

    pub fn new() -> (r: Self)
        ensures
            r@ == 0,
    {
        StatusRegister { bits: 0 }
    }

    pub fn bits(&self) -> (r: u8)
        ensures
            r == self@,
    {
        self.bits
    }

    pub fn contains(&self, mask: u8) -> (r: bool)
        ensures
            r == contains_bits(self@, mask),
    {
        self.bits & mask == mask
    }

    pub fn set(&mut self, mask: u8, on: bool)
        ensures
            final(self)@ == assign_bits(old(self)@, mask, on),
    {
        if on {
            self.bits = self.bits | mask;
        } else {
            self.bits = self.bits & !mask;
        }
    }

    pub fn set_sprite_overflow(&mut self, status: bool)
        ensures
            final(self)@ == assign_bits(old(self)@, Self::SPRITE_OVERFLOW, status),
    {
        self.set(StatusRegister::SPRITE_OVERFLOW, status);
    }

    pub fn set_sprite_zero_hit(&mut self, status: bool)
        ensures
            final(self)@ == assign_bits(old(self)@, Self::SPRITE_0_HIT, status),
    {
        self.set(StatusRegister::SPRITE_0_HIT, status);
    }

    pub fn set_vblank(&mut self, status: bool)
        ensures
            final(self)@ == assign_bits(old(self)@, Self::IN_VBLANK, status),
    {
        self.set(StatusRegister::IN_VBLANK, status);
    }

    pub fn reset_vblank(&mut self)
        ensures
            final(self)@ == assign_bits(old(self)@, Self::IN_VBLANK, false),
    {
        self.set(StatusRegister::IN_VBLANK, false);
    }

    pub fn is_in_vblank(&self) -> (r: bool)
        ensures
            r == in_vblank(self@),
    {
        self.contains(StatusRegister::IN_VBLANK)
    }
}

} // verus!
