//! The PPU mask register.

use crate::bits::contains_bits;
use vstd::prelude::*;

verus! {

/// Eight rendering toggles, written by the CPU in one byte.
#[derive(Clone, Copy, Debug)]
pub struct MaskRegister {
    bits: u8,
}

/// A colour channel that the mask register can emphasise.
#[derive(Clone, Copy, Debug, PartialEq, Eq, Structural)]
pub enum Colour {
    RED,
    GREEN,
    BLUE,
}

impl View for MaskRegister {
    type V = u8;

    closed spec fn view(&self) -> u8 {
        self.bits
    }
}

/// The channels that mask byte `bits` emphasises: red, green, blue, in that
/// order, each present when its bit is set.
pub open spec fn emphasised(bits: u8) -> Seq<Colour> {
    let red = if contains_bits(bits, MaskRegister::EMPHASISE_RED) {
        seq![Colour::RED]
    } else {
        Seq::<Colour>::empty()
    };
    let green = if contains_bits(bits, MaskRegister::EMPHASISE_GREEN) {
        seq![Colour::GREEN]
    } else {
        Seq::<Colour>::empty()
    };
    let blue = if contains_bits(bits, MaskRegister::EMPHASISE_BLUE) {
        seq![Colour::BLUE]
    } else {
        Seq::<Colour>::empty()
    };
    red + green + blue
}

impl MaskRegister {
    pub const GREYSCALE: u8 = 0b0000_0001;

    pub const SHOW_8LEFTMOST_BACKGROUND: u8 = 0b0000_0010;

    pub const SHOW_8LEFTMOST_SPRITES: u8 = 0b0000_0100;

    pub const SHOW_BACKGROUND: u8 = 0b0000_1000;

    pub const SHOW_SPRITES: u8 = 0b0001_0000;

    pub const EMPHASISE_RED: u8 = 0b0010_0000;

    pub const EMPHASISE_GREEN: u8 = 0b0100_0000;

    pub const EMPHASISE_BLUE: u8 = 0b1000_0000;

    pub fn new() -> (r: Self)
        ensures
            r@ == 0,
    {
        MaskRegister { bits: 0 }
    }

    pub fn bits(&self) -> (r: u8)
        ensures
            r == self@,
    {
        self.bits
    }

    pub fn contains(&self, mask: u8) -> (r: bool)
        ensures
            r == contains_bits(self@, mask),
    {
        self.bits & mask == mask
    }

    pub fn update(&mut self, data: u8)
        ensures
            final(self)@ == data,
    {
        self.bits = data;
    }

    pub fn is_greyscale(&self) -> (r: bool)
        ensures
            r == contains_bits(self@, Self::GREYSCALE),
    {
        self.contains(MaskRegister::GREYSCALE)
    }

    pub fn show_leftmost_background(&self) -> (r: bool)
        ensures
            r == contains_bits(self@, Self::SHOW_8LEFTMOST_BACKGROUND),
    {
        self.contains(MaskRegister::SHOW_8LEFTMOST_BACKGROUND)
    }

    pub fn show_leftmost_sprites(&self) -> (r: bool)
        ensures
            r == contains_bits(self@, Self::SHOW_8LEFTMOST_SPRITES),
    {
        self.contains(MaskRegister::SHOW_8LEFTMOST_SPRITES)
    }

    pub fn show_background(&self) -> (r: bool)
        ensures
            r == contains_bits(self@, Self::SHOW_BACKGROUND),
    {
        self.contains(MaskRegister::SHOW_BACKGROUND)
    }

    pub fn show_sprites(&self) -> (r: bool)
        ensures
            r == contains_bits(self@, Self::SHOW_SPRITES),
    {
        self.contains(MaskRegister::SHOW_SPRITES)
    }

    pub fn emphasise(&self) -> (colours: Vec<Colour>)
        ensures
            colours@ == emphasised(self@),
    {
        let mut colours: Vec<Colour> = Vec::new();
        if self.contains(MaskRegister::EMPHASISE_RED) {
            colours.push(Colour::RED);
        }
        if self.contains(MaskRegister::EMPHASISE_GREEN) {
            colours.push(Colour::GREEN);
        }
        if self.contains(MaskRegister::EMPHASISE_BLUE) {
            colours.push(Colour::BLUE);
        }
        assert(colours@ =~= emphasised(self@));
        colours
    }
}

} // verus!
