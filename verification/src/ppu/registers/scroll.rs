//! The PPU scroll register.

use vstd::prelude::*;

verus! {

/// The horizontal and vertical scroll offsets, written one after the other.
pub struct ScrollRegister {
    scroll_x: u8,
    scroll_y: u8,
    address_latch: bool,
}

/// What a `ScrollRegister` holds.
pub struct ScrollState {
    pub x: u8,
    pub y: u8,
    /// Whether the next byte written is the vertical offset.
    pub y_next: bool,
}

impl ScrollState {
    pub open spec fn write(self, data: u8) -> ScrollState {
        if self.y_next {
            ScrollState { y: data, y_next: false, ..self }
        } else {
            ScrollState { x: data, y_next: true, ..self }
        }
    }

    pub open spec fn reset_latch(self) -> ScrollState {
        ScrollState { y_next: false, ..self }
    }
}

impl View for ScrollRegister {
    type V = ScrollState;

    closed spec fn view(&self) -> ScrollState {
        ScrollState { x: self.scroll_x, y: self.scroll_y, y_next: self.address_latch }
    }
}

impl ScrollRegister {
    pub fn new() -> (r: Self)
        ensures
            r@ == (ScrollState { x: 0, y: 0, y_next: false }),
    {
        ScrollRegister { scroll_x: 0, scroll_y: 0, address_latch: false }
    }

    /// The horizontal offset.
    pub fn x(&self) -> (r: u8)
        ensures
            r == self@.x,
    {
        self.scroll_x
    }

    /// The vertical offset.
    pub fn y(&self) -> (r: u8)
        ensures
            r == self@.y,
    {
        self.scroll_y
    }

    /// Takes one offset: the horizontal one first, then the vertical one,
    /// and so on in turn.
    pub fn write(&mut self, data: u8)
        ensures
            final(self)@ == old(self)@.write(data),
    {
        if self.address_latch {
            self.scroll_y = data;
        } else {
            self.scroll_x = data;
        }
        self.address_latch = !self.address_latch;
    }

    /// Makes the next byte written the horizontal offset again.
    pub fn reset_latch(&mut self)
        ensures
            final(self)@ == old(self)@.reset_latch(),
    {
        self.address_latch = false;
    }
}

} // verus!
