//! The PPU's VRAM address register.

use vstd::prelude::*;

verus! {

/// The highest address of PPU memory; larger values fold back into range.
pub const BEFORE_MIRROR_RANGE: u16 = 0x3FFF;

/// A 16-bit VRAM pointer that the CPU fills one byte at a time.
pub struct AddressRegister {
    ppu_address: (u8, u8),
    address_latch: bool,
}

/// What an `AddressRegister` holds.
pub struct AddressState {
    /// The pointer.
    pub value: u16,
    /// Whether the next byte written is the high byte.
    pub high_next: bool,
}

impl AddressState {
    /// The pointer folded into `0x0000..=0x3FFF`.
    pub open spec fn fold(value: int) -> u16 {
        (value % 0x4000) as u16
    }

    pub open spec fn write(self, data: u8) -> AddressState {
        let raw: int = if self.high_next {
            data as int * 256 + self.value % 256
        } else {
            (self.value / 256) * 256 + data as int
        };
        AddressState { value: Self::fold(raw), high_next: !self.high_next }
    }

    pub open spec fn increment(self, by: u8) -> AddressState {
        AddressState { value: Self::fold(self.value + by), ..self }
    }

    pub open spec fn reset_latch(self) -> AddressState {
        AddressState { high_next: true, ..self }
    }
}

impl View for AddressRegister {
    type V = AddressState;

    closed spec fn view(&self) -> AddressState {
        AddressState {
            value: (self.ppu_address.0 as int * 256 + self.ppu_address.1 as int) as u16,
            high_next: self.address_latch,
        }
    }
}

impl AddressRegister {
    pub fn new() -> (r: Self)
        ensures
            r@ == (AddressState { value: 0, high_next: true }),
    {
        AddressRegister { ppu_address: (0, 0), address_latch: true }
    }

    pub fn get(&self) -> (r: u16)
        ensures
            r == self@.value,
    {
        (self.ppu_address.0 as u16) * 256 + (self.ppu_address.1 as u16)
    }

    fn set(&mut self, addr: u16)
        ensures
            final(self)@.value == addr,
            final(self)@.high_next == old(self)@.high_next,
    {
        self.ppu_address.0 = (addr / 256) as u8;
        self.ppu_address.1 = (addr % 256) as u8;
    }

    /// Makes the next byte written the high byte again.
    pub fn reset_latch(&mut self)
        ensures
            final(self)@ == old(self)@.reset_latch(),
    {
        self.address_latch = true;
    }

    /// Takes one byte of the pointer: the high byte first, then the low
    /// byte, and so on in turn. The pointer is folded into range after each.
    pub fn write(&mut self, addr: u8)
        ensures
            final(self)@ == old(self)@.write(addr),
    {
        if self.address_latch {
            self.ppu_address.0 = addr;
        } else {
            self.ppu_address.1 = addr;
        }
        self.mirror();
        self.address_latch = !self.address_latch;
    }

    /// Advances the pointer by `increment`, wrapping inside `0x0000..=0x3FFF`.
    pub fn increment(&mut self, increment: u8)
        ensures
            final(self)@ == old(self)@.increment(increment),
    {
        let old_val = self.ppu_address.1;
        self.ppu_address.1 = old_val.wrapping_add(increment);
        if old_val > self.ppu_address.1 {
            self.ppu_address.0 = self.ppu_address.0.wrapping_add(1);
        }
        self.mirror();
    }

    /// Folds the pointer into `0x0000..=0x3FFF`.
    pub fn mirror(&mut self)
        ensures
            final(self)@.value == AddressState::fold(old(self)@.value as int),
            final(self)@.high_next == old(self)@.high_next,
    {
        let full_address = self.get();
        if full_address <= BEFORE_MIRROR_RANGE {
            return ;
        }
        self.set(full_address % 0x4000);
    }
}

} // verus!
