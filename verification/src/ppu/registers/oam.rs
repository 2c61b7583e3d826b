//! Object attribute memory: the sprite table and the pointer into it.

use vstd::prelude::*;

verus! {

/// A 256-byte table and the 8-bit pointer into it.
pub struct Oam {
    addr: u8,
    data: [u8; 256],
}

/// What an `Oam` holds.
pub struct OamState {
    pub addr: u8,
    pub data: Seq<u8>,
}

impl OamState {
    /// Whether the table has its size.
    pub open spec fn wf(self) -> bool {
        self.data.len() == 256
    }

    pub open spec fn write_data(self, data: u8) -> OamState {
        OamState {
            addr: self.addr.wrapping_add(1),
            data: self.data.update(self.addr as int, data),
        }
    }
}

impl View for Oam {
    type V = OamState;

    closed spec fn view(&self) -> OamState {
        OamState { addr: self.addr, data: self.data@ }
    }
}

impl Oam {
    pub fn new() -> (r: Self)
        ensures
            r@.addr == 0,
            r@.wf(),
            forall|i: int| 0 <= i < 256 ==> r@.data[i] == 0,
    {
        Oam { addr: 0, data: [0;256] }
    }

    /// Every `Oam` is well formed; this brings the fact into a proof.
    pub fn well_formed(&self)
        ensures
            self@.wf(),
    {
    }

    pub fn write_addr(&mut self, addr: u8)
        ensures
            final(self)@ == (OamState { addr, ..old(self)@ }),
    {
        self.addr = addr;
    }

    /// The byte under the pointer. Reading leaves the pointer where it is.
    pub fn read_data(&self) -> (r: u8)
        ensures
            r == self@.data[self@.addr as int],
    {
        self.data[self.addr as usize]
    }

    /// Stores `data` under the pointer and advances it by one, wrapping.
    pub fn write_data(&mut self, data: u8)
        ensures
            final(self)@ == old(self)@.write_data(data),
    {
        self.data[self.addr as usize] = data;
        self.addr = self.addr.wrapping_add(1);
    }
}

} // verus!
