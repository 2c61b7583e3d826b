//! Byte-addressed devices and the violations they report.

use vstd::prelude::*;

verus! {

/// A write that a device rejected because the target is read-only.
#[derive(Clone, Copy, Debug, PartialEq, Eq, Structural)]
pub enum MemFault {
    /// A write into program ROM, at this CPU address.
    ProgramRom { addr: u16 },
    /// A write into character ROM, at this PPU address.
    CharacterRom { addr: u16 },
    /// A write to the PPU status register.
    StatusRegister,
}

/// The 16-bit value whose low byte is `lo` and whose high byte is `hi`.
pub open spec fn word(lo: u8, hi: u8) -> u16 {
    (hi as int * 256 + lo as int) as u16
}

/// The low byte of `value`.
pub open spec fn low_byte(value: u16) -> u8 {
    (value % 256) as u8
}

/// The high byte of `value`.
pub open spec fn high_byte(value: u16) -> u8 {
    (value / 256) as u8
}

pub fn make_word(lo: u8, hi: u8) -> (r: u16)
    ensures
        r == word(lo, hi),
        low_byte(r) == lo,
        high_byte(r) == hi,
{
    (hi as u16) * 256 + (lo as u16)
}

pub fn split_word(value: u16) -> (r: (u8, u8))
    ensures
        r.0 == low_byte(value),
        r.1 == high_byte(value),
        word(r.0, r.1) == value,
{
    ((value % 256) as u8, (value / 256) as u8)
}

/// A device that the CPU reads and writes one byte at a time.
///
/// Reads may change the device (hardware registers with read side effects),
/// so both operations are described by a function from the state before to
/// the result and the state after.
pub trait Mem: View + Sized {
    /// The byte read at `addr` and the state the read leaves behind.
    spec fn read_spec(s: Self::V, addr: u16) -> (u8, Self::V);

    /// Whether a write of `data` at `addr` is accepted, and the state it
    /// leaves behind.
    spec fn write_spec(s: Self::V, addr: u16, data: u8) -> (Result<(), MemFault>, Self::V);

    fn mem_read(&mut self, addr: u16) -> (r: u8)
        ensures
            (r, final(self)@) == Self::read_spec(old(self)@, addr),
    ;

    fn mem_write(&mut self, addr: u16, data: u8) -> (r: Result<(), MemFault>)
        ensures
            (r, final(self)@) == Self::write_spec(old(self)@, addr, data),
    ;

    /// Reads the little-endian word at `pos` and `pos + 1` (wrapping), low
    /// byte first.
    fn mem_read_u16(&mut self, pos: u16) -> (r: u16)
        ensures
            ({
                let (lo, mid) = Self::read_spec(old(self)@, pos);
                let (hi, end) = Self::read_spec(mid, pos.wrapping_add(1));
                r == word(lo, hi) && final(self)@ == end
            }),
    {
        let lo = self.mem_read(pos);
        let hi = self.mem_read(pos.wrapping_add(1));
        make_word(lo, hi)
    }

    /// Writes `data` as a little-endian word at `pos` and `pos + 1`
    /// (wrapping), low byte first. The high byte is written only if the low
    /// byte was accepted.
    fn mem_write_u16(&mut self, pos: u16, data: u16) -> (r: Result<(), MemFault>)
        ensures
            ({
                let (first, mid) = Self::write_spec(old(self)@, pos, low_byte(data));
                let (second, end) = Self::write_spec(mid, pos.wrapping_add(1), high_byte(data));
                if first is Err {
                    r == first && final(self)@ == mid
                } else {
                    r == second && final(self)@ == end
                }
            }),
    {
        let (lo, hi) = split_word(data);
        match self.mem_write(pos, lo) {
            Err(fault) => Err(fault),
            Ok(()) => self.mem_write(pos.wrapping_add(1), hi),
        }
    }
}

} // verus!
