//! The memory bus: routes each CPU address to work RAM, to a PPU register
//! or to program ROM.

use crate::mem::{Mem, MemFault};
use crate::ppu::registers::control::nmi_enabled;
use crate::ppu::{PpuState, PPU};
use crate::rom::{Rom, RomState};
use vstd::prelude::*;

verus! {

pub const RAM: u16 = 0x0000;

pub const RAM_MIRRORS_END: u16 = 0x1FFF;

pub const PPU_REGISTERS: u16 = 0x2000;

pub const PPU_REGISTERS_MIRRORS_END: u16 = 0x3FFF;

pub const ROM_START: u16 = 0x8000;

pub const RAM_SIZE: usize = 2048;

pub const PRG_ROM_BANK: usize = 0x4000;

/// The two devices whose addresses repeat across a window of the bus.
pub enum BusDevice {
    CPU,
    PPU,
}

/// The address inside `device` that bus address `addr` stands for: work RAM
/// repeats every 2 KB, the PPU registers every 8 bytes.
pub open spec fn mirror_addr(device: BusDevice, addr: u16) -> u16 {
    match device {
        BusDevice::CPU => addr & 0x7FF,
        BusDevice::PPU => addr & 0x2007,
    }
}

impl BusDevice {
    pub fn mirror_addr(&self, addr: u16) -> (r: u16)
        ensures
            r == mirror_addr(*self, addr),
            *self is CPU ==> r < RAM_SIZE,
    {
        match self {
            BusDevice::CPU => {
                assert(addr & 0x7FF < 2048) by (bit_vector);
                addr & 0x7FF
            },
            BusDevice::PPU => addr & 0x2007,
        }
    }
}

/// The byte of program ROM `prg_rom` that bus address `addr`
/// (`0x8000..=0xFFFF`) reads. A single 16 KB bank shows in both halves of
/// the window; an address beyond the image reads as 0.
pub open spec fn prg_byte(prg_rom: Seq<u8>, addr: u16) -> u8 {
    let offset = addr as int - ROM_START;
    let index = if offset >= PRG_ROM_BANK && prg_rom.len() == PRG_ROM_BANK {
        offset % (PRG_ROM_BANK as int)
    } else {
        offset
    };
    if 0 <= index < prg_rom.len() {
        prg_rom[index]
    } else {
        0
    }
}

/// The bus and the devices it owns.
pub struct Bus {
    vram: [u8; 2048],
    ppu: PPU,
    prg_rom: Vec<u8>,
}

/// What a `Bus` holds.
pub struct BusState {
    /// The 2 KB of work RAM.
    pub ram: Seq<u8>,
    pub ppu: PpuState,
    pub prg_rom: Seq<u8>,
}

impl BusState {
    /// A bus freshly switched on, with a cartridge plugged in.
    pub open spec fn power_on(rom: RomState) -> BusState {
        BusState {
            ram: Seq::new(RAM_SIZE as nat, |i: int| 0u8),
            ppu: PpuState::power_on(rom.chr_rom, rom.mirror_mode),
            prg_rom: rom.prg_rom,
        }
    }

    /// Whether work RAM has its size and the PPU is well formed.
    pub open spec fn wf(self) -> bool {
        self.ram.len() == RAM_SIZE && self.ppu.wf()
    }

    /// A read at `addr`: work RAM up to `0x1FFF`, a PPU register up to
    /// `0x3FFF` (with that register's side effects), program ROM from
    /// `0x8000`. Any other address reads as 0.
    #[verifier::opaque]
    pub open spec fn read(self, addr: u16) -> (u8, BusState) {
        if addr <= RAM_MIRRORS_END {
            (self.ram[mirror_addr(BusDevice::CPU, addr) as int], self)
        } else if addr <= PPU_REGISTERS_MIRRORS_END {
            let (value, ppu) = self.ppu.read_register(mirror_addr(BusDevice::PPU, addr));
            (value, BusState { ppu, ..self })
        } else if addr >= ROM_START {
            (prg_byte(self.prg_rom, addr), self)
        } else {
            (0, self)
        }
    }

    /// A write of `data` at `addr`: work RAM and the PPU registers take it,
    /// program ROM rejects it, any other address drops it.
    #[verifier::opaque]
    pub open spec fn write(self, addr: u16, data: u8) -> (Result<(), MemFault>, BusState) {
        if addr <= RAM_MIRRORS_END {
            (
                Ok(()),
                BusState {
                    ram: self.ram.update(mirror_addr(BusDevice::CPU, addr) as int, data),
                    ..self
                },
            )
        } else if addr <= PPU_REGISTERS_MIRRORS_END {
            let (accepted, ppu) = self.ppu.write_register(
                mirror_addr(BusDevice::PPU, addr),
                data,
            );
            (accepted, BusState { ppu, ..self })
        } else if addr >= ROM_START {
            (Err(MemFault::ProgramRom { addr }), self)
        } else {
            (Ok(()), self)
        }
    }

    /// The PPU moves on by `cycles` of its cycles.
    pub open spec fn tick(self, cycles: u8) -> (bool, BusState) {
        let (frame_complete, ppu) = self.ppu.tick(cycles);
        (frame_complete, BusState { ppu, ..self })
    }

    /// The CPU takes the PPU's interrupt request, if there is one.
    pub open spec fn poll_nmi(self) -> (Option<bool>, BusState) {
        let (request, ppu) = self.ppu.poll_nmi();
        (request, BusState { ppu, ..self })
    }
}

impl View for Bus {
    type V = BusState;

    closed spec fn view(&self) -> BusState {
        BusState { ram: self.vram@, ppu: self.ppu@, prg_rom: self.prg_rom@ }
    }
}

impl Bus {
    pub fn new(rom: Rom) -> (r: Self)
        ensures
            r@ == BusState::power_on(rom@),
            r@.wf(),
    {
        let parts = rom.into_parts();
        let ppu = PPU::new(parts.chr_rom, parts.mirror_mode);
        let r = Bus { vram: [0;2048], ppu, prg_rom: parts.prg_rom };
        assert(r@.ram =~= BusState::power_on(rom@).ram);
        r
    }

    fn prg_read(&self, addr: u16) -> (r: u8)
        requires
            addr >= ROM_START,
        ensures
            r == prg_byte(self@.prg_rom, addr),
    {
        let rom_relative_addr = (addr - ROM_START) as usize;
        let index = if rom_relative_addr >= PRG_ROM_BANK && self.prg_rom.len() == PRG_ROM_BANK {
            rom_relative_addr % PRG_ROM_BANK
        } else {
            rom_relative_addr
        };
        if index < self.prg_rom.len() {
            self.prg_rom[index]
        } else {
            0
        }
    }

    /// Every `Bus` is well formed; this brings the fact into a proof.
    pub fn well_formed(&self)
        ensures
            self@.wf(),
    {
        self.ppu.well_formed();
    }

    /// The PPU, for whoever draws what it holds.
    pub fn ppu(&self) -> (r: &PPU)
        ensures
            r@ == self@.ppu,
    {
        &self.ppu
    }

    /// The byte that a read at `addr` would return, without the side
    /// effects of reading it.
    pub fn peek(&self, addr: u16) -> (r: u8)
        ensures
            r == self@.read(addr).0,
    {
        reveal(BusState::read);
        if addr <= RAM_MIRRORS_END {
            self.vram[BusDevice::CPU.mirror_addr(addr) as usize]
        } else if addr <= PPU_REGISTERS_MIRRORS_END {
            self.ppu.peek_register(BusDevice::PPU.mirror_addr(addr))
        } else if addr >= ROM_START {
            self.prg_read(addr)
        } else {
            0
        }
    }

    /// Advances the PPU by `cycles` of its cycles, and tells whether that
    /// completed a frame.
    pub fn tick(&mut self, cycles: u8) -> (frame_complete: bool)
        ensures
            (frame_complete, final(self)@) == old(self)@.tick(cycles),
    {
        self.ppu.tick(cycles)
    }

    /// Takes the PPU's interrupt request, if there is one.
    pub fn poll_nmi_status(&mut self) -> (r: Option<bool>)
        ensures
            (r, final(self)@) == old(self)@.poll_nmi(),
    {
        self.ppu.poll_nmi()
    }
}

impl Mem for Bus {
    open spec fn read_spec(s: BusState, addr: u16) -> (u8, BusState) {
        s.read(addr)
    }

    open spec fn write_spec(s: BusState, addr: u16, data: u8) -> (Result<(), MemFault>, BusState) {
        s.write(addr, data)
    }

    fn mem_read(&mut self, addr: u16) -> (r: u8) {
        reveal(BusState::read);
        assert(Self::read_spec(old(self)@, addr) == old(self)@.read(addr));
        if addr <= RAM_MIRRORS_END {
            self.vram[BusDevice::CPU.mirror_addr(addr) as usize]
        } else if addr <= PPU_REGISTERS_MIRRORS_END {
            self.ppu.mem_read(BusDevice::PPU.mirror_addr(addr))
        } else if addr >= ROM_START {
            self.prg_read(addr)
        } else {
            0
        }
    }

    fn mem_write(&mut self, addr: u16, data: u8) -> (r: Result<(), MemFault>) {
        reveal(BusState::write);
        assert(Self::write_spec(old(self)@, addr, data) == old(self)@.write(addr, data));
        if addr <= RAM_MIRRORS_END {
            self.vram[BusDevice::CPU.mirror_addr(addr) as usize] = data;
            Ok(())
        } else if addr <= PPU_REGISTERS_MIRRORS_END {
            self.ppu.mem_write(BusDevice::PPU.mirror_addr(addr), data)
        } else if addr >= ROM_START {
            Err(MemFault::ProgramRom { addr })
        } else {
            Ok(())
        }
    }
}

/// Addresses inside the first 2 KB stand for themselves in work RAM.
pub proof fn lemma_low_addresses_are_cells(addr: u16)
    requires
        addr < RAM_SIZE,
    ensures
        mirror_addr(BusDevice::CPU, addr) == addr,
{
    assert(addr < 2048 ==> addr & 0x7FF == addr) by (bit_vector);
}

/// A write into the RAM window is accepted and changes one cell of work
/// RAM and nothing else.
pub proof fn lemma_ram_write(s: BusState, addr: u16, data: u8)
    requires
        addr <= RAM_MIRRORS_END,
    ensures
        s.write(addr, data) == (
            Ok::<(), MemFault>(()),
            BusState { ram: s.ram.update(mirror_addr(BusDevice::CPU, addr) as int, data), ..s },
        ),
        mirror_addr(BusDevice::CPU, addr) < RAM_SIZE,
{
    reveal(BusState::write);
    assert(addr & 0x7FF < 2048) by (bit_vector);
}

/// A read in the RAM window returns the cell and changes nothing.
pub proof fn lemma_ram_read(s: BusState, addr: u16)
    requires
        addr <= RAM_MIRRORS_END,
    ensures
        s.read(addr) == (s.ram[mirror_addr(BusDevice::CPU, addr) as int], s),
        mirror_addr(BusDevice::CPU, addr) < RAM_SIZE,
{
    reveal(BusState::read);
    assert(addr & 0x7FF < 2048) by (bit_vector);
}

/// No read changes work RAM or program ROM: only the PPU has registers
/// that a read disturbs.
pub proof fn lemma_read_keeps_memory(s: BusState, addr: u16)
    ensures
        s.read(addr).1.ram == s.ram,
        s.read(addr).1.prg_rom == s.prg_rom,
{
    reveal(BusState::read);
}

/// No read raises or takes an interrupt request, or changes whether the
/// PPU may raise one.
pub proof fn lemma_read_keeps_interrupts(s: BusState, addr: u16)
    ensures
        s.read(addr).1.ppu.control == s.ppu.control,
        s.read(addr).1.ppu.nmi == s.ppu.nmi,
{
    reveal(BusState::read);
}

/// While the control register does not ask for interrupts and none is
/// pending, time passes without one: a tick leaves none to take, and
/// changes neither work RAM nor program ROM nor the control register.
pub proof fn lemma_tick_without_interrupts(s: BusState, cycles: u8)
    requires
        !nmi_enabled(s.ppu.control),
        s.ppu.nmi is None,
    ensures
        ({
            let ticked = s.tick(cycles).1;
            &&& ticked.ram == s.ram
            &&& ticked.prg_rom == s.prg_rom
            &&& ticked.ppu.control == s.ppu.control
            &&& ticked.ppu.nmi is None
            &&& ticked.poll_nmi() == (None::<bool>, ticked)
        }),
{
}

/// No read, write, tick or poll makes a well-formed bus ill formed.
pub proof fn law_bus_keeps_wf(s: BusState, addr: u16, data: u8, cycles: u8)
    requires
        s.wf(),
    ensures
        s.read(addr).1.wf(),
        s.write(addr, data).1.wf(),
        s.tick(cycles).1.wf(),
        s.poll_nmi().1.wf(),
{
    reveal(BusState::read);
    reveal(BusState::write);
    crate::ppu::law_registers_keep_wf(s.ppu, mirror_addr(BusDevice::PPU, addr), data);
    crate::ppu::law_clock_counts_cycles(s.ppu, cycles);
    assert(addr & 0x7FF < 2048) by (bit_vector);
}

/// Work RAM shows four times in its window: a byte written at any address
/// of the window is read back at each of the four addresses that stand for
/// its cell, and reading it changes nothing.
pub proof fn law_ram_mirrors(s: BusState, addr: u16, data: u8, k: int)
    requires
        s.wf(),
        addr <= RAM_MIRRORS_END,
        0 <= k < 4,
    ensures
        ({
            let (accepted, written) = s.write(addr, data);
            let alias = (addr % 0x800 + k * 0x800) as u16;
            accepted is Ok && written.read(alias) == (data, written)
        }),
{
    let alias = (addr % 0x800 + k * 0x800) as u16;
    lemma_ram_write(s, addr, data);
    lemma_ram_read(s.write(addr, data).1, alias);
    assert(addr & 0x7FF == addr % 0x800) by (bit_vector);
    assert(alias & 0x7FF == alias % 0x800) by (bit_vector);
}

/// The eight PPU registers repeat through their window: an access at any
/// address of it is the access at `addr & 0x2007`.
pub proof fn law_ppu_registers_mirror(s: BusState, addr: u16, data: u8)
    requires
        PPU_REGISTERS <= addr <= PPU_REGISTERS_MIRRORS_END,
    ensures
        PPU_REGISTERS <= addr & 0x2007 <= 0x2007,
        s.read(addr) == s.read(addr & 0x2007),
        s.write(addr, data) == s.write(addr & 0x2007, data),
        addr + 8 <= PPU_REGISTERS_MIRRORS_END ==> s.read((addr + 8) as u16) == s.read(addr),
{
    reveal(BusState::read);
    reveal(BusState::write);
    assert(0x2000 <= addr <= 0x3FFF ==> 0x2000 <= addr & 0x2007 <= 0x2007 && (addr & 0x2007)
        & 0x2007 == addr & 0x2007) by (bit_vector);
    if addr + 8 <= PPU_REGISTERS_MIRRORS_END {
        let next = (addr + 8) as u16;
        assert(0x2000 <= addr && next <= 0x3FFF && next == addr + 8 ==> next & 0x2007 == addr
            & 0x2007) by (bit_vector);
    }
}

} // verus!
