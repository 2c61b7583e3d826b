//! The picture-processing unit as the CPU sees it: eight registers with
//! their read and write side effects, the memory behind the data register, and
//! the scanline counter that raises the vertical-blanking interrupt.

pub mod registers;

use crate::bits::{assign_bits, contains_bits, lemma_assign_bits};
use crate::mem::{Mem, MemFault};
use crate::ppu::registers::address::{AddressRegister, AddressState};
use crate::ppu::registers::control::{nmi_enabled, vram_jump_dist, ControlRegister};
use crate::ppu::registers::mask::MaskRegister;
use crate::ppu::registers::oam::{Oam, OamState};
use crate::ppu::registers::scroll::{ScrollRegister, ScrollState};
use crate::ppu::registers::status::{in_vblank, StatusRegister};
use crate::rom::Mirroring;
use vstd::prelude::*;

verus! {

pub const NAME_TABLE_SIZE: u16 = 0x400;

pub const CHR_ROM_END_ADDR: u16 = 0x1FFF;

pub const NAME_TABLE_START_ADDR: u16 = 0x2000;

pub const NAME_TABLE_END_ADDR: u16 = 0x2FFF;

pub const PALETTE_START_ADDR: u16 = 0x3F00;

pub const BEFORE_MIRROR_RANGE: u16 = 0x3FFF;

pub const SCAN_LINES_PER_FRAME: u16 = 262;

pub const CLOCK_CYCLES_PER_SCAN_LINE: usize = 341;

pub const SCAN_LINE_INTERRUPT: u16 = 241;

pub const VRAM_SIZE: usize = 2048;

pub const PALETTE_SIZE: usize = 32;

/// The register and timing model of the PPU.
pub struct PPU {
    chr_rom: Vec<u8>,
    mirror_mode: Mirroring,
    palette_table: [u8; 32],
    vram: [u8; 2048],
    control: ControlRegister,
    addr: AddressRegister,
    scroll: ScrollRegister,
    status: StatusRegister,
    mask: MaskRegister,
    oam: Oam,
    data_buffer: u8,
    clock: Clock,
    nmi: Option<bool>,
}

/// The position of the raster beam: a scanline of the frame and the PPU
/// cycles spent on it.
pub struct Clock {
    scan_line: u16,
    cycles: usize,
}

/// What a `PPU` holds.
pub struct PpuState {
    pub chr_rom: Seq<u8>,
    pub mirror_mode: Mirroring,
    pub palette_table: Seq<u8>,
    pub vram: Seq<u8>,
    pub control: u8,
    pub addr: AddressState,
    pub scroll: ScrollState,
    pub status: u8,
    pub mask: u8,
    pub oam: OamState,
    /// The byte that the next buffered read of the data register returns.
    pub data_buffer: u8,
    /// The scanline being drawn, `0..262`.
    pub scan_line: nat,
    /// PPU cycles spent on this scanline, `0..341`.
    pub cycles: nat,
    /// The interrupt request, until the CPU takes it.
    pub nmi: Option<bool>,
}

/// The physical 1 KB window of video RAM that logical nametable `window`
/// (`0..4`) lies in.
pub open spec fn physical_window(mode: Mirroring, window: int) -> int {
    match mode {
        Mirroring::HORIZONTAL => window / 2,
        Mirroring::VERTICAL => window % 2,
        Mirroring::FOUR_SCREEN => window,
    }
}

/// The offset into video RAM of nametable-space address `addr`. With four
/// screens the offset of the last two windows lies beyond the 2 KB that the
/// PPU owns.
pub open spec fn mirror_vram(mode: Mirroring, addr: u16) -> int {
    let offset = addr as int % 0x1000;
    physical_window(mode, offset / 0x400) * 0x400 + offset % 0x400
}

/// The palette entry that palette-space address `addr`
/// (`0x3F00..=0x3FFF`) names: the offset from `0x3F00`, with `0x10`,
/// `0x14`, `0x18` and `0x1C` folded onto `0x00`, `0x04`, `0x08` and `0x0C`.
/// Offsets from `0x20` on name no entry.
pub open spec fn palette_index(addr: u16) -> int {
    let offset = addr as int - 0x3F00;
    if offset == 0x10 || offset == 0x14 || offset == 0x18 || offset == 0x1C {
        offset - 0x10
    } else {
        offset
    }
}

impl PpuState {
    /// A PPU freshly switched on, with the cartridge's character ROM and
    /// mirroring.
    pub open spec fn power_on(chr_rom: Seq<u8>, mirror_mode: Mirroring) -> PpuState {
        PpuState {
            chr_rom,
            mirror_mode,
            palette_table: Seq::new(32, |i: int| 0u8),
            vram: Seq::new(2048, |i: int| 0u8),
            control: 0,
            addr: AddressState { value: 0, high_next: true },
            scroll: ScrollState { x: 0, y: 0, y_next: false },
            status: 0,
            mask: 0,
            oam: OamState { addr: 0, data: Seq::new(256, |i: int| 0u8) },
            data_buffer: 0,
            scan_line: 0,
            cycles: 0,
            nmi: None,
        }
    }

    /// Whether the memories have their sizes and the clock is inside the
    /// frame.
    pub open spec fn wf(self) -> bool {
        &&& self.palette_table.len() == PALETTE_SIZE
        &&& self.vram.len() == VRAM_SIZE
        &&& self.oam.wf()
        &&& self.scan_line < SCAN_LINES_PER_FRAME
        &&& self.cycles < CLOCK_CYCLES_PER_SCAN_LINE
    }

    /// How many PPU cycles of the frame have passed.
    pub open spec fn position(self) -> nat {
        self.scan_line * CLOCK_CYCLES_PER_SCAN_LINE as nat + self.cycles
    }

    /// The byte that PPU address `addr` holds: character ROM up to
    /// `0x1FFF`, video RAM through the mirroring up to `0x2FFF`, the palette
    /// from `0x3F00` to `0x3FFF`. An address with nothing behind it holds 0.
    pub open spec fn cell(self, addr: u16) -> u8 {
        if addr <= CHR_ROM_END_ADDR {
            if addr < self.chr_rom.len() {
                self.chr_rom[addr as int]
            } else {
                0
            }
        } else if addr <= NAME_TABLE_END_ADDR {
            let i = mirror_vram(self.mirror_mode, addr);
            if i < VRAM_SIZE {
                self.vram[i]
            } else {
                0
            }
        } else if PALETTE_START_ADDR <= addr <= BEFORE_MIRROR_RANGE {
            let i = palette_index(addr);
            if i < PALETTE_SIZE {
                self.palette_table[i]
            } else {
                0
            }
        } else {
            0
        }
    }

    /// The state after `data` was sent to PPU address `addr`, and whether it
    /// was accepted. Character ROM rejects the write; an address with
    /// nothing behind it accepts and drops it.
    pub open spec fn store(self, addr: u16, data: u8) -> (Result<(), MemFault>, PpuState) {
        if addr <= CHR_ROM_END_ADDR {
            (Err(MemFault::CharacterRom { addr }), self)
        } else if addr <= NAME_TABLE_END_ADDR {
            let i = mirror_vram(self.mirror_mode, addr);
            if i < VRAM_SIZE {
                (Ok(()), PpuState { vram: self.vram.update(i, data), ..self })
            } else {
                (Ok(()), self)
            }
        } else if PALETTE_START_ADDR <= addr <= BEFORE_MIRROR_RANGE {
            let i = palette_index(addr);
            if i < PALETTE_SIZE {
                (Ok(()), PpuState { palette_table: self.palette_table.update(i, data), ..self })
            } else {
                (Ok(()), self)
            }
        } else {
            (Ok(()), self)
        }
    }

    /// The state after the VRAM pointer moved on by the distance that the
    /// control register sets.
    pub open spec fn advance(self) -> PpuState {
        PpuState { addr: self.addr.increment(vram_jump_dist(self.control)), ..self }
    }

    /// A read of the status register: the byte as it stands; afterwards
    /// vblank is cleared and both write latches are back at their first
    /// byte.
    pub open spec fn read_status(self) -> (u8, PpuState) {
        (
            self.status,
            PpuState {
                status: assign_bits(self.status, StatusRegister::IN_VBLANK, false),
                addr: self.addr.reset_latch(),
                scroll: self.scroll.reset_latch(),
                ..self
            },
        )
    }

    /// A read of the data register at the VRAM pointer, which then moves on.
    /// The palette answers at once; every other address answers with the
    /// byte buffered by the read before and buffers its own.
    pub open spec fn read_data(self) -> (u8, PpuState) {
        let at = self.addr.value;
        if PALETTE_START_ADDR <= at <= BEFORE_MIRROR_RANGE {
            (self.cell(at), self.advance())
        } else {
            (self.data_buffer, PpuState { data_buffer: self.cell(at), ..self.advance() })
        }
    }

    /// A write to the data register at the VRAM pointer, which then moves on.
    pub open spec fn write_data(self, data: u8) -> (Result<(), MemFault>, PpuState) {
        self.advance().store(self.addr.value, data)
    }

    /// A write to the control register. Switching interrupt generation on
    /// while the PPU is in vblank raises the interrupt at once.
    pub open spec fn write_control(self, data: u8) -> PpuState {
        let raised = !nmi_enabled(self.control) && nmi_enabled(data) && in_vblank(self.status);
        PpuState {
            control: data,
            nmi: if raised {
                Some(true)
            } else {
                self.nmi
            },
            ..self
        }
    }

    /// A read of register `addr`. Only status (`0x2002`), OAM data
    /// (`0x2004`) and data (`0x2007`) can be read; every other address
    /// reads as 0 and changes nothing.
    pub open spec fn read_register(self, addr: u16) -> (u8, PpuState) {
        if addr == 0x2002 {
            self.read_status()
        } else if addr == 0x2004 {
            (self.oam.data[self.oam.addr as int], self)
        } else if addr == 0x2007 {
            self.read_data()
        } else {
            (0, self)
        }
    }

    /// A write of `data` to register `addr`. The status register
    /// (`0x2002`) rejects it; an address that is no register accepts and
    /// drops it.
    pub open spec fn write_register(self, addr: u16, data: u8) -> (Result<(), MemFault>, PpuState) {
        if addr == 0x2000 {
            (Ok(()), self.write_control(data))
        } else if addr == 0x2001 {
            (Ok(()), PpuState { mask: data, ..self })
        } else if addr == 0x2002 {
            (Err(MemFault::StatusRegister), self)
        } else if addr == 0x2003 {
            (Ok(()), PpuState { oam: OamState { addr: data, ..self.oam }, ..self })
        } else if addr == 0x2004 {
            (Ok(()), PpuState { oam: self.oam.write_data(data), ..self })
        } else if addr == 0x2005 {
            (Ok(()), PpuState { scroll: self.scroll.write(data), ..self })
        } else if addr == 0x2006 {
            (Ok(()), PpuState { addr: self.addr.write(data), ..self })
        } else if addr == 0x2007 {
            self.write_data(data)
        } else {
            (Ok(()), self)
        }
    }

    /// The state on entering the vblank scanline: vblank is set, the
    /// sprite-0 hit is cleared, and the interrupt is raised if the control
    /// register asks for it.
    pub open spec fn enter_vblank(self) -> PpuState {
        PpuState {
            status: assign_bits(
                assign_bits(self.status, StatusRegister::IN_VBLANK, true),
                StatusRegister::SPRITE_0_HIT,
                false,
            ),
            nmi: if nmi_enabled(self.control) {
                Some(true)
            } else {
                self.nmi
            },
            ..self
        }
    }

    /// The state at the start of a new frame: scanline 0, no interrupt
    /// pending, sprite-0 hit and vblank cleared.
    pub open spec fn start_frame(self) -> PpuState {
        PpuState {
            scan_line: 0,
            nmi: None,
            status: assign_bits(
                assign_bits(self.status, StatusRegister::SPRITE_0_HIT, false),
                StatusRegister::IN_VBLANK,
                false,
            ),
            ..self
        }
    }

    /// Time moves on by `cycles` PPU cycles. When they complete the
    /// scanline the next one starts; the result tells whether that
    /// completed the frame.
    pub open spec fn tick(self, cycles: u8) -> (bool, PpuState) {
        let total: nat = self.cycles + cycles as nat;
        if total < CLOCK_CYCLES_PER_SCAN_LINE {
            (false, PpuState { cycles: total, ..self })
        } else {
            let line = self.scan_line + 1;
            let moved = PpuState {
                cycles: (total - CLOCK_CYCLES_PER_SCAN_LINE) as nat,
                scan_line: line,
                ..self
            };
            let lit = if line == SCAN_LINE_INTERRUPT {
                moved.enter_vblank()
            } else {
                moved
            };
            if line >= SCAN_LINES_PER_FRAME {
                (true, lit.start_frame())
            } else {
                (false, lit)
            }
        }
    }

    /// The CPU takes the interrupt request, if there is one.
    pub open spec fn poll_nmi(self) -> (Option<bool>, PpuState) {
        (self.nmi, PpuState { nmi: None, ..self })
    }
}

impl View for PPU {
    type V = PpuState;

    closed spec fn view(&self) -> PpuState {
        PpuState {
            chr_rom: self.chr_rom@,
            mirror_mode: self.mirror_mode,
            palette_table: self.palette_table@,
            vram: self.vram@,
            control: self.control@,
            addr: self.addr@,
            scroll: self.scroll@,
            status: self.status@,
            mask: self.mask@,
            oam: self.oam@,
            data_buffer: self.data_buffer,
            scan_line: self.clock.scan_line(),
            cycles: self.clock.cycles(),
            nmi: self.nmi,
        }
    }
}

impl Clock {
    #[verifier::type_invariant]
    spec fn in_range(self) -> bool {
        self.scan_line < SCAN_LINES_PER_FRAME && self.cycles < CLOCK_CYCLES_PER_SCAN_LINE
    }

    pub closed spec fn scan_line(self) -> nat {
        self.scan_line as nat
    }

    pub closed spec fn cycles(self) -> nat {
        self.cycles as nat
    }

    pub fn new() -> (r: Self)
        ensures
            r.scan_line() == 0,
            r.cycles() == 0,
    {
        Clock { scan_line: 0, cycles: 0 }
    }

    /// The scanline being drawn.
    pub fn line(&self) -> (r: u16)
        ensures
            r == self.scan_line(),
            r < SCAN_LINES_PER_FRAME,
    {
        proof {
            use_type_invariant(self);
        }
        self.scan_line
    }

    /// The PPU cycles spent on the scanline being drawn.
    pub fn spent(&self) -> (r: usize)
        ensures
            r == self.cycles(),
            r < CLOCK_CYCLES_PER_SCAN_LINE,
    {
        proof {
            use_type_invariant(self);
        }
        self.cycles
    }

    /// Moves on by `cycles` PPU cycles. When they complete the scanline,
    /// the result is the number of the scanline that starts, counted
    /// before the frame wraps: `1..=262`, where 262 stands for scanline 0
    /// of the next frame.
    pub fn advance(&mut self, cycles: u8) -> (started: Option<u16>)
        ensures
            old(self).scan_line() < SCAN_LINES_PER_FRAME,
            old(self).cycles() < CLOCK_CYCLES_PER_SCAN_LINE,
            final(self).cycles() == (old(self).cycles() + cycles) % (
            CLOCK_CYCLES_PER_SCAN_LINE as int),
            started == if old(self).cycles() + cycles < CLOCK_CYCLES_PER_SCAN_LINE {
                None
            } else {
                Some((old(self).scan_line() + 1) as u16)
            },
            final(self).scan_line() as int == if started is None {
                old(self).scan_line() as int
            } else {
                (old(self).scan_line() as int + 1) % (SCAN_LINES_PER_FRAME as int)
            },
    {
        proof {
            use_type_invariant(&*self);
        }
        let total: usize = self.cycles + cycles as usize;
        if total < CLOCK_CYCLES_PER_SCAN_LINE {
            self.cycles = total;
            return None;
        }
        self.cycles = total - CLOCK_CYCLES_PER_SCAN_LINE;
        let line: u16 = self.scan_line + 1;
        self.scan_line = if line >= SCAN_LINES_PER_FRAME {
            0
        } else {
            line
        };
        Some(line)
    }
}

impl Mem for PPU {
    open spec fn read_spec(s: PpuState, addr: u16) -> (u8, PpuState) {
        s.read_register(addr)
    }

    open spec fn write_spec(s: PpuState, addr: u16, data: u8) -> (Result<(), MemFault>, PpuState) {
        s.write_register(addr, data)
    }

    fn mem_read(&mut self, addr: u16) -> (r: u8) {
        assert(Self::read_spec(old(self)@, addr) == old(self)@.read_register(addr));
        if addr == 0x2002 {
            self.read_status()
        } else if addr == 0x2004 {
            self.oam.read_data()
        } else if addr == 0x2007 {
            self.read_ppu_data()
        } else {
            0
        }
    }

    fn mem_write(&mut self, addr: u16, data: u8) -> (r: Result<(), MemFault>) {
        assert(Self::write_spec(old(self)@, addr, data) == old(self)@.write_register(addr, data));
        match addr {
            0x2000 => {
                self.write_control(data);
                Ok(())
            },
            0x2001 => {
                self.mask.update(data);
                Ok(())
            },
            0x2002 => Err(MemFault::StatusRegister),
            0x2003 => {
                self.oam.write_addr(data);
                Ok(())
            },
            0x2004 => {
                self.oam.write_data(data);
                Ok(())
            },
            0x2005 => {
                self.scroll.write(data);
                Ok(())
            },
            0x2006 => {
                self.addr.write(data);
                Ok(())
            },
            0x2007 => self.write_ppu_data(data),
            _ => Ok(()),
        }
    }
}

impl PPU {
    pub fn new(chr_rom: Vec<u8>, mirror_mode: Mirroring) -> (r: Self)
        ensures
            r@ == PpuState::power_on(chr_rom@, mirror_mode),
            r@.wf(),
    {
        let r = PPU {
            chr_rom,
            mirror_mode,
            palette_table: [0;32],
            vram: [0;2048],
            control: ControlRegister::new(),
            addr: AddressRegister::new(),
            scroll: ScrollRegister::new(),
            status: StatusRegister::new(),
            mask: MaskRegister::new(),
            oam: Oam::new(),
            data_buffer: 0,
            clock: Clock::new(),
            nmi: None,
        };
        proof {
            let s = PpuState::power_on(chr_rom@, mirror_mode);
            assert(r@.palette_table =~= s.palette_table);
            assert(r@.vram =~= s.vram);
            assert(r@.oam.data =~= s.oam.data);
        }
        r
    }

    pub fn chr_rom(&self) -> (r: &Vec<u8>)
        ensures
            r@ == self@.chr_rom,
    {
        &self.chr_rom
    }

    pub fn mirror_mode(&self) -> (r: Mirroring)
        ensures
            r == self@.mirror_mode,
    {
        self.mirror_mode
    }

    pub fn palette_table(&self) -> (r: &[u8; 32])
        ensures
            r@ == self@.palette_table,
    {
        &self.palette_table
    }

    pub fn vram(&self) -> (r: &[u8; 2048])
        ensures
            r@ == self@.vram,
    {
        &self.vram
    }

    /// Every `PPU` is well formed; this brings the fact into a proof.
    pub fn well_formed(&self)
        ensures
            self@.wf(),
    {
        self.oam.well_formed();
        let _ = self.clock.line();
        let _ = self.clock.spent();
    }

    /// The scroll offsets, horizontal and vertical.
    pub fn scroll(&self) -> (r: (u8, u8))
        ensures
            r == (self@.scroll.x, self@.scroll.y),
    {
        (self.scroll.x(), self.scroll.y())
    }

    /// The mask register.
    pub fn mask(&self) -> (r: MaskRegister)
        ensures
            r@ == self@.mask,
    {
        self.mask
    }

    /// The control register.
    pub fn control(&self) -> (r: ControlRegister)
        ensures
            r@ == self@.control,
    {
        self.control
    }

    /// The scanline being drawn, `0..262`.
    pub fn scan_line(&self) -> (r: u16)
        ensures
            r == self@.scan_line,
            r < SCAN_LINES_PER_FRAME,
    {
        self.clock.line()
    }

    /// The PPU cycles spent on the scanline being drawn, `0..341`.
    pub fn cycles(&self) -> (r: usize)
        ensures
            r == self@.cycles,
            r < CLOCK_CYCLES_PER_SCAN_LINE,
    {
        self.clock.spent()
    }

    /// Advances the PPU by `cycles` of its own cycles, and tells whether
    /// that completed a frame.
    pub fn tick(&mut self, cycles: u8) -> (frame_complete: bool)
        ensures
            (frame_complete, final(self)@) == old(self)@.tick(cycles),
    {
        match self.clock.advance(cycles) {
            None => false,
            Some(line) => {
                if line == SCAN_LINE_INTERRUPT {
                    self.status.set_vblank(true);
                    self.status.set_sprite_zero_hit(false);
                    if self.control.generate_nmi() {
                        self.nmi = Some(true);
                    }
                }
                if line >= SCAN_LINES_PER_FRAME {
                    self.nmi = None;
                    self.status.set_sprite_zero_hit(false);
                    self.status.reset_vblank();
                    true
                } else {
                    false
                }
            },
        }
    }

    /// Takes the interrupt request, if there is one: the next call finds
    /// none.
    pub fn poll_nmi(&mut self) -> (r: Option<bool>)
        ensures
            (r, final(self)@) == old(self)@.poll_nmi(),
    {
        let r = self.nmi;
        self.nmi = None;
        r
    }

    fn write_control(&mut self, data: u8)
        ensures
            final(self)@ == old(self)@.write_control(data),
    {
        let before = self.control.generate_nmi();
        self.control.update(data);
        if !before && self.control.generate_nmi() && self.status.is_in_vblank() {
            self.nmi = Some(true);
        }
    }

    fn read_status(&mut self) -> (r: u8)
        ensures
            (r, final(self)@) == old(self)@.read_status(),
    {
        let status = self.status.bits();
        self.status.reset_vblank();
        self.addr.reset_latch();
        self.scroll.reset_latch();
        status
    }

    /// The offset into video RAM of nametable-space address `addr`.
    pub fn mirror_vram(&self, addr: u16) -> (r: u16)
        ensures
            r == mirror_vram(self@.mirror_mode, addr),
    {
        let vram_addr = addr % 0x1000;
        let name_table_index = vram_addr / NAME_TABLE_SIZE;
        match self.mirror_mode {
            Mirroring::HORIZONTAL => {
                if name_table_index == 1 || name_table_index == 2 {
                    vram_addr - NAME_TABLE_SIZE
                } else if name_table_index == 3 {
                    vram_addr - 2 * NAME_TABLE_SIZE
                } else {
                    vram_addr
                }
            },
            Mirroring::VERTICAL => {
                if name_table_index == 2 || name_table_index == 3 {
                    vram_addr - 2 * NAME_TABLE_SIZE
                } else {
                    vram_addr
                }
            },
            Mirroring::FOUR_SCREEN => vram_addr,
        }
    }

    /// The byte that PPU address `addr` holds, 0 where nothing is behind it.
    pub fn peek(&self, addr: u16) -> (r: u8)
        ensures
            r == self@.cell(addr),
    {
        if addr <= CHR_ROM_END_ADDR {
            if (addr as usize) < self.chr_rom.len() {
                self.chr_rom[addr as usize]
            } else {
                0
            }
        } else if addr <= NAME_TABLE_END_ADDR {
            let i = self.mirror_vram(addr) as usize;
            if i < VRAM_SIZE {
                self.vram[i]
            } else {
                0
            }
        } else if PALETTE_START_ADDR <= addr && addr <= BEFORE_MIRROR_RANGE {
            let offset = addr - PALETTE_START_ADDR;
            let i = if offset == 0x10 || offset == 0x14 || offset == 0x18 || offset == 0x1C {
                offset - 0x10
            } else {
                offset
            } as usize;
            if i < PALETTE_SIZE {
                self.palette_table[i]
            } else {
                0
            }
        } else {
            0
        }
    }

    /// The byte that a read of register `addr` would return, without the
    /// side effects of reading it.
    pub fn peek_register(&self, addr: u16) -> (r: u8)
        ensures
            r == self@.read_register(addr).0,
    {
        if addr == 0x2002 {
            self.status.bits()
        } else if addr == 0x2004 {
            self.oam.read_data()
        } else if addr == 0x2007 {
            let ppu_addr = self.addr.get();
            if PALETTE_START_ADDR <= ppu_addr && ppu_addr <= BEFORE_MIRROR_RANGE {
                self.peek(ppu_addr)
            } else {
                self.data_buffer
            }
        } else {
            0
        }
    }

    fn read_ppu_data(&mut self) -> (r: u8)
        ensures
            (r, final(self)@) == old(self)@.read_data(),
    {
        let ppu_addr = self.addr.get();
        let cell = self.peek(ppu_addr);
        self.increment_vram_ptr();
        if PALETTE_START_ADDR <= ppu_addr && ppu_addr <= BEFORE_MIRROR_RANGE {
            cell
        } else {
            let data = self.data_buffer;
            self.data_buffer = cell;
            data
        }
    }

    fn write_ppu_data(&mut self, data: u8) -> (r: Result<(), MemFault>)
        ensures
            (r, final(self)@) == old(self)@.write_data(data),
    {
        let ppu_addr = self.addr.get();
        self.increment_vram_ptr();
        if ppu_addr <= CHR_ROM_END_ADDR {
            Err(MemFault::CharacterRom { addr: ppu_addr })
        } else if ppu_addr <= NAME_TABLE_END_ADDR {
            let i = self.mirror_vram(ppu_addr) as usize;
            if i < VRAM_SIZE {
                self.vram[i] = data;
            }
            Ok(())
        } else if PALETTE_START_ADDR <= ppu_addr && ppu_addr <= BEFORE_MIRROR_RANGE {
            let offset = ppu_addr - PALETTE_START_ADDR;
            let i = if offset == 0x10 || offset == 0x14 || offset == 0x18 || offset == 0x1C {
                offset - 0x10
            } else {
                offset
            } as usize;
            if i < PALETTE_SIZE {
                self.palette_table[i] = data;
            }
            Ok(())
        } else {
            Ok(())
        }
    }

    fn increment_vram_ptr(&mut self)
        ensures
            final(self)@ == old(self)@.advance(),
    {
        self.addr.increment(self.control.get_vram_jump_dist());
    }
}

/// No access to a register and no poll makes a well-formed PPU ill
/// formed, and none moves the clock.
pub proof fn law_registers_keep_wf(s: PpuState, addr: u16, data: u8)
    requires
        s.wf(),
    ensures
        s.read_register(addr).1.wf(),
        s.write_register(addr, data).1.wf(),
        s.poll_nmi().1.wf(),
        s.read_register(addr).1.position() == s.position(),
        s.write_register(addr, data).1.position() == s.position(),
{
}

/// How many PPU cycles a frame takes.
pub open spec fn cycles_per_frame() -> nat {
    SCAN_LINES_PER_FRAME as nat * CLOCK_CYCLES_PER_SCAN_LINE as nat
}

/// The clock counts every cycle: a tick moves the position in the frame on
/// by its cycles, wrapping at the end of the frame, and reports a completed
/// frame exactly when it wraps.
pub proof fn law_clock_counts_cycles(s: PpuState, cycles: u8)
    requires
        s.wf(),
    ensures
        ({
            let (frame_complete, t) = s.tick(cycles);
            &&& t.wf()
            &&& t.position() == (s.position() + cycles) % (cycles_per_frame() as int)
            &&& frame_complete == (s.position() + cycles >= cycles_per_frame())
        }),
{
    let (frame_complete, t) = s.tick(cycles);
    let frame = cycles_per_frame() as int;
    let moved = s.position() + cycles;
    assert(frame == 89342);
    assert(s.position() == s.scan_line * 341 + s.cycles);
    assert(t.position() == t.scan_line * 341 + t.cycles);
    if s.cycles + cycles < CLOCK_CYCLES_PER_SCAN_LINE {
        assert(t.position() == moved);
        assert(moved < frame);
    } else if s.scan_line + 1 < SCAN_LINES_PER_FRAME {
        assert(t.scan_line == s.scan_line + 1);
        assert(t.position() == moved);
        assert(moved < frame);
    } else {
        assert(t.scan_line == 0);
        assert(t.position() == moved - frame);
        assert(frame <= moved < 2 * frame);
    }
}

/// Entering vblank: the tick that completes the scanline before the
/// vblank scanline sets the vblank status and does not complete the frame.
/// If the control register asks for the interrupt, a request is then there
/// for the CPU to take once: the first poll finds it, the next finds none.
/// If it does not, the request is as it was.
pub proof fn law_vblank_entry(s: PpuState, cycles: u8)
    requires
        s.wf(),
        s.scan_line + 1 == SCAN_LINE_INTERRUPT,
        s.cycles + cycles >= CLOCK_CYCLES_PER_SCAN_LINE,
    ensures
        ({
            let (frame_complete, t) = s.tick(cycles);
            &&& !frame_complete
            &&& t.wf()
            &&& t.scan_line == SCAN_LINE_INTERRUPT
            &&& in_vblank(t.status)
            &&& nmi_enabled(s.control) ==> t.poll_nmi().0 == Some(true) && t.poll_nmi().1.poll_nmi().0
                is None
            &&& !nmi_enabled(s.control) ==> t.nmi == s.nmi
        }),
{
    let lit = assign_bits(s.status, StatusRegister::IN_VBLANK, true);
    lemma_assign_bits(s.status, StatusRegister::IN_VBLANK, true);
    lemma_assign_bits(lit, StatusRegister::SPRITE_0_HIT, false);
    assert(0b1000_0000u8 & 0b0100_0000u8 == 0) by (bit_vector);
    assert(contains_bits(
        assign_bits(lit, StatusRegister::SPRITE_0_HIT, false),
        StatusRegister::IN_VBLANK,
    ) == contains_bits(lit, StatusRegister::IN_VBLANK));
}

/// A tick that does not complete the scanline, or completes one that
/// neither precedes the vblank scanline nor ends the frame, changes
/// nothing but the clock.
pub proof fn law_quiet_tick(s: PpuState, cycles: u8)
    requires
        s.wf(),
        s.cycles + cycles < CLOCK_CYCLES_PER_SCAN_LINE || (s.scan_line + 1 != SCAN_LINE_INTERRUPT
            && s.scan_line + 1 != SCAN_LINES_PER_FRAME),
    ensures
        ({
            let (frame_complete, t) = s.tick(cycles);
            &&& !frame_complete
            &&& t.wf()
            &&& t == (PpuState { scan_line: t.scan_line, cycles: t.cycles, ..s })
        }),
{
}

/// The tick that completes the last scanline completes the frame: the
/// PPU is back on scanline 0 with vblank cleared and no interrupt pending.
pub proof fn law_frame_end(s: PpuState, cycles: u8)
    requires
        s.wf(),
        s.scan_line + 1 == SCAN_LINES_PER_FRAME,
        s.cycles + cycles >= CLOCK_CYCLES_PER_SCAN_LINE,
    ensures
        ({
            let (frame_complete, t) = s.tick(cycles);
            &&& frame_complete
            &&& t.wf()
            &&& t.scan_line == 0
            &&& !in_vblank(t.status)
            &&& t.nmi is None
        }),
{
    let cleared = assign_bits(s.status, StatusRegister::SPRITE_0_HIT, false);
    lemma_assign_bits(cleared, StatusRegister::IN_VBLANK, false);
}

} // verus!
