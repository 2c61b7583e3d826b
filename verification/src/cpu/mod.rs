//! The CPU: its register file, its addressing modes and its instructions.

pub mod laws;
pub mod model;

use crate::bits::{assign_bits, contains_bits, invert, overflowed, shift_left, shift_right};
use crate::bus::Bus;
use crate::cpu::model::{
    branch_target, CpuState, Stop, LOAD_ADDR, NMI_VECTOR, PPU_CYCLES_PER_CPU_CYCLE,
    RESET_VECTOR, STACK_ADDR, STACK_PTR_INIT, STATUS_INIT,
};
use crate::mem::{make_word, split_word, MemFault};
use crate::opcodes::{get_opcode_details, lemma_opcode_entry, opcode_entry};
use vstd::prelude::*;

pub use crate::mem::Mem;

verus! {

/// How an instruction finds its operand.
#[allow(non_camel_case_types)]
#[derive(Clone, Copy, Debug, PartialEq, Eq, Structural)]
pub enum AddressingMode {
    Immediate,
    ZeroPage,
    ZeroPage_X,
    ZeroPage_Y,
    Absolute,
    Absolute_X,
    Absolute_Y,
    Indirect,
    Indirect_X,
    Indirect_Y,
    Implied,
}

/// The CPU's status register: eight flags in one byte, from bit 7 down
/// N V B2 B D I Z C.
#[derive(Clone, Copy, Debug)]
pub struct StatusFlags {
    bits: u8,
}

impl View for StatusFlags {
    type V = u8;

    closed spec fn view(&self) -> u8 {
        self.bits
    }
}

impl StatusFlags {
    pub const CARRY: u8 = 0b0000_0001;

    pub const ZERO: u8 = 0b0000_0010;

    pub const INTERRUPT_DISABLE: u8 = 0b0000_0100;

    pub const DECIMAL: u8 = 0b0000_1000;

    pub const BREAK: u8 = 0b0001_0000;

    pub const BREAK2: u8 = 0b0010_0000;

    pub const OVERFLOW: u8 = 0b0100_0000;

    pub const NEGATIVE: u8 = 0b1000_0000;

    /// The flags that `bits` spells out. Every bit is a flag, so none is
    /// dropped.
    pub fn from_bits_truncate(bits: u8) -> (r: Self)
        ensures
            r@ == bits,
    {
        StatusFlags { bits }
    }

    /// The flags that `bits` spells out. Every bit is a flag, so every byte
    /// is accepted.
    pub fn from_bits(bits: u8) -> (r: Option<Self>)
        ensures
            r is Some,
            r.unwrap()@ == bits,
    {
        Some(StatusFlags { bits })
    }

    pub fn bits(&self) -> (r: u8)
        ensures
            r == self@,
    {
        self.bits
    }

    /// Whether every flag of `mask` is set.
    pub fn contains(&self, mask: u8) -> (r: bool)
        ensures
            r == contains_bits(self@, mask),
    {
        self.bits & mask == mask
    }

    pub fn insert(&mut self, mask: u8)
        ensures
            final(self)@ == assign_bits(old(self)@, mask, true),
    {
        self.bits = self.bits | mask;
    }

    pub fn remove(&mut self, mask: u8)
        ensures
            final(self)@ == assign_bits(old(self)@, mask, false),
    {
        self.bits = self.bits & !mask;
    }

    pub fn set(&mut self, mask: u8, on: bool)
        ensures
            final(self)@ == assign_bits(old(self)@, mask, on),
    {
        if on {
            self.insert(mask);
        } else {
            self.remove(mask);
        }
    }
}

/// The CPU with the bus it drives.
pub struct CPU {
    pub register_a: u8,
    pub register_x: u8,
    pub register_y: u8,
    pub status: StatusFlags,
    pub stack_ptr: u8,
    pub program_counter: u16,
    pub bus: Bus,
    /// The first write that the bus rejected, until it is taken.
    pub fault: Option<MemFault>,
}

impl View for CPU {
    type V = CpuState;

    open spec fn view(&self) -> CpuState {
        CpuState {
            a: self.register_a,
            x: self.register_x,
            y: self.register_y,
            status: self.status@,
            sp: self.stack_ptr,
            pc: self.program_counter,
            bus: self.bus@,
            fault: self.fault,
        }
    }
}

impl Mem for CPU {
    open spec fn read_spec(s: CpuState, addr: u16) -> (u8, CpuState) {
        s.read(addr)
    }

    open spec fn write_spec(s: CpuState, addr: u16, data: u8) -> (Result<(), MemFault>, CpuState) {
        s.try_write(addr, data)
    }

    fn mem_read(&mut self, addr: u16) -> (r: u8) {
        assert(Self::read_spec(old(self)@, addr) == old(self)@.read(addr));
        self.bus.mem_read(addr)
    }

    fn mem_write(&mut self, addr: u16, data: u8) -> (r: Result<(), MemFault>) {
        assert(Self::write_spec(old(self)@, addr, data) == old(self)@.try_write(addr, data));
        self.bus.mem_write(addr, data)
    }
}

/// Where a taken branch leads whose displacement byte `displacement` was
/// read at `pc`.
pub fn branch_destination(pc: u16, displacement: u8) -> (r: u16)
    ensures
        r == branch_target(pc, displacement),
{
    let extended: u16 = if displacement < 0x80 {
        displacement as u16
    } else {
        0xFF00 + displacement as u16
    };
    pc.wrapping_add(1).wrapping_add(extended)
}

/// An observer that looks at nothing.
fn ignore(_cpu: &CPU) {
}

impl CPU {
    pub fn new(bus: Bus) -> (r: Self)
        ensures
            r@ == CpuState::power_on(bus@),
    {
        CPU {
            register_a: 0,
            register_x: 0,
            register_y: 0,
            status: StatusFlags::from_bits_truncate(STATUS_INIT),
            program_counter: 0,
            stack_ptr: STACK_PTR_INIT,
            bus,
            fault: None,
        }
    }

    /// Every `CPU` is well formed; this brings the fact into a proof.
    pub fn well_formed(&self)
        ensures
            self@.wf(),
    {
        self.bus.well_formed();
    }

    /// Takes the note of the first rejected write, if there is one.
    pub fn take_fault(&mut self) -> (r: Option<MemFault>)
        ensures
            r == old(self)@.fault,
            final(self)@ == (CpuState { fault: None, ..old(self)@ }),
    {
        let r = self.fault;
        self.fault = None;
        r
    }

    fn read(&mut self, addr: u16) -> (r: u8)
        ensures
            (r, final(self)@) == old(self)@.read(addr),
    {
        self.bus.mem_read(addr)
    }

    fn read_u16(&mut self, addr: u16) -> (r: u16)
        ensures
            (r, final(self)@) == old(self)@.read_u16(addr),
    {
        let lo = self.read(addr);
        let hi = self.read(addr.wrapping_add(1));
        make_word(lo, hi)
    }

    fn read_u16_on_page(&mut self, addr: u16) -> (r: u16)
        ensures
            (r, final(self)@) == old(self)@.read_u16_on_page(addr),
    {
        let lo = self.read(addr);
        let next = if addr % 256 == 255 {
            addr - 255
        } else {
            addr + 1
        };
        let hi = self.read(next);
        make_word(lo, hi)
    }

    fn read_u16_zero_page(&mut self, addr: u8) -> (r: u16)
        ensures
            (r, final(self)@) == old(self)@.read_u16_zero_page(addr),
    {
        let lo = self.read(addr as u16);
        let hi = self.read(addr.wrapping_add(1) as u16);
        make_word(lo, hi)
    }

    /// The byte that a read at `addr` would return, without the side
    /// effects of reading it.
    pub fn peek(&self, addr: u16) -> (r: u8)
        ensures
            r == self@.peek(addr),
    {
        self.bus.peek(addr)
    }

    /// The word that reads at `addr` and `addr + 1` (wrapping) would
    /// return.
    pub fn peek_u16(&self, addr: u16) -> (r: u16)
        ensures
            r == self@.peek_u16(addr),
    {
        make_word(self.peek(addr), self.peek(addr.wrapping_add(1)))
    }

    /// The word that reads at `addr` and its successor on the same page
    /// would return.
    pub fn peek_u16_on_page(&self, addr: u16) -> (r: u16)
        ensures
            r == self@.peek_u16_on_page(addr),
    {
        let next = if addr % 256 == 255 {
            addr - 255
        } else {
            addr + 1
        };
        make_word(self.peek(addr), self.peek(next))
    }

    fn peek_u16_zero_page(&self, addr: u8) -> (r: u16)
        ensures
            r == self@.peek_u16_zero_page(addr),
    {
        make_word(self.peek(addr as u16), self.peek(addr.wrapping_add(1) as u16))
    }

    /// The address that an operand stored at `addr` names under `mode`,
    /// found without the side effects of reading.
    pub fn peek_absolute_address(&self, mode: &AddressingMode, addr: u16) -> (r: u16)
        requires
            !(*mode is Implied),
        ensures
            r == self@.peek_operand_address(*mode, addr),
    {
        match mode {
            AddressingMode::Immediate => addr,
            AddressingMode::ZeroPage => self.peek(addr) as u16,
            AddressingMode::ZeroPage_X => self.peek(addr).wrapping_add(self.register_x) as u16,
            AddressingMode::ZeroPage_Y => self.peek(addr).wrapping_add(self.register_y) as u16,
            AddressingMode::Absolute => self.peek_u16(addr),
            AddressingMode::Absolute_X => self.peek_u16(addr).wrapping_add(
                self.register_x as u16,
            ),
            AddressingMode::Absolute_Y => self.peek_u16(addr).wrapping_add(
                self.register_y as u16,
            ),
            AddressingMode::Indirect => self.peek_u16_on_page(self.peek_u16(addr)),
            AddressingMode::Indirect_X => self.peek_u16_zero_page(
                self.peek(addr).wrapping_add(self.register_x),
            ),
            AddressingMode::Indirect_Y => self.peek_u16_zero_page(self.peek(addr)).wrapping_add(
                self.register_y as u16,
            ),
            AddressingMode::Implied => 0,
        }
    }

    /// Writes through the bus; a rejected write is noted in `fault` unless
    /// an earlier one is still noted there.
    fn store(&mut self, addr: u16, data: u8)
        ensures
            final(self)@ == old(self)@.write(addr, data),
    {
        match self.bus.mem_write(addr, data) {
            Ok(()) => {},
            Err(fault) => {
                if self.fault.is_none() {
                    self.fault = Some(fault);
                }
            },
        }
    }

    /// The address that an operand stored at `addr` names under `mode`.
    pub fn get_absolute_address(&mut self, mode: &AddressingMode, addr: u16) -> (r: u16)
        requires
            !(*mode is Implied),
        ensures
            (r, final(self)@) == old(self)@.operand_address(*mode, addr),
    {
        reveal(CpuState::operand_address);
        match mode {
            AddressingMode::Immediate => addr,
            AddressingMode::ZeroPage => self.read(addr) as u16,
            AddressingMode::ZeroPage_X => {
                let base = self.read(addr);
                base.wrapping_add(self.register_x) as u16
            },
            AddressingMode::ZeroPage_Y => {
                let base = self.read(addr);
                base.wrapping_add(self.register_y) as u16
            },
            AddressingMode::Absolute => self.read_u16(addr),
            AddressingMode::Absolute_X => {
                let base = self.read_u16(addr);
                base.wrapping_add(self.register_x as u16)
            },
            AddressingMode::Absolute_Y => {
                let base = self.read_u16(addr);
                base.wrapping_add(self.register_y as u16)
            },
            AddressingMode::Indirect => {
                let pointer = self.read_u16(addr);
                self.read_u16_on_page(pointer)
            },
            AddressingMode::Indirect_X => {
                let base = self.read(addr);
                self.read_u16_zero_page(base.wrapping_add(self.register_x))
            },
            AddressingMode::Indirect_Y => {
                let base = self.read(addr);
                let pointer = self.read_u16_zero_page(base);
                pointer.wrapping_add(self.register_y as u16)
            },
            AddressingMode::Implied => 0,
        }
    }

    /// The address of the operand of the instruction being executed.
    pub fn get_operand_address(&mut self, mode: &AddressingMode) -> (r: u16)
        requires
            !(*mode is Implied),
        ensures
            (r, final(self)@) == old(self)@.operand(*mode),
    {
        self.get_absolute_address(mode, self.program_counter)
    }

    fn fetch(&mut self, mode: &AddressingMode) -> (r: u8)
        requires
            !(*mode is Implied),
        ensures
            (r, final(self)@) == old(self)@.fetch(*mode),
    {
        let addr = self.get_operand_address(mode);
        self.read(addr)
    }

    pub fn push(&mut self, data: u8)
        ensures
            final(self)@ == old(self)@.push(data),
    {
        self.store(STACK_ADDR + self.stack_ptr as u16, data);
        self.stack_ptr = self.stack_ptr.wrapping_sub(1);
    }

    pub fn pop(&mut self) -> (r: u8)
        ensures
            (r, final(self)@) == old(self)@.pop(),
    {
        self.stack_ptr = self.stack_ptr.wrapping_add(1);
        self.read(STACK_ADDR + self.stack_ptr as u16)
    }

    pub fn push_u16(&mut self, data: u16)
        ensures
            final(self)@ == old(self)@.push_u16(data),
    {
        let (lo, hi) = split_word(data);
        self.push(hi);
        self.push(lo);
    }

    pub fn pop_u16(&mut self) -> (r: u16)
        ensures
            (r, final(self)@) == old(self)@.pop_u16(),
    {
        let lo = self.pop();
        let hi = self.pop();
        make_word(lo, hi)
    }

    /// Puts the registers in their initial state and the program counter at
    /// the address that the reset vector holds.
    pub fn reset(&mut self)
        ensures
            final(self)@ == old(self)@.reset(),
    {
        self.register_a = 0;
        self.register_x = 0;
        self.register_y = 0;
        self.status = StatusFlags::from_bits_truncate(STATUS_INIT);
        self.stack_ptr = STACK_PTR_INIT;
        self.program_counter = self.read_u16(RESET_VECTOR);
    }

    fn update_zero_and_negative_flags(&mut self, value: u8)
        ensures
            final(self)@ == old(self)@.with_zn(value),
    {
        self.status.set(StatusFlags::ZERO, value == 0);
        self.status.set(StatusFlags::NEGATIVE, value & 0b1000_0000 > 0);
    }

    fn set_register_a(&mut self, value: u8)
        ensures
            final(self)@ == old(self)@.set_a(value),
    {
        self.register_a = value;
        self.update_zero_and_negative_flags(self.register_a);
    }

    fn set_register_x(&mut self, value: u8)
        ensures
            final(self)@ == old(self)@.set_x(value),
    {
        self.register_x = value;
        self.update_zero_and_negative_flags(self.register_x);
    }

    fn set_register_y(&mut self, value: u8)
        ensures
            final(self)@ == old(self)@.set_y(value),
    {
        self.register_y = value;
        self.update_zero_and_negative_flags(self.register_y);
    }

    fn add_to_register_a(&mut self, data: u8)
        ensures
            final(self)@ == old(self)@.add_with_carry(data),
    {
        let sum = self.register_a as u16 + data as u16 + (if self.status.contains(
            StatusFlags::CARRY,
        ) {
            1
        } else {
            0
        }) as u16;
        let carry = sum > 0xff;
        if carry {
            self.status.insert(StatusFlags::CARRY);
        } else {
            self.status.remove(StatusFlags::CARRY);
        }
        let result = (sum % 256) as u8;
        if overflowed(self.register_a, data, result) {
            self.status.insert(StatusFlags::OVERFLOW);
        } else {
            self.status.remove(StatusFlags::OVERFLOW)
        }
        self.set_register_a(result);
    }

    fn sub_from_register_a(&mut self, data: u8)
        ensures
            final(self)@ == old(self)@.subtract_with_borrow(data),
    {
        self.add_to_register_a(invert(data));
    }

    fn and_with_register_a(&mut self, data: u8)
        ensures
            final(self)@ == old(self)@.set_a(data & old(self)@.a),
    {
        self.set_register_a(data & self.register_a);
    }

    fn xor_with_register_a(&mut self, data: u8)
        ensures
            final(self)@ == old(self)@.set_a(data ^ old(self)@.a),
    {
        self.set_register_a(data ^ self.register_a);
    }

    fn or_with_register_a(&mut self, data: u8)
        ensures
            final(self)@ == old(self)@.set_a(data | old(self)@.a),
    {
        self.set_register_a(data | self.register_a);
    }

    fn compare_with(&mut self, register: u8, data: u8)
        ensures
            final(self)@ == old(self)@.compare_with(register, data),
    {
        self.status.set(StatusFlags::CARRY, register >= data);
        self.update_zero_and_negative_flags(register.wrapping_sub(data));
    }

    fn modify(&mut self, addr: u16, result: u8, carry: bool) -> (r: u8)
        ensures
            (r, final(self)@) == old(self)@.modify(addr, result, carry),
    {
        self.status.set(StatusFlags::CARRY, carry);
        self.store(addr, result);
        self.update_zero_and_negative_flags(result);
        result
    }

    fn adc(&mut self, mode: &AddressingMode)
        requires
            !(*mode is Implied),
        ensures
            final(self)@ == old(self)@.adc(*mode),
    {
        let data = self.fetch(mode);
        self.add_to_register_a(data);
    }

    fn sbc(&mut self, mode: &AddressingMode)
        requires
            !(*mode is Implied),
        ensures
            final(self)@ == old(self)@.sbc(*mode),
    {
        let data = self.fetch(mode);
        self.sub_from_register_a(data);
    }

    fn and(&mut self, mode: &AddressingMode)
        requires
            !(*mode is Implied),
        ensures
            final(self)@ == old(self)@.and(*mode),
    {
        let data = self.fetch(mode);
        self.set_register_a(self.register_a & data);
    }

    fn eor(&mut self, mode: &AddressingMode)
        requires
            !(*mode is Implied),
        ensures
            final(self)@ == old(self)@.eor(*mode),
    {
        let data = self.fetch(mode);
        self.set_register_a(self.register_a ^ data);
    }

    fn ora(&mut self, mode: &AddressingMode)
        requires
            !(*mode is Implied),
        ensures
            final(self)@ == old(self)@.ora(*mode),
    {
        let data = self.fetch(mode);
        self.set_register_a(self.register_a | data);
    }

    fn asl_accumulator(&mut self)
        ensures
            final(self)@ == old(self)@.asl_accumulator(),
    {
        let (result, carry) = shift_left(self.register_a, false);
        self.status.set(StatusFlags::CARRY, carry);
        self.set_register_a(result);
    }

    fn lsr_accumulator(&mut self)
        ensures
            final(self)@ == old(self)@.lsr_accumulator(),
    {
        let (result, carry) = shift_right(self.register_a, false);
        self.status.set(StatusFlags::CARRY, carry);
        self.set_register_a(result);
    }

    fn rol_accumulator(&mut self)
        ensures
            final(self)@ == old(self)@.rol_accumulator(),
    {
        let (result, carry) = shift_left(
            self.register_a,
            self.status.contains(StatusFlags::CARRY),
        );
        self.status.set(StatusFlags::CARRY, carry);
        self.set_register_a(result);
    }

    fn ror_accumulator(&mut self)
        ensures
            final(self)@ == old(self)@.ror_accumulator(),
    {
        let (result, carry) = shift_right(
            self.register_a,
            self.status.contains(StatusFlags::CARRY),
        );
        self.status.set(StatusFlags::CARRY, carry);
        self.set_register_a(result);
    }

    fn asl(&mut self, mode: &AddressingMode) -> (r: u8)
        requires
            !(*mode is Implied),
        ensures
            (r, final(self)@) == old(self)@.asl(*mode),
    {
        let addr = self.get_operand_address(mode);
        let data = self.read(addr);
        let (result, carry) = shift_left(data, false);
        self.modify(addr, result, carry)
    }

    fn lsr(&mut self, mode: &AddressingMode) -> (r: u8)
        requires
            !(*mode is Implied),
        ensures
            (r, final(self)@) == old(self)@.lsr(*mode),
    {
        let addr = self.get_operand_address(mode);
        let data = self.read(addr);
        let (result, carry) = shift_right(data, false);
        self.modify(addr, result, carry)
    }

    fn rol(&mut self, mode: &AddressingMode) -> (r: u8)
        requires
            !(*mode is Implied),
        ensures
            (r, final(self)@) == old(self)@.rol(*mode),
    {
        let addr = self.get_operand_address(mode);
        let data = self.read(addr);
        let (result, carry) = shift_left(data, self.status.contains(StatusFlags::CARRY));
        self.modify(addr, result, carry)
    }

    fn ror(&mut self, mode: &AddressingMode) -> (r: u8)
        requires
            !(*mode is Implied),
        ensures
            (r, final(self)@) == old(self)@.ror(*mode),
    {
        let addr = self.get_operand_address(mode);
        let data = self.read(addr);
        let (result, carry) = shift_right(data, self.status.contains(StatusFlags::CARRY));
        self.modify(addr, result, carry)
    }

    /// Takes the branch iff `condition_to_jump` holds, and tells whether it
    /// did.
    fn branch(&mut self, condition_to_jump: bool) -> (taken: bool)
        ensures
            (final(self)@, taken) == old(self)@.branch(condition_to_jump),
    {
        if !condition_to_jump {
            return false;
        }
        let jump_dist = self.read(self.program_counter);
        self.program_counter = branch_destination(self.program_counter, jump_dist);
        true
    }

    fn bit(&mut self, mode: &AddressingMode)
        requires
            !(*mode is Implied),
        ensures
            final(self)@ == old(self)@.bit(*mode),
    {
        let data = self.fetch(mode);
        let result = self.register_a & data;
        self.status.set(StatusFlags::ZERO, result == 0);
        self.status.set(StatusFlags::NEGATIVE, data & 0b1000_0000 > 0);
        self.status.set(StatusFlags::OVERFLOW, data & 0b0100_0000 > 0);
    }

    fn compare(&mut self, compare_value: u8, mode: &AddressingMode)
        requires
            !(*mode is Implied),
        ensures
            final(self)@ == old(self)@.compare(compare_value, *mode),
    {
        let data = self.fetch(mode);
        self.compare_with(compare_value, data);
    }

    fn dec(&mut self, mode: &AddressingMode) -> (r: u8)
        requires
            !(*mode is Implied),
        ensures
            (r, final(self)@) == old(self)@.dec(*mode),
    {
        let addr = self.get_operand_address(mode);
        let data = self.read(addr).wrapping_sub(1);
        self.store(addr, data);
        self.update_zero_and_negative_flags(data);
        data
    }

    fn inc(&mut self, mode: &AddressingMode) -> (r: u8)
        requires
            !(*mode is Implied),
        ensures
            (r, final(self)@) == old(self)@.inc(*mode),
    {
        let addr = self.get_operand_address(mode);
        let data = self.read(addr).wrapping_add(1);
        self.store(addr, data);
        self.update_zero_and_negative_flags(data);
        data
    }

    fn dex(&mut self)
        ensures
            final(self)@ == old(self)@.dex(),
    {
        self.set_register_x(self.register_x.wrapping_sub(1));
    }

    fn dey(&mut self)
        ensures
            final(self)@ == old(self)@.dey(),
    {
        self.set_register_y(self.register_y.wrapping_sub(1));
    }

    fn inx(&mut self)
        ensures
            final(self)@ == old(self)@.inx(),
    {
        self.set_register_x(self.register_x.wrapping_add(1));
    }

    fn iny(&mut self)
        ensures
            final(self)@ == old(self)@.iny(),
    {
        self.set_register_y(self.register_y.wrapping_add(1));
    }

    fn jmp_absolute(&mut self)
        ensures
            final(self)@ == old(self)@.jmp_absolute(),
    {
        self.program_counter = self.read_u16(self.program_counter);
    }

    fn jmp_indirect(&mut self)
        ensures
            final(self)@ == old(self)@.jmp_indirect(),
    {
        let pointer = self.read_u16(self.program_counter);
        self.program_counter = self.read_u16_on_page(pointer);
    }

    fn jsr(&mut self)
        ensures
            final(self)@ == old(self)@.jsr(),
    {
        self.push_u16(self.program_counter.wrapping_add(1));
        self.program_counter = self.read_u16(self.program_counter);
    }

    fn rts(&mut self)
        ensures
            final(self)@ == old(self)@.rts(),
    {
        self.program_counter = self.pop_u16().wrapping_add(1);
    }

    fn restore_status(&mut self, data: u8)
        ensures
            final(self)@ == (CpuState { status: CpuState::restored_status(data), ..old(self)@ }),
    {
        self.status = StatusFlags::from_bits_truncate(data);
        self.status.remove(StatusFlags::BREAK);
        self.status.insert(StatusFlags::BREAK2);
    }

    fn rti(&mut self)
        ensures
            final(self)@ == old(self)@.rti(),
    {
        let data = self.pop();
        self.restore_status(data);
        self.program_counter = self.pop_u16();
    }

    fn lda(&mut self, mode: &AddressingMode)
        requires
            !(*mode is Implied),
        ensures
            final(self)@ == old(self)@.lda(*mode),
    {
        let data = self.fetch(mode);
        self.set_register_a(data);
    }

    fn ldx(&mut self, mode: &AddressingMode)
        requires
            !(*mode is Implied),
        ensures
            final(self)@ == old(self)@.ldx(*mode),
    {
        let data = self.fetch(mode);
        self.set_register_x(data);
    }

    fn ldy(&mut self, mode: &AddressingMode)
        requires
            !(*mode is Implied),
        ensures
            final(self)@ == old(self)@.ldy(*mode),
    {
        let data = self.fetch(mode);
        self.set_register_y(data);
    }

    fn pha(&mut self)
        ensures
            final(self)@ == old(self)@.pha(),
    {
        self.push(self.register_a);
    }

    fn php(&mut self)
        ensures
            final(self)@ == old(self)@.php(),
    {
        let mut status = self.status;
        status.insert(StatusFlags::BREAK);
        status.insert(StatusFlags::BREAK2);
        self.push(status.bits());
    }

    fn pla(&mut self)
        ensures
            final(self)@ == old(self)@.pla(),
    {
        let data = self.pop();
        self.set_register_a(data);
    }

    fn plp(&mut self)
        ensures
            final(self)@ == old(self)@.plp(),
    {
        let data = self.pop();
        self.restore_status(data);
    }

    fn sta(&mut self, mode: &AddressingMode)
        requires
            !(*mode is Implied),
        ensures
            final(self)@ == old(self)@.sta(*mode),
    {
        let addr = self.get_operand_address(mode);
        self.store(addr, self.register_a);
    }

    fn stx(&mut self, mode: &AddressingMode)
        requires
            !(*mode is Implied),
        ensures
            final(self)@ == old(self)@.stx(*mode),
    {
        let addr = self.get_operand_address(mode);
        self.store(addr, self.register_x);
    }

    fn sty(&mut self, mode: &AddressingMode)
        requires
            !(*mode is Implied),
        ensures
            final(self)@ == old(self)@.sty(*mode),
    {
        let addr = self.get_operand_address(mode);
        self.store(addr, self.register_y);
    }

    fn tax(&mut self)
        ensures
            final(self)@ == old(self)@.tax(),
    {
        self.set_register_x(self.register_a);
    }

    fn tay(&mut self)
        ensures
            final(self)@ == old(self)@.tay(),
    {
        self.set_register_y(self.register_a);
    }

    fn tsx(&mut self)
        ensures
            final(self)@ == old(self)@.tsx(),
    {
        self.set_register_x(self.stack_ptr);
    }

    fn txa(&mut self)
        ensures
            final(self)@ == old(self)@.txa(),
    {
        self.set_register_a(self.register_x);
    }

    fn tya(&mut self)
        ensures
            final(self)@ == old(self)@.tya(),
    {
        self.set_register_a(self.register_y);
    }

    fn txs(&mut self)
        ensures
            final(self)@ == old(self)@.txs(),
    {
        self.stack_ptr = self.register_x;
    }

    fn sec(&mut self)
        ensures
            final(self)@ == old(self)@.with_flag(StatusFlags::CARRY, true),
    {
        self.status.insert(StatusFlags::CARRY);
    }

    fn sed(&mut self)
        ensures
            final(self)@ == old(self)@.with_flag(StatusFlags::DECIMAL, true),
    {
        self.status.insert(StatusFlags::DECIMAL);
    }

    fn sei(&mut self)
        ensures
            final(self)@ == old(self)@.with_flag(StatusFlags::INTERRUPT_DISABLE, true),
    {
        self.status.insert(StatusFlags::INTERRUPT_DISABLE);
    }

    fn dcp(&mut self, mode: &AddressingMode)
        requires
            !(*mode is Implied),
        ensures
            final(self)@ == old(self)@.dcp(*mode),
    {
        let addr = self.get_operand_address(mode);
        let data = self.read(addr).wrapping_sub(1);
        self.store(addr, data);
        self.compare_with(self.register_a, data);
    }

    fn rla(&mut self, mode: &AddressingMode)
        requires
            !(*mode is Implied),
        ensures
            final(self)@ == old(self)@.rla(*mode),
    {
        let data = self.rol(mode);
        self.and_with_register_a(data);
    }

    fn slo(&mut self, mode: &AddressingMode)
        requires
            !(*mode is Implied),
        ensures
            final(self)@ == old(self)@.slo(*mode),
    {
        let data = self.asl(mode);
        self.or_with_register_a(data);
    }

    fn sre(&mut self, mode: &AddressingMode)
        requires
            !(*mode is Implied),
        ensures
            final(self)@ == old(self)@.sre(*mode),
    {
        let data = self.lsr(mode);
        self.xor_with_register_a(data);
    }

    fn rra(&mut self, mode: &AddressingMode)
        requires
            !(*mode is Implied),
        ensures
            final(self)@ == old(self)@.rra(*mode),
    {
        let data = self.ror(mode);
        self.add_to_register_a(data);
    }

    fn isb(&mut self, mode: &AddressingMode)
        requires
            !(*mode is Implied),
        ensures
            final(self)@ == old(self)@.isb(*mode),
    {
        let data = self.inc(mode);
        self.sub_from_register_a(data);
    }

    fn lax(&mut self, mode: &AddressingMode)
        requires
            !(*mode is Implied),
        ensures
            final(self)@ == old(self)@.lax(*mode),
    {
        let data = self.fetch(mode);
        self.set_register_a(data);
        self.register_x = self.register_a;
    }

    fn sax(&mut self, mode: &AddressingMode)
        requires
            !(*mode is Implied),
        ensures
            final(self)@ == old(self)@.sax(*mode),
    {
        let data = self.register_a & self.register_x;
        let addr = self.get_operand_address(mode);
        self.store(addr, data);
    }

    fn axs(&mut self, mode: &AddressingMode)
        requires
            !(*mode is Implied),
        ensures
            final(self)@ == old(self)@.axs(*mode),
    {
        let data = self.fetch(mode);
        let x_and_a = self.register_x & self.register_a;
        let result = x_and_a.wrapping_sub(data);
        if data <= x_and_a {
            self.status.insert(StatusFlags::CARRY);
        }
        self.update_zero_and_negative_flags(result);
        self.register_x = result;
    }

    fn arr(&mut self, mode: &AddressingMode)
        requires
            !(*mode is Implied),
        ensures
            final(self)@ == old(self)@.arr(*mode),
    {
        let data = self.fetch(mode);
        self.and_with_register_a(data);
        self.ror_accumulator();
        let result = self.register_a;
        let bit_5 = (result >> 5) & 1;
        let bit_6 = (result >> 6) & 1;
        self.status.set(StatusFlags::CARRY, bit_6 == 1);
        self.status.set(StatusFlags::OVERFLOW, bit_5 ^ bit_6 == 1);
        self.update_zero_and_negative_flags(result);
    }

    fn anc(&mut self, mode: &AddressingMode)
        requires
            !(*mode is Implied),
        ensures
            final(self)@ == old(self)@.anc(*mode),
    {
        let data = self.fetch(mode);
        self.and_with_register_a(data);
        let negative = self.status.contains(StatusFlags::NEGATIVE);
        self.status.set(StatusFlags::CARRY, negative);
    }

    fn alr(&mut self, mode: &AddressingMode)
        requires
            !(*mode is Implied),
        ensures
            final(self)@ == old(self)@.alr(*mode),
    {
        let data = self.fetch(mode);
        self.and_with_register_a(data);
        self.lsr_accumulator();
    }

    fn lxa(&mut self, mode: &AddressingMode)
        requires
            !(*mode is Implied),
        ensures
            final(self)@ == old(self)@.lxa(*mode),
    {
        self.lda(mode);
        self.tax();
    }

    fn xaa(&mut self, mode: &AddressingMode)
        requires
            !(*mode is Implied),
        ensures
            final(self)@ == old(self)@.xaa(*mode),
    {
        self.set_register_a(self.register_x);
        let data = self.fetch(mode);
        self.and_with_register_a(data);
    }

    fn las(&mut self, mode: &AddressingMode)
        requires
            !(*mode is Implied),
        ensures
            final(self)@ == old(self)@.las(*mode),
    {
        let data = self.fetch(mode) & self.stack_ptr;
        self.register_a = data;
        self.register_x = data;
        self.stack_ptr = data;
        self.update_zero_and_negative_flags(data);
    }

    fn tas(&mut self)
        ensures
            final(self)@ == old(self)@.tas(),
    {
        self.stack_ptr = self.register_a & self.register_x;
        let mem_address = self.read_u16(self.program_counter).wrapping_add(
            self.register_y as u16,
        );
        let data = split_word(mem_address).1.wrapping_add(1) & self.stack_ptr;
        self.store(mem_address, data);
    }

    fn ahx_indirect(&mut self)
        ensures
            final(self)@ == old(self)@.ahx_indirect(),
    {
        let pos = self.read(self.program_counter);
        let mem_address = self.read_u16(pos as u16).wrapping_add(self.register_y as u16);
        let data = self.register_a & self.register_x & split_word(mem_address).1;
        self.store(mem_address, data);
    }

    fn ahx_absolute(&mut self)
        ensures
            final(self)@ == old(self)@.ahx_absolute(),
    {
        let mem_address = self.read_u16(self.program_counter).wrapping_add(
            self.register_y as u16,
        );
        let data = self.register_a & self.register_x & split_word(mem_address).1;
        self.store(mem_address, data);
    }

    fn shx(&mut self)
        ensures
            final(self)@ == old(self)@.shx(),
    {
        let mem_address = self.read_u16(self.program_counter).wrapping_add(
            self.register_y as u16,
        );
        let data = self.register_x & split_word(mem_address).1.wrapping_add(1);
        self.store(mem_address, data);
    }

    fn shy(&mut self)
        ensures
            final(self)@ == old(self)@.shy(),
    {
        let mem_address = self.read_u16(self.program_counter).wrapping_add(
            self.register_x as u16,
        );
        let data = self.register_y & split_word(mem_address).1.wrapping_add(1);
        self.store(mem_address, data);
    }

    fn nop_read(&mut self)
        ensures
            final(self)@ == old(self)@.nop_read(),
    {
        let _ = self.read(self.program_counter);
    }

    fn execute_control(&mut self, opcode: u8, mode: &AddressingMode) -> (redirected: bool)
        requires
            opcode_entry(opcode) is Some,
            *mode == opcode_entry(opcode).unwrap().mode,
        ensures
            (final(self)@, redirected) == old(self)@.execute_control(opcode, *mode),
    {
        reveal(CpuState::execute_control);
        match opcode {
            0x10 => self.branch(!self.status.contains(StatusFlags::NEGATIVE)),
            0x30 => self.branch(self.status.contains(StatusFlags::NEGATIVE)),
            0x50 => self.branch(!self.status.contains(StatusFlags::OVERFLOW)),
            0x70 => self.branch(self.status.contains(StatusFlags::OVERFLOW)),
            0x90 => self.branch(!self.status.contains(StatusFlags::CARRY)),
            0xB0 => self.branch(self.status.contains(StatusFlags::CARRY)),
            0xD0 => self.branch(!self.status.contains(StatusFlags::ZERO)),
            0xF0 => self.branch(self.status.contains(StatusFlags::ZERO)),
            0x18 => {
                self.status.remove(StatusFlags::CARRY);
                false
            },
            0xB8 => {
                self.status.remove(StatusFlags::OVERFLOW);
                false
            },
            0xD8 => {
                self.status.remove(StatusFlags::DECIMAL);
                false
            },
            0x58 => {
                self.status.remove(StatusFlags::INTERRUPT_DISABLE);
                false
            },
            0x38 => {
                self.sec();
                false
            },
            0xF8 => {
                self.sed();
                false
            },
            0x78 => {
                self.sei();
                false
            },
            0x24 | 0x2C => {
                self.bit(mode);
                false
            },
            0xE0 | 0xE4 | 0xEC => {
                self.compare(self.register_x, mode);
                false
            },
            0xC0 | 0xC4 | 0xCC => {
                self.compare(self.register_y, mode);
                false
            },
            0x88 => {
                self.dey();
                false
            },
            0xE8 => {
                self.inx();
                false
            },
            0xC8 => {
                self.iny();
                false
            },
            0x4C => {
                self.jmp_absolute();
                true
            },
            0x6C => {
                self.jmp_indirect();
                true
            },
            0x20 => {
                self.jsr();
                true
            },
            0x40 => {
                self.rti();
                true
            },
            0x60 => {
                self.rts();
                true
            },
            0xA0 | 0xA4 | 0xB4 | 0xAC | 0xBC => {
                self.ldy(mode);
                false
            },
            0x84 | 0x94 | 0x8C => {
                self.sty(mode);
                false
            },
            0x48 => {
                self.pha();
                false
            },
            0x08 => {
                self.php();
                false
            },
            0x68 => {
                self.pla();
                false
            },
            0x28 => {
                self.plp();
                false
            },
            0xA8 => {
                self.tay();
                false
            },
            0x98 => {
                self.tya();
                false
            },
            0x9C => {
                self.shy();
                false
            },
            0x04 | 0x44 | 0x64 | 0x14 | 0x34 | 0x54 | 0x74 | 0xD4 | 0xF4 | 0x0C | 0x1C | 0x3C
            | 0x5C | 0x7C | 0xDC | 0xFC => {
                self.nop_read();
                false
            },
            _ => false,
        }
    }

    fn execute_alu(&mut self, opcode: u8, mode: &AddressingMode)
        requires
            opcode_entry(opcode) is Some,
            *mode == opcode_entry(opcode).unwrap().mode,
        ensures
            final(self)@ == old(self)@.execute_alu(opcode, *mode),
    {
        reveal(CpuState::execute_alu);
        match opcode {
            0x69 | 0x65 | 0x75 | 0x6D | 0x7D | 0x79 | 0x61 | 0x71 => self.adc(mode),
            0x29 | 0x25 | 0x35 | 0x2D | 0x3D | 0x39 | 0x21 | 0x31 => self.and(mode),
            0xC9 | 0xC5 | 0xD5 | 0xCD | 0xDD | 0xD9 | 0xC1 | 0xD1 => self.compare(
                self.register_a,
                mode,
            ),
            0x49 | 0x45 | 0x55 | 0x4D | 0x5D | 0x59 | 0x41 | 0x51 => self.eor(mode),
            0xA9 | 0xA5 | 0xB5 | 0xAD | 0xBD | 0xB9 | 0xA1 | 0xB1 => self.lda(mode),
            0x09 | 0x05 | 0x15 | 0x0D | 0x1D | 0x19 | 0x01 | 0x11 => self.ora(mode),
            0xE9 | 0xE5 | 0xF5 | 0xED | 0xFD | 0xF9 | 0xE1 | 0xF1 => self.sbc(mode),
            0x85 | 0x95 | 0x8D | 0x9D | 0x99 | 0x81 | 0x91 => self.sta(mode),
            _ => {},
        }
    }

    fn execute_shift(&mut self, opcode: u8, mode: &AddressingMode)
        requires
            opcode_entry(opcode) is Some,
            *mode == opcode_entry(opcode).unwrap().mode,
        ensures
            final(self)@ == old(self)@.execute_shift(opcode, *mode),
    {
        reveal(CpuState::execute_shift);
        match opcode {
            0x0A => self.asl_accumulator(),
            0x06 | 0x16 | 0x0E | 0x1E => {
                let _ = self.asl(mode);
            },
            0x4A => self.lsr_accumulator(),
            0x46 | 0x56 | 0x4E | 0x5E => {
                let _ = self.lsr(mode);
            },
            0x2A => self.rol_accumulator(),
            0x26 | 0x36 | 0x2E | 0x3E => {
                let _ = self.rol(mode);
            },
            0x6A => self.ror_accumulator(),
            0x66 | 0x76 | 0x6E | 0x7E => {
                let _ = self.ror(mode);
            },
            0xC6 | 0xD6 | 0xCE | 0xDE => {
                let _ = self.dec(mode);
            },
            0xE6 | 0xF6 | 0xEE | 0xFE => {
                let _ = self.inc(mode);
            },
            0xCA => self.dex(),
            0xA2 | 0xA6 | 0xB6 | 0xAE | 0xBE => self.ldx(mode),
            0x86 | 0x96 | 0x8E => self.stx(mode),
            0xAA => self.tax(),
            0xBA => self.tsx(),
            0x8A => self.txa(),
            0x9A => self.txs(),
            0x9E => self.shx(),
            _ => {},
        }
    }

    fn execute_combined_low(&mut self, opcode: u8, mode: &AddressingMode)
        requires
            opcode_entry(opcode) is Some,
            *mode == opcode_entry(opcode).unwrap().mode,
        ensures
            final(self)@ == old(self)@.execute_combined_low(opcode, *mode),
    {
        reveal(CpuState::execute_combined_low);
        match opcode {
            0x27 | 0x37 | 0x2F | 0x3F | 0x3B | 0x33 | 0x23 => self.rla(mode),
            0x07 | 0x17 | 0x0F | 0x1F | 0x1B | 0x03 | 0x13 => self.slo(mode),
            0x47 | 0x57 | 0x4F | 0x5F | 0x5B | 0x43 | 0x53 => self.sre(mode),
            0x67 | 0x77 | 0x6F | 0x7F | 0x7B | 0x63 | 0x73 => self.rra(mode),
            0x6B => self.arr(mode),
            0x0B | 0x2B => self.anc(mode),
            0x4B => self.alr(mode),
            _ => {},
        }
    }

    fn execute_combined_high(&mut self, opcode: u8, mode: &AddressingMode)
        requires
            opcode_entry(opcode) is Some,
            *mode == opcode_entry(opcode).unwrap().mode,
        ensures
            final(self)@ == old(self)@.execute_combined_high(opcode, *mode),
    {
        reveal(CpuState::execute_combined_high);
        match opcode {
            0xC7 | 0xD7 | 0xCF | 0xDF | 0xDB | 0xD3 | 0xC3 => self.dcp(mode),
            0xE7 | 0xF7 | 0xEF | 0xFF | 0xFB | 0xE3 | 0xF3 => self.isb(mode),
            0xA7 | 0xB7 | 0xAF | 0xBF | 0xA3 | 0xB3 => self.lax(mode),
            0x87 | 0x97 | 0x8F | 0x83 => self.sax(mode),
            0xCB => self.axs(mode),
            0xEB => self.sbc(mode),
            0xAB => self.lxa(mode),
            0x8B => self.xaa(mode),
            0xBB => self.las(mode),
            0x9B => self.tas(),
            0x93 => self.ahx_indirect(),
            0x9F => self.ahx_absolute(),
            _ => {},
        }
    }

    fn execute_combined(&mut self, opcode: u8, mode: &AddressingMode)
        requires
            opcode_entry(opcode) is Some,
            *mode == opcode_entry(opcode).unwrap().mode,
        ensures
            final(self)@ == old(self)@.execute_combined(opcode, *mode),
    {
        if opcode < 0x80 {
            self.execute_combined_low(opcode, mode);
        } else {
            self.execute_combined_high(opcode, mode);
        }
    }

    /// Executes the instruction `opcode`, whose row in the table gives
    /// `mode`, with the program counter on the byte after the opcode. Tells
    /// whether the instruction redirected the program counter.
    fn execute(&mut self, opcode: u8, mode: &AddressingMode) -> (redirected: bool)
        requires
            opcode_entry(opcode) is Some,
            *mode == opcode_entry(opcode).unwrap().mode,
        ensures
            (final(self)@, redirected) == old(self)@.execute(opcode, *mode),
    {
        reveal(CpuState::execute);
        match opcode % 4 {
            0 => self.execute_control(opcode, mode),
            1 => {
                self.execute_alu(opcode, mode);
                false
            },
            2 => {
                self.execute_shift(opcode, mode);
                false
            },
            _ => {
                self.execute_combined(opcode, mode);
                false
            },
        }
    }

    /// Serves the non-maskable interrupt.
    fn interrupt_nmi(&mut self)
        ensures
            final(self)@ == old(self)@.interrupt_nmi(),
    {
        self.push_u16(self.program_counter);
        let mut status = self.status;
        status.remove(StatusFlags::BREAK);
        status.insert(StatusFlags::BREAK2);
        self.push(status.bits());
        self.program_counter = self.read_u16(NMI_VECTOR);
    }

    /// Lets the PPU catch up with `cycles` CPU cycles, and serves the
    /// interrupt it may request.
    fn tick(&mut self, cycles: u8)
        requires
            cycles <= 8,
        ensures
            final(self)@ == old(self)@.tick(cycles),
    {
        reveal(CpuState::tick);
        let _ = self.bus.tick(cycles * PPU_CYCLES_PER_CPU_CYCLE);
        if self.bus.poll_nmi_status().is_some() {
            self.interrupt_nmi();
        }
    }

    /// Executes one instruction. The result is `None` while the CPU keeps
    /// going, and the reason when the instruction stopped it.
    pub fn step(&mut self) -> (stop: Option<Stop>)
        ensures
            (final(self)@, stop) == old(self)@.step(),
    {
        reveal(CpuState::step);
        let at = self.program_counter;
        let opcode = self.read(at);
        proof {
            lemma_opcode_entry(opcode);
        }
        let details = match get_opcode_details(&opcode) {
            None => {
                return Some(Stop::UnknownOpcode { opcode, addr: at });
            },
            Some(details) => details,
        };
        self.program_counter = at.wrapping_add(1);
        if opcode == 0x00 {
            return Some(Stop::Halted);
        }
        let redirected = self.execute(opcode, &details.mode);
        if !redirected {
            self.program_counter = self.program_counter.wrapping_add(
                details.additional_bytes as u16,
            );
        }
        self.tick(details.cycles);
        None
    }

    /// Executes at most `budget` instructions, until one stops the CPU.
    /// Before each instruction `callback` is shown the CPU.
    pub fn run_for<F: FnMut(&CPU)>(&mut self, budget: u64, mut callback: F) -> (stop: Stop)
        requires
            forall|cpu: &CPU| call_requires(callback, (cpu,)),
        ensures
            (final(self)@, stop) == old(self)@.run(budget as nat),
    {
        let ghost start = self@;
        let mut remaining = budget;
        loop
            invariant
                forall|cpu: &CPU| call_requires(callback, (cpu,)),
                start == old(self)@,
                self@.run(remaining as nat) == start.run(budget as nat),
            decreases remaining,
        {
            if remaining == 0 {
                return Stop::OutOfBudget;
            }
            callback(&*self);
            match self.step() {
                Some(stop) => {
                    return stop;
                },
                None => {},
            }
            remaining = remaining - 1;
        }
    }

    /// Executes instructions until one stops the CPU, up to `u64::MAX` of
    /// them. Before each instruction `callback` is shown the CPU.
    pub fn run_with_callback<F: FnMut(&CPU)>(&mut self, callback: F) -> (stop: Stop)
        requires
            forall|cpu: &CPU| call_requires(callback, (cpu,)),
        ensures
            (final(self)@, stop) == old(self)@.run(u64::MAX as nat),
    {
        self.run_for(u64::MAX, callback)
    }

    /// Writes `program` into memory from `0x0600` on.
    pub fn load(&mut self, program: Vec<u8>)
        ensures
            final(self)@ == old(self)@.store_all(LOAD_ADDR, program@),
    {
        let ghost start = self@;
        let mut i: usize = 0;
        let mut at: u16 = LOAD_ADDR;
        assert(program@.subrange(0, program.len() as int) =~= program@);
        while i < program.len()
            invariant
                i <= program.len(),
                self@.store_all(at, program@.subrange(i as int, program.len() as int))
                    == start.store_all(LOAD_ADDR, program@),
            decreases program.len() - i,
        {
            proof {
                let rest = program@.subrange(i as int, program.len() as int);
                assert(rest.drop_first() =~= program@.subrange(i + 1, program.len() as int));
            }
            self.store(at, program[i]);
            at = at.wrapping_add(1);
            i = i + 1;
        }
    }

    /// Loads `program` at `0x0600`, resets the CPU, and runs the program
    /// from its first byte.
    pub fn load_and_run(&mut self, program: Vec<u8>) -> (stop: Stop)
        ensures
            (final(self)@, stop) == (CpuState {
                pc: LOAD_ADDR,
                ..old(self)@.store_all(LOAD_ADDR, program@).reset()
            }).run(u64::MAX as nat),
    {
        self.load(program);
        self.reset();
        self.program_counter = LOAD_ADDR;
        self.run_with_callback(ignore)
    }
}

} // verus!
