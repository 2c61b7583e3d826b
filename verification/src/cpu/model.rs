//! The mathematical model of the CPU: its state, and each instruction as a
//! function from the state before to the state after.

use crate::bits::{assign_bits, complement, contains_bits, shifted_left, shifted_right, signed_overflow};
use crate::bus::BusState;
use crate::cpu::{AddressingMode, StatusFlags};
use crate::mem::{high_byte, low_byte, word, MemFault};
use crate::opcodes::opcode_entry;
use vstd::prelude::*;

verus! {

/// The first address of the stack page.
pub const STACK_ADDR: u16 = 0x0100;

/// The stack pointer after a reset.
pub const STACK_PTR_INIT: u8 = 0xFD;

/// The status byte after a reset: interrupt-disable and the fixed bit.
pub const STATUS_INIT: u8 = 0b0010_0100;

/// Where programs are loaded.
pub const LOAD_ADDR: u16 = 0x0600;

/// Where the reset vector lies.
pub const RESET_VECTOR: u16 = 0xFFFC;

/// Where the vector of the non-maskable interrupt lies.
pub const NMI_VECTOR: u16 = 0xFFFA;

/// How many PPU cycles pass for each CPU cycle.
pub const PPU_CYCLES_PER_CPU_CYCLE: u8 = 3;

/// Why the CPU stopped.
#[derive(Clone, Copy, Debug, PartialEq, Eq, Structural)]
pub enum Stop {
    /// It fetched BRK (`0x00`).
    Halted,
    /// It fetched the byte `opcode` at `addr`, and the table has no row for
    /// it.
    UnknownOpcode { opcode: u8, addr: u16 },
    /// It executed as many instructions as it was allowed.
    OutOfBudget,
}

/// What a `CPU` holds.
pub struct CpuState {
    pub a: u8,
    pub x: u8,
    pub y: u8,
    pub status: u8,
    pub sp: u8,
    pub pc: u16,
    pub bus: BusState,
    /// The first write that the bus rejected, until it is taken.
    pub fault: Option<MemFault>,
}

/// Where a taken branch with displacement byte `displacement` leads, read
/// at `pc`: the address after that byte plus the displacement as a signed
/// number, wrapping at 16 bits.
pub open spec fn branch_target(pc: u16, displacement: u8) -> u16 {
    let signed: int = if displacement < 128 {
        displacement as int
    } else {
        displacement as int - 256
    };
    ((pc as int + 1 + signed) % 0x1_0000) as u16
}

/// The address after `addr` on the same 256-byte page: the last byte of a
/// page is followed by its first.
pub open spec fn next_on_page(addr: u16) -> u16 {
    ((addr as int / 256) * 256 + (addr as int + 1) % 256) as u16
}

/// `a + value + carry` as a number of up to nine bits.
pub open spec fn sum_with_carry(a: u8, value: u8, carry: bool) -> int {
    a as int + value as int + if carry {
        1int
    } else {
        0int
    }
}

impl CpuState {
    /// Whether the memories behind the bus have their sizes and the PPU's
    /// clock is inside the frame.
    pub open spec fn wf(self) -> bool {
        self.bus.wf()
    }

    // Memory
    /// A read at `addr` through the bus.
    pub open spec fn read(self, addr: u16) -> (u8, CpuState) {
        let (value, bus) = self.bus.read(addr);
        (value, CpuState { bus, ..self })
    }

    /// A write at `addr` through the bus, and whether it was accepted.
    pub open spec fn try_write(self, addr: u16, data: u8) -> (Result<(), MemFault>, CpuState) {
        let (accepted, bus) = self.bus.write(addr, data);
        (accepted, CpuState { bus, ..self })
    }

    /// The state with a rejection noted, unless an earlier one is still
    /// noted.
    pub open spec fn note(self, accepted: Result<(), MemFault>) -> CpuState {
        match (self.fault, accepted) {
            (None, Err(fault)) => CpuState { fault: Some(fault), ..self },
            _ => self,
        }
    }

    /// A write at `addr` by an instruction: a rejected write leaves memory
    /// as it was and is noted.
    pub open spec fn write(self, addr: u16, data: u8) -> CpuState {
        let (accepted, after) = self.try_write(addr, data);
        after.note(accepted)
    }

    /// The little-endian word at `addr` and `addr + 1` (wrapping).
    pub open spec fn read_u16(self, addr: u16) -> (u16, CpuState) {
        let (lo, mid) = self.read(addr);
        let (hi, end) = mid.read(addr.wrapping_add(1));
        (word(lo, hi), end)
    }

    /// The little-endian word at `addr` and the address after it on the
    /// same page.
    pub open spec fn read_u16_on_page(self, addr: u16) -> (u16, CpuState) {
        let (lo, mid) = self.read(addr);
        let (hi, end) = mid.read(next_on_page(addr));
        (word(lo, hi), end)
    }

    /// The little-endian word at zero-page address `addr` and its
    /// successor in the zero page.
    pub open spec fn read_u16_zero_page(self, addr: u8) -> (u16, CpuState) {
        let (lo, mid) = self.read(addr as u16);
        let (hi, end) = mid.read(addr.wrapping_add(1) as u16);
        (word(lo, hi), end)
    }

    /// The address that an operand stored at `at` names under `mode`.
    /// `Implied` names none.
    #[verifier::opaque]
    pub open spec fn operand_address(self, mode: AddressingMode, at: u16) -> (u16, CpuState) {
        match mode {
            AddressingMode::Immediate => (at, self),
            AddressingMode::ZeroPage => {
                let (base, s) = self.read(at);
                (base as u16, s)
            },
            AddressingMode::ZeroPage_X => {
                let (base, s) = self.read(at);
                (base.wrapping_add(self.x) as u16, s)
            },
            AddressingMode::ZeroPage_Y => {
                let (base, s) = self.read(at);
                (base.wrapping_add(self.y) as u16, s)
            },
            AddressingMode::Absolute => self.read_u16(at),
            AddressingMode::Absolute_X => {
                let (base, s) = self.read_u16(at);
                (base.wrapping_add(self.x as u16), s)
            },
            AddressingMode::Absolute_Y => {
                let (base, s) = self.read_u16(at);
                (base.wrapping_add(self.y as u16), s)
            },
            AddressingMode::Indirect => {
                let (pointer, s) = self.read_u16(at);
                s.read_u16_on_page(pointer)
            },
            AddressingMode::Indirect_X => {
                let (base, s) = self.read(at);
                s.read_u16_zero_page(base.wrapping_add(self.x))
            },
            AddressingMode::Indirect_Y => {
                let (base, s) = self.read(at);
                let (pointer, end) = s.read_u16_zero_page(base);
                (pointer.wrapping_add(self.y as u16), end)
            },
            AddressingMode::Implied => (0, self),
        }
    }

    // Looking without touching
    /// The byte that a read at `addr` would return.
    pub open spec fn peek(self, addr: u16) -> u8 {
        self.bus.read(addr).0
    }

    /// The little-endian word that reads at `addr` and `addr + 1`
    /// (wrapping) would return, each taken on its own.
    pub open spec fn peek_u16(self, addr: u16) -> u16 {
        word(self.peek(addr), self.peek(addr.wrapping_add(1)))
    }

    /// As `peek_u16`, with the second byte taken from the same page.
    pub open spec fn peek_u16_on_page(self, addr: u16) -> u16 {
        word(self.peek(addr), self.peek(next_on_page(addr)))
    }

    /// As `peek_u16`, inside the zero page.
    pub open spec fn peek_u16_zero_page(self, addr: u8) -> u16 {
        word(self.peek(addr as u16), self.peek(addr.wrapping_add(1) as u16))
    }

    /// The address that an operand stored at `at` names under `mode`, found
    /// by looking only. `Implied` names none.
    pub open spec fn peek_operand_address(self, mode: AddressingMode, at: u16) -> u16 {
        match mode {
            AddressingMode::Immediate => at,
            AddressingMode::ZeroPage => self.peek(at) as u16,
            AddressingMode::ZeroPage_X => self.peek(at).wrapping_add(self.x) as u16,
            AddressingMode::ZeroPage_Y => self.peek(at).wrapping_add(self.y) as u16,
            AddressingMode::Absolute => self.peek_u16(at),
            AddressingMode::Absolute_X => self.peek_u16(at).wrapping_add(self.x as u16),
            AddressingMode::Absolute_Y => self.peek_u16(at).wrapping_add(self.y as u16),
            AddressingMode::Indirect => self.peek_u16_on_page(self.peek_u16(at)),
            AddressingMode::Indirect_X => self.peek_u16_zero_page(
                self.peek(at).wrapping_add(self.x),
            ),
            AddressingMode::Indirect_Y => self.peek_u16_zero_page(self.peek(at)).wrapping_add(
                self.y as u16,
            ),
            AddressingMode::Implied => 0,
        }
    }

    /// The address of the operand of the instruction being executed.
    pub open spec fn operand(self, mode: AddressingMode) -> (u16, CpuState) {
        self.operand_address(mode, self.pc)
    }

    /// The value of the operand of the instruction being executed.
    pub open spec fn fetch(self, mode: AddressingMode) -> (u8, CpuState) {
        let (addr, s) = self.operand(mode);
        s.read(addr)
    }

    // Stack
    pub open spec fn push(self, data: u8) -> CpuState {
        CpuState { sp: self.sp.wrapping_sub(1), ..self.write((STACK_ADDR + self.sp) as u16, data) }
    }

    pub open spec fn pop(self) -> (u8, CpuState) {
        let sp = self.sp.wrapping_add(1);
        (CpuState { sp, ..self }).read((STACK_ADDR + sp) as u16)
    }

    /// Pushes `values` one after the other, the first one first.
    pub open spec fn push_all(self, values: Seq<u8>) -> CpuState
        decreases values.len(),
    {
        if values.len() == 0 {
            self
        } else {
            self.push_all(values.drop_last()).push(values.last())
        }
    }

    /// Pops `count` bytes; the first one popped comes first.
    pub open spec fn pop_many(self, count: nat) -> (Seq<u8>, CpuState)
        decreases count,
    {
        if count == 0 {
            (Seq::<u8>::empty(), self)
        } else {
            let (first, s) = self.pop();
            let (rest, end) = s.pop_many((count - 1) as nat);
            (seq![first] + rest, end)
        }
    }

    /// Pushes the high byte, then the low byte.
    pub open spec fn push_u16(self, data: u16) -> CpuState {
        self.push(high_byte(data)).push(low_byte(data))
    }

    /// Pops the low byte, then the high byte.
    pub open spec fn pop_u16(self) -> (u16, CpuState) {
        let (lo, mid) = self.pop();
        let (hi, end) = mid.pop();
        (word(lo, hi), end)
    }

    // Flags and registers
    pub open spec fn flag(self, mask: u8) -> bool {
        contains_bits(self.status, mask)
    }

    pub open spec fn with_flag(self, mask: u8, on: bool) -> CpuState {
        CpuState { status: assign_bits(self.status, mask, on), ..self }
    }

    /// Zero is set iff `value` is 0, Negative iff its bit 7 is set.
    pub open spec fn with_zn(self, value: u8) -> CpuState {
        self.with_flag(StatusFlags::ZERO, value == 0).with_flag(
            StatusFlags::NEGATIVE,
            value & 0b1000_0000 > 0,
        )
    }

    pub open spec fn set_a(self, value: u8) -> CpuState {
        (CpuState { a: value, ..self }).with_zn(value)
    }

    pub open spec fn set_x(self, value: u8) -> CpuState {
        (CpuState { x: value, ..self }).with_zn(value)
    }

    pub open spec fn set_y(self, value: u8) -> CpuState {
        (CpuState { y: value, ..self }).with_zn(value)
    }

    /// A status byte as it is restored from the stack: Break is cleared and
    /// the fixed bit is set.
    pub open spec fn restored_status(data: u8) -> u8 {
        assign_bits(assign_bits(data, StatusFlags::BREAK, false), StatusFlags::BREAK2, true)
    }

    // Arithmetic
    /// The accumulator takes `a + value + carry`: Carry is set iff the sum
    /// exceeds `0xFF`, Overflow iff it left the signed range.
    pub open spec fn add_with_carry(self, value: u8) -> CpuState {
        let sum = sum_with_carry(self.a, value, self.flag(StatusFlags::CARRY));
        let result = (sum % 256) as u8;
        self.with_flag(StatusFlags::CARRY, sum > 0xFF).with_flag(
            StatusFlags::OVERFLOW,
            signed_overflow(self.a, value, result),
        ).set_a(result)
    }

    /// The accumulator takes `a - value - (1 - carry)`, computed as the sum
    /// with the one's complement of `value`.
    pub open spec fn subtract_with_borrow(self, value: u8) -> CpuState {
        self.add_with_carry(complement(value))
    }

    /// `register` is compared with `value`: Carry is set iff `register` is
    /// not below it, Zero and Negative are those of the difference.
    pub open spec fn compare_with(self, register: u8, value: u8) -> CpuState {
        self.with_flag(StatusFlags::CARRY, register >= value).with_zn(register.wrapping_sub(value))
    }

    /// The byte at the operand is replaced by `result`, Carry becomes
    /// `carry`, and Zero and Negative are those of `result`.
    pub open spec fn modify(self, addr: u16, result: u8, carry: bool) -> (u8, CpuState) {
        (result, self.with_flag(StatusFlags::CARRY, carry).write(addr, result).with_zn(result))
    }

    // Official instructions
    pub open spec fn adc(self, mode: AddressingMode) -> CpuState {
        let (value, s) = self.fetch(mode);
        s.add_with_carry(value)
    }

    pub open spec fn sbc(self, mode: AddressingMode) -> CpuState {
        let (value, s) = self.fetch(mode);
        s.subtract_with_borrow(value)
    }

    pub open spec fn and(self, mode: AddressingMode) -> CpuState {
        let (value, s) = self.fetch(mode);
        s.set_a(s.a & value)
    }

    pub open spec fn eor(self, mode: AddressingMode) -> CpuState {
        let (value, s) = self.fetch(mode);
        s.set_a(s.a ^ value)
    }

    pub open spec fn ora(self, mode: AddressingMode) -> CpuState {
        let (value, s) = self.fetch(mode);
        s.set_a(s.a | value)
    }

    pub open spec fn asl_accumulator(self) -> CpuState {
        let (result, carry) = shifted_left(self.a, false);
        self.with_flag(StatusFlags::CARRY, carry).set_a(result)
    }

    pub open spec fn lsr_accumulator(self) -> CpuState {
        let (result, carry) = shifted_right(self.a, false);
        self.with_flag(StatusFlags::CARRY, carry).set_a(result)
    }

    pub open spec fn rol_accumulator(self) -> CpuState {
        let (result, carry) = shifted_left(self.a, self.flag(StatusFlags::CARRY));
        self.with_flag(StatusFlags::CARRY, carry).set_a(result)
    }

    pub open spec fn ror_accumulator(self) -> CpuState {
        let (result, carry) = shifted_right(self.a, self.flag(StatusFlags::CARRY));
        self.with_flag(StatusFlags::CARRY, carry).set_a(result)
    }

    pub open spec fn asl(self, mode: AddressingMode) -> (u8, CpuState) {
        let (addr, s) = self.operand(mode);
        let (value, t) = s.read(addr);
        let (result, carry) = shifted_left(value, false);
        t.modify(addr, result, carry)
    }

    pub open spec fn lsr(self, mode: AddressingMode) -> (u8, CpuState) {
        let (addr, s) = self.operand(mode);
        let (value, t) = s.read(addr);
        let (result, carry) = shifted_right(value, false);
        t.modify(addr, result, carry)
    }

    pub open spec fn rol(self, mode: AddressingMode) -> (u8, CpuState) {
        let (addr, s) = self.operand(mode);
        let (value, t) = s.read(addr);
        let (result, carry) = shifted_left(value, t.flag(StatusFlags::CARRY));
        t.modify(addr, result, carry)
    }

    pub open spec fn ror(self, mode: AddressingMode) -> (u8, CpuState) {
        let (addr, s) = self.operand(mode);
        let (value, t) = s.read(addr);
        let (result, carry) = shifted_right(value, t.flag(StatusFlags::CARRY));
        t.modify(addr, result, carry)
    }

    /// A branch: taken iff `condition` holds, and then the displacement
    /// byte at the program counter is read. The second part tells whether
    /// it was taken.
    pub open spec fn branch(self, condition: bool) -> (CpuState, bool) {
        if condition {
            let (displacement, s) = self.read(self.pc);
            (CpuState { pc: branch_target(self.pc, displacement), ..s }, true)
        } else {
            (self, false)
        }
    }

    /// Zero tells whether the accumulator and the operand share no bit;
    /// Negative and Overflow take bits 7 and 6 of the operand.
    pub open spec fn bit(self, mode: AddressingMode) -> CpuState {
        let (value, s) = self.fetch(mode);
        s.with_flag(StatusFlags::ZERO, s.a & value == 0).with_flag(
            StatusFlags::NEGATIVE,
            value & 0b1000_0000 > 0,
        ).with_flag(StatusFlags::OVERFLOW, value & 0b0100_0000 > 0)
    }

    pub open spec fn compare(self, register: u8, mode: AddressingMode) -> CpuState {
        let (value, s) = self.fetch(mode);
        s.compare_with(register, value)
    }

    pub open spec fn dec(self, mode: AddressingMode) -> (u8, CpuState) {
        let (addr, s) = self.operand(mode);
        let (value, t) = s.read(addr);
        let result = value.wrapping_sub(1);
        (result, t.write(addr, result).with_zn(result))
    }

    pub open spec fn inc(self, mode: AddressingMode) -> (u8, CpuState) {
        let (addr, s) = self.operand(mode);
        let (value, t) = s.read(addr);
        let result = value.wrapping_add(1);
        (result, t.write(addr, result).with_zn(result))
    }

    pub open spec fn dex(self) -> CpuState {
        self.set_x(self.x.wrapping_sub(1))
    }

    pub open spec fn dey(self) -> CpuState {
        self.set_y(self.y.wrapping_sub(1))
    }

    pub open spec fn inx(self) -> CpuState {
        self.set_x(self.x.wrapping_add(1))
    }

    pub open spec fn iny(self) -> CpuState {
        self.set_y(self.y.wrapping_add(1))
    }

    /// A jump to the address stored after the opcode.
    pub open spec fn jmp_absolute(self) -> CpuState {
        let (target, s) = self.read_u16(self.pc);
        CpuState { pc: target, ..s }
    }

    /// A jump through the pointer stored after the opcode. The second byte
    /// of the target is fetched from the pointer's own page, also where the
    /// pointer is the last byte of it.
    pub open spec fn jmp_indirect(self) -> CpuState {
        let (pointer, s) = self.read_u16(self.pc);
        let (target, t) = s.read_u16_on_page(pointer);
        CpuState { pc: target, ..t }
    }

    /// A call: the address of the last byte of the instruction is pushed,
    /// and the target stored after the opcode is jumped to.
    pub open spec fn jsr(self) -> CpuState {
        let pushed = self.push_u16(self.pc.wrapping_add(1));
        let (target, s) = pushed.read_u16(pushed.pc);
        CpuState { pc: target, ..s }
    }

    /// A return: the popped address plus one.
    pub open spec fn rts(self) -> CpuState {
        let (addr, s) = self.pop_u16();
        CpuState { pc: addr.wrapping_add(1), ..s }
    }

    /// A return from an interrupt: the status is restored, then the program
    /// counter.
    pub open spec fn rti(self) -> CpuState {
        let (data, s) = self.pop();
        let (addr, t) = (CpuState { status: Self::restored_status(data), ..s }).pop_u16();
        CpuState { pc: addr, ..t }
    }

    pub open spec fn lda(self, mode: AddressingMode) -> CpuState {
        let (value, s) = self.fetch(mode);
        s.set_a(value)
    }

    pub open spec fn ldx(self, mode: AddressingMode) -> CpuState {
        let (value, s) = self.fetch(mode);
        s.set_x(value)
    }

    pub open spec fn ldy(self, mode: AddressingMode) -> CpuState {
        let (value, s) = self.fetch(mode);
        s.set_y(value)
    }

    pub open spec fn pha(self) -> CpuState {
        self.push(self.a)
    }

    /// The status is pushed with Break and the fixed bit set; the live
    /// status stays as it is.
    pub open spec fn php(self) -> CpuState {
        self.push(
            assign_bits(
                assign_bits(self.status, StatusFlags::BREAK, true),
                StatusFlags::BREAK2,
                true,
            ),
        )
    }

    pub open spec fn pla(self) -> CpuState {
        let (data, s) = self.pop();
        s.set_a(data)
    }

    pub open spec fn plp(self) -> CpuState {
        let (data, s) = self.pop();
        CpuState { status: Self::restored_status(data), ..s }
    }

    pub open spec fn sta(self, mode: AddressingMode) -> CpuState {
        let (addr, s) = self.operand(mode);
        s.write(addr, s.a)
    }

    pub open spec fn stx(self, mode: AddressingMode) -> CpuState {
        let (addr, s) = self.operand(mode);
        s.write(addr, s.x)
    }

    pub open spec fn sty(self, mode: AddressingMode) -> CpuState {
        let (addr, s) = self.operand(mode);
        s.write(addr, s.y)
    }

    pub open spec fn tax(self) -> CpuState {
        self.set_x(self.a)
    }

    pub open spec fn tay(self) -> CpuState {
        self.set_y(self.a)
    }

    pub open spec fn tsx(self) -> CpuState {
        self.set_x(self.sp)
    }

    pub open spec fn txa(self) -> CpuState {
        self.set_a(self.x)
    }

    pub open spec fn tya(self) -> CpuState {
        self.set_a(self.y)
    }

    pub open spec fn txs(self) -> CpuState {
        CpuState { sp: self.x, ..self }
    }

    // Undocumented instructions
    /// DCP: the operand is decremented in memory and the accumulator is
    /// compared with the result.
    pub open spec fn dcp(self, mode: AddressingMode) -> CpuState {
        let (addr, s) = self.operand(mode);
        let (value, t) = s.read(addr);
        let result = value.wrapping_sub(1);
        let written = t.write(addr, result);
        written.compare_with(written.a, result)
    }

    /// RLA: the operand is rotated left in memory and the accumulator is
    /// and-ed with the result.
    pub open spec fn rla(self, mode: AddressingMode) -> CpuState {
        let (data, s) = self.rol(mode);
        s.set_a(data & s.a)
    }

    /// SLO: the operand is shifted left in memory and the accumulator is
    /// or-ed with the result.
    pub open spec fn slo(self, mode: AddressingMode) -> CpuState {
        let (data, s) = self.asl(mode);
        s.set_a(data | s.a)
    }

    /// SRE: the operand is shifted right in memory and the accumulator is
    /// exclusive-or-ed with the result.
    pub open spec fn sre(self, mode: AddressingMode) -> CpuState {
        let (data, s) = self.lsr(mode);
        s.set_a(data ^ s.a)
    }

    /// RRA: the operand is rotated right in memory and the result is added
    /// to the accumulator with carry.
    pub open spec fn rra(self, mode: AddressingMode) -> CpuState {
        let (data, s) = self.ror(mode);
        s.add_with_carry(data)
    }

    /// ISB: the operand is incremented in memory and the result is
    /// subtracted from the accumulator with borrow.
    pub open spec fn isb(self, mode: AddressingMode) -> CpuState {
        let (data, s) = self.inc(mode);
        s.subtract_with_borrow(data)
    }

    /// LAX: the operand is loaded into the accumulator and into X.
    pub open spec fn lax(self, mode: AddressingMode) -> CpuState {
        let (value, s) = self.fetch(mode);
        CpuState { x: value, ..s.set_a(value) }
    }

    /// SAX: the accumulator and-ed with X is stored at the operand.
    pub open spec fn sax(self, mode: AddressingMode) -> CpuState {
        let (addr, s) = self.operand(mode);
        s.write(addr, self.a & self.x)
    }

    /// AXS: X takes the accumulator and-ed with X, minus the operand.
    /// Carry is set if that did not borrow, and is otherwise left alone.
    pub open spec fn axs(self, mode: AddressingMode) -> CpuState {
        let (value, s) = self.fetch(mode);
        let both = s.x & s.a;
        let result = both.wrapping_sub(value);
        let carried = if value <= both {
            s.with_flag(StatusFlags::CARRY, true)
        } else {
            s
        };
        CpuState { x: result, ..carried.with_zn(result) }
    }

    /// ARR: the accumulator is and-ed with the operand and rotated right;
    /// Carry takes bit 6 of the result, Overflow bit 6 exclusive-or bit 5.
    pub open spec fn arr(self, mode: AddressingMode) -> CpuState {
        let (value, s) = self.fetch(mode);
        let rotated = s.set_a(value & s.a).ror_accumulator();
        let result = rotated.a;
        let bit_5 = (result >> 5) & 1;
        let bit_6 = (result >> 6) & 1;
        rotated.with_flag(StatusFlags::CARRY, bit_6 == 1).with_flag(
            StatusFlags::OVERFLOW,
            bit_5 ^ bit_6 == 1,
        ).with_zn(result)
    }

    /// ANC: the accumulator is and-ed with the operand, and Carry takes
    /// Negative.
    pub open spec fn anc(self, mode: AddressingMode) -> CpuState {
        let (value, s) = self.fetch(mode);
        let anded = s.set_a(value & s.a);
        anded.with_flag(StatusFlags::CARRY, anded.flag(StatusFlags::NEGATIVE))
    }

    /// ALR: the accumulator is and-ed with the operand and shifted right.
    pub open spec fn alr(self, mode: AddressingMode) -> CpuState {
        let (value, s) = self.fetch(mode);
        s.set_a(value & s.a).lsr_accumulator()
    }

    /// LXA: the operand is loaded into the accumulator, which is copied to
    /// X.
    pub open spec fn lxa(self, mode: AddressingMode) -> CpuState {
        self.lda(mode).tax()
    }

    /// XAA: X is copied to the accumulator, which is and-ed with the
    /// operand.
    pub open spec fn xaa(self, mode: AddressingMode) -> CpuState {
        let copied = self.set_a(self.x);
        let (value, s) = copied.fetch(mode);
        s.set_a(value & s.a)
    }

    /// LAS: the operand and-ed with the stack pointer goes to the
    /// accumulator, X and the stack pointer.
    pub open spec fn las(self, mode: AddressingMode) -> CpuState {
        let (value, s) = self.fetch(mode);
        let data = value & s.sp;
        (CpuState { a: data, x: data, sp: data, ..s }).with_zn(data)
    }

    /// TAS: the stack pointer takes the accumulator and-ed with X, and is
    /// stored, and-ed with the target's high byte plus one, at the word
    /// after the opcode plus Y.
    pub open spec fn tas(self) -> CpuState {
        let sp = self.a & self.x;
        let moved = CpuState { sp, ..self };
        let (base, s) = moved.read_u16(moved.pc);
        let addr = base.wrapping_add(s.y as u16);
        s.write(addr, high_byte(addr).wrapping_add(1) & sp)
    }

    /// AHX with an indirect operand: the accumulator and-ed with X and the
    /// target's high byte is stored at the word found at the zero-page
    /// address after the opcode, plus Y.
    pub open spec fn ahx_indirect(self) -> CpuState {
        let (pos, s) = self.read(self.pc);
        let (base, t) = s.read_u16(pos as u16);
        let addr = base.wrapping_add(t.y as u16);
        t.write(addr, t.a & t.x & high_byte(addr))
    }

    /// AHX with an absolute operand: as above, at the word after the
    /// opcode plus Y.
    pub open spec fn ahx_absolute(self) -> CpuState {
        let (base, s) = self.read_u16(self.pc);
        let addr = base.wrapping_add(s.y as u16);
        s.write(addr, s.a & s.x & high_byte(addr))
    }

    /// SHX: X and-ed with the target's high byte plus one is stored at the
    /// word after the opcode plus Y.
    pub open spec fn shx(self) -> CpuState {
        let (base, s) = self.read_u16(self.pc);
        let addr = base.wrapping_add(s.y as u16);
        s.write(addr, s.x & high_byte(addr).wrapping_add(1))
    }

    /// SHY: Y and-ed with the target's high byte plus one is stored at the
    /// word after the opcode plus X.
    pub open spec fn shy(self) -> CpuState {
        let (base, s) = self.read_u16(self.pc);
        let addr = base.wrapping_add(s.x as u16);
        s.write(addr, s.y & high_byte(addr).wrapping_add(1))
    }

    /// A no-operation that reads the byte after the opcode.
    pub open spec fn nop_read(self) -> CpuState {
        self.read(self.pc).1
    }

    // Dispatch
    /// The instructions whose opcode ends in the bits `00`: flag changes,
    /// branches, jumps, the stack, and the loads, stores and compares of X
    /// and Y. The second part tells whether the program counter was
    /// redirected.
    #[verifier::opaque]
    pub open spec fn execute_control(self, opcode: u8, mode: AddressingMode) -> (CpuState, bool) {
        match opcode {
            0x10 => self.branch(!self.flag(StatusFlags::NEGATIVE)),
            0x30 => self.branch(self.flag(StatusFlags::NEGATIVE)),
            0x50 => self.branch(!self.flag(StatusFlags::OVERFLOW)),
            0x70 => self.branch(self.flag(StatusFlags::OVERFLOW)),
            0x90 => self.branch(!self.flag(StatusFlags::CARRY)),
            0xB0 => self.branch(self.flag(StatusFlags::CARRY)),
            0xD0 => self.branch(!self.flag(StatusFlags::ZERO)),
            0xF0 => self.branch(self.flag(StatusFlags::ZERO)),
            0x18 => (self.with_flag(StatusFlags::CARRY, false), false),
            0xB8 => (self.with_flag(StatusFlags::OVERFLOW, false), false),
            0xD8 => (self.with_flag(StatusFlags::DECIMAL, false), false),
            0x58 => (self.with_flag(StatusFlags::INTERRUPT_DISABLE, false), false),
            0x38 => (self.with_flag(StatusFlags::CARRY, true), false),
            0xF8 => (self.with_flag(StatusFlags::DECIMAL, true), false),
            0x78 => (self.with_flag(StatusFlags::INTERRUPT_DISABLE, true), false),
            0x24 | 0x2C => (self.bit(mode), false),
            0xE0 | 0xE4 | 0xEC => (self.compare(self.x, mode), false),
            0xC0 | 0xC4 | 0xCC => (self.compare(self.y, mode), false),
            0x88 => (self.dey(), false),
            0xE8 => (self.inx(), false),
            0xC8 => (self.iny(), false),
            0x4C => (self.jmp_absolute(), true),
            0x6C => (self.jmp_indirect(), true),
            0x20 => (self.jsr(), true),
            0x40 => (self.rti(), true),
            0x60 => (self.rts(), true),
            0xA0 | 0xA4 | 0xB4 | 0xAC | 0xBC => (self.ldy(mode), false),
            0x84 | 0x94 | 0x8C => (self.sty(mode), false),
            0x48 => (self.pha(), false),
            0x08 => (self.php(), false),
            0x68 => (self.pla(), false),
            0x28 => (self.plp(), false),
            0xA8 => (self.tay(), false),
            0x98 => (self.tya(), false),
            0x9C => (self.shy(), false),
            0x04 | 0x44 | 0x64 | 0x14 | 0x34 | 0x54 | 0x74 | 0xD4 | 0xF4 | 0x0C | 0x1C | 0x3C
            | 0x5C | 0x7C | 0xDC | 0xFC => (self.nop_read(), false),
            _ => (self, false),
        }
    }

    /// The instructions whose opcode ends in the bits `01`: the arithmetic
    /// and logic of the accumulator.
    #[verifier::opaque]
    pub open spec fn execute_alu(self, opcode: u8, mode: AddressingMode) -> CpuState {
        match opcode {
            0x69 | 0x65 | 0x75 | 0x6D | 0x7D | 0x79 | 0x61 | 0x71 => self.adc(mode),
            0x29 | 0x25 | 0x35 | 0x2D | 0x3D | 0x39 | 0x21 | 0x31 => self.and(mode),
            0xC9 | 0xC5 | 0xD5 | 0xCD | 0xDD | 0xD9 | 0xC1 | 0xD1 => self.compare(self.a, mode),
            0x49 | 0x45 | 0x55 | 0x4D | 0x5D | 0x59 | 0x41 | 0x51 => self.eor(mode),
            0xA9 | 0xA5 | 0xB5 | 0xAD | 0xBD | 0xB9 | 0xA1 | 0xB1 => self.lda(mode),
            0x09 | 0x05 | 0x15 | 0x0D | 0x1D | 0x19 | 0x01 | 0x11 => self.ora(mode),
            0xE9 | 0xE5 | 0xF5 | 0xED | 0xFD | 0xF9 | 0xE1 | 0xF1 => self.sbc(mode),
            0x85 | 0x95 | 0x8D | 0x9D | 0x99 | 0x81 | 0x91 => self.sta(mode),
            _ => self,
        }
    }

    /// The instructions whose opcode ends in the bits `10`: shifts,
    /// rotates, increments and decrements, and the loads, stores and
    /// transfers of X.
    #[verifier::opaque]
    pub open spec fn execute_shift(self, opcode: u8, mode: AddressingMode) -> CpuState {
        match opcode {
            0x0A => self.asl_accumulator(),
            0x06 | 0x16 | 0x0E | 0x1E => self.asl(mode).1,
            0x4A => self.lsr_accumulator(),
            0x46 | 0x56 | 0x4E | 0x5E => self.lsr(mode).1,
            0x2A => self.rol_accumulator(),
            0x26 | 0x36 | 0x2E | 0x3E => self.rol(mode).1,
            0x6A => self.ror_accumulator(),
            0x66 | 0x76 | 0x6E | 0x7E => self.ror(mode).1,
            0xC6 | 0xD6 | 0xCE | 0xDE => self.dec(mode).1,
            0xE6 | 0xF6 | 0xEE | 0xFE => self.inc(mode).1,
            0xCA => self.dex(),
            0xA2 | 0xA6 | 0xB6 | 0xAE | 0xBE => self.ldx(mode),
            0x86 | 0x96 | 0x8E => self.stx(mode),
            0xAA => self.tax(),
            0xBA => self.tsx(),
            0x8A => self.txa(),
            0x9A => self.txs(),
            0x9E => self.shx(),
            _ => self,
        }
    }

    /// The undocumented combinations below `0x80`: a shift or rotate of
    /// memory joined with an operation on the accumulator, and the
    /// immediate forms that go with them.
    #[verifier::opaque]
    pub open spec fn execute_combined_low(self, opcode: u8, mode: AddressingMode) -> CpuState {
        match opcode {
            0x27 | 0x37 | 0x2F | 0x3F | 0x3B | 0x33 | 0x23 => self.rla(mode),
            0x07 | 0x17 | 0x0F | 0x1F | 0x1B | 0x03 | 0x13 => self.slo(mode),
            0x47 | 0x57 | 0x4F | 0x5F | 0x5B | 0x43 | 0x53 => self.sre(mode),
            0x67 | 0x77 | 0x6F | 0x7F | 0x7B | 0x63 | 0x73 => self.rra(mode),
            0x6B => self.arr(mode),
            0x0B | 0x2B => self.anc(mode),
            0x4B => self.alr(mode),
            _ => self,
        }
    }

    /// The undocumented combinations from `0x80` on: joint loads and
    /// stores of the accumulator and X, decrement and increment joined with
    /// compare and subtract, and the stores of masked registers.
    #[verifier::opaque]
    pub open spec fn execute_combined_high(self, opcode: u8, mode: AddressingMode) -> CpuState {
        match opcode {
            0xC7 | 0xD7 | 0xCF | 0xDF | 0xDB | 0xD3 | 0xC3 => self.dcp(mode),
            0xE7 | 0xF7 | 0xEF | 0xFF | 0xFB | 0xE3 | 0xF3 => self.isb(mode),
            0xA7 | 0xB7 | 0xAF | 0xBF | 0xA3 | 0xB3 => self.lax(mode),
            0x87 | 0x97 | 0x8F | 0x83 => self.sax(mode),
            0xCB => self.axs(mode),
            0xEB => self.sbc(mode),
            0xAB => self.lxa(mode),
            0x8B => self.xaa(mode),
            0xBB => self.las(mode),
            0x9B => self.tas(),
            0x93 => self.ahx_indirect(),
            0x9F => self.ahx_absolute(),
            _ => self,
        }
    }

    /// The instructions whose opcode ends in the bits `11`: the
    /// undocumented combinations.
    pub open spec fn execute_combined(self, opcode: u8, mode: AddressingMode) -> CpuState {
        if opcode < 0x80 {
            self.execute_combined_low(opcode, mode)
        } else {
            self.execute_combined_high(opcode, mode)
        }
    }

    /// The instruction `opcode` with addressing mode `mode`, executed with
    /// the program counter on the byte after the opcode. The second part
    /// tells whether the instruction redirected the program counter: a
    /// jump, a call, a return or a taken branch.
    #[verifier::opaque]
    pub open spec fn execute(self, opcode: u8, mode: AddressingMode) -> (CpuState, bool) {
        match opcode % 4 {
            0 => self.execute_control(opcode, mode),
            1 => (self.execute_alu(opcode, mode), false),
            2 => (self.execute_shift(opcode, mode), false),
            _ => (self.execute_combined(opcode, mode), false),
        }
    }

    // Interrupts and the run loop
    /// The non-maskable interrupt is served: the program counter and the
    /// status (with Break cleared and the fixed bit set) are pushed, and the
    /// handler named by the vector at `0xFFFA` is entered.
    pub open spec fn interrupt_nmi(self) -> CpuState {
        let pushed = self.push_u16(self.pc).push(Self::restored_status(self.status));
        let (target, s) = pushed.read_u16(NMI_VECTOR);
        CpuState { pc: target, ..s }
    }

    /// The PPU moves on by three of its cycles for each of the `cycles`
    /// CPU cycles, and an interrupt it then requests is served at once.
    #[verifier::opaque]
    pub open spec fn tick(self, cycles: u8) -> CpuState {
        let (_frame_complete, ticked) = self.bus.tick((cycles * PPU_CYCLES_PER_CPU_CYCLE) as u8);
        let (request, polled) = ticked.poll_nmi();
        let s = CpuState { bus: polled, ..self };
        if request is Some {
            s.interrupt_nmi()
        } else {
            s
        }
    }

    /// One instruction: fetch, decode, execute, advance the program
    /// counter past the operand unless the instruction redirected it, and
    /// let the PPU catch up. The second part is `None` while the CPU keeps
    /// going.
    #[verifier::opaque]
    pub open spec fn step(self) -> (CpuState, Option<Stop>) {
        let at = self.pc;
        let (opcode, fetched) = self.read(at);
        match opcode_entry(opcode) {
            None => (fetched, Some(Stop::UnknownOpcode { opcode, addr: at })),
            Some(details) => {
                let decoded = CpuState { pc: at.wrapping_add(1), ..fetched };
                if opcode == 0x00 {
                    (decoded, Some(Stop::Halted))
                } else {
                    let (executed, redirected) = decoded.execute(opcode, details.mode);
                    let advanced = if redirected {
                        executed
                    } else {
                        CpuState {
                            pc: executed.pc.wrapping_add(details.additional_bytes as u16),
                            ..executed
                        }
                    };
                    (advanced.tick(details.cycles), None)
                }
            },
        }
    }

    /// At most `budget` instructions, until one stops the CPU.
    pub open spec fn run(self, budget: nat) -> (CpuState, Stop)
        decreases budget,
    {
        if budget == 0 {
            (self, Stop::OutOfBudget)
        } else {
            let (next, stop) = self.step();
            match stop {
                Some(reason) => (next, reason),
                None => next.run((budget - 1) as nat),
            }
        }
    }

    /// The bytes of `program` written one after the other from `at` on
    /// (wrapping).
    pub open spec fn store_all(self, at: u16, program: Seq<u8>) -> CpuState
        decreases program.len(),
    {
        if program.len() == 0 {
            self
        } else {
            self.write(at, program[0]).store_all(at.wrapping_add(1), program.drop_first())
        }
    }

    /// The registers as a reset leaves them, with the program counter taken
    /// from the reset vector.
    pub open spec fn reset(self) -> CpuState {
        let (target, s) = (CpuState {
            a: 0,
            x: 0,
            y: 0,
            status: STATUS_INIT,
            sp: STACK_PTR_INIT,
            ..self
        }).read_u16(RESET_VECTOR);
        CpuState { pc: target, ..s }
    }

    /// A CPU freshly switched on, attached to `bus`.
    pub open spec fn power_on(bus: BusState) -> CpuState {
        CpuState {
            a: 0,
            x: 0,
            y: 0,
            status: STATUS_INIT,
            sp: STACK_PTR_INIT,
            pc: 0,
            bus,
            fault: None,
        }
    }
}

} // verus!
