//! Laws of the CPU model: what holds of every state, proved once.

use crate::bits::{assign_bits, complement, contains_bits, lemma_assign_bits, signed_overflow};
use crate::bus::{
    lemma_low_addresses_are_cells, lemma_ram_read, lemma_ram_write, lemma_read_keeps_interrupts,
    lemma_read_keeps_memory, BusState, RAM_SIZE,
};
use crate::cpu::model::{sum_with_carry, CpuState, Stop, STACK_ADDR};
use crate::cpu::{AddressingMode, StatusFlags};
use crate::mem::{high_byte, low_byte, word};
use crate::opcodes::{lemma_opcode_entry, opcode_entry};
use crate::ppu::registers::control::nmi_enabled;
use vstd::prelude::*;

verus! {

/// Whether `after` shows the flags of a value that was just written to the
/// accumulator over the flags of `before`: Zero iff the accumulator is 0,
/// Negative iff its bit 7 is set, and every other flag as it was.
pub open spec fn accumulator_flags_follow(before: CpuState, after: CpuState) -> bool {
    &&& after.flag(StatusFlags::ZERO) == (after.a == 0)
    &&& after.flag(StatusFlags::NEGATIVE) == (after.a & 0x80 != 0)
    &&& after.status & !(StatusFlags::ZERO | StatusFlags::NEGATIVE) == before.status & !(
    StatusFlags::ZERO | StatusFlags::NEGATIVE)
}

/// Setting Zero and Negative from `value` makes them readable back and
/// leaves the other six flags alone.
pub proof fn lemma_zero_and_negative(status: u8, value: u8)
    ensures
        ({
            let after = assign_bits(
                assign_bits(status, StatusFlags::ZERO, value == 0),
                StatusFlags::NEGATIVE,
                value & 0b1000_0000 > 0,
            );
            &&& contains_bits(after, StatusFlags::ZERO) == (value == 0)
            &&& contains_bits(after, StatusFlags::NEGATIVE) == (value & 0x80 != 0)
            &&& after & !(StatusFlags::ZERO | StatusFlags::NEGATIVE) == status & !(
            StatusFlags::ZERO | StatusFlags::NEGATIVE)
        }),
{
    assert(((status | 2) | 128) & 2 == 2 && ((status | 2) | 128) & 128 == 128 && ((status | 2)
        | 128) & !(2u8 | 128u8) == status & !(2u8 | 128u8)) by (bit_vector);
    assert(((status | 2) & !128u8) & 2 == 2 && ((status | 2) & !128u8) & 128 != 128 && ((status
        | 2) & !128u8) & !(2u8 | 128u8) == status & !(2u8 | 128u8)) by (bit_vector);
    assert(((status & !2u8) | 128) & 2 != 2 && ((status & !2u8) | 128) & 128 == 128 && ((status
        & !2u8) | 128) & !(2u8 | 128u8) == status & !(2u8 | 128u8)) by (bit_vector);
    assert(((status & !2u8) & !128u8) & 2 != 2 && ((status & !2u8) & !128u8) & 128 != 128 && ((
    status & !2u8) & !128u8) & !(2u8 | 128u8) == status & !(2u8 | 128u8)) by (bit_vector);
}

/// Finding an operand reads memory and changes no register.
pub proof fn lemma_fetch_keeps_registers(s: CpuState, mode: AddressingMode)
    ensures
        ({
            let t = s.fetch(mode).1;
            t.a == s.a && t.x == s.x && t.y == s.y && t.status == s.status && t.sp == s.sp && t.pc
                == s.pc && t.fault == s.fault
        }),
{
    reveal(CpuState::operand_address);
}

/// Whatever is written to the accumulator, Zero tells whether it is 0,
/// Negative is its bit 7, and no other flag or register changes.
pub proof fn law_accumulator_write(s: CpuState, value: u8)
    ensures
        s.set_a(value).a == value,
        accumulator_flags_follow(s, s.set_a(value)),
        s.set_a(value) == (CpuState { a: value, status: s.set_a(value).status, ..s }),
{
    lemma_zero_and_negative(s.status, value);
}

/// The loads, transfers and logical operations that write the accumulator
/// (LDA, TXA, TYA, PLA, AND, EOR, ORA) leave Zero and Negative as the
/// value written dictates and disturb no other flag.
pub proof fn law_accumulator_flags(s: CpuState, mode: AddressingMode)
    ensures
        accumulator_flags_follow(s, s.lda(mode)),
        accumulator_flags_follow(s, s.and(mode)),
        accumulator_flags_follow(s, s.eor(mode)),
        accumulator_flags_follow(s, s.ora(mode)),
        accumulator_flags_follow(s, s.txa()),
        accumulator_flags_follow(s, s.tya()),
        accumulator_flags_follow(s, s.pla()),
{
    lemma_fetch_keeps_registers(s, mode);
    let (value, t) = s.fetch(mode);
    law_accumulator_write(t, value);
    law_accumulator_write(t, t.a & value);
    law_accumulator_write(t, t.a ^ value);
    law_accumulator_write(t, t.a | value);
    law_accumulator_write(s, s.x);
    law_accumulator_write(s, s.y);
    let (popped, u) = s.pop();
    law_accumulator_write(u, popped);
}

/// A status restored from the stack has the fixed bit set and Break
/// cleared, whatever byte was on the stack; the other six flags are those
/// of the byte.
pub proof fn law_restored_status(data: u8)
    ensures
        contains_bits(CpuState::restored_status(data), StatusFlags::BREAK2),
        !contains_bits(CpuState::restored_status(data), StatusFlags::BREAK),
        CpuState::restored_status(data) & !(StatusFlags::BREAK | StatusFlags::BREAK2) == data & !(
        StatusFlags::BREAK | StatusFlags::BREAK2),
{
    assert(((data & !16u8) | 32u8) & 32u8 == 32u8 && ((data & !16u8) | 32u8) & 16u8 != 16u8 && ((
    data & !16u8) | 32u8) & !(16u8 | 32u8) == data & !(16u8 | 32u8)) by (bit_vector);
}

/// Adding with carry leaves in Carry whether the nine-bit sum exceeded
/// `0xFF`, and in the accumulator its low eight bits.
pub proof fn lemma_add_with_carry(s: CpuState, value: u8)
    ensures
        ({
            let sum = sum_with_carry(s.a, value, s.flag(StatusFlags::CARRY));
            let after = s.add_with_carry(value);
            &&& after.a == sum % 256
            &&& after.flag(StatusFlags::CARRY) == (sum > 0xFF)
            &&& after.flag(StatusFlags::OVERFLOW) == signed_overflow(s.a, value, (sum % 256) as u8)
        }),
{
    let sum = sum_with_carry(s.a, value, s.flag(StatusFlags::CARRY));
    let result = (sum % 256) as u8;
    let c = assign_bits(s.status, StatusFlags::CARRY, sum > 0xFF);
    let v = assign_bits(c, StatusFlags::OVERFLOW, signed_overflow(s.a, value, result));
    let z = assign_bits(v, StatusFlags::ZERO, result == 0);
    let n = assign_bits(z, StatusFlags::NEGATIVE, result & 0b1000_0000 > 0);
    assert(s.add_with_carry(value).status == n);
    lemma_assign_bits(s.status, StatusFlags::CARRY, sum > 0xFF);
    lemma_assign_bits(
        c,
        StatusFlags::OVERFLOW,
        signed_overflow(s.a, value, result),
    );
    lemma_assign_bits(v, StatusFlags::ZERO, result == 0);
    lemma_assign_bits(z, StatusFlags::NEGATIVE, result & 0b1000_0000 > 0);
    assert(1u8 & 64u8 == 0 && 1u8 & 2u8 == 0 && 1u8 & 128u8 == 0 && 64u8 & 2u8 == 0 && 64u8
        & 128u8 == 0) by (bit_vector);
    assert(contains_bits(v, StatusFlags::CARRY) == contains_bits(c, StatusFlags::CARRY));
    assert(contains_bits(z, StatusFlags::CARRY) == contains_bits(v, StatusFlags::CARRY));
    assert(contains_bits(n, StatusFlags::CARRY) == contains_bits(z, StatusFlags::CARRY));
    assert(contains_bits(z, StatusFlags::OVERFLOW) == contains_bits(v, StatusFlags::OVERFLOW));
    assert(contains_bits(n, StatusFlags::OVERFLOW) == contains_bits(z, StatusFlags::OVERFLOW));
}

/// Subtracting with borrow what was added with carry restores the
/// accumulator when the subtraction starts from the complement of the
/// carry that the addition started from: `a - b - !c == a + !b + c`.
/// Started from the carry that the addition left behind, it restores the
/// accumulator exactly when that carry differs from the one before.
pub proof fn law_adc_sbc_round_trip(s: CpuState, value: u8)
    ensures
        ({
            let carry_in = s.flag(StatusFlags::CARRY);
            let added = s.add_with_carry(value);
            let carry_out = added.flag(StatusFlags::CARRY);
            &&& added.with_flag(StatusFlags::CARRY, !carry_in).subtract_with_borrow(value).a == s.a
            &&& (added.subtract_with_borrow(value).a == s.a) == (carry_out != carry_in)
        }),
{
    let carry_in = s.flag(StatusFlags::CARRY);
    let added = s.add_with_carry(value);
    lemma_add_with_carry(s, value);
    let consistent = added.with_flag(StatusFlags::CARRY, !carry_in);
    lemma_assign_bits(added.status, StatusFlags::CARRY, !carry_in);
    assert(consistent.flag(StatusFlags::CARRY) == !carry_in);
    lemma_add_with_carry(consistent, complement(value));
    lemma_add_with_carry(added, complement(value));
}

/// The cell of work RAM that a stack pointer points at, where `sp` is the
/// pointer before it is wrapped into eight bits.
#[verifier::opaque]
pub open spec fn stack_cell(sp: int) -> int {
    STACK_ADDR + sp % 256
}

/// A stack pointer wrapped into eight bits.
pub open spec fn wrapped(sp: int) -> u8 {
    (sp % 256) as u8
}

/// Every stack cell lies in the stack page, and a pointer points at the
/// same cell wrapped or not.
pub proof fn lemma_stack_cell(sp: int, by: int)
    ensures
        0x100 <= stack_cell(sp) < 0x200,
        stack_cell(wrapped(sp) + by) == stack_cell(sp + by),
        wrapped(wrapped(sp) + by) == wrapped(sp + by),
{
    reveal(stack_cell);
}

/// Pointers less than 256 apart point at different cells.
pub proof fn lemma_stack_cells_differ(high: int, low: int)
    requires
        0 < high - low < 256,
    ensures
        stack_cell(high) != stack_cell(low),
{
    reveal(stack_cell);
}

/// A push stores the byte in the cell under the stack pointer, moves the
/// pointer down by one (wrapping), and changes nothing else.
pub proof fn lemma_push(s: CpuState, data: u8)
    ensures
        s.push(data) == (CpuState {
            sp: wrapped(s.sp - 1),
            bus: BusState { ram: s.bus.ram.update(stack_cell(s.sp as int), data), ..s.bus },
            ..s
        }),
{
    reveal(stack_cell);
    let addr = (STACK_ADDR + s.sp) as u16;
    lemma_ram_write(s.bus, addr, data);
    lemma_low_addresses_are_cells(addr);
}

/// A pop moves the stack pointer up by one (wrapping), returns the byte in
/// the cell it then points at, and changes nothing else.
pub proof fn lemma_pop(s: CpuState)
    ensures
        s.pop() == (s.bus.ram[stack_cell(s.sp + 1)], CpuState { sp: wrapped(s.sp + 1), ..s }),
{
    reveal(stack_cell);
    let sp = s.sp.wrapping_add(1);
    let addr = (STACK_ADDR + sp) as u16;
    lemma_ram_read(s.bus, addr);
    lemma_low_addresses_are_cells(addr);
}

/// After up to 256 pushes the stack pointer has moved down by their number
/// (wrapping), the bytes lie in the cells it passed, and nothing but work
/// RAM and the pointer has changed.
pub proof fn lemma_push_all(s: CpuState, values: Seq<u8>)
    requires
        s.bus.ram.len() == RAM_SIZE,
        values.len() <= 256,
    ensures
        ({
            let t = s.push_all(values);
            &&& t == (CpuState {
                sp: wrapped(s.sp - values.len()),
                bus: BusState { ram: t.bus.ram, ..s.bus },
                ..s
            })
            &&& t.bus.ram.len() == RAM_SIZE
            &&& forall|i: int|
                0 <= i < values.len() ==> t.bus.ram[#[trigger] stack_cell(s.sp - i)] == values[i]
        }),
    decreases values.len(),
{
    if values.len() > 0 {
        let n = values.len() as int;
        let before = s.push_all(values.drop_last());
        lemma_push_all(s, values.drop_last());
        lemma_push(before, values.last());
        let t = s.push_all(values);
        assert(t == before.push(values.last()));
        let top = stack_cell(s.sp - (n - 1));
        lemma_stack_cell(s.sp - (n - 1), 0);
        lemma_stack_cell(s.sp - (n - 1), -1);
        assert(stack_cell(before.sp as int) == top);
        assert(t.sp == wrapped(s.sp - n));
        assert(t.bus.ram == before.bus.ram.update(top, values.last()));
        assert forall|i: int| 0 <= i < n implies t.bus.ram[#[trigger] stack_cell(s.sp - i)]
            == values[i] by {
            lemma_stack_cell(s.sp - i, 0);
            if i < n - 1 {
                assert(values.drop_last()[i] == values[i]);
                lemma_stack_cells_differ(s.sp - i, s.sp - (n - 1));
                assert(before.bus.ram[stack_cell(s.sp - i)] == values[i]);
            }
        }
    } else {
        assert(wrapped(s.sp - 0) == s.sp);
    }
}

/// Popping reads the cells above the stack pointer in turn and changes
/// nothing but the pointer.
pub proof fn lemma_pop_many(s: CpuState, count: nat)
    requires
        s.bus.ram.len() == RAM_SIZE,
    ensures
        ({
            let (popped, t) = s.pop_many(count);
            &&& popped.len() == count
            &&& t == (CpuState { sp: wrapped(s.sp + count), ..s })
            &&& forall|j: int|
                0 <= j < count ==> #[trigger] popped[j] == s.bus.ram[stack_cell(s.sp + 1 + j)]
        }),
    decreases count,
{
    if count > 0 {
        lemma_pop(s);
        let (first, next) = s.pop();
        lemma_pop_many(next, (count - 1) as nat);
        let (rest, end) = next.pop_many((count - 1) as nat);
        let popped = s.pop_many(count).0;
        assert(popped == seq![first] + rest);
        lemma_stack_cell(s.sp + 1, count - 1);
        assert(end.sp == wrapped(s.sp + count));
        assert forall|j: int| 0 <= j < count implies #[trigger] popped[j] == s.bus.ram[stack_cell(
            s.sp + 1 + j,
        )] by {
            if j > 0 {
                assert(popped[j] == rest[j - 1]);
                lemma_stack_cell(s.sp + 1, j);
            }
        }
    } else {
        assert(wrapped(s.sp + 0) == s.sp);
    }
}

/// The stack is last-in first-out through the wrap of its 8-bit pointer:
/// up to 256 bytes pushed and then popped come back in reverse order, and
/// the stack pointer is back where it was.
pub proof fn law_stack_is_lifo(s: CpuState, values: Seq<u8>)
    requires
        s.wf(),
        values.len() <= 256,
    ensures
        s.push_all(values).pop_many(values.len()).0 == values.reverse(),
        s.push_all(values).pop_many(values.len()).1.sp == s.sp,
{
    let n = values.len() as int;
    let pushed = s.push_all(values);
    lemma_push_all(s, values);
    lemma_pop_many(pushed, values.len());
    let popped = pushed.pop_many(values.len()).0;
    let reversed = values.reverse();
    assert(reversed.len() == n);
    assert forall|j: int| 0 <= j < n implies popped[j] == reversed[j] by {
        lemma_stack_cell(s.sp - n, 1 + j);
        assert(stack_cell(pushed.sp + 1 + j) == stack_cell(s.sp - (n - 1 - j)));
        assert(popped[j] == pushed.bus.ram[stack_cell(pushed.sp + 1 + j)]);
        assert(pushed.bus.ram[stack_cell(s.sp - (n - 1 - j))] == values[n - 1 - j]);
    }
    assert(popped =~= reversed);
    lemma_stack_cell(s.sp - n, n);
    assert(wrapped(s.sp as int) == s.sp);
}

/// Whether the top of the stack holds the word `value`, low byte on top.
pub open spec fn holds_on_top(s: CpuState, value: u16) -> bool {
    &&& s.bus.ram.len() == RAM_SIZE
    &&& s.bus.ram[stack_cell(s.sp + 1)] == low_byte(value)
    &&& s.bus.ram[stack_cell(s.sp + 2)] == high_byte(value)
}

/// A call leaves on top of the stack the address of its own last byte,
/// and the stack pointer two below where it was.
pub proof fn lemma_jsr_pushes_return(s: CpuState)
    requires
        s.bus.ram.len() == RAM_SIZE,
    ensures
        holds_on_top(s.jsr(), s.pc.wrapping_add(1)),
        s.jsr().sp == wrapped(s.sp - 2),
        s.jsr().bus.ppu.control == s.bus.ppu.control,
        s.jsr().bus.ppu.nmi == s.bus.ppu.nmi,
{
    let return_addr = s.pc.wrapping_add(1);
    let first = s.push(high_byte(return_addr));
    lemma_push(s, high_byte(return_addr));
    let pushed = first.push(low_byte(return_addr));
    lemma_push(first, low_byte(return_addr));
    assert(pushed == s.push_u16(return_addr));
    let high_cell = stack_cell(s.sp as int);
    let low_cell = stack_cell(s.sp - 1);
    lemma_stack_cell(s.sp as int, 0);
    lemma_stack_cell(s.sp - 1, 0);
    lemma_stack_cell(s.sp - 1, -1);
    lemma_stack_cell(s.sp - 2, 1);
    lemma_stack_cell(s.sp - 2, 2);
    lemma_stack_cells_differ(s.sp as int, s.sp - 1);
    assert(stack_cell(first.sp as int) == low_cell);
    assert(pushed.sp == wrapped(s.sp - 2));
    assert(pushed.bus.ram[low_cell] == low_byte(return_addr));
    assert(pushed.bus.ram[high_cell] == high_byte(return_addr));
    let (lo_target, mid) = pushed.read(pushed.pc);
    lemma_read_keeps_memory(pushed.bus, pushed.pc);
    lemma_read_keeps_interrupts(pushed.bus, pushed.pc);
    let (hi_target, called) = mid.read(pushed.pc.wrapping_add(1));
    lemma_read_keeps_memory(mid.bus, pushed.pc.wrapping_add(1));
    lemma_read_keeps_interrupts(mid.bus, pushed.pc.wrapping_add(1));
    let entered = CpuState { pc: word(lo_target, hi_target), ..called };
    assert(entered == s.jsr());
    assert(entered.bus.ram == pushed.bus.ram);
    assert(entered.sp == pushed.sp);
    assert(stack_cell(entered.sp + 1) == low_cell);
    assert(stack_cell(entered.sp + 2) == high_cell);
}

/// A return goes to the address after the one on top of the stack, and
/// leaves the stack pointer two above where it was.
pub proof fn lemma_rts_takes_return(s: CpuState, value: u16)
    requires
        holds_on_top(s, value),
    ensures
        s.rts().pc == value.wrapping_add(1),
        s.rts().sp == wrapped(s.sp + 2),
        s.rts().bus == s.bus,
{
    lemma_pop(s);
    let (lo, half) = s.pop();
    lemma_stack_cell(s.sp + 1, 1);
    lemma_stack_cell(s.sp + 1, 0);
    lemma_pop(half);
    let (hi, popped) = half.pop();
    assert(stack_cell(half.sp + 1) == stack_cell(s.sp + 2));
    assert(lo == low_byte(value));
    assert(hi == high_byte(value));
    assert(word(lo, hi) == value);
}

/// A call followed at once by a return comes back behind the call: with
/// the program counter on the byte after a JSR opcode at `P`, that is on
/// `P + 1`, JSR and then RTS leave it on `P + 3`, and the stack pointer
/// where it was.
pub proof fn law_jsr_rts_round_trip(s: CpuState)
    requires
        s.wf(),
    ensures
        s.jsr().rts().pc == s.pc.wrapping_add(2),
        s.jsr().rts().sp == s.sp,
{
    lemma_jsr_pushes_return(s);
    lemma_rts_takes_return(s.jsr(), s.pc.wrapping_add(1));
    lemma_stack_cell(s.sp - 2, 2);
    assert(wrapped(s.sp as int) == s.sp);
}

/// A step on a JSR opcode is the call, followed by the PPU's six cycles.
pub proof fn lemma_step_on_jsr(s: CpuState)
    requires
        s.peek(s.pc) == 0x20,
    ensures
        s.step() == (
            (CpuState { pc: s.pc.wrapping_add(1), ..s.read(s.pc).1 }).jsr().tick(6),
            None::<Stop>,
        ),
{
    reveal(CpuState::step);
    reveal(CpuState::execute);
    reveal(CpuState::execute_control);
    assert(opcode_entry(0x20) matches Some(row) && row.mode == AddressingMode::Implied && row.cycles
        == 6);
}

/// A step on an RTS opcode is the return, followed by the PPU's six
/// cycles.
pub proof fn lemma_step_on_rts(s: CpuState)
    requires
        s.peek(s.pc) == 0x60,
    ensures
        s.step() == (
            (CpuState { pc: s.pc.wrapping_add(1), ..s.read(s.pc).1 }).rts().tick(6),
            None::<Stop>,
        ),
{
    reveal(CpuState::step);
    reveal(CpuState::execute);
    reveal(CpuState::execute_control);
    assert(opcode_entry(0x60) matches Some(row) && row.mode == AddressingMode::Implied && row.cycles
        == 6);
}

/// While the control register does not ask for interrupts and none is
/// pending, the PPU catches up without the CPU noticing: nothing but the
/// PPU changes.
pub proof fn lemma_tick_without_interrupts(s: CpuState, cycles: u8)
    requires
        cycles <= 8,
        !nmi_enabled(s.bus.ppu.control),
        s.bus.ppu.nmi is None,
    ensures
        ({
            let t = s.tick(cycles);
            &&& t == (CpuState { bus: t.bus, ..s })
            &&& t.bus.ram == s.bus.ram
            &&& t.bus.ppu.control == s.bus.ppu.control
            &&& t.bus.ppu.nmi is None
        }),
{
    reveal(CpuState::tick);
    crate::bus::lemma_tick_without_interrupts(s.bus, (cycles * 3) as u8);
}

/// The same through the run loop: where the byte at the program counter
/// `P` is JSR and the byte at the target of the call is RTS, two steps
/// leave the program counter on `P + 3`, three bytes on, and the stack
/// pointer where it was. This holds while the PPU raises no interrupt in
/// between, which is so where the control register does not ask for one
/// and none is pending.
pub proof fn law_jsr_rts_steps(s: CpuState)
    requires
        s.wf(),
        s.peek(s.pc) == 0x20,
        s.step().0.peek(s.step().0.pc) == 0x60,
        !nmi_enabled(s.bus.ppu.control),
        s.bus.ppu.nmi is None,
    ensures
        s.step().1 is None,
        s.step().0.step().1 is None,
        s.step().0.step().0.pc == s.pc.wrapping_add(3),
        s.step().0.step().0.sp == s.sp,
{
    // the call
    lemma_step_on_jsr(s);
    lemma_read_keeps_memory(s.bus, s.pc);
    lemma_read_keeps_interrupts(s.bus, s.pc);
    let decoded = CpuState { pc: s.pc.wrapping_add(1), ..s.read(s.pc).1 };
    lemma_jsr_pushes_return(decoded);
    let entered = decoded.jsr();
    lemma_tick_without_interrupts(entered, 6);
    let called = s.step().0;
    assert(called == entered.tick(6));
    let return_addr = s.pc.wrapping_add(2);
    assert(holds_on_top(called, return_addr));
    // the return
    lemma_step_on_rts(called);
    lemma_read_keeps_memory(called.bus, called.pc);
    lemma_read_keeps_interrupts(called.bus, called.pc);
    let decoded2 = CpuState { pc: called.pc.wrapping_add(1), ..called.read(called.pc).1 };
    assert(holds_on_top(decoded2, return_addr));
    lemma_rts_takes_return(decoded2, return_addr);
    let returned = decoded2.rts();
    lemma_tick_without_interrupts(returned, 6);
    lemma_stack_cell(s.sp - 2, 2);
    assert(wrapped(s.sp as int) == s.sp);
}

/// The table has a row for every byte, so no instruction stops the CPU
/// for want of one: a step either goes on or halts on BRK.
pub proof fn law_every_opcode_is_known(s: CpuState)
    ensures
        s.step().1 is None || s.step().1 == Some(Stop::Halted),
        s.step().1 == Some(Stop::Halted) <==> s.peek(s.pc) == 0x00,
{
    reveal(CpuState::step);
    lemma_opcode_entry(s.read(s.pc).0);
}

} // verus!
