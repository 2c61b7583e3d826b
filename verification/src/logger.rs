//! The execution trace: one line for the instruction that the CPU is about
//! to execute, with its bytes, its operand and the registers.

use crate::cpu::model::{branch_target, CpuState};
use crate::cpu::{branch_destination, AddressingMode, CPU};
use crate::mem::{high_byte, low_byte, split_word};
use crate::opcodes::{get_opcode_details, lemma_opcode_entry, opcode_entry, OpCode};
use vstd::prelude::*;
use vstd::string::StrSliceExecFns;

verus! {

/// How wide the instruction part of a line is before the registers.
pub const INSTRUCTION_WIDTH: usize = 47;

/// `String::push` appends one character to the string: afterwards the
/// string reads as before, followed by `ch`.
pub assume_specification[ String::push ](s: &mut String, ch: char)
    ensures
        final(s)@ == old(s)@.push(ch),
;

/// The hexadecimal digit for `nibble`, in upper case.
#[verifier::opaque]
pub open spec fn hex_digit(nibble: int) -> char {
    if nibble == 0 {
        '0'
    } else if nibble == 1 {
        '1'
    } else if nibble == 2 {
        '2'
    } else if nibble == 3 {
        '3'
    } else if nibble == 4 {
        '4'
    } else if nibble == 5 {
        '5'
    } else if nibble == 6 {
        '6'
    } else if nibble == 7 {
        '7'
    } else if nibble == 8 {
        '8'
    } else if nibble == 9 {
        '9'
    } else if nibble == 10 {
        'A'
    } else if nibble == 11 {
        'B'
    } else if nibble == 12 {
        'C'
    } else if nibble == 13 {
        'D'
    } else if nibble == 14 {
        'E'
    } else {
        'F'
    }
}

/// A byte as two hexadecimal digits.
pub open spec fn hex2(value: u8) -> Seq<char> {
    seq![hex_digit(value as int / 16), hex_digit(value as int % 16)]
}

/// A word as four hexadecimal digits.
pub open spec fn hex4(value: u16) -> Seq<char> {
    hex2(high_byte(value)) + hex2(low_byte(value))
}

/// `count` spaces.
pub open spec fn spaces(count: int) -> Seq<char> {
    Seq::new(
        if count > 0 {
            count as nat
        } else {
            0
        },
        |i: int| ' ',
    )
}

/// `text` followed by as many spaces as it lacks to `width`.
pub open spec fn pad_right(text: Seq<char>, width: int) -> Seq<char> {
    text + spaces(width - text.len())
}

/// `text` preceded by as many spaces as it lacks to `width`.
pub open spec fn pad_left(text: Seq<char>, width: int) -> Seq<char> {
    spaces(width - text.len()) + text
}

/// The bytes of the instruction at the program counter, each as two
/// digits, a space between them.
pub open spec fn instruction_bytes(s: CpuState, details: OpCode) -> Seq<char> {
    let first = hex2(details.code);
    let second = " "@ + hex2(s.peek(s.pc.wrapping_add(1)));
    let third = " "@ + hex2(s.peek(s.pc.wrapping_add(2)));
    if details.additional_bytes == 1 {
        first + second
    } else if details.additional_bytes == 2 {
        first + second + third
    } else {
        first
    }
}

/// The operand of a one-operand-byte instruction as the trace shows it.
pub open spec fn short_operand(s: CpuState, details: OpCode) -> Seq<char> {
    let at = s.pc.wrapping_add(1);
    let byte = s.peek(at);
    let target = s.peek_operand_address(details.mode, at);
    let value = s.peek(target);
    match details.mode {
        AddressingMode::Immediate => "#$"@ + hex2(byte),
        AddressingMode::ZeroPage => "$"@ + hex2(low_byte(target)) + " = "@ + hex2(value),
        AddressingMode::ZeroPage_X => "$"@ + hex2(byte) + ",X @ "@ + hex2(low_byte(target)) + " = "@
            + hex2(value),
        AddressingMode::ZeroPage_Y => "$"@ + hex2(byte) + ",Y @ "@ + hex2(low_byte(target)) + " = "@
            + hex2(value),
        AddressingMode::Indirect_X => "($"@ + hex2(byte) + ",X) @ "@ + hex2(
            byte.wrapping_add(s.x),
        ) + " = "@ + hex4(target) + " = "@ + hex2(value),
        AddressingMode::Indirect_Y => "($"@ + hex2(byte) + "),Y = "@ + hex4(
            target.wrapping_sub(s.y as u16),
        ) + " @ "@ + hex4(target) + " = "@ + hex2(value),
        AddressingMode::Implied => "$"@ + hex4(branch_target(at, byte)),
        _ => Seq::<char>::empty(),
    }
}

/// The operand of a two-operand-byte instruction as the trace shows it.
pub open spec fn long_operand(s: CpuState, details: OpCode) -> Seq<char> {
    let at = s.pc.wrapping_add(1);
    let address = s.peek_u16(at);
    let target = s.peek_operand_address(details.mode, at);
    let value = s.peek(target);
    match details.mode {
        AddressingMode::Implied => if details.code == 0x6C {
            "($"@ + hex4(address) + ") = "@ + hex4(s.peek_u16_on_page(address))
        } else {
            "$"@ + hex4(address)
        },
        AddressingMode::Absolute => "$"@ + hex4(target) + " = "@ + hex2(value),
        AddressingMode::Absolute_X => "$"@ + hex4(address) + ",X @ "@ + hex4(target) + " = "@
            + hex2(value),
        AddressingMode::Absolute_Y => "$"@ + hex4(address) + ",Y @ "@ + hex4(target) + " = "@
            + hex2(value),
        _ => Seq::<char>::empty(),
    }
}

/// The operand as the trace shows it: `A` for the shifts and rotates of
/// the accumulator, nothing for the other instructions without operand
/// bytes.
pub open spec fn operand_text(s: CpuState, details: OpCode) -> Seq<char> {
    if details.additional_bytes == 0 {
        if details.code == 0x0A || details.code == 0x4A || details.code == 0x2A || details.code
            == 0x6A {
            "A"@
        } else {
            Seq::<char>::empty()
        }
    } else if details.additional_bytes == 1 {
        short_operand(s, details)
    } else {
        long_operand(s, details)
    }
}

/// The instruction part of a line: the program counter, the instruction's
/// bytes in a column of eight, its name in a column of four, and its
/// operand if it has one.
pub open spec fn instruction_text(s: CpuState, details: OpCode) -> Seq<char> {
    let operand = operand_text(s, details);
    let head = hex4(s.pc) + "  "@ + pad_right(instruction_bytes(s, details), 8) + " "@ + pad_left(
        details.mnemonic@,
        4,
    );
    if operand.len() == 0 {
        head
    } else {
        head + " "@ + operand
    }
}

/// The registers as they close a line.
pub open spec fn register_text(s: CpuState) -> Seq<char> {
    " A:"@ + hex2(s.a) + " X:"@ + hex2(s.x) + " Y:"@ + hex2(s.y) + " P:"@ + hex2(s.status)
        + " SP:"@ + hex2(s.sp)
}

/// The line of the trace for a CPU in state `s`, where the byte at the
/// program counter is the opcode of row `details`.
pub open spec fn trace_of(s: CpuState, details: OpCode) -> Seq<char> {
    pad_right(instruction_text(s, details), INSTRUCTION_WIDTH as int) + register_text(s)
}

/// The line of the trace for a CPU in state `s`.
pub open spec fn trace_line(s: CpuState) -> Seq<char> {
    trace_of(s, opcode_entry(s.peek(s.pc)).unwrap())
}

fn digit(nibble: u8) -> (c: char)
    requires
        nibble < 16,
    ensures
        c == hex_digit(nibble as int),
{
    reveal(hex_digit);
    if nibble == 0 {
        '0'
    } else if nibble == 1 {
        '1'
    } else if nibble == 2 {
        '2'
    } else if nibble == 3 {
        '3'
    } else if nibble == 4 {
        '4'
    } else if nibble == 5 {
        '5'
    } else if nibble == 6 {
        '6'
    } else if nibble == 7 {
        '7'
    } else if nibble == 8 {
        '8'
    } else if nibble == 9 {
        '9'
    } else if nibble == 10 {
        'A'
    } else if nibble == 11 {
        'B'
    } else if nibble == 12 {
        'C'
    } else if nibble == 13 {
        'D'
    } else if nibble == 14 {
        'E'
    } else {
        'F'
    }
}

fn push_hex2(out: &mut String, value: u8)
    ensures
        final(out)@ == old(out)@ + hex2(value),
{
    out.push(digit(value / 16));
    out.push(digit(value % 16));
    assert(out@ =~= old(out)@ + hex2(value));
}

fn push_hex4(out: &mut String, value: u16)
    ensures
        final(out)@ == old(out)@ + hex4(value),
{
    let (lo, hi) = split_word(value);
    push_hex2(out, hi);
    push_hex2(out, lo);
    assert(out@ =~= old(out)@ + hex4(value));
}

fn push_text(out: &mut String, text: &str)
    ensures
        final(out)@ == old(out)@ + text@,
{
    let n = text.unicode_len();
    let mut i: usize = 0;
    assert(out@ =~= old(out)@ + text@.subrange(0, 0));
    while i < n
        invariant
            i <= n,
            n == text@.len(),
            out@ == old(out)@ + text@.subrange(0, i as int),
        decreases n - i,
    {
        out.push(text.get_char(i));
        i = i + 1;
        assert(out@ =~= old(out)@ + text@.subrange(0, i as int));
    }
    assert(text@.subrange(0, n as int) =~= text@);
}

fn push_spaces(out: &mut String, count: usize)
    ensures
        final(out)@ == old(out)@ + spaces(count as int),
{
    let mut i: usize = 0;
    assert(out@ =~= old(out)@ + spaces(0));
    while i < count
        invariant
            i <= count,
            out@ == old(out)@ + spaces(i as int),
        decreases count - i,
    {
        out.push(' ');
        i = i + 1;
        assert(out@ =~= old(out)@ + spaces(i as int));
    }
}

/// Appends `text` and the spaces it lacks to `width`.
fn push_padded(out: &mut String, text: &String, width: usize)
    ensures
        final(out)@ == old(out)@ + pad_right(text@, width as int),
{
    push_text(out, text.as_str());
    let n = text.as_str().unicode_len();
    if n < width {
        push_spaces(out, width - n);
    } else {
        assert(spaces(width - n) =~= Seq::<char>::empty());
    }
    assert(out@ =~= old(out)@ + pad_right(text@, width as int));
}

fn bytes_text(cpu: &CPU, details: &OpCode) -> (out: String)
    ensures
        out@ == instruction_bytes(cpu@, *details),
{
    let mut out = String::new();
    push_hex2(&mut out, details.code);
    if details.additional_bytes == 1 || details.additional_bytes == 2 {
        push_text(&mut out, " ");
        push_hex2(&mut out, cpu.peek(cpu.program_counter.wrapping_add(1)));
    }
    if details.additional_bytes == 2 {
        push_text(&mut out, " ");
        push_hex2(&mut out, cpu.peek(cpu.program_counter.wrapping_add(2)));
    }
    assert(out@ =~= instruction_bytes(cpu@, *details));
    out
}

fn zero_page_text(target: u16, value: u8) -> (out: String)
    ensures
        out@ == "$"@ + hex2(low_byte(target)) + " = "@ + hex2(value),
{
    let mut out = "$".to_owned();
    push_hex2(&mut out, split_word(target).0);
    push_text(&mut out, " = ");
    push_hex2(&mut out, value);
    out
}

fn zero_page_x_text(byte: u8, target: u16, value: u8) -> (out: String)
    ensures
        out@ == "$"@ + hex2(byte) + ",X @ "@ + hex2(low_byte(target)) + " = "@ + hex2(value),
{
    let mut out = "$".to_owned();
    push_hex2(&mut out, byte);
    push_text(&mut out, ",X @ ");
    push_hex2(&mut out, split_word(target).0);
    push_text(&mut out, " = ");
    push_hex2(&mut out, value);
    out
}

fn zero_page_y_text(byte: u8, target: u16, value: u8) -> (out: String)
    ensures
        out@ == "$"@ + hex2(byte) + ",Y @ "@ + hex2(low_byte(target)) + " = "@ + hex2(value),
{
    let mut out = "$".to_owned();
    push_hex2(&mut out, byte);
    push_text(&mut out, ",Y @ ");
    push_hex2(&mut out, split_word(target).0);
    push_text(&mut out, " = ");
    push_hex2(&mut out, value);
    out
}

fn indirect_x_text(byte: u8, pointer: u8, target: u16, value: u8) -> (out: String)
    ensures
        out@ == "($"@ + hex2(byte) + ",X) @ "@ + hex2(pointer) + " = "@ + hex4(target) + " = "@
            + hex2(value),
{
    let mut out = "($".to_owned();
    push_hex2(&mut out, byte);
    push_text(&mut out, ",X) @ ");
    push_hex2(&mut out, pointer);
    push_text(&mut out, " = ");
    push_hex4(&mut out, target);
    push_text(&mut out, " = ");
    push_hex2(&mut out, value);
    out
}

fn indirect_y_text(byte: u8, base: u16, target: u16, value: u8) -> (out: String)
    ensures
        out@ == "($"@ + hex2(byte) + "),Y = "@ + hex4(base) + " @ "@ + hex4(target) + " = "@
            + hex2(value),
{
    let mut out = "($".to_owned();
    push_hex2(&mut out, byte);
    push_text(&mut out, "),Y = ");
    push_hex4(&mut out, base);
    push_text(&mut out, " @ ");
    push_hex4(&mut out, target);
    push_text(&mut out, " = ");
    push_hex2(&mut out, value);
    out
}

fn branch_text(at: u16, byte: u8) -> (out: String)
    ensures
        out@ == "$"@ + hex4(branch_target(at, byte)),
{
    let mut out = "$".to_owned();
    push_hex4(&mut out, branch_destination(at, byte));
    out
}

fn short_operand_text(cpu: &CPU, details: &OpCode) -> (out: String)
    ensures
        out@ == short_operand(cpu@, *details),
{
    let at = cpu.program_counter.wrapping_add(1);
    let byte = cpu.peek(at);
    match details.mode {
        AddressingMode::Immediate => {
            let mut out = "#$".to_owned();
            push_hex2(&mut out, byte);
            out
        },
        AddressingMode::ZeroPage => {
            let target = cpu.peek_absolute_address(&details.mode, at);
            zero_page_text(target, cpu.peek(target))
        },
        AddressingMode::ZeroPage_X => {
            let target = cpu.peek_absolute_address(&details.mode, at);
            zero_page_x_text(byte, target, cpu.peek(target))
        },
        AddressingMode::ZeroPage_Y => {
            let target = cpu.peek_absolute_address(&details.mode, at);
            zero_page_y_text(byte, target, cpu.peek(target))
        },
        AddressingMode::Indirect_X => {
            let target = cpu.peek_absolute_address(&details.mode, at);
            indirect_x_text(byte, byte.wrapping_add(cpu.register_x), target, cpu.peek(target))
        },
        AddressingMode::Indirect_Y => {
            let target = cpu.peek_absolute_address(&details.mode, at);
            indirect_y_text(
                byte,
                target.wrapping_sub(cpu.register_y as u16),
                target,
                cpu.peek(target),
            )
        },
        AddressingMode::Implied => branch_text(at, byte),
        _ => String::new(),
    }
}

fn long_operand_text(cpu: &CPU, details: &OpCode) -> (out: String)
    ensures
        out@ == long_operand(cpu@, *details),
{
    let at = cpu.program_counter.wrapping_add(1);
    let address = cpu.peek_u16(at);
    match details.mode {
        AddressingMode::Implied => {
            if details.code == 0x6C {
                let mut out = "($".to_owned();
                push_hex4(&mut out, address);
                push_text(&mut out, ") = ");
                push_hex4(&mut out, cpu.peek_u16_on_page(address));
                out
            } else {
                let mut out = "$".to_owned();
                push_hex4(&mut out, address);
                out
            }
        },
        AddressingMode::Absolute => {
            let target = cpu.peek_absolute_address(&details.mode, at);
            let mut out = "$".to_owned();
            push_hex4(&mut out, target);
            push_text(&mut out, " = ");
            push_hex2(&mut out, cpu.peek(target));
            out
        },
        AddressingMode::Absolute_X => {
            let target = cpu.peek_absolute_address(&details.mode, at);
            let mut out = "$".to_owned();
            push_hex4(&mut out, address);
            push_text(&mut out, ",X @ ");
            push_hex4(&mut out, target);
            push_text(&mut out, " = ");
            push_hex2(&mut out, cpu.peek(target));
            out
        },
        AddressingMode::Absolute_Y => {
            let target = cpu.peek_absolute_address(&details.mode, at);
            let mut out = "$".to_owned();
            push_hex4(&mut out, address);
            push_text(&mut out, ",Y @ ");
            push_hex4(&mut out, target);
            push_text(&mut out, " = ");
            push_hex2(&mut out, cpu.peek(target));
            out
        },
        _ => String::new(),
    }
}

fn operand_string(cpu: &CPU, details: &OpCode) -> (out: String)
    ensures
        out@ == operand_text(cpu@, *details),
{
    if details.additional_bytes == 0 {
        if details.code == 0x0A || details.code == 0x4A || details.code == 0x2A || details.code
            == 0x6A {
            "A".to_owned()
        } else {
            String::new()
        }
    } else if details.additional_bytes == 1 {
        short_operand_text(cpu, details)
    } else {
        long_operand_text(cpu, details)
    }
}

/// Appends the spaces that `text` lacks to `width`, and `text`.
fn push_padded_left(out: &mut String, text: &str, width: usize)
    ensures
        final(out)@ == old(out)@ + pad_left(text@, width as int),
{
    let n = text.unicode_len();
    if n < width {
        push_spaces(out, width - n);
    } else {
        assert(old(out)@ + spaces(width - n) =~= old(out)@);
    }
    push_text(out, text);
    assert(out@ =~= old(out)@ + pad_left(text@, width as int));
}

fn hex4_string(value: u16) -> (out: String)
    ensures
        out@ == hex4(value),
{
    let (lo, hi) = split_word(value);
    let mut out = String::new();
    push_hex2(&mut out, hi);
    push_hex2(&mut out, lo);
    assert(out@ =~= hex4(value));
    out
}

fn instruction_string(cpu: &CPU, details: &OpCode) -> (out: String)
    ensures
        out@ == instruction_text(cpu@, *details),
{
    let mut out = hex4_string(cpu.program_counter);
    push_text(&mut out, "  ");
    let bytes = bytes_text(cpu, details);
    push_padded(&mut out, &bytes, 8);
    push_text(&mut out, " ");
    push_padded_left(&mut out, details.mnemonic, 4);
    let operand = operand_string(cpu, details);
    if operand.as_str().unicode_len() > 0 {
        push_text(&mut out, " ");
        push_text(&mut out, operand.as_str());
    }
    out
}

fn register_string(cpu: &CPU) -> (out: String)
    ensures
        out@ == register_text(cpu@),
{
    let mut out = " A:".to_owned();
    push_hex2(&mut out, cpu.register_a);
    push_text(&mut out, " X:");
    push_hex2(&mut out, cpu.register_x);
    push_text(&mut out, " Y:");
    push_hex2(&mut out, cpu.register_y);
    push_text(&mut out, " P:");
    push_hex2(&mut out, cpu.status.bits());
    push_text(&mut out, " SP:");
    push_hex2(&mut out, cpu.stack_ptr);
    out
}

/// The line of the trace for the instruction that `cpu` is about to
/// execute. The CPU is looked at, not touched: reading a register for the
/// trace has no side effect.
pub fn log(cpu: &CPU) -> (line: String)
    ensures
        line@ == trace_line(cpu@),
{
    let opcode = cpu.peek(cpu.program_counter);
    proof {
        lemma_opcode_entry(opcode);
    }
    let details = get_opcode_details(&opcode).unwrap();
    let text = instruction_string(cpu, &details);
    let registers = register_string(cpu);
    let mut line = String::new();
    push_padded(&mut line, &text, INSTRUCTION_WIDTH);
    push_text(&mut line, registers.as_str());
    assert(line@ =~= trace_line(cpu@));
    line
}

} // verus!
