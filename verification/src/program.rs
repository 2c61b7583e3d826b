//! Programs written down as text, and the cartridge image that carries one.
//!
//! The text is a list of bytes in hexadecimal, separated by commas: each
//! may be surrounded by blanks and preceded by `0x`. Line ends written as
//! carriage return and line feed may stand anywhere. What cannot be read as
//! a byte is passed over.

use crate::rom::{
    chr_start, image_end, mirroring_of, nes_tag, parse_image, prg_start, Mirroring, RomState,
};
use vstd::prelude::*;

verus! {

/// Where a program lies inside the program ROM of its cartridge.
pub const PROGRAM_OFFSET: usize = 0x600;

/// Where the reset vector lies inside a program ROM of two banks.
pub const VECTOR_OFFSET: usize = 0x7FFC;

/// The longest program that leaves the reset vector in its place.
pub const PROGRAM_LIMIT: usize = 0x79FC;

/// Blank, tab, line feed, vertical tab, form feed or carriage return.
pub open spec fn is_blank(b: u8) -> bool {
    b == 0x20 || 0x09 <= b <= 0x0D
}

/// The value of a hexadecimal digit, in either case.
pub open spec fn digit_value(b: u8) -> Option<int> {
    if 0x30 <= b <= 0x39 {
        Some(b - 0x30)
    } else if 0x61 <= b <= 0x66 {
        Some(b - 0x61 + 10)
    } else if 0x41 <= b <= 0x46 {
        Some(b - 0x41 + 10)
    } else {
        None
    }
}

/// The number that the hexadecimal digits `digits` spell, if all of them
/// are digits. No digits spell 0.
pub open spec fn number(digits: Seq<u8>) -> Option<int>
    decreases digits.len(),
{
    if digits.len() == 0 {
        Some(0)
    } else {
        match (number(digits.drop_last()), digit_value(digits.last())) {
            (Some(n), Some(d)) => Some(n * 16 + d),
            _ => None,
        }
    }
}

/// `text` without the pairs of carriage return and line feed in it.
pub open spec fn without_line_ends(text: Seq<u8>) -> Seq<u8>
    decreases text.len(),
{
    if text.len() == 0 {
        text
    } else if text.len() >= 2 && text[0] == 0x0D && text[1] == 0x0A {
        without_line_ends(text.skip(2))
    } else {
        seq![text[0]] + without_line_ends(text.skip(1))
    }
}

/// `field` without the blanks it starts with.
pub open spec fn trim_start(field: Seq<u8>) -> Seq<u8>
    decreases field.len(),
{
    if field.len() > 0 && is_blank(field[0]) {
        trim_start(field.skip(1))
    } else {
        field
    }
}

/// `field` without the blanks it ends with.
pub open spec fn trim_end(field: Seq<u8>) -> Seq<u8>
    decreases field.len(),
{
    if field.len() > 0 && is_blank(field.last()) {
        trim_end(field.drop_last())
    } else {
        field
    }
}

/// `field` without the `0x` it starts with, however often it is repeated.
pub open spec fn without_prefix(field: Seq<u8>) -> Seq<u8>
    decreases field.len(),
{
    if field.len() >= 2 && field[0] == 0x30 && field[1] == 0x78 {
        without_prefix(field.skip(2))
    } else {
        field
    }
}

/// `field` without a plus sign in front.
pub open spec fn without_sign(field: Seq<u8>) -> Seq<u8> {
    if field.len() > 0 && field[0] == 0x2B {
        field.skip(1)
    } else {
        field
    }
}

/// The byte that the digits `digits` spell: there is at least one, all are
/// hexadecimal digits, and the number is at most 255.
pub open spec fn byte_of(digits: Seq<u8>) -> Option<u8> {
    if digits.len() == 0 {
        None
    } else {
        match number(digits) {
            Some(n) => if n <= 255 {
                Some(n as u8)
            } else {
                None
            },
            None => None,
        }
    }
}

/// The byte that one field of the list stands for, if it stands for one.
pub open spec fn field_value(field: Seq<u8>) -> Option<u8> {
    byte_of(without_sign(without_prefix(trim_end(trim_start(field)))))
}

/// How many bytes of `text` come before its first comma.
pub open spec fn field_len(text: Seq<u8>) -> int
    decreases text.len(),
{
    if text.len() == 0 || text[0] == 0x2C {
        0
    } else {
        1 + field_len(text.skip(1))
    }
}

/// A byte, or nothing.
pub open spec fn optional(value: Option<u8>) -> Seq<u8> {
    match value {
        Some(b) => seq![b],
        None => Seq::<u8>::empty(),
    }
}

/// The bytes that the fields of `text` stand for, in order.
pub open spec fn listed(text: Seq<u8>) -> Seq<u8>
    decreases text.len(),
{
    let k = field_len(text);
    let head = optional(field_value(text.take(k)));
    if 0 <= k < text.len() {
        head + listed(text.skip(k + 1))
    } else {
        head
    }
}

/// The program that `text` writes down.
pub open spec fn program_of(text: Seq<u8>) -> Seq<u8> {
    listed(without_line_ends(text))
}

/// `count` zero bytes.
pub open spec fn zeros(count: int) -> Seq<u8> {
    Seq::new(
        if count > 0 {
            count as nat
        } else {
            0
        },
        |i: int| 0u8,
    )
}

/// The header of a cartridge with two banks of program ROM, no character
/// ROM, mapper 0 and vertical mirroring.
pub open spec fn program_header() -> Seq<u8> {
    seq![
        0x4Eu8,
        0x45u8,
        0x53u8,
        0x1Au8,
        0x02u8,
        0x00u8,
        0x01u8,
        0x00u8,
        0x00u8,
        0x00u8,
        0x00u8,
        0x00u8,
        0x00u8,
        0x00u8,
        0x00u8,
        0x00u8,
    ]
}

/// The reset vector of a program cartridge: the address `0x8600`, where
/// the program starts, and two bytes beyond it.
pub open spec fn program_vector() -> Seq<u8> {
    seq![0x00u8, 0x86u8, 0x00u8, 0x00u8]
}

/// The program ROM of the cartridge that carries `program`: the program at
/// offset `0x600`, then zeros up to the reset vector at offset `0x7FFC`,
/// which names the program's first byte. A program too long to leave the
/// vector in its place pushes it back.
pub open spec fn program_rom(program: Seq<u8>) -> Seq<u8> {
    zeros(PROGRAM_OFFSET as int) + program + zeros(PROGRAM_LIMIT - program.len())
        + program_vector()
}

/// The image of the cartridge that carries `program`.
pub open spec fn cartridge_image(program: Seq<u8>) -> Seq<u8> {
    program_header() + program_rom(program)
}

fn blank(b: u8) -> (r: bool)
    ensures
        r == is_blank(b),
{
    b == 0x20 || (0x09 <= b && b <= 0x0D)
}

fn digit(b: u8) -> (r: Option<u8>)
    ensures
        match r {
            Some(d) => digit_value(b) == Some(d as int) && d < 16,
            None => digit_value(b) is None,
        },
{
    if 0x30 <= b && b <= 0x39 {
        Some(b - 0x30)
    } else if 0x61 <= b && b <= 0x66 {
        Some(b - 0x61 + 10)
    } else if 0x41 <= b && b <= 0x46 {
        Some(b - 0x41 + 10)
    } else {
        None
    }
}

/// The digits before a place that is no digit spell no number, and a
/// number only grows with more digits.
proof fn lemma_number_of_prefix(digits: Seq<u8>, k: int)
    requires
        0 <= k <= digits.len(),
        number(digits) is Some,
    ensures
        number(digits.take(k)) is Some,
        0 <= number(digits.take(k)).unwrap() <= number(digits).unwrap(),
    decreases digits.len(),
{
    if k == digits.len() {
        assert(digits.take(k) =~= digits);
        if digits.len() > 0 {
            lemma_number_of_prefix(digits.drop_last(), k - 1);
            assert(digits.drop_last().take(k - 1) =~= digits.drop_last());
        }
    } else {
        lemma_number_of_prefix(digits.drop_last(), k);
        assert(digits.drop_last().take(k) =~= digits.take(k));
    }
}

/// Removes the pairs of carriage return and line feed from `text`.
pub fn remove_line_ends(text: &Vec<u8>) -> (out: Vec<u8>)
    ensures
        out@ == without_line_ends(text@),
{
    let mut out: Vec<u8> = Vec::new();
    let mut i: usize = 0;
    assert(text@.skip(0) =~= text@);
    assert(out@ + without_line_ends(text@.skip(0)) =~= without_line_ends(text@));
    while i < text.len()
        invariant
            i <= text.len(),
            out@ + without_line_ends(text@.skip(i as int)) == without_line_ends(text@),
        decreases text.len() - i,
    {
        let ghost rest = text@.skip(i as int);
        if i + 1 < text.len() && text[i] == 0x0D && text[i + 1] == 0x0A {
            assert(rest.skip(2) =~= text@.skip(i + 2));
            i = i + 2;
        } else {
            assert(rest.skip(1) =~= text@.skip(i + 1));
            assert(out@.push(text@[i as int]) + without_line_ends(rest.skip(1)) =~= out@ + (
            seq![rest[0]] + without_line_ends(rest.skip(1))));
            out.push(text[i]);
            i = i + 1;
        }
    }
    assert(out@ + Seq::<u8>::empty() =~= out@);
    out
}

/// The byte that the field `text[start..end]` stands for, if it stands for
/// one.
pub fn read_field(text: &Vec<u8>, start: usize, end: usize) -> (r: Option<u8>)
    requires
        start <= end <= text.len(),
    ensures
        r == field_value(text@.subrange(start as int, end as int)),
{
    let ghost field = text@.subrange(start as int, end as int);
    let mut a = start;
    while a < end && blank(text[a])
        invariant
            start <= a <= end <= text.len(),
            trim_start(field) == trim_start(text@.subrange(a as int, end as int)),
        decreases end - a,
    {
        assert(text@.subrange(a as int, end as int).skip(1) =~= text@.subrange(
            a + 1,
            end as int,
        ));
        a = a + 1;
    }
    let ghost trimmed_start = text@.subrange(a as int, end as int);
    assert(trim_start(field) == trimmed_start);
    let mut b = end;
    while b > a && blank(text[b - 1])
        invariant
            a <= b <= end <= text.len(),
            trim_end(trimmed_start) == trim_end(text@.subrange(a as int, b as int)),
        decreases b - a,
    {
        assert(text@.subrange(a as int, b as int).drop_last() =~= text@.subrange(
            a as int,
            b - 1,
        ));
        b = b - 1;
    }
    let ghost trimmed = text@.subrange(a as int, b as int);
    assert(trim_end(trimmed_start) == trimmed);
    while b - a >= 2 && text[a] == 0x30 && text[a + 1] == 0x78
        invariant
            a <= b <= text.len(),
            without_prefix(trimmed) == without_prefix(text@.subrange(a as int, b as int)),
        decreases b - a,
    {
        assert(text@.subrange(a as int, b as int).skip(2) =~= text@.subrange(a + 2, b as int));
        a = a + 2;
    }
    let ghost bare = text@.subrange(a as int, b as int);
    assert(without_prefix(trimmed) == bare);
    if a < b && text[a] == 0x2B {
        assert(bare.skip(1) =~= text@.subrange(a + 1, b as int));
        a = a + 1;
    }
    let ghost digits = text@.subrange(a as int, b as int);
    assert(without_sign(bare) == digits);
    if a == b {
        return None;
    }
    let mut value: u16 = 0;
    let mut i = a;
    assert(digits.take(0) =~= Seq::<u8>::empty());
    assert(field_value(field) == byte_of(digits));
    while i < b
        invariant
            start <= end <= text.len(),
            a <= i <= b <= text.len(),
            a < b,
            digits == text@.subrange(a as int, b as int),
            field_value(text@.subrange(start as int, end as int)) == byte_of(digits),
            number(digits.take(i - a)) == Some(value as int),
            value <= 255,
        decreases b - i,
    {
        let ghost longer = digits.take(i - a + 1);
        assert(longer.drop_last() =~= digits.take(i - a));
        assert(longer.last() == text@[i as int]);
        match digit(text[i]) {
            None => {
                proof {
                    if number(digits) is Some {
                        lemma_number_of_prefix(digits, i - a + 1);
                    }
                }
                return None;
            },
            Some(d) => {
                let next = value * 16 + d as u16;
                assert(number(longer) == Some(next as int));
                assert(next as int == value as int * 16 + d as int);
                if next > 255 {
                    proof {
                        if number(digits) is Some {
                            lemma_number_of_prefix(digits, i - a + 1);
                        }
                    }
                    return None;
                }
                value = next;
            },
        }
        i = i + 1;
    }
    assert(digits.take(b - a) =~= digits);
    Some(value as u8)
}

/// The bytes that the fields of `text` stand for, in order.
pub fn read_list(text: &Vec<u8>) -> (out: Vec<u8>)
    ensures
        out@ == listed(text@),
{
    let mut out: Vec<u8> = Vec::new();
    let mut start: usize = 0;
    let mut done = false;
    assert(text@.skip(0) =~= text@);
    assert(out@ + listed(text@.skip(0)) =~= listed(text@));
    while !done
        invariant
            start <= text.len(),
            !done ==> out@ + listed(text@.skip(start as int)) == listed(text@),
            done ==> out@ == listed(text@),
        decreases text.len() - start + if done { 0int } else { 1int },
    {
        let ghost rest = text@.skip(start as int);
        let mut end = start;
        while end < text.len() && text[end] != 0x2C
            invariant
                start <= end <= text.len(),
                field_len(rest) == (end - start) + field_len(text@.skip(end as int)),
            decreases text.len() - end,
        {
            assert(text@.skip(end as int).skip(1) =~= text@.skip(end + 1));
            end = end + 1;
        }
        assert(field_len(rest) == end - start);
        assert(rest.take(end - start) =~= text@.subrange(start as int, end as int));
        let ghost before = out@;
        match read_field(text, start, end) {
            Some(b) => {
                out.push(b);
            },
            None => {},
        }
        assert(out@ =~= before + optional(field_value(rest.take(end - start))));
        if end < text.len() {
            assert(rest.skip(end - start + 1) =~= text@.skip(end + 1));
            assert(out@ + listed(text@.skip(end + 1)) =~= before + listed(rest));
            start = end + 1;
        } else {
            assert(out@ =~= before + listed(rest));
            done = true;
        }
    }
    out
}

/// The program that `text` writes down.
pub fn program_bytes(text: &Vec<u8>) -> (out: Vec<u8>)
    ensures
        out@ == program_of(text@),
{
    let cleaned = remove_line_ends(text);
    read_list(&cleaned)
}

fn push_zeros(out: &mut Vec<u8>, count: usize)
    ensures
        final(out)@ == old(out)@ + zeros(count as int),
{
    let mut i: usize = 0;
    assert(out@ =~= old(out)@ + zeros(0));
    while i < count
        invariant
            i <= count,
            out@ == old(out)@ + zeros(i as int),
        decreases count - i,
    {
        out.push(0);
        i = i + 1;
        assert(out@ =~= old(out)@ + zeros(i as int));
    }
}

/// The image of the cartridge that carries `program`.
pub fn assemble_cartridge(program: &Vec<u8>) -> (image: Vec<u8>)
    ensures
        image@ == cartridge_image(program@),
{
    let mut image: Vec<u8> = vec![
        0x4E, 0x45, 0x53, 0x1A, 0x02, 0x00, 0x01, 0x00, 0x00, 0x00, 0x00, 0x00, 0x00, 0x00, 0x00,
        0x00,
    ];
    assert(image@ =~= program_header());
    push_zeros(&mut image, PROGRAM_OFFSET);
    image.extend_from_slice(program.as_slice());
    let filler_size = if program.len() < PROGRAM_LIMIT {
        PROGRAM_LIMIT - program.len()
    } else {
        0
    };
    push_zeros(&mut image, filler_size);
    assert(zeros(filler_size as int) =~= zeros(PROGRAM_LIMIT - program.len()));
    image.push(0x00);
    image.push(0x86);
    image.push(0x00);
    image.push(0x00);
    assert(image@ =~= cartridge_image(program@));
    image
}

/// The image that carries a program is a cartridge: if the program leaves
/// the reset vector in its place, the image is read as two banks of program
/// ROM with the program at offset `0x600` and the reset vector naming
/// `0x8600`, no character ROM, mapper 0 and vertical mirroring.
pub proof fn law_program_cartridge(program: Seq<u8>)
    requires
        program.len() <= PROGRAM_LIMIT,
    ensures
        parse_image(cartridge_image(program)) == Ok::<RomState, crate::rom::ImageError>(
            RomState {
                chr_rom: Seq::<u8>::empty(),
                prg_rom: program_rom(program),
                mapper_type: 0,
                mirror_mode: Mirroring::VERTICAL,
            },
        ),
        program_rom(program).len() == 0x8000,
        program_rom(program).subrange(PROGRAM_OFFSET as int, PROGRAM_OFFSET + program.len())
            == program,
        program_rom(program)[VECTOR_OFFSET as int] == 0x00,
        program_rom(program)[VECTOR_OFFSET + 1] == 0x86,
{
    let image = cartridge_image(program);
    let rom = program_rom(program);
    assert(rom.len() == 0x8000);
    assert(image.len() == 16 + 0x8000);
    assert(image.subrange(0, 4) =~= nes_tag());
    assert(image[4] == 2 && image[5] == 0 && image[6] == 1 && image[7] == 0);
    assert(prg_start(image) == 16);
    assert(chr_start(image) == 16 + 0x8000);
    assert(image_end(image) == 16 + 0x8000);
    assert(image.subrange(16, 0x8010) =~= rom);
    assert(image.subrange(0x8010, 0x8010) =~= Seq::<u8>::empty());
    assert(mirroring_of(image[6]) == Mirroring::VERTICAL);
    assert(rom.subrange(PROGRAM_OFFSET as int, PROGRAM_OFFSET + program.len()) =~= program);
}

} // verus!
