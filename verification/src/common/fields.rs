//! Fixed-width text fields and frame layouts.
//!
//! Most frames are lines of ASCII text with a fixed layout: a literal prefix,
//! then zero-padded decimal fields of known width separated by commas. A
//! layout is written down as a *pattern*: a byte string that holds one slot
//! per byte of the frame. A slot is either a class of bytes ([`DIGIT`],
//! [`SIGNED`], [`ANY`], [`PRINTABLE`]) or a literal byte that must appear as
//! it is. The bytes 0 to 3 name the classes, so they cannot be asked for as
//! literals; no frame holds them outside its binary payload.
//!
//! A frame may be followed by a line ending, `\r` or `\r\n`, and by nothing
//! else. Bytes that fit the layout and stop before its end are the beginning
//! of a frame whose rest has not arrived.

use vstd::prelude::*;

verus! {

/// Pattern slot: one decimal digit.
pub const DIGIT: u8 = 0;

/// Pattern slot: a decimal digit or a sign, as the first byte of a signed field.
pub const SIGNED: u8 = 1;

/// Pattern slot: any byte.
pub const ANY: u8 = 2;

/// Pattern slot: a printable ASCII byte.
pub const PRINTABLE: u8 = 3;

/// The comma that separates fields.
pub const COMMA: u8 = 44;

/// The point of a decimal fraction.
pub const POINT: u8 = 46;

/// Carriage return.
pub const CR: u8 = 13;

/// Line feed.
pub const LF: u8 = 10;

pub open spec fn is_digit(byte: u8) -> bool {
    48 <= byte <= 57
}

pub open spec fn is_sign(byte: u8) -> bool {
    byte == 43 || byte == 45
}

/// Whether `byte` may stand where the pattern holds `slot`.
pub open spec fn slot_accepts(slot: u8, byte: u8) -> bool {
    if slot == DIGIT {
        is_digit(byte)
    } else if slot == SIGNED {
        is_digit(byte) || is_sign(byte)
    } else if slot == ANY {
        true
    } else if slot == PRINTABLE {
        32 <= byte <= 126
    } else {
        byte == slot
    }
}

/// Every byte that is present stands in a slot that accepts it. Bytes beyond
/// the end of the pattern are not looked at.
pub open spec fn conforms(bytes: Seq<u8>, pattern: Seq<u8>) -> bool {
    forall|i: int| 0 <= i < bytes.len() && i < pattern.len() ==> slot_accepts(pattern[i], bytes[i])
}

/// What may follow a frame: nothing, `\r` or `\r\n`.
pub open spec fn is_line_ending(tail: Seq<u8>) -> bool {
    tail == Seq::<u8>::empty() || tail == seq![CR] || tail == seq![CR, LF]
}

/// How a byte string relates to a frame layout.
#[derive(Debug, Clone, Copy, PartialEq, Eq, Structural)]
pub enum Shape {
    /// The whole layout is there, followed by an optional line ending and
    /// nothing else.
    Complete,
    /// The bytes fit the layout as far as they go, and stop before its end.
    Partial,
    /// A byte stands where the layout does not allow it, or bytes other than
    /// a line ending follow the frame.
    Malformed,
}

pub open spec fn spec_shape(bytes: Seq<u8>, pattern: Seq<u8>) -> Shape {
    if !conforms(bytes, pattern) {
        Shape::Malformed
    } else if bytes.len() < pattern.len() {
        Shape::Partial
    } else if is_line_ending(bytes.skip(pattern.len() as int)) {
        Shape::Complete
    } else {
        Shape::Malformed
    }
}

/// Tells whether `tail` is an optional line ending.
pub fn line_ending(tail: &[u8]) -> (r: bool)
    ensures
        r == is_line_ending(tail@),
{
    let n = tail.len();
    if n == 0 {
        assert(tail@ =~= Seq::<u8>::empty());
        true
    } else if n == 1 {
        assert(tail@ =~= seq![tail@[0]]);
        tail[0] == CR
    } else if n == 2 {
        assert(tail@ =~= seq![tail@[0], tail@[1]]);
        tail[0] == CR && tail[1] == LF
    } else {
        false
    }
}

fn accepts(slot: u8, byte: u8) -> (r: bool)
    ensures
        r == slot_accepts(slot, byte),
{
    if slot == DIGIT {
        48 <= byte && byte <= 57
    } else if slot == SIGNED {
        (48 <= byte && byte <= 57) || byte == 43 || byte == 45
    } else if slot == ANY {
        true
    } else if slot == PRINTABLE {
        32 <= byte && byte <= 126
    } else {
        byte == slot
    }
}

/// Tells whether the bytes that are present fit the layout `pattern`.
pub fn fits(bytes: &[u8], pattern: &[u8]) -> (r: bool)
    ensures
        r == conforms(bytes@, pattern@),
{
    let limit = if bytes.len() < pattern.len() {
        bytes.len()
    } else {
        pattern.len()
    };
    let mut i: usize = 0;
    while i < limit
        invariant
            i <= limit,
            limit <= bytes.len(),
            limit <= pattern.len(),
            limit == bytes.len() || limit == pattern.len(),
            forall|k: int| 0 <= k < i ==> slot_accepts(pattern@[k], bytes@[k]),
        decreases limit - i,
    {
        if !accepts(pattern[i], bytes[i]) {
            return false;
        }
        i += 1;
    }
    true
}

/// Holds `bytes` against the layout `pattern`.
pub fn shape(bytes: &[u8], pattern: &[u8]) -> (r: Shape)
    ensures
        r == spec_shape(bytes@, pattern@),
{
    if !fits(bytes, pattern) {
        Shape::Malformed
    } else if bytes.len() < pattern.len() {
        Shape::Partial
    } else {
        let tail = vstd::slice::slice_subrange(bytes, pattern.len(), bytes.len());
        assert(tail@ =~= bytes@.skip(pattern@.len() as int));
        if line_ending(tail) {
            Shape::Complete
        } else {
            Shape::Malformed
        }
    }
}

/// Whether `prefix` stands at the start of `bytes`.
pub fn starts_with(bytes: &[u8], prefix: &[u8]) -> (r: bool)
    ensures
        r == prefix@.is_prefix_of(bytes@),
{
    if bytes.len() < prefix.len() {
        return false;
    }
    let mut i: usize = 0;
    while i < prefix.len()
        invariant
            i <= prefix.len() <= bytes.len(),
            forall|k: int| 0 <= k < i ==> bytes@[k] == prefix@[k],
        decreases prefix.len() - i,
    {
        if bytes[i] != prefix[i] {
            return false;
        }
        i += 1;
    }
    assert(prefix@ =~= bytes@.subrange(0, prefix@.len() as int));
    true
}

pub open spec fn all_digits(field: Seq<u8>) -> bool {
    forall|i: int| 0 <= i < field.len() ==> is_digit(#[trigger] field[i])
}

/// The number that a string of decimal digits writes, most significant digit
/// first.
pub open spec fn decimal(digits: Seq<u8>) -> nat
    decreases digits.len(),
{
    if digits.len() == 0 {
        0
    } else {
        (decimal(digits.drop_last()) * 10 + (digits.last() - 48)) as nat
    }
}

/// The number that a signed field writes: an optional `+` or `-`, then digits.
pub open spec fn signed_decimal(field: Seq<u8>) -> int {
    if field.len() > 0 && field[0] == 45 {
        -(decimal(field.skip(1)) as int)
    } else if field.len() > 0 && field[0] == 43 {
        decimal(field.skip(1)) as int
    } else {
        decimal(field) as int
    }
}

pub open spec fn pow10(n: nat) -> nat
    decreases n,
{
    if n == 0 {
        1
    } else {
        10 * pow10((n - 1) as nat)
    }
}

pub proof fn lemma_pow10_values()
    ensures
        pow10(0) == 1,
        pow10(1) == 10,
        pow10(2) == 100,
        pow10(3) == 1_000,
        pow10(4) == 10_000,
        pow10(5) == 100_000,
        pow10(6) == 1_000_000,
        pow10(7) == 10_000_000,
        pow10(8) == 100_000_000,
        pow10(9) == 1_000_000_000,
{
    reveal_with_fuel(pow10, 11);
}

/// Reads the decimal field of `width` digits that starts at `start`.
pub(crate) fn parse_decimal(bytes: &[u8], start: usize, width: usize) -> (value: u32)
    requires
        start + width <= bytes.len(),
        width <= 9,
        all_digits(bytes@.subrange(start as int, start + width)),
    ensures
        value == decimal(bytes@.subrange(start as int, start + width)),
        value < pow10(width as nat),
{
    let ghost field = bytes@.subrange(start as int, start + width);
    let mut value: u32 = 0;
    let mut i: usize = 0;
    proof {
        lemma_pow10_values();
    }
    while i < width
        invariant
            i <= width <= 9,
            start + width <= bytes.len(),
            field == bytes@.subrange(start as int, start + width),
            all_digits(field),
            value == decimal(field.take(i as int)),
            value < pow10(i as nat),
        decreases width - i,
    {
        proof {
            assert(field[i as int] == bytes@[start + i]);
            assert(is_digit(field[i as int]));
        }
        let digit = bytes[start + i] - 48;
        proof {
            assert(field.take(i + 1).drop_last() =~= field.take(i as int));
            assert(field.take(i + 1).last() == field[i as int]);
            assert(pow10((i + 1) as nat) == 10 * pow10(i as nat));
            assert(pow10(i as nat) <= pow10(8)) by {
                lemma_pow10_monotone(i as nat, 8);
            }
            lemma_pow10_values();
        }
        value = value * 10 + digit as u32;
        i += 1;
    }
    assert(field.take(width as int) =~= field);
    value
}

pub proof fn lemma_pow10_monotone(a: nat, b: nat)
    requires
        a <= b,
    ensures
        pow10(a) <= pow10(b),
    decreases b,
{
    if a < b {
        lemma_pow10_monotone(a, (b - 1) as nat);
    }
}

/// Reads the signed field of `width` bytes that starts at `start`: a sign or a
/// digit, then digits.
pub(crate) fn parse_signed(bytes: &[u8], start: usize, width: usize) -> (value: i32)
    requires
        start + width <= bytes.len(),
        1 <= width <= 9,
        slot_accepts(SIGNED, bytes@[start as int]),
        all_digits(bytes@.subrange(start + 1, start + width)),
    ensures
        value == signed_decimal(bytes@.subrange(start as int, start + width)),
        -pow10(width as nat) < value < pow10(width as nat),
{
    let ghost field = bytes@.subrange(start as int, start + width);
    assert(field.skip(1) =~= bytes@.subrange(start + 1, start + width));
    assert(field[0] == bytes@[start as int]);
    proof {
        lemma_pow10_values();
        lemma_pow10_monotone((width - 1) as nat, width as nat);
    }
    let first = bytes[start];
    if first == 45 {
        let magnitude = parse_decimal(bytes, start + 1, width - 1);
        -(magnitude as i32)
    } else if first == 43 {
        parse_decimal(bytes, start + 1, width - 1) as i32
    } else {
        assert(all_digits(field)) by {
            assert forall|i: int| 0 <= i < field.len() implies is_digit(#[trigger] field[i]) by {
                if i > 0 {
                    assert(field[i] == field.skip(1)[i - 1]);
                }
            }
        }
        parse_decimal(bytes, start, width) as i32
    }
}

/// In bytes that fit `pattern`, a run of digit slots holds digits.
pub proof fn lemma_digit_field(bytes: Seq<u8>, pattern: Seq<u8>, from: int, to: int)
    requires
        conforms(bytes, pattern),
        0 <= from <= to <= bytes.len(),
        to <= pattern.len(),
        forall|k: int| from <= k < to ==> pattern[k] == DIGIT,
    ensures
        all_digits(bytes.subrange(from, to)),
{
    assert forall|i: int| 0 <= i < to - from implies is_digit(
        #[trigger] bytes.subrange(from, to)[i],
    ) by {
        assert(slot_accepts(pattern[from + i], bytes[from + i]));
    }
}

} // verus!
