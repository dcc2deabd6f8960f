//! Output power as the expansion module reports it: dBm with one decimal,
//! in five characters, such as `-40.0` or `+05.5`. It is kept as a whole
//! number of tenths of a dBm.

use vstd::prelude::*;
use crate::common::fields::{
    all_digits,
    decimal,
    is_digit,
    is_sign,
    lemma_pow10_values,
    parse_decimal,
};

verus! {

/// What the five bytes of a power field have to be: a sign or a digit, two
/// digits, a point, a digit.
pub open spec fn is_power_field(field: Seq<u8>) -> bool {
    &&& field.len() == 5
    &&& (is_digit(field[0]) || is_sign(field[0]))
    &&& is_digit(field[1])
    &&& is_digit(field[2])
    &&& field[3] == 46
    &&& is_digit(field[4])
}

/// The power that a field writes, in tenths of a dBm.
pub open spec fn spec_power(field: Seq<u8>) -> i16 {
    let hundreds: int = if is_digit(field[0]) {
        field[0] - 48
    } else {
        0
    };
    let magnitude = hundreds * 1000 + decimal(field.subrange(1, 3)) * 10 + (field[4] - 48);
    if field[0] == 45 {
        (-magnitude) as i16
    } else {
        magnitude as i16
    }
}

/// Reads the power field that starts at `start`.
pub(crate) fn parse_power(bytes: &[u8], start: usize) -> (power: i16)
    requires
        start + 5 <= bytes.len(),
        is_power_field(bytes@.subrange(start as int, start + 5)),
    ensures
        power == spec_power(bytes@.subrange(start as int, start + 5)),
{
    let ghost field = bytes@.subrange(start as int, start + 5);
    proof {
        lemma_pow10_values();
        assert(field[0] == bytes@[start as int]);
        assert(field[1] == bytes@[start + 1]);
        assert(field[2] == bytes@[start + 2]);
        assert(field[4] == bytes@[start + 4]);
        assert(field.subrange(1, 3) =~= bytes@.subrange(start + 1, start + 3));
        assert(all_digits(field.subrange(1, 3))) by {
            assert forall|i: int| 0 <= i < 2 implies is_digit(
                #[trigger] field.subrange(1, 3)[i],
            ) by {
                assert(field.subrange(1, 3)[i] == field[i + 1]);
            }
        }
    }
    let first = bytes[start];
    let hundreds: i16 = if first >= 48 && first <= 57 {
        (first - 48) as i16
    } else {
        0
    };
    let whole = parse_decimal(bytes, start + 1, 2) as i16;
    let tenth = (bytes[start + 4] - 48) as i16;
    let magnitude = hundreds * 1000 + whole * 10 + tenth;
    if first == 45 {
        -magnitude
    } else {
        magnitude
    }
}

} // verus!
