//! The temperature frame: `#T:` and the reading as a signed number of four
//! characters, such as `#T:+025`.

use vstd::prelude::*;
use crate::common::error::{MessageParseError, ParseFailure};
use crate::common::fields::{
    parse_signed,
    shape,
    signed_decimal,
    slot_accepts,
    spec_shape,
    lemma_digit_field,
    lemma_pow10_values,
    Shape,
    DIGIT,
    SIGNED,
};

verus! {

/// The prefix of the temperature frame: `#T:`.
pub const TEMPERATURE_PREFIX: [u8; 3] = [35, 84, 58];

/// The layout of the temperature frame: `#T:sddd`.
pub const TEMPERATURE_PATTERN: [u8; 7] = [35, 84, 58, SIGNED, DIGIT, DIGIT, DIGIT];

/// The reading of the device's thermometer.
#[derive(Debug, Copy, Clone, PartialEq, Eq, Structural)]
pub struct Temperature {
    pub reading: i16,
}

/// What a byte string decodes to as a temperature frame.
pub open spec fn spec_decode(bytes: Seq<u8>) -> Result<Temperature, ParseFailure> {
    match spec_shape(bytes, TEMPERATURE_PATTERN@) {
        Shape::Malformed => Err(ParseFailure::Invalid),
        Shape::Partial => Err(ParseFailure::Incomplete),
        Shape::Complete => Ok(
            Temperature { reading: signed_decimal(bytes.subrange(3, 7)) as i16 },
        ),
    }
}

impl Temperature {
    /// Decodes a temperature frame.
    pub fn try_from<'a>(bytes: &'a [u8]) -> (r: Result<Temperature, MessageParseError<'a>>)
        ensures
            match r {
                Ok(temperature) => spec_decode(bytes@) == Ok::<Temperature, ParseFailure>(
                    temperature,
                ),
                Err(e) => spec_decode(bytes@) == Err::<Temperature, ParseFailure>(e@),
            },
    {
        match shape(bytes, TEMPERATURE_PATTERN.as_slice()) {
            Shape::Malformed => Err(MessageParseError::Invalid),
            Shape::Partial => Err(MessageParseError::Incomplete),
            Shape::Complete => {
                proof {
                    lemma_pow10_values();
                    lemma_digit_field(bytes@, TEMPERATURE_PATTERN@, 4, 7);
                    assert(slot_accepts(TEMPERATURE_PATTERN@[3], bytes@[3]));
                }
                let reading = parse_signed(bytes, 3, 4);
                Ok(Temperature { reading: reading as i16 })
            },
        }
    }
}

} // verus!
