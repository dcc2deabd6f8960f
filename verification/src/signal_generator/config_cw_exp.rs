//! The configuration of a single frequency of the expansion module.
//!
//! The frame is `#C5-G:ddddddd,sdd.d,d`.

use vstd::prelude::*;
use crate::common::error::{MessageParseError, ParseFailure};
use crate::common::fields::{
    decimal,
    lemma_digit_field,
    lemma_pow10_values,
    parse_decimal,
    shape,
    slot_accepts,
    spec_shape,
    Shape,
    COMMA,
    DIGIT,
    POINT,
    SIGNED,
};
use crate::common::frequency::Frequency;
use crate::signal_generator::kinds::RfPower;
use crate::signal_generator::power::{is_power_field, parse_power, spec_power};

verus! {

/// The prefix of the frame: `#C5-G:`.
pub const CONFIG_CW_EXP_PREFIX: [u8; 6] = [35, 67, 53, 45, 71, 58];

/// The layout of the frame: `#C5-G:ddddddd,sdd.d,d`.
pub const CONFIG_CW_EXP_PATTERN: [u8; 21] = [
    35, 67, 53, 45, 71, 58,
    DIGIT, DIGIT, DIGIT, DIGIT, DIGIT, DIGIT, DIGIT, COMMA,
    SIGNED, DIGIT, DIGIT, POINT, DIGIT, COMMA,
    DIGIT,
];

#[derive(Debug, Copy, Clone, PartialEq, Eq, Structural)]
pub struct ConfigCwExp {
    /// The frequency that the generator holds.
    pub cw: Frequency,
    /// The output power, in tenths of a dBm.
    pub power_tenth_dbm: i16,
    /// Whether the output is on.
    pub rf_power: RfPower,
}

/// What the fields of a frame of the right shape say, where each holds a
/// value that exists.
pub open spec fn spec_fields(bytes: Seq<u8>) -> Option<ConfigCwExp> {
    let rf_power = RfPower::spec_from_digit((bytes[20] - 48) as u8);
    if rf_power is None {
        None
    } else {
        Some(
            ConfigCwExp {
                cw: Frequency { hz: (decimal(bytes.subrange(6, 13)) * 1_000) as u64 },
                power_tenth_dbm: spec_power(bytes.subrange(14, 19)),
                rf_power: rf_power->0,
            },
        )
    }
}

/// What a byte string decodes to as this frame.
pub open spec fn spec_decode(bytes: Seq<u8>) -> Result<ConfigCwExp, ParseFailure> {
    match spec_shape(bytes, CONFIG_CW_EXP_PATTERN@) {
        Shape::Malformed => Err(ParseFailure::Invalid),
        Shape::Partial => Err(ParseFailure::Incomplete),
        Shape::Complete => match spec_fields(bytes) {
            Some(config) => Ok(config),
            None => Err(ParseFailure::Invalid),
        },
    }
}

impl ConfigCwExp {
    /// Decodes the frame.
    pub fn try_from<'a>(bytes: &'a [u8]) -> (r: Result<ConfigCwExp, MessageParseError<'a>>)
        ensures
            match r {
                Ok(config) => spec_decode(bytes@) == Ok::<ConfigCwExp, ParseFailure>(config),
                Err(e) => spec_decode(bytes@) == Err::<ConfigCwExp, ParseFailure>(e@),
            },
    {
        match shape(bytes, CONFIG_CW_EXP_PATTERN.as_slice()) {
            Shape::Malformed => {
                return Err(MessageParseError::Invalid);
            },
            Shape::Partial => {
                return Err(MessageParseError::Incomplete);
            },
            Shape::Complete => {},
        }
        proof {
            lemma_pow10_values();
            lemma_digit_field(bytes@, CONFIG_CW_EXP_PATTERN@, 6, 13);
            assert(is_power_field(bytes@.subrange(14, 19))) by {
                assert(slot_accepts(CONFIG_CW_EXP_PATTERN@[14], bytes@[14]));
                assert(bytes@.subrange(14, 19)[0] == bytes@[14]);
                assert(slot_accepts(CONFIG_CW_EXP_PATTERN@[15], bytes@[15]));
                assert(bytes@.subrange(14, 19)[1] == bytes@[15]);
                assert(slot_accepts(CONFIG_CW_EXP_PATTERN@[16], bytes@[16]));
                assert(bytes@.subrange(14, 19)[2] == bytes@[16]);
                assert(slot_accepts(CONFIG_CW_EXP_PATTERN@[17], bytes@[17]));
                assert(bytes@.subrange(14, 19)[3] == bytes@[17]);
                assert(slot_accepts(CONFIG_CW_EXP_PATTERN@[18], bytes@[18]));
                assert(bytes@.subrange(14, 19)[4] == bytes@[18]);
            }
            lemma_digit_field(bytes@, CONFIG_CW_EXP_PATTERN@, 20, 21);
            assert(bytes@.subrange(20, 21)[0] == bytes@[20]);
        }
        let cw = Frequency { hz: parse_decimal(bytes, 6, 7) as u64 * 1_000 };
        let power_tenth_dbm = parse_power(bytes, 14);
        let rf_power = match RfPower::from_digit(bytes[20] - 48) {
            Some(value) => value,
            None => {
                return Err(MessageParseError::Invalid);
            },
        };
        Ok(
            ConfigCwExp {
                cw,
                power_tenth_dbm,
                rf_power,
            },
        )
    }
}

} // verus!
