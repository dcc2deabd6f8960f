//! The configuration of a frequency sweep of the expansion module.
//!
//! The frame is `#C5-F:ddddddd,dddd,ddddddd,sdd.d,d,ddddd`.

use vstd::prelude::*;
use crate::common::error::{MessageParseError, ParseFailure};
use crate::common::fields::{
    decimal,
    lemma_digit_field,
    lemma_pow10_values,
    parse_decimal,
    shape,
    slot_accepts,
    spec_shape,
    Shape,
    COMMA,
    DIGIT,
    POINT,
    SIGNED,
};
use crate::common::frequency::Frequency;
use crate::signal_generator::kinds::RfPower;
use crate::signal_generator::power::{is_power_field, parse_power, spec_power};

verus! {

/// The prefix of the frame: `#C5-F:`.
pub const CONFIG_FREQ_SWEEP_EXP_PREFIX: [u8; 6] = [35, 67, 53, 45, 70, 58];

/// The layout of the frame: `#C5-F:ddddddd,dddd,ddddddd,sdd.d,d,ddddd`.
pub const CONFIG_FREQ_SWEEP_EXP_PATTERN: [u8; 40] = [
    35, 67, 53, 45, 70, 58,
    DIGIT, DIGIT, DIGIT, DIGIT, DIGIT, DIGIT, DIGIT, COMMA,
    DIGIT, DIGIT, DIGIT, DIGIT, COMMA,
    DIGIT, DIGIT, DIGIT, DIGIT, DIGIT, DIGIT, DIGIT, COMMA,
    SIGNED, DIGIT, DIGIT, POINT, DIGIT, COMMA,
    DIGIT, COMMA,
    DIGIT, DIGIT, DIGIT, DIGIT, DIGIT,
];

#[derive(Debug, Copy, Clone, PartialEq, Eq, Structural)]
pub struct ConfigFreqSweepExp {
    /// The frequency at which a frequency sweep starts.
    pub start: Frequency,
    /// The number of steps of a frequency sweep.
    pub total_steps: u16,
    /// The distance between two steps of a frequency sweep.
    pub step: Frequency,
    /// The output power, in tenths of a dBm.
    pub power_tenth_dbm: i16,
    /// Whether the output is on.
    pub rf_power: RfPower,
    /// The delay between two steps of a sweep, in milliseconds.
    pub sweep_delay_ms: u16,
}

/// What the fields of a frame of the right shape say, where each holds a
/// value that exists.
pub open spec fn spec_fields(bytes: Seq<u8>) -> Option<ConfigFreqSweepExp> {
    let rf_power = RfPower::spec_from_digit((bytes[33] - 48) as u8);
    let sweep_delay_ms = decimal(bytes.subrange(35, 40));
    if rf_power is None || sweep_delay_ms > 65_535 {
        None
    } else {
        Some(
            ConfigFreqSweepExp {
                start: Frequency { hz: (decimal(bytes.subrange(6, 13)) * 1_000) as u64 },
                total_steps: decimal(bytes.subrange(14, 18)) as u16,
                step: Frequency { hz: (decimal(bytes.subrange(19, 26)) * 1_000) as u64 },
                power_tenth_dbm: spec_power(bytes.subrange(27, 32)),
                rf_power: rf_power->0,
                sweep_delay_ms: sweep_delay_ms as u16,
            },
        )
    }
}

/// What a byte string decodes to as this frame.
pub open spec fn spec_decode(bytes: Seq<u8>) -> Result<ConfigFreqSweepExp, ParseFailure> {
    match spec_shape(bytes, CONFIG_FREQ_SWEEP_EXP_PATTERN@) {
        Shape::Malformed => Err(ParseFailure::Invalid),
        Shape::Partial => Err(ParseFailure::Incomplete),
        Shape::Complete => match spec_fields(bytes) {
            Some(config) => Ok(config),
            None => Err(ParseFailure::Invalid),
        },
    }
}

impl ConfigFreqSweepExp {
    /// Decodes the frame.
    pub fn try_from<'a>(bytes: &'a [u8]) -> (r: Result<ConfigFreqSweepExp, MessageParseError<'a>>)
        ensures
            match r {
                Ok(config) => spec_decode(bytes@) == Ok::<ConfigFreqSweepExp, ParseFailure>(config),
                Err(e) => spec_decode(bytes@) == Err::<ConfigFreqSweepExp, ParseFailure>(e@),
            },
    {
        match shape(bytes, CONFIG_FREQ_SWEEP_EXP_PATTERN.as_slice()) {
            Shape::Malformed => {
                return Err(MessageParseError::Invalid);
            },
            Shape::Partial => {
                return Err(MessageParseError::Incomplete);
            },
            Shape::Complete => {},
        }
        proof {
            lemma_pow10_values();
            lemma_digit_field(bytes@, CONFIG_FREQ_SWEEP_EXP_PATTERN@, 6, 13);
            lemma_digit_field(bytes@, CONFIG_FREQ_SWEEP_EXP_PATTERN@, 14, 18);
            lemma_digit_field(bytes@, CONFIG_FREQ_SWEEP_EXP_PATTERN@, 19, 26);
            assert(is_power_field(bytes@.subrange(27, 32))) by {
                assert(slot_accepts(CONFIG_FREQ_SWEEP_EXP_PATTERN@[27], bytes@[27]));
                assert(bytes@.subrange(27, 32)[0] == bytes@[27]);
                assert(slot_accepts(CONFIG_FREQ_SWEEP_EXP_PATTERN@[28], bytes@[28]));
                assert(bytes@.subrange(27, 32)[1] == bytes@[28]);
                assert(slot_accepts(CONFIG_FREQ_SWEEP_EXP_PATTERN@[29], bytes@[29]));
                assert(bytes@.subrange(27, 32)[2] == bytes@[29]);
                assert(slot_accepts(CONFIG_FREQ_SWEEP_EXP_PATTERN@[30], bytes@[30]));
                assert(bytes@.subrange(27, 32)[3] == bytes@[30]);
                assert(slot_accepts(CONFIG_FREQ_SWEEP_EXP_PATTERN@[31], bytes@[31]));
                assert(bytes@.subrange(27, 32)[4] == bytes@[31]);
            }
            lemma_digit_field(bytes@, CONFIG_FREQ_SWEEP_EXP_PATTERN@, 33, 34);
            assert(bytes@.subrange(33, 34)[0] == bytes@[33]);
            lemma_digit_field(bytes@, CONFIG_FREQ_SWEEP_EXP_PATTERN@, 35, 40);
        }
        let start = Frequency { hz: parse_decimal(bytes, 6, 7) as u64 * 1_000 };
        let total_steps = parse_decimal(bytes, 14, 4) as u16;
        let step = Frequency { hz: parse_decimal(bytes, 19, 7) as u64 * 1_000 };
        let power_tenth_dbm = parse_power(bytes, 27);
        let rf_power = match RfPower::from_digit(bytes[33] - 48) {
            Some(value) => value,
            None => {
                return Err(MessageParseError::Invalid);
            },
        };
        let sweep_delay_ms = parse_decimal(bytes, 35, 5);
        if sweep_delay_ms > 65_535 {
            return Err(MessageParseError::Invalid);
        }
        let sweep_delay_ms = sweep_delay_ms as u16;
        Ok(
            ConfigFreqSweepExp {
                start,
                total_steps,
                step,
                power_tenth_dbm,
                rf_power,
                sweep_delay_ms,
            },
        )
    }
}

} // verus!
