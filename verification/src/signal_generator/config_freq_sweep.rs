//! The configuration of a frequency sweep: the generator steps through
//! frequencies at one power.
//!
//! The frame is `#C3-F:ddddddd,dddd,ddddddd,d,d,d,ddddd`.

use vstd::prelude::*;
use crate::common::error::{MessageParseError, ParseFailure};
use crate::common::fields::{
    decimal,
    lemma_digit_field,
    lemma_pow10_values,
    parse_decimal,
    shape,
    spec_shape,
    Shape,
    COMMA,
    DIGIT,
};
use crate::common::frequency::Frequency;
use crate::signal_generator::kinds::{Attenuation, PowerLevel, RfPower};

verus! {

/// The prefix of the frame: `#C3-F:`.
pub const CONFIG_FREQ_SWEEP_PREFIX: [u8; 6] = [35, 67, 51, 45, 70, 58];

/// The layout of the frame: `#C3-F:ddddddd,dddd,ddddddd,d,d,d,ddddd`.
pub const CONFIG_FREQ_SWEEP_PATTERN: [u8; 38] = [
    35, 67, 51, 45, 70, 58,
    DIGIT, DIGIT, DIGIT, DIGIT, DIGIT, DIGIT, DIGIT, COMMA,
    DIGIT, DIGIT, DIGIT, DIGIT, COMMA,
    DIGIT, DIGIT, DIGIT, DIGIT, DIGIT, DIGIT, DIGIT, COMMA,
    DIGIT, COMMA,
    DIGIT, COMMA,
    DIGIT, COMMA,
    DIGIT, DIGIT, DIGIT, DIGIT, DIGIT,
];

#[derive(Debug, Copy, Clone, PartialEq, Eq, Structural)]
pub struct ConfigFreqSweep {
    /// The frequency at which a frequency sweep starts.
    pub start: Frequency,
    /// The number of steps of a frequency sweep.
    pub total_steps: u16,
    /// The distance between two steps of a frequency sweep.
    pub step: Frequency,
    /// Whether the attenuator is on.
    pub attenuation: Attenuation,
    /// The step of output power.
    pub power_level: PowerLevel,
    /// Whether the output is on.
    pub rf_power: RfPower,
    /// The delay between two steps of a sweep, in milliseconds.
    pub sweep_delay_ms: u16,
}

/// What the fields of a frame of the right shape say, where each holds a
/// value that exists.
pub open spec fn spec_fields(bytes: Seq<u8>) -> Option<ConfigFreqSweep> {
    let attenuation = Attenuation::spec_from_digit((bytes[27] - 48) as u8);
    let power_level = PowerLevel::spec_from_digit((bytes[29] - 48) as u8);
    let rf_power = RfPower::spec_from_digit((bytes[31] - 48) as u8);
    let sweep_delay_ms = decimal(bytes.subrange(33, 38));
    if attenuation is None || power_level is None || rf_power is None || sweep_delay_ms > 65_535 {
        None
    } else {
        Some(
            ConfigFreqSweep {
                start: Frequency { hz: (decimal(bytes.subrange(6, 13)) * 1_000) as u64 },
                total_steps: decimal(bytes.subrange(14, 18)) as u16,
                step: Frequency { hz: (decimal(bytes.subrange(19, 26)) * 1_000) as u64 },
                attenuation: attenuation->0,
                power_level: power_level->0,
                rf_power: rf_power->0,
                sweep_delay_ms: sweep_delay_ms as u16,
            },
        )
    }
}

/// What a byte string decodes to as this frame.
pub open spec fn spec_decode(bytes: Seq<u8>) -> Result<ConfigFreqSweep, ParseFailure> {
    match spec_shape(bytes, CONFIG_FREQ_SWEEP_PATTERN@) {
        Shape::Malformed => Err(ParseFailure::Invalid),
        Shape::Partial => Err(ParseFailure::Incomplete),
        Shape::Complete => match spec_fields(bytes) {
            Some(config) => Ok(config),
            None => Err(ParseFailure::Invalid),
        },
    }
}

impl ConfigFreqSweep {
    /// Decodes the frame.
    pub fn try_from<'a>(bytes: &'a [u8]) -> (r: Result<ConfigFreqSweep, MessageParseError<'a>>)
        ensures
            match r {
                Ok(config) => spec_decode(bytes@) == Ok::<ConfigFreqSweep, ParseFailure>(config),
                Err(e) => spec_decode(bytes@) == Err::<ConfigFreqSweep, ParseFailure>(e@),
            },
    {
        match shape(bytes, CONFIG_FREQ_SWEEP_PATTERN.as_slice()) {
            Shape::Malformed => {
                return Err(MessageParseError::Invalid);
            },
            Shape::Partial => {
                return Err(MessageParseError::Incomplete);
            },
            Shape::Complete => {},
        }
        proof {
            lemma_pow10_values();
            lemma_digit_field(bytes@, CONFIG_FREQ_SWEEP_PATTERN@, 6, 13);
            lemma_digit_field(bytes@, CONFIG_FREQ_SWEEP_PATTERN@, 14, 18);
            lemma_digit_field(bytes@, CONFIG_FREQ_SWEEP_PATTERN@, 19, 26);
            lemma_digit_field(bytes@, CONFIG_FREQ_SWEEP_PATTERN@, 27, 28);
            assert(bytes@.subrange(27, 28)[0] == bytes@[27]);
            lemma_digit_field(bytes@, CONFIG_FREQ_SWEEP_PATTERN@, 29, 30);
            assert(bytes@.subrange(29, 30)[0] == bytes@[29]);
            lemma_digit_field(bytes@, CONFIG_FREQ_SWEEP_PATTERN@, 31, 32);
            assert(bytes@.subrange(31, 32)[0] == bytes@[31]);
            lemma_digit_field(bytes@, CONFIG_FREQ_SWEEP_PATTERN@, 33, 38);
        }
        let start = Frequency { hz: parse_decimal(bytes, 6, 7) as u64 * 1_000 };
        let total_steps = parse_decimal(bytes, 14, 4) as u16;
        let step = Frequency { hz: parse_decimal(bytes, 19, 7) as u64 * 1_000 };
        let attenuation = match Attenuation::from_digit(bytes[27] - 48) {
            Some(value) => value,
            None => {
                return Err(MessageParseError::Invalid);
            },
        };
        let power_level = match PowerLevel::from_digit(bytes[29] - 48) {
            Some(value) => value,
            None => {
                return Err(MessageParseError::Invalid);
            },
        };
        let rf_power = match RfPower::from_digit(bytes[31] - 48) {
            Some(value) => value,
            None => {
                return Err(MessageParseError::Invalid);
            },
        };
        let sweep_delay_ms = parse_decimal(bytes, 33, 5);
        if sweep_delay_ms > 65_535 {
            return Err(MessageParseError::Invalid);
        }
        let sweep_delay_ms = sweep_delay_ms as u16;
        Ok(
            ConfigFreqSweep {
                start,
                total_steps,
                step,
                attenuation,
                power_level,
                rf_power,
                sweep_delay_ms,
            },
        )
    }
}

} // verus!
