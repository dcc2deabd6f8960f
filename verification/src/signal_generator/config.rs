//! The generator's whole configuration: what it is set to for a single
//! frequency, for a frequency sweep and for an amplitude sweep.
//!
//! The frame is `#C3-*:ddddddd,ddddddd,dddd,ddddddd,d,d,dddd,d,d,d,d,d,ddddd`.

use vstd::prelude::*;
use crate::common::error::{MessageParseError, ParseFailure};
use crate::common::fields::{
    decimal,
    lemma_digit_field,
    lemma_pow10_values,
    parse_decimal,
    shape,
    spec_shape,
    Shape,
    COMMA,
    DIGIT,
};
use crate::common::frequency::Frequency;
use crate::signal_generator::kinds::{Attenuation, PowerLevel, RfPower};

verus! {

/// The prefix of the frame: `#C3-*:`.
pub const CONFIG_PREFIX: [u8; 6] = [35, 67, 51, 45, 42, 58];

/// The layout of the frame: `#C3-*:ddddddd,ddddddd,dddd,ddddddd,d,d,dddd,d,d,d,d,d,ddddd`.
pub const CONFIG_PATTERN: [u8; 59] = [
    35, 67, 51, 45, 42, 58,
    DIGIT, DIGIT, DIGIT, DIGIT, DIGIT, DIGIT, DIGIT, COMMA,
    DIGIT, DIGIT, DIGIT, DIGIT, DIGIT, DIGIT, DIGIT, COMMA,
    DIGIT, DIGIT, DIGIT, DIGIT, COMMA,
    DIGIT, DIGIT, DIGIT, DIGIT, DIGIT, DIGIT, DIGIT, COMMA,
    DIGIT, COMMA,
    DIGIT, COMMA,
    DIGIT, DIGIT, DIGIT, DIGIT, COMMA,
    DIGIT, COMMA,
    DIGIT, COMMA,
    DIGIT, COMMA,
    DIGIT, COMMA,
    DIGIT, COMMA,
    DIGIT, DIGIT, DIGIT, DIGIT, DIGIT,
];

#[derive(Debug, Copy, Clone, PartialEq, Eq, Structural)]
pub struct Config {
    /// The frequency at which a frequency sweep starts.
    pub start: Frequency,
    /// The frequency that the generator holds.
    pub cw: Frequency,
    /// The number of steps of a frequency sweep.
    pub total_steps: u16,
    /// The distance between two steps of a frequency sweep.
    pub step: Frequency,
    /// Whether the attenuator is on.
    pub attenuation: Attenuation,
    /// The step of output power.
    pub power_level: PowerLevel,
    /// The number of steps of an amplitude sweep.
    pub sweep_power_steps: u16,
    /// The attenuator at the start of an amplitude sweep.
    pub start_attenuation: Attenuation,
    /// The power level at the start of an amplitude sweep.
    pub start_power_level: PowerLevel,
    /// The attenuator at the end of an amplitude sweep.
    pub stop_attenuation: Attenuation,
    /// The power level at the end of an amplitude sweep.
    pub stop_power_level: PowerLevel,
    /// Whether the output is on.
    pub rf_power: RfPower,
    /// The delay between two steps of a sweep, in milliseconds.
    pub sweep_delay_ms: u16,
}

/// What the fields of a frame of the right shape say, where each holds a
/// value that exists.
pub open spec fn spec_fields(bytes: Seq<u8>) -> Option<Config> {
    let attenuation = Attenuation::spec_from_digit((bytes[35] - 48) as u8);
    let power_level = PowerLevel::spec_from_digit((bytes[37] - 48) as u8);
    let start_attenuation = Attenuation::spec_from_digit((bytes[44] - 48) as u8);
    let start_power_level = PowerLevel::spec_from_digit((bytes[46] - 48) as u8);
    let stop_attenuation = Attenuation::spec_from_digit((bytes[48] - 48) as u8);
    let stop_power_level = PowerLevel::spec_from_digit((bytes[50] - 48) as u8);
    let rf_power = RfPower::spec_from_digit((bytes[52] - 48) as u8);
    let sweep_delay_ms = decimal(bytes.subrange(54, 59));
    if attenuation is None || power_level is None || start_attenuation is None || start_power_level is None || stop_attenuation is None || stop_power_level is None || rf_power is None || sweep_delay_ms > 65_535 {
        None
    } else {
        Some(
            Config {
                start: Frequency { hz: (decimal(bytes.subrange(6, 13)) * 1_000) as u64 },
                cw: Frequency { hz: (decimal(bytes.subrange(14, 21)) * 1_000) as u64 },
                total_steps: decimal(bytes.subrange(22, 26)) as u16,
                step: Frequency { hz: (decimal(bytes.subrange(27, 34)) * 1_000) as u64 },
                attenuation: attenuation->0,
                power_level: power_level->0,
                sweep_power_steps: decimal(bytes.subrange(39, 43)) as u16,
                start_attenuation: start_attenuation->0,
                start_power_level: start_power_level->0,
                stop_attenuation: stop_attenuation->0,
                stop_power_level: stop_power_level->0,
                rf_power: rf_power->0,
                sweep_delay_ms: sweep_delay_ms as u16,
            },
        )
    }
}

/// What a byte string decodes to as this frame.
pub open spec fn spec_decode(bytes: Seq<u8>) -> Result<Config, ParseFailure> {
    match spec_shape(bytes, CONFIG_PATTERN@) {
        Shape::Malformed => Err(ParseFailure::Invalid),
        Shape::Partial => Err(ParseFailure::Incomplete),
        Shape::Complete => match spec_fields(bytes) {
            Some(config) => Ok(config),
            None => Err(ParseFailure::Invalid),
        },
    }
}

impl Config {
    /// Decodes the frame.
    pub fn try_from<'a>(bytes: &'a [u8]) -> (r: Result<Config, MessageParseError<'a>>)
        ensures
            match r {
                Ok(config) => spec_decode(bytes@) == Ok::<Config, ParseFailure>(config),
                Err(e) => spec_decode(bytes@) == Err::<Config, ParseFailure>(e@),
            },
    {
        match shape(bytes, CONFIG_PATTERN.as_slice()) {
            Shape::Malformed => {
                return Err(MessageParseError::Invalid);
            },
            Shape::Partial => {
                return Err(MessageParseError::Incomplete);
            },
            Shape::Complete => {},
        }
        proof {
            lemma_pow10_values();
            lemma_digit_field(bytes@, CONFIG_PATTERN@, 6, 13);
            lemma_digit_field(bytes@, CONFIG_PATTERN@, 14, 21);
            lemma_digit_field(bytes@, CONFIG_PATTERN@, 22, 26);
            lemma_digit_field(bytes@, CONFIG_PATTERN@, 27, 34);
            lemma_digit_field(bytes@, CONFIG_PATTERN@, 35, 36);
            assert(bytes@.subrange(35, 36)[0] == bytes@[35]);
            lemma_digit_field(bytes@, CONFIG_PATTERN@, 37, 38);
            assert(bytes@.subrange(37, 38)[0] == bytes@[37]);
            lemma_digit_field(bytes@, CONFIG_PATTERN@, 39, 43);
            lemma_digit_field(bytes@, CONFIG_PATTERN@, 44, 45);
            assert(bytes@.subrange(44, 45)[0] == bytes@[44]);
            lemma_digit_field(bytes@, CONFIG_PATTERN@, 46, 47);
            assert(bytes@.subrange(46, 47)[0] == bytes@[46]);
            lemma_digit_field(bytes@, CONFIG_PATTERN@, 48, 49);
            assert(bytes@.subrange(48, 49)[0] == bytes@[48]);
            lemma_digit_field(bytes@, CONFIG_PATTERN@, 50, 51);
            assert(bytes@.subrange(50, 51)[0] == bytes@[50]);
            lemma_digit_field(bytes@, CONFIG_PATTERN@, 52, 53);
            assert(bytes@.subrange(52, 53)[0] == bytes@[52]);
            lemma_digit_field(bytes@, CONFIG_PATTERN@, 54, 59);
        }
        let start = Frequency { hz: parse_decimal(bytes, 6, 7) as u64 * 1_000 };
        let cw = Frequency { hz: parse_decimal(bytes, 14, 7) as u64 * 1_000 };
        let total_steps = parse_decimal(bytes, 22, 4) as u16;
        let step = Frequency { hz: parse_decimal(bytes, 27, 7) as u64 * 1_000 };
        let attenuation = match Attenuation::from_digit(bytes[35] - 48) {
            Some(value) => value,
            None => {
                return Err(MessageParseError::Invalid);
            },
        };
        let power_level = match PowerLevel::from_digit(bytes[37] - 48) {
            Some(value) => value,
            None => {
                return Err(MessageParseError::Invalid);
            },
        };
        let sweep_power_steps = parse_decimal(bytes, 39, 4) as u16;
        let start_attenuation = match Attenuation::from_digit(bytes[44] - 48) {
            Some(value) => value,
            None => {
                return Err(MessageParseError::Invalid);
            },
        };
        let start_power_level = match PowerLevel::from_digit(bytes[46] - 48) {
            Some(value) => value,
            None => {
                return Err(MessageParseError::Invalid);
            },
        };
        let stop_attenuation = match Attenuation::from_digit(bytes[48] - 48) {
            Some(value) => value,
            None => {
                return Err(MessageParseError::Invalid);
            },
        };
        let stop_power_level = match PowerLevel::from_digit(bytes[50] - 48) {
            Some(value) => value,
            None => {
                return Err(MessageParseError::Invalid);
            },
        };
        let rf_power = match RfPower::from_digit(bytes[52] - 48) {
            Some(value) => value,
            None => {
                return Err(MessageParseError::Invalid);
            },
        };
        let sweep_delay_ms = parse_decimal(bytes, 54, 5);
        if sweep_delay_ms > 65_535 {
            return Err(MessageParseError::Invalid);
        }
        let sweep_delay_ms = sweep_delay_ms as u16;
        Ok(
            Config {
                start,
                cw,
                total_steps,
                step,
                attenuation,
                power_level,
                sweep_power_steps,
                start_attenuation,
                start_power_level,
                stop_attenuation,
                stop_power_level,
                rf_power,
                sweep_delay_ms,
            },
        )
    }
}

} // verus!
