//! The configuration of an amplitude sweep: the generator holds one
//! frequency and steps through power settings.
//!
//! The frame holds the frequency in kHz, the number of power steps, the
//! attenuator and power level at which the sweep starts and stops, whether
//! the output is on, and the delay between steps in milliseconds:
//! `#C3-A:0186525,0000,0,0,1,3,0,00100`.

use vstd::prelude::*;
use crate::common::error::{MessageParseError, ParseFailure};
use crate::common::fields::{
    decimal,
    lemma_digit_field,
    lemma_pow10_values,
    parse_decimal,
    shape,
    spec_shape,
    Shape,
    COMMA,
    DIGIT,
};
use crate::common::frequency::Frequency;
use crate::signal_generator::kinds::{Attenuation, PowerLevel, RfPower};

verus! {

/// The prefix of the frame: `#C3-A:`.
pub const CONFIG_AMP_SWEEP_PREFIX: [u8; 6] = [35, 67, 51, 45, 65, 58];

/// The layout of the frame: `#C3-A:ddddddd,dddd,d,d,d,d,d,ddddd`.
pub const CONFIG_AMP_SWEEP_PATTERN: [u8; 34] = [
    35, 67, 51, 45, 65, 58,
    DIGIT, DIGIT, DIGIT, DIGIT, DIGIT, DIGIT, DIGIT, COMMA,
    DIGIT, DIGIT, DIGIT, DIGIT, COMMA,
    DIGIT, COMMA,
    DIGIT, COMMA,
    DIGIT, COMMA,
    DIGIT, COMMA,
    DIGIT, COMMA,
    DIGIT, DIGIT, DIGIT, DIGIT, DIGIT,
];

#[derive(Debug, Copy, Clone, PartialEq, Eq, Structural)]
pub struct ConfigAmpSweep {
    cw_freq: Frequency,
    sweep_power_steps: u16,
    start_attenuation: Attenuation,
    start_power_level: PowerLevel,
    stop_attenuation: Attenuation,
    stop_power_level: PowerLevel,
    rf_power: RfPower,
    sweep_delay_ms: u16,
}

/// The mathematical value of a [`ConfigAmpSweep`].
pub struct ConfigAmpSweepValue {
    pub cw_freq: Frequency,
    pub sweep_power_steps: u16,
    pub start_attenuation: Attenuation,
    pub start_power_level: PowerLevel,
    pub stop_attenuation: Attenuation,
    pub stop_power_level: PowerLevel,
    pub rf_power: RfPower,
    pub sweep_delay_ms: u16,
}

impl View for ConfigAmpSweep {
    type V = ConfigAmpSweepValue;

    closed spec fn view(&self) -> ConfigAmpSweepValue {
        ConfigAmpSweepValue {
            cw_freq: self.cw_freq,
            sweep_power_steps: self.sweep_power_steps,
            start_attenuation: self.start_attenuation,
            start_power_level: self.start_power_level,
            stop_attenuation: self.stop_attenuation,
            stop_power_level: self.stop_power_level,
            rf_power: self.rf_power,
            sweep_delay_ms: self.sweep_delay_ms,
        }
    }
}

/// What the fields of a frame of the right shape say, where each holds a
/// value that exists: a delay of at most 65535 ms, and digits that name an
/// attenuation, a power level and an output state.
pub open spec fn spec_fields(bytes: Seq<u8>) -> Option<ConfigAmpSweepValue> {
    let start_attenuation = Attenuation::spec_from_digit((bytes[19] - 48) as u8);
    let start_power_level = PowerLevel::spec_from_digit((bytes[21] - 48) as u8);
    let stop_attenuation = Attenuation::spec_from_digit((bytes[23] - 48) as u8);
    let stop_power_level = PowerLevel::spec_from_digit((bytes[25] - 48) as u8);
    let rf_power = RfPower::spec_from_digit((bytes[27] - 48) as u8);
    let delay = decimal(bytes.subrange(29, 34));
    if start_attenuation is None || start_power_level is None || stop_attenuation is None
        || stop_power_level is None || rf_power is None || delay > 65_535 {
        None
    } else {
        Some(
            ConfigAmpSweepValue {
                cw_freq: Frequency { hz: (decimal(bytes.subrange(6, 13)) * 1_000) as u64 },
                sweep_power_steps: decimal(bytes.subrange(14, 18)) as u16,
                start_attenuation: start_attenuation->0,
                start_power_level: start_power_level->0,
                stop_attenuation: stop_attenuation->0,
                stop_power_level: stop_power_level->0,
                rf_power: rf_power->0,
                sweep_delay_ms: delay as u16,
            },
        )
    }
}

/// What a byte string decodes to as the configuration of an amplitude sweep.
pub open spec fn spec_decode(bytes: Seq<u8>) -> Result<ConfigAmpSweepValue, ParseFailure> {
    match spec_shape(bytes, CONFIG_AMP_SWEEP_PATTERN@) {
        Shape::Malformed => Err(ParseFailure::Invalid),
        Shape::Partial => Err(ParseFailure::Incomplete),
        Shape::Complete => match spec_fields(bytes) {
            Some(config) => Ok(config),
            None => Err(ParseFailure::Invalid),
        },
    }
}

impl ConfigAmpSweep {
    /// Decodes the configuration of an amplitude sweep.
    pub fn try_from<'a>(bytes: &'a [u8]) -> (r: Result<ConfigAmpSweep, MessageParseError<'a>>)
        ensures
            match r {
                Ok(config) => spec_decode(bytes@) == Ok::<ConfigAmpSweepValue, ParseFailure>(
                    config@,
                ),
                Err(e) => spec_decode(bytes@) == Err::<ConfigAmpSweepValue, ParseFailure>(e@),
            },
    {
        match shape(bytes, CONFIG_AMP_SWEEP_PATTERN.as_slice()) {
            Shape::Malformed => {
                return Err(MessageParseError::Invalid);
            },
            Shape::Partial => {
                return Err(MessageParseError::Incomplete);
            },
            Shape::Complete => {},
        }
        proof {
            lemma_pow10_values();
            lemma_digit_field(bytes@, CONFIG_AMP_SWEEP_PATTERN@, 6, 13);
            lemma_digit_field(bytes@, CONFIG_AMP_SWEEP_PATTERN@, 14, 18);
            lemma_digit_field(bytes@, CONFIG_AMP_SWEEP_PATTERN@, 19, 20);
            lemma_digit_field(bytes@, CONFIG_AMP_SWEEP_PATTERN@, 21, 22);
            lemma_digit_field(bytes@, CONFIG_AMP_SWEEP_PATTERN@, 23, 24);
            lemma_digit_field(bytes@, CONFIG_AMP_SWEEP_PATTERN@, 25, 26);
            lemma_digit_field(bytes@, CONFIG_AMP_SWEEP_PATTERN@, 27, 28);
            lemma_digit_field(bytes@, CONFIG_AMP_SWEEP_PATTERN@, 29, 34);
            assert(bytes@.subrange(19, 20)[0] == bytes@[19]);
            assert(bytes@.subrange(21, 22)[0] == bytes@[21]);
            assert(bytes@.subrange(23, 24)[0] == bytes@[23]);
            assert(bytes@.subrange(25, 26)[0] == bytes@[25]);
            assert(bytes@.subrange(27, 28)[0] == bytes@[27]);
        }
        let cw_freq_khz = parse_decimal(bytes, 6, 7);
        let sweep_power_steps = parse_decimal(bytes, 14, 4);
        let delay = parse_decimal(bytes, 29, 5);
        if delay > 65_535 {
            return Err(MessageParseError::Invalid);
        }
        match (
            Attenuation::from_digit(bytes[19] - 48),
            PowerLevel::from_digit(bytes[21] - 48),
            Attenuation::from_digit(bytes[23] - 48),
            PowerLevel::from_digit(bytes[25] - 48),
            RfPower::from_digit(bytes[27] - 48),
        ) {
            (
                Some(start_attenuation),
                Some(start_power_level),
                Some(stop_attenuation),
                Some(stop_power_level),
                Some(rf_power),
            ) => Ok(
                ConfigAmpSweep {
                    cw_freq: Frequency { hz: cw_freq_khz as u64 * 1_000 },
                    sweep_power_steps: sweep_power_steps as u16,
                    start_attenuation,
                    start_power_level,
                    stop_attenuation,
                    stop_power_level,
                    rf_power,
                    sweep_delay_ms: delay as u16,
                },
            ),
            _ => Err(MessageParseError::Invalid),
        }
    }

    /// The frequency that the generator holds.
    pub fn cw_freq(&self) -> (r: Frequency)
        ensures
            r == self@.cw_freq,
    {
        self.cw_freq
    }

    /// The frequency that the generator holds, in whole kHz.
    pub fn cw_freq_khz(&self) -> (r: u64)
        ensures
            r == self@.cw_freq.hz / 1_000,
    {
        self.cw_freq.hz / 1_000
    }

    pub fn sweep_power_steps(&self) -> (r: u16)
        ensures
            r == self@.sweep_power_steps,
    {
        self.sweep_power_steps
    }

    pub fn start_attenuation(&self) -> (r: Attenuation)
        ensures
            r == self@.start_attenuation,
    {
        self.start_attenuation
    }

    pub fn start_power_level(&self) -> (r: PowerLevel)
        ensures
            r == self@.start_power_level,
    {
        self.start_power_level
    }

    pub fn stop_attenuation(&self) -> (r: Attenuation)
        ensures
            r == self@.stop_attenuation,
    {
        self.stop_attenuation
    }

    pub fn stop_power_level(&self) -> (r: PowerLevel)
        ensures
            r == self@.stop_power_level,
    {
        self.stop_power_level
    }

    pub fn rf_power(&self) -> (r: RfPower)
        ensures
            r == self@.rf_power,
    {
        self.rf_power
    }

    pub fn sweep_delay_ms(&self) -> (r: u16)
        ensures
            r == self@.sweep_delay_ms,
    {
        self.sweep_delay_ms
    }
}

} // verus!
