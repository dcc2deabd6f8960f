//! The whole configuration of a generator that works through its expansion
//! module, which reports power in dBm.
//!
//! The frame is `#C5-*:ddddddd,ddddddd,dddd,ddddddd,sdd.d,sdd.d,sdd.d,sdd.d,d,ddddd`.

use vstd::prelude::*;
use crate::common::error::{MessageParseError, ParseFailure};
use crate::common::fields::{
    decimal,
    lemma_digit_field,
    lemma_pow10_values,
    parse_decimal,
    shape,
    slot_accepts,
    spec_shape,
    Shape,
    COMMA,
    DIGIT,
    POINT,
    SIGNED,
};
use crate::common::frequency::Frequency;
use crate::signal_generator::kinds::RfPower;
use crate::signal_generator::power::{is_power_field, parse_power, spec_power};

verus! {

/// The prefix of the frame: `#C5-*:`.
pub const CONFIG_EXP_PREFIX: [u8; 6] = [35, 67, 53, 45, 42, 58];

/// The layout of the frame: `#C5-*:ddddddd,ddddddd,dddd,ddddddd,sdd.d,sdd.d,sdd.d,sdd.d,d,ddddd`.
pub const CONFIG_EXP_PATTERN: [u8; 66] = [
    35, 67, 53, 45, 42, 58,
    DIGIT, DIGIT, DIGIT, DIGIT, DIGIT, DIGIT, DIGIT, COMMA,
    DIGIT, DIGIT, DIGIT, DIGIT, DIGIT, DIGIT, DIGIT, COMMA,
    DIGIT, DIGIT, DIGIT, DIGIT, COMMA,
    DIGIT, DIGIT, DIGIT, DIGIT, DIGIT, DIGIT, DIGIT, COMMA,
    SIGNED, DIGIT, DIGIT, POINT, DIGIT, COMMA,
    SIGNED, DIGIT, DIGIT, POINT, DIGIT, COMMA,
    SIGNED, DIGIT, DIGIT, POINT, DIGIT, COMMA,
    SIGNED, DIGIT, DIGIT, POINT, DIGIT, COMMA,
    DIGIT, COMMA,
    DIGIT, DIGIT, DIGIT, DIGIT, DIGIT,
];

#[derive(Debug, Copy, Clone, PartialEq, Eq, Structural)]
pub struct ConfigExp {
    /// The frequency at which a frequency sweep starts.
    pub start: Frequency,
    /// The frequency that the generator holds.
    pub cw: Frequency,
    /// The number of steps of a frequency sweep.
    pub total_steps: u16,
    /// The distance between two steps of a frequency sweep.
    pub step: Frequency,
    /// The output power, in tenths of a dBm.
    pub power_tenth_dbm: i16,
    /// The distance between two steps of an amplitude sweep, in tenths of a dB.
    pub step_power_tenth_db: i16,
    /// The power at the start of an amplitude sweep, in tenths of a dBm.
    pub start_power_tenth_dbm: i16,
    /// The power at the end of an amplitude sweep, in tenths of a dBm.
    pub stop_power_tenth_dbm: i16,
    /// Whether the output is on.
    pub rf_power: RfPower,
    /// The delay between two steps of a sweep, in milliseconds.
    pub sweep_delay_ms: u16,
}

/// What the fields of a frame of the right shape say, where each holds a
/// value that exists.
pub open spec fn spec_fields(bytes: Seq<u8>) -> Option<ConfigExp> {
    let rf_power = RfPower::spec_from_digit((bytes[59] - 48) as u8);
    let sweep_delay_ms = decimal(bytes.subrange(61, 66));
    if rf_power is None || sweep_delay_ms > 65_535 {
        None
    } else {
        Some(
            ConfigExp {
                start: Frequency { hz: (decimal(bytes.subrange(6, 13)) * 1_000) as u64 },
                cw: Frequency { hz: (decimal(bytes.subrange(14, 21)) * 1_000) as u64 },
                total_steps: decimal(bytes.subrange(22, 26)) as u16,
                step: Frequency { hz: (decimal(bytes.subrange(27, 34)) * 1_000) as u64 },
                power_tenth_dbm: spec_power(bytes.subrange(35, 40)),
                step_power_tenth_db: spec_power(bytes.subrange(41, 46)),
                start_power_tenth_dbm: spec_power(bytes.subrange(47, 52)),
                stop_power_tenth_dbm: spec_power(bytes.subrange(53, 58)),
                rf_power: rf_power->0,
                sweep_delay_ms: sweep_delay_ms as u16,
            },
        )
    }
}

/// What a byte string decodes to as this frame.
pub open spec fn spec_decode(bytes: Seq<u8>) -> Result<ConfigExp, ParseFailure> {
    match spec_shape(bytes, CONFIG_EXP_PATTERN@) {
        Shape::Malformed => Err(ParseFailure::Invalid),
        Shape::Partial => Err(ParseFailure::Incomplete),
        Shape::Complete => match spec_fields(bytes) {
            Some(config) => Ok(config),
            None => Err(ParseFailure::Invalid),
        },
    }
}

impl ConfigExp {
    /// Decodes the frame.
    pub fn try_from<'a>(bytes: &'a [u8]) -> (r: Result<ConfigExp, MessageParseError<'a>>)
        ensures
            match r {
                Ok(config) => spec_decode(bytes@) == Ok::<ConfigExp, ParseFailure>(config),
                Err(e) => spec_decode(bytes@) == Err::<ConfigExp, ParseFailure>(e@),
            },
    {
        match shape(bytes, CONFIG_EXP_PATTERN.as_slice()) {
            Shape::Malformed => {
                return Err(MessageParseError::Invalid);
            },
            Shape::Partial => {
                return Err(MessageParseError::Incomplete);
            },
            Shape::Complete => {},
        }
        proof {
            lemma_pow10_values();
            lemma_digit_field(bytes@, CONFIG_EXP_PATTERN@, 6, 13);
            lemma_digit_field(bytes@, CONFIG_EXP_PATTERN@, 14, 21);
            lemma_digit_field(bytes@, CONFIG_EXP_PATTERN@, 22, 26);
            lemma_digit_field(bytes@, CONFIG_EXP_PATTERN@, 27, 34);
            assert(is_power_field(bytes@.subrange(35, 40))) by {
                assert(slot_accepts(CONFIG_EXP_PATTERN@[35], bytes@[35]));
                assert(bytes@.subrange(35, 40)[0] == bytes@[35]);
                assert(slot_accepts(CONFIG_EXP_PATTERN@[36], bytes@[36]));
                assert(bytes@.subrange(35, 40)[1] == bytes@[36]);
                assert(slot_accepts(CONFIG_EXP_PATTERN@[37], bytes@[37]));
                assert(bytes@.subrange(35, 40)[2] == bytes@[37]);
                assert(slot_accepts(CONFIG_EXP_PATTERN@[38], bytes@[38]));
                assert(bytes@.subrange(35, 40)[3] == bytes@[38]);
                assert(slot_accepts(CONFIG_EXP_PATTERN@[39], bytes@[39]));
                assert(bytes@.subrange(35, 40)[4] == bytes@[39]);
            }
            assert(is_power_field(bytes@.subrange(41, 46))) by {
                assert(slot_accepts(CONFIG_EXP_PATTERN@[41], bytes@[41]));
                assert(bytes@.subrange(41, 46)[0] == bytes@[41]);
                assert(slot_accepts(CONFIG_EXP_PATTERN@[42], bytes@[42]));
                assert(bytes@.subrange(41, 46)[1] == bytes@[42]);
                assert(slot_accepts(CONFIG_EXP_PATTERN@[43], bytes@[43]));
                assert(bytes@.subrange(41, 46)[2] == bytes@[43]);
                assert(slot_accepts(CONFIG_EXP_PATTERN@[44], bytes@[44]));
                assert(bytes@.subrange(41, 46)[3] == bytes@[44]);
                assert(slot_accepts(CONFIG_EXP_PATTERN@[45], bytes@[45]));
                assert(bytes@.subrange(41, 46)[4] == bytes@[45]);
            }
            assert(is_power_field(bytes@.subrange(47, 52))) by {
                assert(slot_accepts(CONFIG_EXP_PATTERN@[47], bytes@[47]));
                assert(bytes@.subrange(47, 52)[0] == bytes@[47]);
                assert(slot_accepts(CONFIG_EXP_PATTERN@[48], bytes@[48]));
                assert(bytes@.subrange(47, 52)[1] == bytes@[48]);
                assert(slot_accepts(CONFIG_EXP_PATTERN@[49], bytes@[49]));
                assert(bytes@.subrange(47, 52)[2] == bytes@[49]);
                assert(slot_accepts(CONFIG_EXP_PATTERN@[50], bytes@[50]));
                assert(bytes@.subrange(47, 52)[3] == bytes@[50]);
                assert(slot_accepts(CONFIG_EXP_PATTERN@[51], bytes@[51]));
                assert(bytes@.subrange(47, 52)[4] == bytes@[51]);
            }
            assert(is_power_field(bytes@.subrange(53, 58))) by {
                assert(slot_accepts(CONFIG_EXP_PATTERN@[53], bytes@[53]));
                assert(bytes@.subrange(53, 58)[0] == bytes@[53]);
                assert(slot_accepts(CONFIG_EXP_PATTERN@[54], bytes@[54]));
                assert(bytes@.subrange(53, 58)[1] == bytes@[54]);
                assert(slot_accepts(CONFIG_EXP_PATTERN@[55], bytes@[55]));
                assert(bytes@.subrange(53, 58)[2] == bytes@[55]);
                assert(slot_accepts(CONFIG_EXP_PATTERN@[56], bytes@[56]));
                assert(bytes@.subrange(53, 58)[3] == bytes@[56]);
                assert(slot_accepts(CONFIG_EXP_PATTERN@[57], bytes@[57]));
                assert(bytes@.subrange(53, 58)[4] == bytes@[57]);
            }
            lemma_digit_field(bytes@, CONFIG_EXP_PATTERN@, 59, 60);
            assert(bytes@.subrange(59, 60)[0] == bytes@[59]);
            lemma_digit_field(bytes@, CONFIG_EXP_PATTERN@, 61, 66);
        }
        let start = Frequency { hz: parse_decimal(bytes, 6, 7) as u64 * 1_000 };
        let cw = Frequency { hz: parse_decimal(bytes, 14, 7) as u64 * 1_000 };
        let total_steps = parse_decimal(bytes, 22, 4) as u16;
        let step = Frequency { hz: parse_decimal(bytes, 27, 7) as u64 * 1_000 };
        let power_tenth_dbm = parse_power(bytes, 35);
        let step_power_tenth_db = parse_power(bytes, 41);
        let start_power_tenth_dbm = parse_power(bytes, 47);
        let stop_power_tenth_dbm = parse_power(bytes, 53);
        let rf_power = match RfPower::from_digit(bytes[59] - 48) {
            Some(value) => value,
            None => {
                return Err(MessageParseError::Invalid);
            },
        };
        let sweep_delay_ms = parse_decimal(bytes, 61, 5);
        if sweep_delay_ms > 65_535 {
            return Err(MessageParseError::Invalid);
        }
        let sweep_delay_ms = sweep_delay_ms as u16;
        Ok(
            ConfigExp {
                start,
                cw,
                total_steps,
                step,
                power_tenth_dbm,
                step_power_tenth_db,
                start_power_tenth_dbm,
                stop_power_tenth_dbm,
                rf_power,
                sweep_delay_ms,
            },
        )
    }
}

} // verus!
