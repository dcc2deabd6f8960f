//! The configuration of an amplitude sweep of the expansion module.
//!
//! The frame is `#C5-A:ddddddd,sdd.d,sdd.d,sdd.d,ddddd`.

use vstd::prelude::*;
use crate::common::error::{MessageParseError, ParseFailure};
use crate::common::fields::{
    decimal,
    lemma_digit_field,
    lemma_pow10_values,
    parse_decimal,
    shape,
    slot_accepts,
    spec_shape,
    Shape,
    COMMA,
    DIGIT,
    POINT,
    SIGNED,
};
use crate::common::frequency::Frequency;
use crate::signal_generator::power::{is_power_field, parse_power, spec_power};

verus! {

/// The prefix of the frame: `#C5-A:`.
pub const CONFIG_AMP_SWEEP_EXP_PREFIX: [u8; 6] = [35, 67, 53, 45, 65, 58];

/// The layout of the frame: `#C5-A:ddddddd,sdd.d,sdd.d,sdd.d,ddddd`.
pub const CONFIG_AMP_SWEEP_EXP_PATTERN: [u8; 37] = [
    35, 67, 53, 45, 65, 58,
    DIGIT, DIGIT, DIGIT, DIGIT, DIGIT, DIGIT, DIGIT, COMMA,
    SIGNED, DIGIT, DIGIT, POINT, DIGIT, COMMA,
    SIGNED, DIGIT, DIGIT, POINT, DIGIT, COMMA,
    SIGNED, DIGIT, DIGIT, POINT, DIGIT, COMMA,
    DIGIT, DIGIT, DIGIT, DIGIT, DIGIT,
];

#[derive(Debug, Copy, Clone, PartialEq, Eq, Structural)]
pub struct ConfigAmpSweepExp {
    /// The frequency that the generator holds.
    pub cw: Frequency,
    /// The distance between two steps of an amplitude sweep, in tenths of a dB.
    pub step_power_tenth_db: i16,
    /// The power at the start of an amplitude sweep, in tenths of a dBm.
    pub start_power_tenth_dbm: i16,
    /// The power at the end of an amplitude sweep, in tenths of a dBm.
    pub stop_power_tenth_dbm: i16,
    /// The delay between two steps of a sweep, in milliseconds.
    pub sweep_delay_ms: u16,
}

/// What the fields of a frame of the right shape say, where each holds a
/// value that exists.
pub open spec fn spec_fields(bytes: Seq<u8>) -> Option<ConfigAmpSweepExp> {
    let sweep_delay_ms = decimal(bytes.subrange(32, 37));
    if sweep_delay_ms > 65_535 {
        None
    } else {
        Some(
            ConfigAmpSweepExp {
                cw: Frequency { hz: (decimal(bytes.subrange(6, 13)) * 1_000) as u64 },
                step_power_tenth_db: spec_power(bytes.subrange(14, 19)),
                start_power_tenth_dbm: spec_power(bytes.subrange(20, 25)),
                stop_power_tenth_dbm: spec_power(bytes.subrange(26, 31)),
                sweep_delay_ms: sweep_delay_ms as u16,
            },
        )
    }
}

/// What a byte string decodes to as this frame.
pub open spec fn spec_decode(bytes: Seq<u8>) -> Result<ConfigAmpSweepExp, ParseFailure> {
    match spec_shape(bytes, CONFIG_AMP_SWEEP_EXP_PATTERN@) {
        Shape::Malformed => Err(ParseFailure::Invalid),
        Shape::Partial => Err(ParseFailure::Incomplete),
        Shape::Complete => match spec_fields(bytes) {
            Some(config) => Ok(config),
            None => Err(ParseFailure::Invalid),
        },
    }
}

impl ConfigAmpSweepExp {
    /// Decodes the frame.
    pub fn try_from<'a>(bytes: &'a [u8]) -> (r: Result<ConfigAmpSweepExp, MessageParseError<'a>>)
        ensures
            match r {
                Ok(config) => spec_decode(bytes@) == Ok::<ConfigAmpSweepExp, ParseFailure>(config),
                Err(e) => spec_decode(bytes@) == Err::<ConfigAmpSweepExp, ParseFailure>(e@),
            },
    {
        match shape(bytes, CONFIG_AMP_SWEEP_EXP_PATTERN.as_slice()) {
            Shape::Malformed => {
                return Err(MessageParseError::Invalid);
            },
            Shape::Partial => {
                return Err(MessageParseError::Incomplete);
            },
            Shape::Complete => {},
        }
        proof {
            lemma_pow10_values();
            lemma_digit_field(bytes@, CONFIG_AMP_SWEEP_EXP_PATTERN@, 6, 13);
            assert(is_power_field(bytes@.subrange(14, 19))) by {
                assert(slot_accepts(CONFIG_AMP_SWEEP_EXP_PATTERN@[14], bytes@[14]));
                assert(bytes@.subrange(14, 19)[0] == bytes@[14]);
                assert(slot_accepts(CONFIG_AMP_SWEEP_EXP_PATTERN@[15], bytes@[15]));
                assert(bytes@.subrange(14, 19)[1] == bytes@[15]);
                assert(slot_accepts(CONFIG_AMP_SWEEP_EXP_PATTERN@[16], bytes@[16]));
                assert(bytes@.subrange(14, 19)[2] == bytes@[16]);
                assert(slot_accepts(CONFIG_AMP_SWEEP_EXP_PATTERN@[17], bytes@[17]));
                assert(bytes@.subrange(14, 19)[3] == bytes@[17]);
                assert(slot_accepts(CONFIG_AMP_SWEEP_EXP_PATTERN@[18], bytes@[18]));
                assert(bytes@.subrange(14, 19)[4] == bytes@[18]);
            }
            assert(is_power_field(bytes@.subrange(20, 25))) by {
                assert(slot_accepts(CONFIG_AMP_SWEEP_EXP_PATTERN@[20], bytes@[20]));
                assert(bytes@.subrange(20, 25)[0] == bytes@[20]);
                assert(slot_accepts(CONFIG_AMP_SWEEP_EXP_PATTERN@[21], bytes@[21]));
                assert(bytes@.subrange(20, 25)[1] == bytes@[21]);
                assert(slot_accepts(CONFIG_AMP_SWEEP_EXP_PATTERN@[22], bytes@[22]));
                assert(bytes@.subrange(20, 25)[2] == bytes@[22]);
                assert(slot_accepts(CONFIG_AMP_SWEEP_EXP_PATTERN@[23], bytes@[23]));
                assert(bytes@.subrange(20, 25)[3] == bytes@[23]);
                assert(slot_accepts(CONFIG_AMP_SWEEP_EXP_PATTERN@[24], bytes@[24]));
                assert(bytes@.subrange(20, 25)[4] == bytes@[24]);
            }
            assert(is_power_field(bytes@.subrange(26, 31))) by {
                assert(slot_accepts(CONFIG_AMP_SWEEP_EXP_PATTERN@[26], bytes@[26]));
                assert(bytes@.subrange(26, 31)[0] == bytes@[26]);
                assert(slot_accepts(CONFIG_AMP_SWEEP_EXP_PATTERN@[27], bytes@[27]));
                assert(bytes@.subrange(26, 31)[1] == bytes@[27]);
                assert(slot_accepts(CONFIG_AMP_SWEEP_EXP_PATTERN@[28], bytes@[28]));
                assert(bytes@.subrange(26, 31)[2] == bytes@[28]);
                assert(slot_accepts(CONFIG_AMP_SWEEP_EXP_PATTERN@[29], bytes@[29]));
                assert(bytes@.subrange(26, 31)[3] == bytes@[29]);
                assert(slot_accepts(CONFIG_AMP_SWEEP_EXP_PATTERN@[30], bytes@[30]));
                assert(bytes@.subrange(26, 31)[4] == bytes@[30]);
            }
            lemma_digit_field(bytes@, CONFIG_AMP_SWEEP_EXP_PATTERN@, 32, 37);
        }
        let cw = Frequency { hz: parse_decimal(bytes, 6, 7) as u64 * 1_000 };
        let step_power_tenth_db = parse_power(bytes, 14);
        let start_power_tenth_dbm = parse_power(bytes, 20);
        let stop_power_tenth_dbm = parse_power(bytes, 26);
        let sweep_delay_ms = parse_decimal(bytes, 32, 5);
        if sweep_delay_ms > 65_535 {
            return Err(MessageParseError::Invalid);
        }
        let sweep_delay_ms = sweep_delay_ms as u16;
        Ok(
            ConfigAmpSweepExp {
                cw,
                step_power_tenth_db,
                start_power_tenth_dbm,
                stop_power_tenth_dbm,
                sweep_delay_ms,
            },
        )
    }
}

} // verus!
