//! The configuration frame: what the analyzer is set to sweep.
//!
//! The short form holds the start and stop frequency in kHz and the upper and
//! lower amplitude bound in dBm: `#C2-F:0050000,0100000,+035,-120`. The full
//! form goes on with the number of sweep points, whether the expansion module
//! is the active one, the device's mode and its calculator mode:
//! `#C2-F:0050000,0100000,+035,-120,00112,0,000,000`.

use vstd::prelude::*;
use crate::common::error::{MessageParseError, ParseFailure};
use crate::common::fields::{
    conforms,
    decimal,
    fits,
    is_line_ending,
    lemma_digit_field,
    lemma_pow10_values,
    line_ending,
    parse_decimal,
    parse_signed,
    signed_decimal,
    slot_accepts,
    COMMA,
    DIGIT,
    SIGNED,
};
use crate::common::frequency::Frequency;
use crate::spectrum_analyzer::kinds::{CalcMode, Mode};

verus! {

/// The prefix of the configuration frame: `#C2-F:`.
pub const CONFIG_PREFIX: [u8; 6] = [35, 67, 50, 45, 70, 58];

/// The layout of the short form: `#C2-F:ddddddd,ddddddd,sddd,sddd`.
pub const SHORT_PATTERN: [u8; 31] = [
    35, 67, 50, 45, 70, 58,
    DIGIT, DIGIT, DIGIT, DIGIT, DIGIT, DIGIT, DIGIT, COMMA,
    DIGIT, DIGIT, DIGIT, DIGIT, DIGIT, DIGIT, DIGIT, COMMA,
    SIGNED, DIGIT, DIGIT, DIGIT, COMMA,
    SIGNED, DIGIT, DIGIT, DIGIT,
];

/// The layout of the full form: the short form, then `,ddddd,d,ddd,ddd`.
pub const FULL_PATTERN: [u8; 47] = [
    35, 67, 50, 45, 70, 58,
    DIGIT, DIGIT, DIGIT, DIGIT, DIGIT, DIGIT, DIGIT, COMMA,
    DIGIT, DIGIT, DIGIT, DIGIT, DIGIT, DIGIT, DIGIT, COMMA,
    SIGNED, DIGIT, DIGIT, DIGIT, COMMA,
    SIGNED, DIGIT, DIGIT, DIGIT, COMMA,
    DIGIT, DIGIT, DIGIT, DIGIT, DIGIT, COMMA,
    DIGIT, COMMA,
    DIGIT, DIGIT, DIGIT, COMMA,
    DIGIT, DIGIT, DIGIT,
];

/// The number of sweep points of a device that does not report it.
pub const DEFAULT_SWEEP_POINTS: u16 = 112;

#[derive(Debug, Copy, Clone, PartialEq, Eq, Structural)]
pub struct Config {
    pub start: Frequency,
    pub stop: Frequency,
    pub min_amp_dbm: i16,
    pub max_amp_dbm: i16,
    pub sweep_points: u16,
    pub is_expansion_radio_module_active: bool,
    pub mode: Mode,
    pub calc_mode: CalcMode,
}

/// What the short form says, with the values that a device that sends it is
/// taken to have for the rest.
pub open spec fn short_config(bytes: Seq<u8>) -> Config {
    Config {
        start: Frequency { hz: (decimal(bytes.subrange(6, 13)) * 1_000) as u64 },
        stop: Frequency { hz: (decimal(bytes.subrange(14, 21)) * 1_000) as u64 },
        max_amp_dbm: signed_decimal(bytes.subrange(22, 26)) as i16,
        min_amp_dbm: signed_decimal(bytes.subrange(27, 31)) as i16,
        sweep_points: DEFAULT_SWEEP_POINTS,
        is_expansion_radio_module_active: false,
        mode: Mode::SpectrumAnalyzer,
        calc_mode: CalcMode::Normal,
    }
}

/// What the full form says, where its last four fields hold values that
/// exist: at most 65535 points, a flag of 0 or 1, a known mode and a known
/// calculator mode.
pub open spec fn full_config(bytes: Seq<u8>) -> Option<Config> {
    let points = decimal(bytes.subrange(32, 37));
    let flag = decimal(bytes.subrange(38, 39));
    let mode = decimal(bytes.subrange(40, 43));
    let calc_mode = decimal(bytes.subrange(44, 47));
    if points > 65_535 || flag > 1 || mode > 255 || calc_mode > 255 {
        None
    } else if Mode::spec_from_byte(mode as u8) is None || CalcMode::spec_from_byte(
        calc_mode as u8,
    ) is None {
        None
    } else {
        Some(
            Config {
                sweep_points: points as u16,
                is_expansion_radio_module_active: flag == 1,
                mode: Mode::spec_from_byte(mode as u8)->0,
                calc_mode: CalcMode::spec_from_byte(calc_mode as u8)->0,
                ..short_config(bytes)
            },
        )
    }
}

/// What a byte string decodes to as a configuration frame.
pub open spec fn spec_decode(bytes: Seq<u8>) -> Result<Config, ParseFailure> {
    if !conforms(bytes, SHORT_PATTERN@) {
        Err(ParseFailure::Invalid)
    } else if bytes.len() < 31 {
        Err(ParseFailure::Incomplete)
    } else if is_line_ending(bytes.skip(31)) {
        Ok(short_config(bytes))
    } else if !conforms(bytes, FULL_PATTERN@) {
        Err(ParseFailure::Invalid)
    } else if bytes.len() < 47 {
        Err(ParseFailure::Incomplete)
    } else if !is_line_ending(bytes.skip(47)) {
        Err(ParseFailure::Invalid)
    } else {
        match full_config(bytes) {
            Some(config) => Ok(config),
            None => Err(ParseFailure::Invalid),
        }
    }
}

/// A frame in the short form is made of the bytes of its layout: none of
/// them is a carriage return, and the first six are the prefix.
pub proof fn lemma_short_frame_bytes(bytes: Seq<u8>)
    requires
        conforms(bytes, SHORT_PATTERN@),
        bytes.len() >= 31,
    ensures
        forall|i: int| 0 <= i < 31 ==> bytes[i] != 13,
        CONFIG_PREFIX@.is_prefix_of(bytes),
{
    assert forall|i: int| 0 <= i < 31 implies bytes[i] != 13 by {
        assert(slot_accepts(SHORT_PATTERN@[i], bytes[i]));
    }
    assert forall|i: int| 0 <= i < 6 implies bytes[i] == CONFIG_PREFIX@[i] by {
        assert(slot_accepts(SHORT_PATTERN@[i], bytes[i]));
    }
    assert(CONFIG_PREFIX@ =~= bytes.subrange(0, 6));
}

/// A frame in the short form, followed by a line ending, decodes to what
/// the frame says.
pub proof fn lemma_short_frame(frame: Seq<u8>, ending: Seq<u8>)
    requires
        conforms(frame, SHORT_PATTERN@),
        frame.len() == 31,
        is_line_ending(ending),
    ensures
        spec_decode(frame + ending) == Ok::<Config, ParseFailure>(short_config(frame)),
{
    let bytes = frame + ending;
    assert forall|i: int| 0 <= i < bytes.len() && i < 31 implies slot_accepts(
        SHORT_PATTERN@[i],
        bytes[i],
    ) by {
        assert(bytes[i] == frame[i]);
    }
    assert(bytes.skip(31) =~= ending);
    assert(bytes.subrange(6, 13) =~= frame.subrange(6, 13));
    assert(bytes.subrange(14, 21) =~= frame.subrange(14, 21));
    assert(bytes.subrange(22, 26) =~= frame.subrange(22, 26));
    assert(bytes.subrange(27, 31) =~= frame.subrange(27, 31));
}

impl Config {
    /// Reads the four fields that both forms share.
    fn short<'a>(bytes: &'a [u8]) -> (config: Config)
        requires
            conforms(bytes@, SHORT_PATTERN@),
            bytes@.len() >= 31,
        ensures
            config == short_config(bytes@),
    {
        proof {
            lemma_pow10_values();
            lemma_digit_field(bytes@, SHORT_PATTERN@, 6, 13);
            lemma_digit_field(bytes@, SHORT_PATTERN@, 14, 21);
            lemma_digit_field(bytes@, SHORT_PATTERN@, 23, 26);
            lemma_digit_field(bytes@, SHORT_PATTERN@, 28, 31);
            assert(slot_accepts(SHORT_PATTERN@[22], bytes@[22]));
            assert(slot_accepts(SHORT_PATTERN@[27], bytes@[27]));
        }
        let start_khz = parse_decimal(bytes, 6, 7);
        let stop_khz = parse_decimal(bytes, 14, 7);
        let max_amp = parse_signed(bytes, 22, 4);
        let min_amp = parse_signed(bytes, 27, 4);
        Config {
            start: Frequency { hz: start_khz as u64 * 1_000 },
            stop: Frequency { hz: stop_khz as u64 * 1_000 },
            max_amp_dbm: max_amp as i16,
            min_amp_dbm: min_amp as i16,
            sweep_points: DEFAULT_SWEEP_POINTS,
            is_expansion_radio_module_active: false,
            mode: Mode::SpectrumAnalyzer,
            calc_mode: CalcMode::Normal,
        }
    }

    /// Decodes a configuration frame.
    pub fn try_from<'a>(bytes: &'a [u8]) -> (r: Result<Config, MessageParseError<'a>>)
        ensures
            match r {
                Ok(config) => spec_decode(bytes@) == Ok::<Config, ParseFailure>(config),
                Err(e) => spec_decode(bytes@) == Err::<Config, ParseFailure>(e@),
            },
    {
        if !fits(bytes, SHORT_PATTERN.as_slice()) {
            return Err(MessageParseError::Invalid);
        }
        if bytes.len() < 31 {
            return Err(MessageParseError::Incomplete);
        }
        let base = Config::short(bytes);
        let tail = vstd::slice::slice_subrange(bytes, 31, bytes.len());
        assert(tail@ =~= bytes@.skip(31));
        if line_ending(tail) {
            return Ok(base);
        }
        if !fits(bytes, FULL_PATTERN.as_slice()) {
            return Err(MessageParseError::Invalid);
        }
        if bytes.len() < 47 {
            return Err(MessageParseError::Incomplete);
        }
        let tail = vstd::slice::slice_subrange(bytes, 47, bytes.len());
        assert(tail@ =~= bytes@.skip(47));
        if !line_ending(tail) {
            return Err(MessageParseError::Invalid);
        }
        proof {
            lemma_pow10_values();
            lemma_digit_field(bytes@, FULL_PATTERN@, 32, 37);
            lemma_digit_field(bytes@, FULL_PATTERN@, 38, 39);
            lemma_digit_field(bytes@, FULL_PATTERN@, 40, 43);
            lemma_digit_field(bytes@, FULL_PATTERN@, 44, 47);
        }
        let points = parse_decimal(bytes, 32, 5);
        let flag = parse_decimal(bytes, 38, 1);
        let mode = parse_decimal(bytes, 40, 3);
        let calc_mode = parse_decimal(bytes, 44, 3);
        if points > 65_535 || flag > 1 || mode > 255 || calc_mode > 255 {
            return Err(MessageParseError::Invalid);
        }
        match (Mode::from_byte(mode as u8), CalcMode::from_byte(calc_mode as u8)) {
            (Some(mode), Some(calc_mode)) => Ok(
                Config {
                    start: base.start,
                    stop: base.stop,
                    max_amp_dbm: base.max_amp_dbm,
                    min_amp_dbm: base.min_amp_dbm,
                    sweep_points: points as u16,
                    is_expansion_radio_module_active: flag == 1,
                    mode,
                    calc_mode,
                },
            ),
            _ => Err(MessageParseError::Invalid),
        }
    }

    /// Whether the configuration is the one that a request for `start`,
    /// `stop` and the two amplitude bounds asks for: the amplitudes are the
    /// same, and so are the frequencies as far as the wire carries them,
    /// which is in whole kHz.
    pub open spec fn spec_contains_start_stop_amp_range(
        self,
        start: Frequency,
        stop: Frequency,
        min_amp_dbm: i16,
        max_amp_dbm: i16,
    ) -> bool {
        &&& self.start.hz / 1_000 == start.hz / 1_000
        &&& self.stop.hz / 1_000 == stop.hz / 1_000
        &&& self.min_amp_dbm == min_amp_dbm
        &&& self.max_amp_dbm == max_amp_dbm
    }

    #[verifier::when_used_as_spec(spec_contains_start_stop_amp_range)]
    pub fn contains_start_stop_amp_range(
        self,
        start: Frequency,
        stop: Frequency,
        min_amp_dbm: i16,
        max_amp_dbm: i16,
    ) -> (r: bool)
        ensures
            r == self.spec_contains_start_stop_amp_range(start, stop, min_amp_dbm, max_amp_dbm),
    {
        self.start.hz / 1_000 == start.hz / 1_000 && self.stop.hz / 1_000 == stop.hz / 1_000
            && self.min_amp_dbm == min_amp_dbm && self.max_amp_dbm == max_amp_dbm
    }
}

impl Default for Config {
    /// The configuration of a device that has reported none: nothing is set.
    fn default() -> (config: Config)
        ensures
            config == (Config {
                start: Frequency { hz: 0 },
                stop: Frequency { hz: 0 },
                min_amp_dbm: 0,
                max_amp_dbm: 0,
                sweep_points: 0,
                is_expansion_radio_module_active: false,
                mode: Mode::SpectrumAnalyzer,
                calc_mode: CalcMode::Normal,
            }),
    {
        Config {
            start: Frequency { hz: 0 },
            stop: Frequency { hz: 0 },
            min_amp_dbm: 0,
            max_amp_dbm: 0,
            sweep_points: 0,
            is_expansion_radio_module_active: false,
            mode: Mode::SpectrumAnalyzer,
            calc_mode: CalcMode::Normal,
        }
    }
}

} // verus!
