//! The small enumerations that frames and commands carry.

use vstd::prelude::*;
use crate::common::error::{MessageParseError, ParseFailure};
use crate::common::fields::{shape, slot_accepts, spec_shape, Shape, DIGIT};
use crate::spectrum_analyzer::model::Model;

verus! {

/// What stands between the antenna and the analyzer's first stage. The wire
/// value is the ASCII digit.
#[derive(Debug, Copy, Clone, PartialEq, Eq, Structural)]
pub enum InputStage {
    Bypass,
    Attenuator30dB,
    Lna25dB,
}

impl InputStage {
    pub open spec fn spec_byte(self) -> u8 {
        match self {
            InputStage::Bypass => 48,
            InputStage::Attenuator30dB => 49,
            InputStage::Lna25dB => 50,
        }
    }

    pub open spec fn spec_from_byte(byte: u8) -> Option<InputStage> {
        if byte == 48 {
            Some(InputStage::Bypass)
        } else if byte == 49 {
            Some(InputStage::Attenuator30dB)
        } else if byte == 50 {
            Some(InputStage::Lna25dB)
        } else {
            None
        }
    }

    #[verifier::when_used_as_spec(spec_byte)]
    pub fn byte(self) -> (r: u8)
        ensures
            r == self.spec_byte(),
    {
        match self {
            InputStage::Bypass => 48,
            InputStage::Attenuator30dB => 49,
            InputStage::Lna25dB => 50,
        }
    }

    #[verifier::when_used_as_spec(spec_from_byte)]
    pub fn from_byte(byte: u8) -> (r: Option<InputStage>)
        ensures
            r == InputStage::spec_from_byte(byte),
    {
        if byte == 48 {
            Some(InputStage::Bypass)
        } else if byte == 49 {
            Some(InputStage::Attenuator30dB)
        } else if byte == 50 {
            Some(InputStage::Lna25dB)
        } else {
            None
        }
    }
}

/// The band that the Wi-Fi analyzer watches.
#[derive(Debug, Copy, Clone, PartialEq, Eq, Structural)]
pub enum WifiBand {
    TwoPointFourGhz,
    FiveGhz,
}

impl WifiBand {
    pub open spec fn spec_byte(self) -> u8 {
        match self {
            WifiBand::TwoPointFourGhz => 1,
            WifiBand::FiveGhz => 2,
        }
    }

    #[verifier::when_used_as_spec(spec_byte)]
    pub fn byte(self) -> (r: u8)
        ensures
            r == self.spec_byte(),
    {
        match self {
            WifiBand::TwoPointFourGhz => 1,
            WifiBand::FiveGhz => 2,
        }
    }
}

/// One of the two radio front-ends of a device, with the model it holds.
#[derive(Debug, Copy, Clone, PartialEq, Eq, Structural)]
pub enum RadioModule {
    Main { model: Model },
    Expansion { model: Model },
}

impl RadioModule {
    pub open spec fn spec_model(self) -> Model {
        match self {
            RadioModule::Main { model } => model,
            RadioModule::Expansion { model } => model,
        }
    }

    #[verifier::when_used_as_spec(spec_model)]
    pub fn model(self) -> (model: Model)
        ensures
            model == self.spec_model(),
    {
        match self {
            RadioModule::Main { model } => model,
            RadioModule::Expansion { model } => model,
        }
    }

    pub fn is_main(self) -> (r: bool)
        ensures
            r == (self is Main),
    {
        match self {
            RadioModule::Main { .. } => true,
            RadioModule::Expansion { .. } => false,
        }
    }

    pub fn is_expansion(self) -> (r: bool)
        ensures
            r == (self is Expansion),
    {
        match self {
            RadioModule::Main { .. } => false,
            RadioModule::Expansion { .. } => true,
        }
    }
}

impl Default for RadioModule {
    /// The main module of a device whose model is not known.
    fn default() -> (module: RadioModule)
        ensures
            module == (RadioModule::Main { model: Model::Unknown }),
    {
        RadioModule::Main { model: Model::Unknown }
    }
}

/// What the device is doing.
#[derive(Debug, Copy, Clone, PartialEq, Eq, Structural)]
pub enum Mode {
    SpectrumAnalyzer,
    RfGenerator,
    WifiAnalyzer,
    AnalyzerTracking,
    RfSniffer,
    CwTransmitter,
    SweepFrequency,
    SweepAmplitude,
    GeneratorTracking,
    Unknown,
}

impl Mode {
    pub open spec fn spec_byte(self) -> u8 {
        match self {
            Mode::SpectrumAnalyzer => 0,
            Mode::RfGenerator => 1,
            Mode::WifiAnalyzer => 2,
            Mode::AnalyzerTracking => 5,
            Mode::RfSniffer => 6,
            Mode::CwTransmitter => 60,
            Mode::SweepFrequency => 61,
            Mode::SweepAmplitude => 62,
            Mode::GeneratorTracking => 63,
            Mode::Unknown => 255,
        }
    }

    /// The mode that has `byte` as its wire value, if there is one.
    pub open spec fn spec_from_byte(byte: u8) -> Option<Mode> {
        if byte == 0 {
            Some(Mode::SpectrumAnalyzer)
        } else if byte == 1 {
            Some(Mode::RfGenerator)
        } else if byte == 2 {
            Some(Mode::WifiAnalyzer)
        } else if byte == 5 {
            Some(Mode::AnalyzerTracking)
        } else if byte == 6 {
            Some(Mode::RfSniffer)
        } else if byte == 60 {
            Some(Mode::CwTransmitter)
        } else if byte == 61 {
            Some(Mode::SweepFrequency)
        } else if byte == 62 {
            Some(Mode::SweepAmplitude)
        } else if byte == 63 {
            Some(Mode::GeneratorTracking)
        } else if byte == 255 {
            Some(Mode::Unknown)
        } else {
            None
        }
    }

    #[verifier::when_used_as_spec(spec_from_byte)]
    pub fn from_byte(byte: u8) -> (r: Option<Mode>)
        ensures
            r == Mode::spec_from_byte(byte),
    {
        if byte == 0 {
            Some(Mode::SpectrumAnalyzer)
        } else if byte == 1 {
            Some(Mode::RfGenerator)
        } else if byte == 2 {
            Some(Mode::WifiAnalyzer)
        } else if byte == 5 {
            Some(Mode::AnalyzerTracking)
        } else if byte == 6 {
            Some(Mode::RfSniffer)
        } else if byte == 60 {
            Some(Mode::CwTransmitter)
        } else if byte == 61 {
            Some(Mode::SweepFrequency)
        } else if byte == 62 {
            Some(Mode::SweepAmplitude)
        } else if byte == 63 {
            Some(Mode::GeneratorTracking)
        } else if byte == 255 {
            Some(Mode::Unknown)
        } else {
            None
        }
    }
}

impl Default for Mode {
    fn default() -> (mode: Mode)
        ensures
            mode == Mode::SpectrumAnalyzer,
    {
        Mode::SpectrumAnalyzer
    }
}

/// How the device combines successive sweeps before it reports them.
#[derive(Debug, Copy, Clone, PartialEq, Eq, Structural)]
pub enum CalcMode {
    Normal,
    Max,
    Avg,
    Overwrite,
    MaxHold,
}

impl CalcMode {
    pub open spec fn spec_byte(self) -> u8 {
        match self {
            CalcMode::Normal => 0,
            CalcMode::Max => 1,
            CalcMode::Avg => 2,
            CalcMode::Overwrite => 3,
            CalcMode::MaxHold => 4,
        }
    }

    pub open spec fn spec_from_byte(byte: u8) -> Option<CalcMode> {
        if byte == 0 {
            Some(CalcMode::Normal)
        } else if byte == 1 {
            Some(CalcMode::Max)
        } else if byte == 2 {
            Some(CalcMode::Avg)
        } else if byte == 3 {
            Some(CalcMode::Overwrite)
        } else if byte == 4 {
            Some(CalcMode::MaxHold)
        } else {
            None
        }
    }

    #[verifier::when_used_as_spec(spec_byte)]
    pub fn byte(self) -> (r: u8)
        ensures
            r == self.spec_byte(),
    {
        match self {
            CalcMode::Normal => 0,
            CalcMode::Max => 1,
            CalcMode::Avg => 2,
            CalcMode::Overwrite => 3,
            CalcMode::MaxHold => 4,
        }
    }

    #[verifier::when_used_as_spec(spec_from_byte)]
    pub fn from_byte(byte: u8) -> (r: Option<CalcMode>)
        ensures
            r == CalcMode::spec_from_byte(byte),
    {
        if byte == 0 {
            Some(CalcMode::Normal)
        } else if byte == 1 {
            Some(CalcMode::Max)
        } else if byte == 2 {
            Some(CalcMode::Avg)
        } else if byte == 3 {
            Some(CalcMode::Overwrite)
        } else if byte == 4 {
            Some(CalcMode::MaxHold)
        } else {
            None
        }
    }
}

/// The signal processing that the device applies to a sweep.
#[derive(Debug, Copy, Clone, PartialEq, Eq, Structural)]
pub enum DspMode {
    Auto,
    Filter,
    Fast,
    NoImg,
}

impl DspMode {
    pub open spec fn spec_byte(self) -> u8 {
        match self {
            DspMode::Auto => 0,
            DspMode::Filter => 1,
            DspMode::Fast => 2,
            DspMode::NoImg => 3,
        }
    }

    pub open spec fn spec_from_byte(byte: u8) -> Option<DspMode> {
        if byte == 0 {
            Some(DspMode::Auto)
        } else if byte == 1 {
            Some(DspMode::Filter)
        } else if byte == 2 {
            Some(DspMode::Fast)
        } else if byte == 3 {
            Some(DspMode::NoImg)
        } else {
            None
        }
    }

    #[verifier::when_used_as_spec(spec_byte)]
    pub fn byte(self) -> (r: u8)
        ensures
            r == self.spec_byte(),
    {
        match self {
            DspMode::Auto => 0,
            DspMode::Filter => 1,
            DspMode::Fast => 2,
            DspMode::NoImg => 3,
        }
    }

    #[verifier::when_used_as_spec(spec_from_byte)]
    pub fn from_byte(byte: u8) -> (r: Option<DspMode>)
        ensures
            r == DspMode::spec_from_byte(byte),
    {
        if byte == 0 {
            Some(DspMode::Auto)
        } else if byte == 1 {
            Some(DspMode::Filter)
        } else if byte == 2 {
            Some(DspMode::Fast)
        } else if byte == 3 {
            Some(DspMode::NoImg)
        } else {
            None
        }
    }
}

/// Whether the analyzer steps together with a paired generator.
#[derive(Debug, Copy, Clone, PartialEq, Eq, Structural)]
pub enum TrackingStatus {
    Disabled,
    Enabled,
}

impl TrackingStatus {
    pub open spec fn spec_from_byte(byte: u8) -> Option<TrackingStatus> {
        if byte == 0 {
            Some(TrackingStatus::Disabled)
        } else if byte == 1 {
            Some(TrackingStatus::Enabled)
        } else {
            None
        }
    }

    #[verifier::when_used_as_spec(spec_from_byte)]
    pub fn from_byte(byte: u8) -> (r: Option<TrackingStatus>)
        ensures
            r == TrackingStatus::spec_from_byte(byte),
    {
        if byte == 0 {
            Some(TrackingStatus::Disabled)
        } else if byte == 1 {
            Some(TrackingStatus::Enabled)
        } else {
            None
        }
    }
}

impl Default for TrackingStatus {
    fn default() -> (status: TrackingStatus)
        ensures
            status == TrackingStatus::Disabled,
    {
        TrackingStatus::Disabled
    }
}

/// The prefix of the DSP mode frame: `DSP:`.
pub const DSP_MODE_PREFIX: [u8; 4] = [68, 83, 80, 58];

/// The layout of the DSP mode frame: `DSP:d`.
pub const DSP_MODE_PATTERN: [u8; 5] = [68, 83, 80, 58, DIGIT];

/// The prefix of the input stage frame: `#a`.
pub const INPUT_STAGE_PREFIX: [u8; 2] = [35, 97];

/// The layout of the input stage frame: `#ad`.
pub const INPUT_STAGE_PATTERN: [u8; 3] = [35, 97, DIGIT];

/// The prefix of the tracking status frame: `#K`.
pub const TRACKING_STATUS_PREFIX: [u8; 2] = [35, 75];

/// The layout of the tracking status frame: `#Kd`.
pub const TRACKING_STATUS_PATTERN: [u8; 3] = [35, 75, DIGIT];

/// What a byte string decodes to as a frame that ends in one digit: the
/// digit's byte.
pub open spec fn spec_digit_frame(bytes: Seq<u8>, pattern: Seq<u8>) -> Result<u8, ParseFailure> {
    match spec_shape(bytes, pattern) {
        Shape::Malformed => Err(ParseFailure::Invalid),
        Shape::Partial => Err(ParseFailure::Incomplete),
        Shape::Complete => Ok(bytes[pattern.len() - 1]),
    }
}

/// The value of a frame's digit, or `Invalid` where the digit names none.
pub open spec fn spec_named<T>(digit: Result<u8, ParseFailure>, value: Option<T>) -> Result<
    T,
    ParseFailure,
> {
    match digit {
        Err(e) => Err(e),
        Ok(_) => match value {
            Some(v) => Ok(v),
            None => Err(ParseFailure::Invalid),
        },
    }
}

fn digit_frame<'a>(bytes: &'a [u8], pattern: &[u8]) -> (r: Result<u8, MessageParseError<'a>>)
    requires
        pattern@.len() > 0,
    ensures
        match r {
            Ok(byte) => spec_digit_frame(bytes@, pattern@) == Ok::<u8, ParseFailure>(byte),
            Err(e) => spec_digit_frame(bytes@, pattern@) == Err::<u8, ParseFailure>(e@),
        },
{
    match shape(bytes, pattern) {
        Shape::Malformed => Err(MessageParseError::Invalid),
        Shape::Partial => Err(MessageParseError::Incomplete),
        Shape::Complete => Ok(bytes[pattern.len() - 1]),
    }
}

impl DspMode {
    /// What a byte string decodes to as a DSP mode frame.
    pub open spec fn spec_decode(bytes: Seq<u8>) -> Result<DspMode, ParseFailure> {
        let digit = spec_digit_frame(bytes, DSP_MODE_PATTERN@);
        spec_named(digit, DspMode::spec_from_byte((digit->Ok_0 - 48) as u8))
    }

    /// Decodes a DSP mode frame, such as `DSP:1`.
    pub fn try_from<'a>(bytes: &'a [u8]) -> (r: Result<DspMode, MessageParseError<'a>>)
        ensures
            match r {
                Ok(mode) => DspMode::spec_decode(bytes@) == Ok::<DspMode, ParseFailure>(mode),
                Err(e) => DspMode::spec_decode(bytes@) == Err::<DspMode, ParseFailure>(e@),
            },
    {
        match digit_frame(bytes, DSP_MODE_PATTERN.as_slice()) {
            Err(e) => Err(e),
            Ok(byte) => {
                assert(slot_accepts(DSP_MODE_PATTERN@[4], bytes@[4]));
                match DspMode::from_byte(byte - 48) {
                    Some(mode) => Ok(mode),
                    None => Err(MessageParseError::Invalid),
                }
            },
        }
    }
}

impl InputStage {
    /// What a byte string decodes to as an input stage frame.
    pub open spec fn spec_decode(bytes: Seq<u8>) -> Result<InputStage, ParseFailure> {
        let digit = spec_digit_frame(bytes, INPUT_STAGE_PATTERN@);
        spec_named(digit, InputStage::spec_from_byte(digit->Ok_0))
    }

    /// Decodes an input stage frame, such as `#a0`.
    pub fn try_from<'a>(bytes: &'a [u8]) -> (r: Result<InputStage, MessageParseError<'a>>)
        ensures
            match r {
                Ok(stage) => InputStage::spec_decode(bytes@) == Ok::<InputStage, ParseFailure>(
                    stage,
                ),
                Err(e) => InputStage::spec_decode(bytes@) == Err::<InputStage, ParseFailure>(e@),
            },
    {
        match digit_frame(bytes, INPUT_STAGE_PATTERN.as_slice()) {
            Err(e) => Err(e),
            Ok(byte) => match InputStage::from_byte(byte) {
                Some(stage) => Ok(stage),
                None => Err(MessageParseError::Invalid),
            },
        }
    }
}

impl TrackingStatus {
    /// What a byte string decodes to as a tracking status frame.
    pub open spec fn spec_decode(bytes: Seq<u8>) -> Result<TrackingStatus, ParseFailure> {
        let digit = spec_digit_frame(bytes, TRACKING_STATUS_PATTERN@);
        spec_named(digit, TrackingStatus::spec_from_byte((digit->Ok_0 - 48) as u8))
    }

    /// Decodes a tracking status frame, such as `#K1`.
    pub fn try_from<'a>(bytes: &'a [u8]) -> (r: Result<TrackingStatus, MessageParseError<'a>>)
        ensures
            match r {
                Ok(status) => TrackingStatus::spec_decode(bytes@) == Ok::<
                    TrackingStatus,
                    ParseFailure,
                >(status),
                Err(e) => TrackingStatus::spec_decode(bytes@) == Err::<
                    TrackingStatus,
                    ParseFailure,
                >(e@),
            },
    {
        match digit_frame(bytes, TRACKING_STATUS_PATTERN.as_slice()) {
            Err(e) => Err(e),
            Ok(byte) => {
                assert(slot_accepts(TRACKING_STATUS_PATTERN@[2], bytes@[2]));
                match TrackingStatus::from_byte(byte - 48) {
                    Some(status) => Ok(status),
                    None => Err(MessageParseError::Invalid),
                }
            },
        }
    }
}

} // verus!
