//! Everything a spectrum analyzer sends, and the decoder that tells the
//! frames apart by their prefix.

use vstd::prelude::*;
use crate::common::clock::now_millis;
use crate::common::error::{MessageParseError, ParseFailure};
use crate::common::fields::starts_with;
use crate::common::screen_data::{ScreenData, ScreenDataValue, SCREEN_DATA_PREFIX};
use crate::common::serial_number::{SerialNumber, SERIAL_NUMBER_PREFIX};
use crate::common::setup_info::{SetupInfo, SetupInfoValue};
use crate::spectrum_analyzer::config::{Config, CONFIG_PREFIX};
use crate::spectrum_analyzer::kinds::{
    DspMode,
    InputStage,
    TrackingStatus,
    DSP_MODE_PREFIX,
    INPUT_STAGE_PREFIX,
    TRACKING_STATUS_PREFIX,
};
use crate::spectrum_analyzer::model::Model;
use crate::spectrum_analyzer::setup_info::SETUP_PREFIX;
use crate::spectrum_analyzer::sweep::{
    Encoding,
    Sweep,
    SweepData,
    SweepDataExt,
    SweepDataLarge,
    SweepDataStandard,
    SweepValue,
};

verus! {

/// The prefix of a standard sweep: `$S`.
pub const SWEEP_STANDARD_PREFIX: [u8; 2] = [36, 83];

/// The prefix of an extended sweep: `$s`.
pub const SWEEP_EXT_PREFIX: [u8; 2] = [36, 115];

/// The prefix of a large sweep: `$z`.
pub const SWEEP_LARGE_PREFIX: [u8; 2] = [36, 122];

#[derive(Debug, Clone, PartialEq, Eq)]
pub enum Message {
    Config(Config),
    Sweep(Sweep),
    ScreenData(ScreenData),
    DspMode(DspMode),
    InputStage(InputStage),
    TrackingStatus(TrackingStatus),
    SerialNumber(SerialNumber),
    SetupInfo(SetupInfo<Model>),
}

/// The mathematical value of a [`Message`].
pub enum MessageValue {
    Config(Config),
    Sweep(SweepValue),
    ScreenData(ScreenDataValue),
    DspMode(DspMode),
    InputStage(InputStage),
    TrackingStatus(TrackingStatus),
    SerialNumber(Seq<char>),
    SetupInfo(SetupInfoValue<Model>),
}

impl View for Message {
    type V = MessageValue;

    open spec fn view(&self) -> MessageValue {
        match self {
            Message::Config(config) => MessageValue::Config(*config),
            Message::Sweep(sweep) => MessageValue::Sweep(sweep@),
            Message::ScreenData(screen) => MessageValue::ScreenData(screen@),
            Message::DspMode(mode) => MessageValue::DspMode(*mode),
            Message::InputStage(stage) => MessageValue::InputStage(*stage),
            Message::TrackingStatus(status) => MessageValue::TrackingStatus(*status),
            Message::SerialNumber(serial) => MessageValue::SerialNumber(serial@),
            Message::SetupInfo(info) => MessageValue::SetupInfo(info@),
        }
    }
}

/// A sweep frame's amplitudes as a message received at `timestamp`.
pub open spec fn spec_sweep(
    encoding: Encoding,
    amplitudes: Result<Seq<i16>, ParseFailure>,
    timestamp: i64,
) -> Result<MessageValue, ParseFailure> {
    match amplitudes {
        Ok(amplitudes) => Ok(
            MessageValue::Sweep(
                SweepValue { encoding, data: SweepData { amplitudes, timestamp } },
            ),
        ),
        Err(e) => Err(e),
    }
}

/// Whether `bytes` starts with one of the prefixes that a spectrum analyzer's
/// frames start with.
pub open spec fn has_known_prefix(bytes: Seq<u8>) -> bool {
    ||| CONFIG_PREFIX@.is_prefix_of(bytes)
    ||| SWEEP_STANDARD_PREFIX@.is_prefix_of(bytes)
    ||| SWEEP_EXT_PREFIX@.is_prefix_of(bytes)
    ||| SWEEP_LARGE_PREFIX@.is_prefix_of(bytes)
    ||| SCREEN_DATA_PREFIX@.is_prefix_of(bytes)
    ||| DSP_MODE_PREFIX@.is_prefix_of(bytes)
    ||| INPUT_STAGE_PREFIX@.is_prefix_of(bytes)
    ||| TRACKING_STATUS_PREFIX@.is_prefix_of(bytes)
    ||| SERIAL_NUMBER_PREFIX@.is_prefix_of(bytes)
    ||| SETUP_PREFIX@.is_prefix_of(bytes)
}

/// What a byte string that the host received at `timestamp` decodes to. The
/// prefix chooses the frame; bytes that start with none of the prefixes are
/// of unknown type.
pub open spec fn spec_decode(bytes: Seq<u8>, timestamp: i64) -> Result<MessageValue, ParseFailure> {
    if CONFIG_PREFIX@.is_prefix_of(bytes) {
        match crate::spectrum_analyzer::config::spec_decode(bytes) {
            Ok(config) => Ok(MessageValue::Config(config)),
            Err(e) => Err(e),
        }
    } else if SWEEP_STANDARD_PREFIX@.is_prefix_of(bytes) {
        spec_sweep(
            Encoding::Standard,
            crate::spectrum_analyzer::sweep::spec_decode(Encoding::Standard, bytes),
            timestamp,
        )
    } else if SWEEP_EXT_PREFIX@.is_prefix_of(bytes) {
        spec_sweep(
            Encoding::Ext,
            crate::spectrum_analyzer::sweep::spec_decode(Encoding::Ext, bytes),
            timestamp,
        )
    } else if SWEEP_LARGE_PREFIX@.is_prefix_of(bytes) {
        spec_sweep(
            Encoding::Large,
            crate::spectrum_analyzer::sweep::spec_decode(Encoding::Large, bytes),
            timestamp,
        )
    } else if SCREEN_DATA_PREFIX@.is_prefix_of(bytes) {
        match crate::common::screen_data::spec_decode(bytes) {
            Ok(pixels) => Ok(MessageValue::ScreenData(ScreenDataValue { pixels, timestamp })),
            Err(e) => Err(e),
        }
    } else if DSP_MODE_PREFIX@.is_prefix_of(bytes) {
        match DspMode::spec_decode(bytes) {
            Ok(mode) => Ok(MessageValue::DspMode(mode)),
            Err(e) => Err(e),
        }
    } else if INPUT_STAGE_PREFIX@.is_prefix_of(bytes) {
        match InputStage::spec_decode(bytes) {
            Ok(stage) => Ok(MessageValue::InputStage(stage)),
            Err(e) => Err(e),
        }
    } else if TRACKING_STATUS_PREFIX@.is_prefix_of(bytes) {
        match TrackingStatus::spec_decode(bytes) {
            Ok(status) => Ok(MessageValue::TrackingStatus(status)),
            Err(e) => Err(e),
        }
    } else if SERIAL_NUMBER_PREFIX@.is_prefix_of(bytes) {
        match crate::common::serial_number::spec_decode(bytes) {
            Ok(serial) => Ok(MessageValue::SerialNumber(serial)),
            Err(e) => Err(e),
        }
    } else if SETUP_PREFIX@.is_prefix_of(bytes) {
        match crate::common::setup_info::spec_decode::<Model>(SETUP_PREFIX@, bytes) {
            Ok(info) => Ok(MessageValue::SetupInfo(info)),
            Err(e) => Err(e),
        }
    } else {
        Err(ParseFailure::UnknownMessageType)
    }
}

/// Whether `r` is what `bytes`, received at `timestamp`, decodes to.
pub open spec fn decodes_to<'a>(
    r: Result<Message, MessageParseError<'a>>,
    bytes: Seq<u8>,
    timestamp: i64,
) -> bool {
    match r {
        Ok(message) => spec_decode(bytes, timestamp) == Ok::<MessageValue, ParseFailure>(
            message@,
        ),
        Err(e) => spec_decode(bytes, timestamp) == Err::<MessageValue, ParseFailure>(e@),
    }
}

impl Message {
    /// Decodes one frame and, where it is a sweep or a screen dump, stamps
    /// it with the host's clock.
    pub fn try_from<'a>(bytes: &'a [u8]) -> (r: Result<Message, MessageParseError<'a>>)
        ensures
            exists|timestamp: i64| decodes_to(r, bytes@, timestamp),
    {
        let timestamp = now_millis();
        let r = Message::received_at(bytes, timestamp);
        assert(decodes_to(r, bytes@, timestamp));
        r
    }

    /// Decodes one frame that the host received at `timestamp`.
    pub fn received_at<'a>(bytes: &'a [u8], timestamp: i64) -> (r: Result<
        Message,
        MessageParseError<'a>,
    >)
        ensures
            decodes_to(r, bytes@, timestamp),
    {
        if starts_with(bytes, CONFIG_PREFIX.as_slice()) {
            match Config::try_from(bytes) {
                Ok(config) => Ok(Message::Config(config)),
                Err(e) => Err(e),
            }
        } else if starts_with(bytes, SWEEP_STANDARD_PREFIX.as_slice()) {
            match SweepDataStandard::received_at(bytes, timestamp) {
                Ok(data) => Ok(Message::Sweep(Sweep::Standard(data))),
                Err(e) => Err(e),
            }
        } else if starts_with(bytes, SWEEP_EXT_PREFIX.as_slice()) {
            match SweepDataExt::received_at(bytes, timestamp) {
                Ok(data) => Ok(Message::Sweep(Sweep::Ext(data))),
                Err(e) => Err(e),
            }
        } else if starts_with(bytes, SWEEP_LARGE_PREFIX.as_slice()) {
            match SweepDataLarge::received_at(bytes, timestamp) {
                Ok(data) => Ok(Message::Sweep(Sweep::Large(data))),
                Err(e) => Err(e),
            }
        } else if starts_with(bytes, SCREEN_DATA_PREFIX.as_slice()) {
            match ScreenData::received_at(bytes, timestamp) {
                Ok(screen) => Ok(Message::ScreenData(screen)),
                Err(e) => Err(e),
            }
        } else if starts_with(bytes, DSP_MODE_PREFIX.as_slice()) {
            match DspMode::try_from(bytes) {
                Ok(mode) => Ok(Message::DspMode(mode)),
                Err(e) => Err(e),
            }
        } else if starts_with(bytes, INPUT_STAGE_PREFIX.as_slice()) {
            match InputStage::try_from(bytes) {
                Ok(stage) => Ok(Message::InputStage(stage)),
                Err(e) => Err(e),
            }
        } else if starts_with(bytes, TRACKING_STATUS_PREFIX.as_slice()) {
            match TrackingStatus::try_from(bytes) {
                Ok(status) => Ok(Message::TrackingStatus(status)),
                Err(e) => Err(e),
            }
        } else if starts_with(bytes, SERIAL_NUMBER_PREFIX.as_slice()) {
            match SerialNumber::try_from(bytes) {
                Ok(serial) => Ok(Message::SerialNumber(serial)),
                Err(e) => Err(e),
            }
        } else if starts_with(bytes, SETUP_PREFIX.as_slice()) {
            match SetupInfo::<Model>::try_from(bytes) {
                Ok(info) => Ok(Message::SetupInfo(info)),
                Err(e) => Err(e),
            }
        } else {
            Err(MessageParseError::UnknownMessageType)
        }
    }
}

/// Only a sweep is ever reported as cut short, and the report tells where
/// decoding starts again: at a place in the bytes that were given, behind the
/// prefix.
pub proof fn lemma_truncated_remainder(bytes: Seq<u8>, timestamp: i64)
    ensures
        spec_decode(bytes, timestamp) matches Err(ParseFailure::Truncated { remainder })
            ==> remainder matches Some(rest) && rest.len() + 2 <= bytes.len() && rest
            == bytes.skip(bytes.len() - rest.len()),
{
    crate::spectrum_analyzer::sweep::lemma_truncated_remainder(Encoding::Standard, bytes);
    crate::spectrum_analyzer::sweep::lemma_truncated_remainder(Encoding::Ext, bytes);
    crate::spectrum_analyzer::sweep::lemma_truncated_remainder(Encoding::Large, bytes);
}

/// Bytes are of unknown type exactly where they start with none of the
/// prefixes.
pub proof fn lemma_unknown_message_type(bytes: Seq<u8>, timestamp: i64)
    ensures
        spec_decode(bytes, timestamp) == Err::<MessageValue, ParseFailure>(
            ParseFailure::UnknownMessageType,
        ) <==> !has_known_prefix(bytes),
{
}

} // verus!
