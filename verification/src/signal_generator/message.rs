//! Everything a signal generator sends, and the decoder that tells the
//! frames apart by their prefix.

use vstd::prelude::*;
use crate::common::clock::now_millis;
use crate::common::error::{MessageParseError, ParseFailure};
use crate::common::fields::starts_with;
use crate::common::screen_data::{ScreenData, ScreenDataValue, SCREEN_DATA_PREFIX};
use crate::common::serial_number::{SerialNumber, SERIAL_NUMBER_PREFIX};
use crate::common::setup_info::{SetupInfo, SetupInfoValue};
use crate::signal_generator::config::{Config, CONFIG_PREFIX};
use crate::signal_generator::config_amp_sweep::{
    ConfigAmpSweep,
    ConfigAmpSweepValue,
    CONFIG_AMP_SWEEP_PREFIX,
};
use crate::signal_generator::config_cw::{ConfigCw, CONFIG_CW_PREFIX};
use crate::signal_generator::config_freq_sweep::{ConfigFreqSweep, CONFIG_FREQ_SWEEP_PREFIX};
use crate::signal_generator::config_exp::{ConfigExp, CONFIG_EXP_PREFIX};
use crate::signal_generator::config_amp_sweep_exp::{
    ConfigAmpSweepExp,
    CONFIG_AMP_SWEEP_EXP_PREFIX,
};
use crate::signal_generator::config_cw_exp::{ConfigCwExp, CONFIG_CW_EXP_PREFIX};
use crate::signal_generator::config_freq_sweep_exp::{
    ConfigFreqSweepExp,
    CONFIG_FREQ_SWEEP_EXP_PREFIX,
};
use crate::signal_generator::model::Model;
use crate::signal_generator::setup_info::SETUP_PREFIX;
use crate::signal_generator::temperature::{Temperature, TEMPERATURE_PREFIX};

verus! {

#[derive(Debug, Clone, PartialEq, Eq)]
pub enum Message {
    Config(Config),
    ConfigAmpSweep(ConfigAmpSweep),
    ConfigCw(ConfigCw),
    ConfigFreqSweep(ConfigFreqSweep),
    ConfigExp(ConfigExp),
    ConfigAmpSweepExp(ConfigAmpSweepExp),
    ConfigCwExp(ConfigCwExp),
    ConfigFreqSweepExp(ConfigFreqSweepExp),
    ScreenData(ScreenData),
    SerialNumber(SerialNumber),
    SetupInfo(SetupInfo<Model>),
    Temperature(Temperature),
}

/// The mathematical value of a [`Message`].
pub enum MessageValue {
    Config(Config),
    ConfigAmpSweep(ConfigAmpSweepValue),
    ConfigCw(ConfigCw),
    ConfigFreqSweep(ConfigFreqSweep),
    ConfigExp(ConfigExp),
    ConfigAmpSweepExp(ConfigAmpSweepExp),
    ConfigCwExp(ConfigCwExp),
    ConfigFreqSweepExp(ConfigFreqSweepExp),
    ScreenData(ScreenDataValue),
    SerialNumber(Seq<char>),
    SetupInfo(SetupInfoValue<Model>),
    Temperature(Temperature),
}

impl View for Message {
    type V = MessageValue;

    open spec fn view(&self) -> MessageValue {
        match self {
            Message::Config(config) => MessageValue::Config(*config),
            Message::ConfigAmpSweep(config) => MessageValue::ConfigAmpSweep(config@),
            Message::ConfigCw(config) => MessageValue::ConfigCw(*config),
            Message::ConfigFreqSweep(config) => MessageValue::ConfigFreqSweep(*config),
            Message::ConfigExp(config) => MessageValue::ConfigExp(*config),
            Message::ConfigAmpSweepExp(config) => MessageValue::ConfigAmpSweepExp(*config),
            Message::ConfigCwExp(config) => MessageValue::ConfigCwExp(*config),
            Message::ConfigFreqSweepExp(config) => MessageValue::ConfigFreqSweepExp(*config),
            Message::ScreenData(screen) => MessageValue::ScreenData(screen@),
            Message::SerialNumber(serial) => MessageValue::SerialNumber(serial@),
            Message::SetupInfo(info) => MessageValue::SetupInfo(info@),
            Message::Temperature(temperature) => MessageValue::Temperature(*temperature),
        }
    }
}

/// What a byte string that the host received at `timestamp` decodes to. The
/// prefix chooses the frame; bytes that start with none of the prefixes are
/// of unknown type.
pub open spec fn spec_decode(bytes: Seq<u8>, timestamp: i64) -> Result<MessageValue, ParseFailure> {
    if CONFIG_PREFIX@.is_prefix_of(bytes) {
        match crate::signal_generator::config::spec_decode(bytes) {
            Ok(config) => Ok(MessageValue::Config(config)),
            Err(e) => Err(e),
        }
    }     else if CONFIG_AMP_SWEEP_PREFIX@.is_prefix_of(bytes) {
        match crate::signal_generator::config_amp_sweep::spec_decode(bytes) {
            Ok(config) => Ok(MessageValue::ConfigAmpSweep(config)),
            Err(e) => Err(e),
        }
    }     else if CONFIG_CW_PREFIX@.is_prefix_of(bytes) {
        match crate::signal_generator::config_cw::spec_decode(bytes) {
            Ok(config) => Ok(MessageValue::ConfigCw(config)),
            Err(e) => Err(e),
        }
    }     else if CONFIG_FREQ_SWEEP_PREFIX@.is_prefix_of(bytes) {
        match crate::signal_generator::config_freq_sweep::spec_decode(bytes) {
            Ok(config) => Ok(MessageValue::ConfigFreqSweep(config)),
            Err(e) => Err(e),
        }
    }     else if CONFIG_EXP_PREFIX@.is_prefix_of(bytes) {
        match crate::signal_generator::config_exp::spec_decode(bytes) {
            Ok(config) => Ok(MessageValue::ConfigExp(config)),
            Err(e) => Err(e),
        }
    }     else if CONFIG_AMP_SWEEP_EXP_PREFIX@.is_prefix_of(bytes) {
        match crate::signal_generator::config_amp_sweep_exp::spec_decode(bytes) {
            Ok(config) => Ok(MessageValue::ConfigAmpSweepExp(config)),
            Err(e) => Err(e),
        }
    }     else if CONFIG_CW_EXP_PREFIX@.is_prefix_of(bytes) {
        match crate::signal_generator::config_cw_exp::spec_decode(bytes) {
            Ok(config) => Ok(MessageValue::ConfigCwExp(config)),
            Err(e) => Err(e),
        }
    }     else if CONFIG_FREQ_SWEEP_EXP_PREFIX@.is_prefix_of(bytes) {
        match crate::signal_generator::config_freq_sweep_exp::spec_decode(bytes) {
            Ok(config) => Ok(MessageValue::ConfigFreqSweepExp(config)),
            Err(e) => Err(e),
        }
    } else if SCREEN_DATA_PREFIX@.is_prefix_of(bytes) {
        match crate::common::screen_data::spec_decode(bytes) {
            Ok(pixels) => Ok(MessageValue::ScreenData(ScreenDataValue { pixels, timestamp })),
            Err(e) => Err(e),
        }
    } else if SERIAL_NUMBER_PREFIX@.is_prefix_of(bytes) {
        match crate::common::serial_number::spec_decode(bytes) {
            Ok(serial) => Ok(MessageValue::SerialNumber(serial)),
            Err(e) => Err(e),
        }
    } else if SETUP_PREFIX@.is_prefix_of(bytes) {
        match crate::common::setup_info::spec_decode::<Model>(SETUP_PREFIX@, bytes) {
            Ok(info) => Ok(MessageValue::SetupInfo(info)),
            Err(e) => Err(e),
        }
    } else if TEMPERATURE_PREFIX@.is_prefix_of(bytes) {
        match crate::signal_generator::temperature::spec_decode(bytes) {
            Ok(temperature) => Ok(MessageValue::Temperature(temperature)),
            Err(e) => Err(e),
        }
    } else {
        Err(ParseFailure::UnknownMessageType)
    }
}

/// Whether `r` is what `bytes`, received at `timestamp`, decodes to.
pub open spec fn decodes_to<'a>(
    r: Result<Message, MessageParseError<'a>>,
    bytes: Seq<u8>,
    timestamp: i64,
) -> bool {
    match r {
        Ok(message) => spec_decode(bytes, timestamp) == Ok::<MessageValue, ParseFailure>(
            message@,
        ),
        Err(e) => spec_decode(bytes, timestamp) == Err::<MessageValue, ParseFailure>(e@),
    }
}

impl Message {
    /// Decodes one frame and, where it is a screen dump, stamps it with the
    /// host's clock.
    pub fn try_from<'a>(bytes: &'a [u8]) -> (r: Result<Message, MessageParseError<'a>>)
        ensures
            exists|timestamp: i64| decodes_to(r, bytes@, timestamp),
    {
        let timestamp = now_millis();
        let r = Message::received_at(bytes, timestamp);
        assert(decodes_to(r, bytes@, timestamp));
        r
    }

    /// Decodes one frame that the host received at `timestamp`.
    pub fn received_at<'a>(bytes: &'a [u8], timestamp: i64) -> (r: Result<
        Message,
        MessageParseError<'a>,
    >)
        ensures
            decodes_to(r, bytes@, timestamp),
    {
        if starts_with(bytes, CONFIG_PREFIX.as_slice()) {
            match Config::try_from(bytes) {
                Ok(config) => Ok(Message::Config(config)),
                Err(e) => Err(e),
            }
        }         else if starts_with(bytes, CONFIG_AMP_SWEEP_PREFIX.as_slice()) {
            match ConfigAmpSweep::try_from(bytes) {
                Ok(config) => Ok(Message::ConfigAmpSweep(config)),
                Err(e) => Err(e),
            }
        }         else if starts_with(bytes, CONFIG_CW_PREFIX.as_slice()) {
            match ConfigCw::try_from(bytes) {
                Ok(config) => Ok(Message::ConfigCw(config)),
                Err(e) => Err(e),
            }
        }         else if starts_with(bytes, CONFIG_FREQ_SWEEP_PREFIX.as_slice()) {
            match ConfigFreqSweep::try_from(bytes) {
                Ok(config) => Ok(Message::ConfigFreqSweep(config)),
                Err(e) => Err(e),
            }
        }         else if starts_with(bytes, CONFIG_EXP_PREFIX.as_slice()) {
            match ConfigExp::try_from(bytes) {
                Ok(config) => Ok(Message::ConfigExp(config)),
                Err(e) => Err(e),
            }
        }         else if starts_with(bytes, CONFIG_AMP_SWEEP_EXP_PREFIX.as_slice()) {
            match ConfigAmpSweepExp::try_from(bytes) {
                Ok(config) => Ok(Message::ConfigAmpSweepExp(config)),
                Err(e) => Err(e),
            }
        }         else if starts_with(bytes, CONFIG_CW_EXP_PREFIX.as_slice()) {
            match ConfigCwExp::try_from(bytes) {
                Ok(config) => Ok(Message::ConfigCwExp(config)),
                Err(e) => Err(e),
            }
        }         else if starts_with(bytes, CONFIG_FREQ_SWEEP_EXP_PREFIX.as_slice()) {
            match ConfigFreqSweepExp::try_from(bytes) {
                Ok(config) => Ok(Message::ConfigFreqSweepExp(config)),
                Err(e) => Err(e),
            }
        } else if starts_with(bytes, SCREEN_DATA_PREFIX.as_slice()) {
            match ScreenData::received_at(bytes, timestamp) {
                Ok(screen) => Ok(Message::ScreenData(screen)),
                Err(e) => Err(e),
            }
        } else if starts_with(bytes, SERIAL_NUMBER_PREFIX.as_slice()) {
            match SerialNumber::try_from(bytes) {
                Ok(serial) => Ok(Message::SerialNumber(serial)),
                Err(e) => Err(e),
            }
        } else if starts_with(bytes, SETUP_PREFIX.as_slice()) {
            match SetupInfo::<Model>::try_from(bytes) {
                Ok(info) => Ok(Message::SetupInfo(info)),
                Err(e) => Err(e),
            }
        } else if starts_with(bytes, TEMPERATURE_PREFIX.as_slice()) {
            match Temperature::try_from(bytes) {
                Ok(temperature) => Ok(Message::Temperature(temperature)),
                Err(e) => Err(e),
            }
        } else {
            Err(MessageParseError::UnknownMessageType)
        }
    }

    /// Decodes one frame, as `try_from` does.
    pub fn parse<'a>(bytes: &'a [u8]) -> (r: Result<Message, MessageParseError<'a>>)
        ensures
            exists|timestamp: i64| decodes_to(r, bytes@, timestamp),
    {
        Message::try_from(bytes)
    }
}

} // verus!
