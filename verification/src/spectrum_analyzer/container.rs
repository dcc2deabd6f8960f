//! The message cache of a spectrum analyzer: one slot per kind of message,
//! each holding the latest message of its kind.
//!
//! The cache does not block and calls nobody. A store returns a [`Notice`]
//! that tells the host which slot changed, so that it can wake who waits for
//! it, and which callback to call with which value. A wait is described by an
//! [`Expectation`]; the host sleeps, and asks the cache whether the wait is
//! over whenever a slot has changed or the time is up.

use vstd::prelude::*;
use crate::common::error::{Error, Failure};
use crate::common::frequency::Frequency;
use crate::common::option_view;
use crate::common::screen_data::{ScreenData, ScreenDataValue};
use crate::common::serial_number::SerialNumber;
use crate::common::setup_info::{SetupInfo, SetupInfoValue};
use crate::spectrum_analyzer::config::Config;
use crate::spectrum_analyzer::kinds::{DspMode, InputStage, TrackingStatus};
use crate::spectrum_analyzer::message::{Message, MessageValue};
use crate::spectrum_analyzer::model::Model;
use crate::spectrum_analyzer::sweep::{Sweep, SweepValue};

verus! {

/// How long a command may stay unconfirmed, in milliseconds.
pub const COMMAND_RESPONSE_TIMEOUT_MS: u64 = 2_000;

/// How long the next sweep may take, in milliseconds.
pub const NEXT_SWEEP_TIMEOUT_MS: u64 = 2_000;

/// How long the next screen dump may take, in milliseconds.
pub const NEXT_SCREEN_DATA_TIMEOUT_MS: u64 = 2_000;

/// How long a device may take to send its first configuration and setup
/// frames, in milliseconds. A device that has just been plugged in is still
/// starting up.
pub const RECEIVE_INITIAL_DEVICE_INFO_TIMEOUT_MS: u64 = 5_000;

/// The kinds of message that have a slot.
#[derive(Debug, Clone, Copy, PartialEq, Eq, Structural, Hash)]
pub enum MessageKind {
    Config,
    Sweep,
    ScreenData,
    DspMode,
    InputStage,
    TrackingStatus,
    SerialNumber,
    SetupInfo,
}

#[derive(Debug)]
pub struct MessageContainer {
    config: Option<Config>,
    sweep: Option<Sweep>,
    screen_data: Option<ScreenData>,
    dsp_mode: Option<DspMode>,
    tracking_status: Option<TrackingStatus>,
    input_stage: Option<InputStage>,
    setup_info: Option<SetupInfo<Model>>,
    serial_number: Option<SerialNumber>,
    config_callback: Option<u64>,
    sweep_callback: Option<u64>,
}

/// The mathematical value of a [`MessageContainer`]: what each slot holds,
/// and the handles of the registered callbacks.
pub struct Slots {
    pub config: Option<Config>,
    pub sweep: Option<SweepValue>,
    pub screen_data: Option<ScreenDataValue>,
    pub dsp_mode: Option<DspMode>,
    pub tracking_status: Option<TrackingStatus>,
    pub input_stage: Option<InputStage>,
    pub setup_info: Option<SetupInfoValue<Model>>,
    pub serial_number: Option<Seq<char>>,
    pub config_callback: Option<u64>,
    pub sweep_callback: Option<u64>,
}

impl View for MessageContainer {
    type V = Slots;

    closed spec fn view(&self) -> Slots {
        Slots {
            config: self.config,
            sweep: option_view(self.sweep),
            screen_data: option_view(self.screen_data),
            dsp_mode: self.dsp_mode,
            tracking_status: self.tracking_status,
            input_stage: self.input_stage,
            setup_info: option_view(self.setup_info),
            serial_number: option_view(self.serial_number),
            config_callback: self.config_callback,
            sweep_callback: self.sweep_callback,
        }
    }
}

/// A callback that is due, with the value to hand to it.
#[derive(Debug, Clone, PartialEq, Eq)]
pub enum Callback {
    Config { callback: u64, config: Config },
    Sweep { callback: u64, sweep: Sweep },
}

/// The mathematical value of a [`Callback`].
pub enum CallbackValue {
    Config { callback: u64, config: Config },
    Sweep { callback: u64, sweep: SweepValue },
}

impl View for Callback {
    type V = CallbackValue;

    open spec fn view(&self) -> CallbackValue {
        match self {
            Callback::Config { callback, config } => CallbackValue::Config {
                callback: *callback,
                config: *config,
            },
            Callback::Sweep { callback, sweep } => CallbackValue::Sweep {
                callback: *callback,
                sweep: sweep@,
            },
        }
    }
}

/// What the host has to do once a message has been stored: wake those who
/// wait for a message of `kind`, then call `callback`, if there is one.
#[derive(Debug, Clone, PartialEq, Eq)]
pub struct Notice {
    pub kind: MessageKind,
    pub callback: Option<Callback>,
}

/// The mathematical value of a [`Notice`].
pub struct NoticeValue {
    pub kind: MessageKind,
    pub callback: Option<CallbackValue>,
}

impl View for Notice {
    type V = NoticeValue;

    open spec fn view(&self) -> NoticeValue {
        NoticeValue { kind: self.kind, callback: option_view(self.callback) }
    }
}

/// The state of the cache that a caller waits for.
#[derive(Debug, Clone, PartialEq, Eq)]
pub enum Expectation {
    /// Both a configuration and a setup frame have arrived.
    DeviceInfo,
    /// The configuration shows the requested range and amplitude bounds.
    Config { start: Frequency, stop: Frequency, min_amp_dbm: i16, max_amp_dbm: i16 },
    /// The configuration shows this number of sweep points.
    SweepPoints(u16),
    /// The configuration shows the main module as the active one.
    MainRadioModuleActive,
    /// The configuration shows the expansion module as the active one.
    ExpansionRadioModuleActive,
    /// A sweep is there that is not the one the caller has seen.
    NextSweep(Option<Sweep>),
    /// A screen dump is there that is not the one the caller has seen.
    NextScreenData(Option<ScreenData>),
    /// The device reports this DSP mode.
    DspMode(DspMode),
    /// A tracking status is there.
    TrackingStatus,
    /// A serial number is there.
    SerialNumber,
}

/// The mathematical value of an [`Expectation`].
pub enum ExpectationValue {
    DeviceInfo,
    Config { start: Frequency, stop: Frequency, min_amp_dbm: i16, max_amp_dbm: i16 },
    SweepPoints(u16),
    MainRadioModuleActive,
    ExpansionRadioModuleActive,
    NextSweep(Option<SweepValue>),
    NextScreenData(Option<ScreenDataValue>),
    DspMode(DspMode),
    TrackingStatus,
    SerialNumber,
}

impl View for Expectation {
    type V = ExpectationValue;

    open spec fn view(&self) -> ExpectationValue {
        match self {
            Expectation::DeviceInfo => ExpectationValue::DeviceInfo,
            Expectation::Config { start, stop, min_amp_dbm, max_amp_dbm } => {
                ExpectationValue::Config {
                    start: *start,
                    stop: *stop,
                    min_amp_dbm: *min_amp_dbm,
                    max_amp_dbm: *max_amp_dbm,
                }
            },
            Expectation::SweepPoints(points) => ExpectationValue::SweepPoints(*points),
            Expectation::MainRadioModuleActive => ExpectationValue::MainRadioModuleActive,
            Expectation::ExpansionRadioModuleActive => ExpectationValue::ExpansionRadioModuleActive,
            Expectation::NextSweep(previous) => ExpectationValue::NextSweep(option_view(*previous)),
            Expectation::NextScreenData(previous) => ExpectationValue::NextScreenData(
                option_view(*previous),
            ),
            Expectation::DspMode(mode) => ExpectationValue::DspMode(*mode),
            Expectation::TrackingStatus => ExpectationValue::TrackingStatus,
            Expectation::SerialNumber => ExpectationValue::SerialNumber,
        }
    }
}

/// What a wait hands back when it ends well: the latest value of the slot
/// that was waited for.
#[derive(Debug, Clone, PartialEq, Eq)]
pub enum Reply {
    DeviceInfo,
    Config(Config),
    Sweep(Sweep),
    ScreenData(ScreenData),
    DspMode(DspMode),
    TrackingStatus(TrackingStatus),
    SerialNumber(SerialNumber),
}

/// The mathematical value of a [`Reply`].
pub enum ReplyValue {
    DeviceInfo,
    Config(Config),
    Sweep(SweepValue),
    ScreenData(ScreenDataValue),
    DspMode(DspMode),
    TrackingStatus(TrackingStatus),
    SerialNumber(Seq<char>),
}

impl View for Reply {
    type V = ReplyValue;

    open spec fn view(&self) -> ReplyValue {
        match self {
            Reply::DeviceInfo => ReplyValue::DeviceInfo,
            Reply::Config(config) => ReplyValue::Config(*config),
            Reply::Sweep(sweep) => ReplyValue::Sweep(sweep@),
            Reply::ScreenData(screen) => ReplyValue::ScreenData(screen@),
            Reply::DspMode(mode) => ReplyValue::DspMode(*mode),
            Reply::TrackingStatus(status) => ReplyValue::TrackingStatus(*status),
            Reply::SerialNumber(serial) => ReplyValue::SerialNumber(serial@),
        }
    }
}

/// The cache of a device that has sent nothing, with no callback registered.
pub open spec fn empty_slots() -> Slots {
    Slots {
        config: None,
        sweep: None,
        screen_data: None,
        dsp_mode: None,
        tracking_status: None,
        input_stage: None,
        setup_info: None,
        serial_number: None,
        config_callback: None,
        sweep_callback: None,
    }
}

/// The kind of a message.
pub open spec fn spec_kind(message: MessageValue) -> MessageKind {
    match message {
        MessageValue::Config(_) => MessageKind::Config,
        MessageValue::Sweep(_) => MessageKind::Sweep,
        MessageValue::ScreenData(_) => MessageKind::ScreenData,
        MessageValue::DspMode(_) => MessageKind::DspMode,
        MessageValue::InputStage(_) => MessageKind::InputStage,
        MessageValue::TrackingStatus(_) => MessageKind::TrackingStatus,
        MessageValue::SerialNumber(_) => MessageKind::SerialNumber,
        MessageValue::SetupInfo(_) => MessageKind::SetupInfo,
    }
}

/// The cache after `message` was stored: the slot of its kind holds it, the
/// others are as they were.
pub open spec fn spec_store(slots: Slots, message: MessageValue) -> Slots {
    match message {
        MessageValue::Config(config) => Slots { config: Some(config), ..slots },
        MessageValue::Sweep(sweep) => Slots { sweep: Some(sweep), ..slots },
        MessageValue::ScreenData(screen) => Slots { screen_data: Some(screen), ..slots },
        MessageValue::DspMode(mode) => Slots { dsp_mode: Some(mode), ..slots },
        MessageValue::InputStage(stage) => Slots { input_stage: Some(stage), ..slots },
        MessageValue::TrackingStatus(status) => Slots { tracking_status: Some(status), ..slots },
        MessageValue::SerialNumber(serial) => Slots { serial_number: Some(serial), ..slots },
        MessageValue::SetupInfo(info) => Slots { setup_info: Some(info), ..slots },
    }
}

/// The callback that is due when `message` is stored: the one registered for
/// configurations or for sweeps, with a copy of the message.
pub open spec fn spec_callback(slots: Slots, message: MessageValue) -> Option<CallbackValue> {
    match message {
        MessageValue::Config(config) => match slots.config_callback {
            Some(callback) => Some(CallbackValue::Config { callback, config }),
            None => None,
        },
        MessageValue::Sweep(sweep) => match slots.sweep_callback {
            Some(callback) => Some(CallbackValue::Sweep { callback, sweep }),
            None => None,
        },
        _ => None,
    }
}

/// What the host has to do when `message` is stored.
pub open spec fn spec_notice(slots: Slots, message: MessageValue) -> NoticeValue {
    NoticeValue { kind: spec_kind(message), callback: spec_callback(slots, message) }
}

/// Whether the cache is in the state that is waited for.
pub open spec fn spec_is_met(slots: Slots, expectation: ExpectationValue) -> bool {
    match expectation {
        ExpectationValue::DeviceInfo => slots.config is Some && slots.setup_info is Some,
        ExpectationValue::Config { start, stop, min_amp_dbm, max_amp_dbm } => {
            slots.config matches Some(config) && config.spec_contains_start_stop_amp_range(
                start,
                stop,
                min_amp_dbm,
                max_amp_dbm,
            )
        },
        ExpectationValue::SweepPoints(points) => {
            slots.config matches Some(config) && config.sweep_points == points
        },
        ExpectationValue::MainRadioModuleActive => {
            slots.config matches Some(config) && !config.is_expansion_radio_module_active
        },
        ExpectationValue::ExpansionRadioModuleActive => {
            slots.config matches Some(config) && config.is_expansion_radio_module_active
        },
        ExpectationValue::NextSweep(previous) => slots.sweep is Some && slots.sweep != previous,
        ExpectationValue::NextScreenData(previous) => slots.screen_data is Some
            && slots.screen_data != previous,
        ExpectationValue::DspMode(mode) => slots.dsp_mode == Some(mode),
        ExpectationValue::TrackingStatus => slots.tracking_status is Some,
        ExpectationValue::SerialNumber => slots.serial_number is Some,
    }
}

/// The latest value of the slot that is waited for. It is meant for a cache
/// in which the expectation is met.
pub open spec fn spec_reply(slots: Slots, expectation: ExpectationValue) -> ReplyValue {
    match expectation {
        ExpectationValue::DeviceInfo => ReplyValue::DeviceInfo,
        ExpectationValue::Config { .. } => ReplyValue::Config(slots.config->0),
        ExpectationValue::SweepPoints(_) => ReplyValue::Config(slots.config->0),
        ExpectationValue::MainRadioModuleActive => ReplyValue::Config(slots.config->0),
        ExpectationValue::ExpansionRadioModuleActive => ReplyValue::Config(slots.config->0),
        ExpectationValue::NextSweep(_) => ReplyValue::Sweep(slots.sweep->0),
        ExpectationValue::NextScreenData(_) => ReplyValue::ScreenData(slots.screen_data->0),
        ExpectationValue::DspMode(_) => ReplyValue::DspMode(slots.dsp_mode->0),
        ExpectationValue::TrackingStatus => ReplyValue::TrackingStatus(
            slots.tracking_status->0,
        ),
        ExpectationValue::SerialNumber => ReplyValue::SerialNumber(slots.serial_number->0),
    }
}

/// How a wait of `timeout_ms` milliseconds ends: with the latest value where
/// the cache is in the state that was waited for, else with the time-out.
pub open spec fn spec_wait_for(slots: Slots, expectation: ExpectationValue, timeout_ms: u64) -> Result<
    ReplyValue,
    Failure,
> {
    if spec_is_met(slots, expectation) {
        Ok(spec_reply(slots, expectation))
    } else {
        Err(Failure::TimedOut(timeout_ms))
    }
}

/// What the slot of `kind` holds.
pub open spec fn spec_get(slots: Slots, kind: MessageKind) -> Option<MessageValue> {
    match kind {
        MessageKind::Config => match slots.config {
            Some(config) => Some(MessageValue::Config(config)),
            None => None,
        },
        MessageKind::Sweep => match slots.sweep {
            Some(sweep) => Some(MessageValue::Sweep(sweep)),
            None => None,
        },
        MessageKind::ScreenData => match slots.screen_data {
            Some(screen) => Some(MessageValue::ScreenData(screen)),
            None => None,
        },
        MessageKind::DspMode => match slots.dsp_mode {
            Some(mode) => Some(MessageValue::DspMode(mode)),
            None => None,
        },
        MessageKind::InputStage => match slots.input_stage {
            Some(stage) => Some(MessageValue::InputStage(stage)),
            None => None,
        },
        MessageKind::TrackingStatus => match slots.tracking_status {
            Some(status) => Some(MessageValue::TrackingStatus(status)),
            None => None,
        },
        MessageKind::SerialNumber => match slots.serial_number {
            Some(serial) => Some(MessageValue::SerialNumber(serial)),
            None => None,
        },
        MessageKind::SetupInfo => match slots.setup_info {
            Some(info) => Some(MessageValue::SetupInfo(info)),
            None => None,
        },
    }
}

/// The cache after the messages were stored one after the other.
pub open spec fn spec_store_all(slots: Slots, messages: Seq<MessageValue>) -> Slots
    decreases messages.len(),
{
    if messages.len() == 0 {
        slots
    } else {
        spec_store(spec_store_all(slots, messages.drop_last()), messages.last())
    }
}

/// A store fills the slot of the message's kind with the message and leaves
/// every other slot as it was.
pub proof fn lemma_store(slots: Slots, message: MessageValue, kind: MessageKind)
    ensures
        spec_get(spec_store(slots, message), kind) == if spec_kind(message) == kind {
            Some(message)
        } else {
            spec_get(slots, kind)
        },
{
}

/// After any number of stores, the slot of a kind holds the last message of
/// that kind that was stored. So after N stores of one kind, the slot holds
/// the Nth.
pub proof fn lemma_latest_message(slots: Slots, messages: Seq<MessageValue>, kind: MessageKind, i: int)
    requires
        0 <= i < messages.len(),
        spec_kind(messages[i]) == kind,
        forall|j: int| i < j < messages.len() ==> spec_kind(messages[j]) != kind,
    ensures
        spec_get(spec_store_all(slots, messages), kind) == Some(messages[i]),
    decreases messages.len(),
{
    let before = spec_store_all(slots, messages.drop_last());
    lemma_store(before, messages.last(), kind);
    if i < messages.len() - 1 {
        lemma_latest_message(slots, messages.drop_last(), kind, i);
    }
}

/// While the device does not report the state that is waited for, a wait
/// ends with the time-out it was given, whatever else has arrived.
pub proof fn lemma_unmet_expectation_times_out(
    slots: Slots,
    expectation: ExpectationValue,
    timeout_ms: u64,
)
    requires
        !spec_is_met(slots, expectation),
    ensures
        spec_wait_for(slots, expectation, timeout_ms) == Err::<ReplyValue, Failure>(
            Failure::TimedOut(timeout_ms),
        ),
{
}

/// The value of the outcome of a wait.
pub open spec fn outcome_value(r: Result<Reply, Error>) -> Result<ReplyValue, Failure> {
    match r {
        Ok(reply) => Ok(reply@),
        Err(e) => Err(e@),
    }
}

impl MessageContainer {
    /// The cache of a device that has sent nothing yet.
    pub fn new() -> (container: MessageContainer)
        ensures
            container@ == empty_slots(),
    {
        MessageContainer {
            config: None,
            sweep: None,
            screen_data: None,
            dsp_mode: None,
            tracking_status: None,
            input_stage: None,
            setup_info: None,
            serial_number: None,
            config_callback: None,
            sweep_callback: None,
        }
    }

    /// Stores `message` in the slot of its kind and tells what the host has
    /// to do about it.
    pub fn store(&mut self, message: Message) -> (notice: Notice)
        ensures
            final(self)@ == spec_store(old(self)@, message@),
            notice@ == spec_notice(old(self)@, message@),
    {
        match message {
            Message::Config(config) => {
                self.config = Some(config);
                let callback = match self.config_callback {
                    Some(callback) => Some(Callback::Config { callback, config }),
                    None => None,
                };
                Notice { kind: MessageKind::Config, callback }
            },
            Message::Sweep(sweep) => {
                let callback = match self.sweep_callback {
                    Some(callback) => Some(Callback::Sweep { callback, sweep: sweep.duplicate() }),
                    None => None,
                };
                self.sweep = Some(sweep);
                Notice { kind: MessageKind::Sweep, callback }
            },
            Message::ScreenData(screen) => {
                self.screen_data = Some(screen);
                Notice { kind: MessageKind::ScreenData, callback: None }
            },
            Message::DspMode(mode) => {
                self.dsp_mode = Some(mode);
                Notice { kind: MessageKind::DspMode, callback: None }
            },
            Message::InputStage(stage) => {
                self.input_stage = Some(stage);
                Notice { kind: MessageKind::InputStage, callback: None }
            },
            Message::TrackingStatus(status) => {
                self.tracking_status = Some(status);
                Notice { kind: MessageKind::TrackingStatus, callback: None }
            },
            Message::SerialNumber(serial) => {
                self.serial_number = Some(serial);
                Notice { kind: MessageKind::SerialNumber, callback: None }
            },
            Message::SetupInfo(info) => {
                self.setup_info = Some(info);
                Notice { kind: MessageKind::SetupInfo, callback: None }
            },
        }
    }

    /// What the slot of `kind` holds: the latest message of that kind.
    pub fn get(&self, kind: MessageKind) -> (r: Option<Message>)
        ensures
            option_view(r) == spec_get(self@, kind),
    {
        match kind {
            MessageKind::Config => match self.config {
                Some(config) => Some(Message::Config(config)),
                None => None,
            },
            MessageKind::Sweep => match &self.sweep {
                Some(sweep) => Some(Message::Sweep(sweep.duplicate())),
                None => None,
            },
            MessageKind::ScreenData => match &self.screen_data {
                Some(screen) => Some(Message::ScreenData(screen.duplicate())),
                None => None,
            },
            MessageKind::DspMode => match self.dsp_mode {
                Some(mode) => Some(Message::DspMode(mode)),
                None => None,
            },
            MessageKind::InputStage => match self.input_stage {
                Some(stage) => Some(Message::InputStage(stage)),
                None => None,
            },
            MessageKind::TrackingStatus => match self.tracking_status {
                Some(status) => Some(Message::TrackingStatus(status)),
                None => None,
            },
            MessageKind::SerialNumber => match &self.serial_number {
                Some(serial) => Some(Message::SerialNumber(serial.duplicate())),
                None => None,
            },
            MessageKind::SetupInfo => match &self.setup_info {
                Some(info) => Some(Message::SetupInfo(info.duplicate())),
                None => None,
            },
        }
    }

    /// The latest configuration.
    pub fn config(&self) -> (r: Option<Config>)
        ensures
            r == self@.config,
    {
        self.config
    }

    /// The latest sweep.
    pub fn sweep(&self) -> (r: Option<Sweep>)
        ensures
            option_view(r) == self@.sweep,
    {
        match &self.sweep {
            Some(sweep) => Some(sweep.duplicate()),
            None => None,
        }
    }

    /// The latest screen dump.
    pub fn screen_data(&self) -> (r: Option<ScreenData>)
        ensures
            option_view(r) == self@.screen_data,
    {
        match &self.screen_data {
            Some(screen) => Some(screen.duplicate()),
            None => None,
        }
    }

    /// The latest DSP mode.
    pub fn dsp_mode(&self) -> (r: Option<DspMode>)
        ensures
            r == self@.dsp_mode,
    {
        self.dsp_mode
    }

    /// The latest tracking status.
    pub fn tracking_status(&self) -> (r: Option<TrackingStatus>)
        ensures
            r == self@.tracking_status,
    {
        self.tracking_status
    }

    /// The latest input stage.
    pub fn input_stage(&self) -> (r: Option<InputStage>)
        ensures
            r == self@.input_stage,
    {
        self.input_stage
    }

    /// The latest setup information.
    pub fn setup_info(&self) -> (r: Option<SetupInfo<Model>>)
        ensures
            option_view(r) == self@.setup_info,
    {
        match &self.setup_info {
            Some(info) => Some(info.duplicate()),
            None => None,
        }
    }

    /// The latest serial number.
    pub fn serial_number(&self) -> (r: Option<SerialNumber>)
        ensures
            option_view(r) == self@.serial_number,
    {
        match &self.serial_number {
            Some(serial) => Some(serial.duplicate()),
            None => None,
        }
    }

    /// The model of the main radio module, where a setup frame has named
    /// one.
    pub fn main_radio_model(&self) -> (r: Option<Model>)
        ensures
            r == match self@.setup_info {
                Some(info) => info.main_radio_model,
                None => None,
            },
    {
        match &self.setup_info {
            Some(info) => info.main_radio_model,
            None => None,
        }
    }

    /// The model of the expansion radio module, where a setup frame has
    /// named one.
    pub fn expansion_radio_model(&self) -> (r: Option<Model>)
        ensures
            r == match self@.setup_info {
                Some(info) => info.expansion_radio_model,
                None => None,
            },
    {
        match &self.setup_info {
            Some(info) => info.expansion_radio_model,
            None => None,
        }
    }

    /// Registers the callback for configurations under the handle
    /// `callback`, in place of the one that was registered before; `None`
    /// registers none.
    pub fn set_config_callback(&mut self, callback: Option<u64>)
        ensures
            final(self)@ == (Slots { config_callback: callback, ..old(self)@ }),
    {
        self.config_callback = callback;
    }

    /// Registers the callback for sweeps under the handle `callback`, in
    /// place of the one that was registered before; `None` registers none.
    pub fn set_sweep_callback(&mut self, callback: Option<u64>)
        ensures
            final(self)@ == (Slots { sweep_callback: callback, ..old(self)@ }),
    {
        self.sweep_callback = callback;
    }

    /// Empties the slot of the tracking status, so that the next status to
    /// arrive can be told from the last.
    pub fn clear_tracking_status(&mut self)
        ensures
            final(self)@ == (Slots { tracking_status: None, ..old(self)@ }),
    {
        self.tracking_status = None;
    }

    /// Whether the cache is in the state that is waited for.
    pub fn is_met(&self, expectation: &Expectation) -> (met: bool)
        ensures
            met == spec_is_met(self@, expectation@),
    {
        match expectation {
            Expectation::DeviceInfo => self.config.is_some() && self.setup_info.is_some(),
            Expectation::Config { start, stop, min_amp_dbm, max_amp_dbm } => match self.config {
                Some(config) => config.contains_start_stop_amp_range(
                    *start,
                    *stop,
                    *min_amp_dbm,
                    *max_amp_dbm,
                ),
                None => false,
            },
            Expectation::SweepPoints(points) => match self.config {
                Some(config) => config.sweep_points == *points,
                None => false,
            },
            Expectation::MainRadioModuleActive => match self.config {
                Some(config) => !config.is_expansion_radio_module_active,
                None => false,
            },
            Expectation::ExpansionRadioModuleActive => match self.config {
                Some(config) => config.is_expansion_radio_module_active,
                None => false,
            },
            Expectation::NextSweep(previous) => match (&self.sweep, previous) {
                (Some(sweep), Some(previous)) => !sweep.same(previous),
                (Some(_), None) => true,
                (None, _) => false,
            },
            Expectation::NextScreenData(previous) => match (&self.screen_data, previous) {
                (Some(screen), Some(previous)) => !screen.same(previous),
                (Some(_), None) => true,
                (None, _) => false,
            },
            Expectation::DspMode(mode) => match self.dsp_mode {
                Some(current) => current == *mode,
                None => false,
            },
            Expectation::TrackingStatus => self.tracking_status.is_some(),
            Expectation::SerialNumber => self.serial_number.is_some(),
        }
    }

    /// Ends a wait of `timeout_ms` milliseconds: hands back the latest value
    /// where the cache is in the state that was waited for, and reports the
    /// time-out where it is not.
    pub fn wait_for(&self, expectation: &Expectation, timeout_ms: u64) -> (r: Result<Reply, Error>)
        ensures
            outcome_value(r) == spec_wait_for(self@, expectation@, timeout_ms),
    {
        if !self.is_met(expectation) {
            return Err(Error::TimedOut(timeout_ms));
        }
        match expectation {
            Expectation::DeviceInfo => Ok(Reply::DeviceInfo),
            Expectation::Config { .. } => Ok(Reply::Config(self.config.unwrap())),
            Expectation::SweepPoints(_) => Ok(Reply::Config(self.config.unwrap())),
            Expectation::MainRadioModuleActive => Ok(Reply::Config(self.config.unwrap())),
            Expectation::ExpansionRadioModuleActive => Ok(Reply::Config(self.config.unwrap())),
            Expectation::NextSweep(_) => match &self.sweep {
                Some(sweep) => Ok(Reply::Sweep(sweep.duplicate())),
                None => Err(Error::TimedOut(timeout_ms)),
            },
            Expectation::NextScreenData(_) => match &self.screen_data {
                Some(screen) => Ok(Reply::ScreenData(screen.duplicate())),
                None => Err(Error::TimedOut(timeout_ms)),
            },
            Expectation::DspMode(_) => Ok(Reply::DspMode(self.dsp_mode.unwrap())),
            Expectation::TrackingStatus => Ok(Reply::TrackingStatus(self.tracking_status.unwrap())),
            Expectation::SerialNumber => match &self.serial_number {
                Some(serial) => Ok(Reply::SerialNumber(serial.duplicate())),
                None => Err(Error::TimedOut(timeout_ms)),
            },
        }
    }
}

impl crate::common::message::MessageContainer for MessageContainer {
    type Message = Message;

    type Notice = Notice;

    open spec fn has_device_info(&self) -> bool {
        self@.config is Some && self@.setup_info is Some
    }

    fn cache_message(&mut self, message: Message) -> (notice: Notice)
        ensures
            final(self)@ == spec_store(old(self)@, message@),
            notice@ == spec_notice(old(self)@, message@),
    {
        self.store(message)
    }

    fn wait_for_device_info(&self) -> (ready: bool) {
        self.is_met(&Expectation::DeviceInfo)
    }
}

} // verus!
