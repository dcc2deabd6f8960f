//! The spectrum analyzer as its user sees it.
//!
//! A `SpectrumAnalyzer` is a device that has told what it is: its engine
//! holds a configuration and a setup frame. Reading its state needs no device.
//! An operation that changes the device does not touch a port either: it
//! checks what was asked, and returns the [`Request`] that the host has to
//! carry out. A request that was refused has sent nothing.

use vstd::prelude::*;
use crate::common::error::{ConnectionError, Error, Failure};
use crate::common::fields::{CR, LF};
use crate::common::frequency::Frequency;
use crate::common::option_view;
use crate::common::screen_data::ScreenData;
use crate::common::serial_number::SerialNumber;
use crate::spectrum_analyzer::command::{config_echo, lemma_config_echo, Command};
use crate::spectrum_analyzer::config::{short_config, Config};
use crate::spectrum_analyzer::container::{
    outcome_value,
    spec_is_met,
    spec_notice,
    spec_store,
    spec_wait_for,
    Expectation,
    ExpectationValue,
    MessageKind,
    Notice,
    NoticeValue,
    Reply,
    ReplyValue,
    Slots,
    COMMAND_RESPONSE_TIMEOUT_MS,
    NEXT_SCREEN_DATA_TIMEOUT_MS,
    NEXT_SWEEP_TIMEOUT_MS,
};
use crate::spectrum_analyzer::kinds::{
    CalcMode,
    DspMode,
    InputStage,
    Mode,
    RadioModule,
    TrackingStatus,
    WifiBand,
};
use crate::spectrum_analyzer::model::{lemma_model_ranges, Model, MAX_WIRE_KHZ};
use crate::spectrum_analyzer::request::{
    spec_await,
    spec_done,
    spec_exchange,
    spec_send,
    Request,
    RequestValue,
};
use crate::spectrum_analyzer::message::MessageValue;
use crate::spectrum_analyzer::reader::{
    lemma_scan_drops_noise,
    lemma_scan_empty,
    lemma_scan_short_config,
    spec_scan,
    starts_no_frame,
};
use crate::spectrum_analyzer::rf_explorer::{
    has_device_info,
    notice_values,
    spec_drain,
    spec_receive,
    Engine,
    RfExplorer,
};
use crate::spectrum_analyzer::sweep::Sweep;

verus! {

/// The lowest amplitude that a bound of the display can be set to, in dBm.
pub const MIN_AMP_DBM: i16 = -120;

/// The highest amplitude that a bound of the display can be set to, in dBm.
pub const MAX_AMP_DBM: i16 = 35;

/// The fewest points that a sweep has.
pub const MIN_SWEEP_POINTS: u16 = 112;

/// The most points that the short sweep-point command is used for.
pub const MAX_SWEEP_POINTS_EXT: u16 = 4096;

/// What came of trying one port at one baud rate.
#[derive(Debug)]
pub enum Probe {
    /// The port could not be opened.
    PortOpen,
    /// Reading from the port or writing to it failed.
    Io,
    /// The port was opened and read from until the device had identified
    /// itself or the time for that was up; this is what arrived.
    Answered(RfExplorer),
}

/// The mathematical value of a [`Probe`].
pub enum ProbeValue {
    PortOpen,
    Io,
    Answered(Engine),
}

impl View for Probe {
    type V = ProbeValue;

    open spec fn view(&self) -> ProbeValue {
        match self {
            Probe::PortOpen => ProbeValue::PortOpen,
            Probe::Io => ProbeValue::Io,
            Probe::Answered(rfe) => ProbeValue::Answered(rfe@),
        }
    }
}

/// Whether the probe found a spectrum analyzer.
pub open spec fn identified(probe: ProbeValue) -> bool {
    probe matches ProbeValue::Answered(engine) && has_device_info(engine.slots)
}

/// The engines of the probes that found a device, in the order of the
/// probes.
pub open spec fn spec_identified(probes: Seq<ProbeValue>) -> Seq<Engine>
    decreases probes.len(),
{
    if probes.len() == 0 {
        Seq::<Engine>::empty()
    } else if identified(probes[0]) {
        seq![probes[0]->Answered_0] + spec_identified(probes.skip(1))
    } else {
        spec_identified(probes.skip(1))
    }
}

/// The values of a sequence of probes.
pub open spec fn probe_values(probes: Seq<Probe>) -> Seq<ProbeValue> {
    Seq::new(probes.len(), |i: int| probes[i]@)
}

/// The values of a sequence of analyzers.
pub open spec fn analyzer_values(analyzers: Seq<SpectrumAnalyzer>) -> Seq<Engine> {
    Seq::new(analyzers.len(), |i: int| analyzers[i]@)
}

/// The configuration of a device that has reported none.
pub open spec fn default_config() -> Config {
    Config {
        start: Frequency { hz: 0 },
        stop: Frequency { hz: 0 },
        min_amp_dbm: 0,
        max_amp_dbm: 0,
        sweep_points: 0,
        is_expansion_radio_module_active: false,
        mode: Mode::SpectrumAnalyzer,
        calc_mode: CalcMode::Normal,
    }
}

pub open spec fn spec_config(slots: Slots) -> Config {
    match slots.config {
        Some(config) => config,
        None => default_config(),
    }
}

/// The main radio module. A device whose setup frame names no main model,
/// or names one that is not known, has a main module of unknown model.
pub open spec fn spec_main_radio_module(slots: Slots) -> RadioModule {
    match slots.setup_info {
        Some(info) => match info.main_radio_model {
            Some(model) => RadioModule::Main { model },
            None => RadioModule::Main { model: Model::Unknown },
        },
        None => RadioModule::Main { model: Model::Unknown },
    }
}

/// The expansion radio module, where the setup frame names one.
pub open spec fn spec_expansion_radio_module(slots: Slots) -> Option<RadioModule> {
    match slots.setup_info {
        Some(info) => match info.expansion_radio_model {
            Some(model) => Some(RadioModule::Expansion { model }),
            None => None,
        },
        None => None,
    }
}

/// The module that measures: the expansion module where the configuration
/// says so and the device has one, else the main module.
pub open spec fn spec_active_radio_module(slots: Slots) -> RadioModule {
    match spec_expansion_radio_module(slots) {
        Some(expansion) => if spec_config(slots).is_expansion_radio_module_active {
            expansion
        } else {
            spec_main_radio_module(slots)
        },
        None => spec_main_radio_module(slots),
    }
}

/// The module that does not measure, where the device has two.
pub open spec fn spec_inactive_radio_module(slots: Slots) -> Option<RadioModule> {
    match spec_expansion_radio_module(slots) {
        Some(expansion) => if spec_config(slots).is_expansion_radio_module_active {
            Some(spec_main_radio_module(slots))
        } else {
            Some(expansion)
        },
        None => None,
    }
}

/// Whether `model` can sweep from `start` to `stop`: the start lies below
/// the stop, both lie in the model's range, and the span between them is
/// one the model can sweep.
pub open spec fn valid_start_stop(model: Model, start: Frequency, stop: Frequency) -> bool {
    &&& start.hz < stop.hz
    &&& model.spec_min_freq().hz <= start.hz <= model.spec_max_freq().hz
    &&& model.spec_min_freq().hz <= stop.hz <= model.spec_max_freq().hz
    &&& model.spec_min_span().hz <= stop.hz - start.hz <= model.spec_max_span().hz
}

/// Whether the display can be set to these bounds: the lower lies below the
/// upper, and both lie between -120 and 35 dBm.
pub open spec fn valid_min_max_amps(min_amp_dbm: i16, max_amp_dbm: i16) -> bool {
    &&& min_amp_dbm < max_amp_dbm
    &&& MIN_AMP_DBM <= min_amp_dbm <= MAX_AMP_DBM
    &&& MIN_AMP_DBM <= max_amp_dbm <= MAX_AMP_DBM
}

/// What is wrong with a sweep from `start` to `stop` on `model`, in words;
/// nothing, where the model can sweep it. The first thing that is wrong is
/// the one that is told.
pub open spec fn start_stop_problem(model: Model, start: Frequency, stop: Frequency) -> Option<
    Seq<char>,
> {
    if start.hz >= stop.hz {
        Some("The start frequency must be less than the stop frequency"@)
    } else if start.hz < model.spec_min_freq().hz || start.hz > model.spec_max_freq().hz {
        Some("The start frequency is not within the RF Explorer's frequency range"@)
    } else if stop.hz < model.spec_min_freq().hz || stop.hz > model.spec_max_freq().hz {
        Some("The stop frequency is not within the RF Explorer's frequency range"@)
    } else if stop.hz - start.hz < model.spec_min_span().hz || stop.hz - start.hz
        > model.spec_max_span().hz {
        Some("The span is not within the RF Explorer's span range"@)
    } else {
        None
    }
}

/// What is wrong with these bounds of the display, in words; nothing, where
/// the display can be set to them. The first thing that is wrong is the one
/// that is told.
pub open spec fn min_max_amps_problem(min_amp_dbm: i16, max_amp_dbm: i16) -> Option<Seq<char>> {
    if min_amp_dbm >= max_amp_dbm {
        Some("The minimum amplitude must be less than the maximum amplitude"@)
    } else if min_amp_dbm < MIN_AMP_DBM || min_amp_dbm > MAX_AMP_DBM {
        Some(
            "The minimum amplitude is not within the RF Explorer's amplitude range of -120 to 35 dBm"@,
        )
    } else if max_amp_dbm < MIN_AMP_DBM || max_amp_dbm > MAX_AMP_DBM {
        Some(
            "The maximum amplitude is not within the RF Explorer's amplitude range of -120 to 35 dBm"@,
        )
    } else {
        None
    }
}

/// Something is wrong with a range exactly where the model cannot sweep it,
/// and with bounds exactly where the display cannot be set to them.
pub proof fn lemma_problems(
    model: Model,
    start: Frequency,
    stop: Frequency,
    min_amp_dbm: i16,
    max_amp_dbm: i16,
)
    ensures
        start_stop_problem(model, start, stop) is None <==> valid_start_stop(model, start, stop),
        min_max_amps_problem(min_amp_dbm, max_amp_dbm) is None <==> valid_min_max_amps(
            min_amp_dbm,
            max_amp_dbm,
        ),
{
}

/// What the refusal of a command for sweep points says.
pub open spec fn not_a_plus_model() -> Seq<char> {
    "Only RF Explorer 'Plus' models support setting the number of sweep points"@
}

/// What the refusal to switch to an expansion module that is not there says.
pub open spec fn no_expansion_module() -> Seq<char> {
    "This RF Explorer does not contain an expansion radio module."@
}

/// What the refusal of a span that reaches below zero or beyond the
/// frequencies that can be written down says.
pub open spec fn span_out_of_reach() -> Seq<char> {
    "The span reaches beyond the frequencies that exist"@
}

/// What the refusal of tracking frequencies that the command has no room
/// for says.
pub open spec fn tracking_out_of_reach() -> Seq<char> {
    "The tracking start and step frequencies must be below 10 GHz"@
}

/// What setting the range and the amplitude bounds takes. A range that the
/// active module cannot sweep is refused first, bounds that the display
/// cannot show second.
pub open spec fn spec_set_config(
    slots: Slots,
    start: Frequency,
    stop: Frequency,
    min_amp_dbm: i16,
    max_amp_dbm: i16,
) -> Result<RequestValue, Failure> {
    match start_stop_problem(spec_active_radio_module(slots).spec_model(), start, stop) {
        Some(text) => Err(Failure::InvalidInput(text)),
        None => match min_max_amps_problem(min_amp_dbm, max_amp_dbm) {
            Some(text) => Err(Failure::InvalidInput(text)),
            None => if spec_config(slots).spec_contains_start_stop_amp_range(
                start,
                stop,
                min_amp_dbm,
                max_amp_dbm,
            ) {
                Ok(spec_done())
            } else {
                Ok(
                    spec_exchange(
                        Command::SetConfig { start, stop, min_amp_dbm, max_amp_dbm },
                        ExpectationValue::Config { start, stop, min_amp_dbm, max_amp_dbm },
                        COMMAND_RESPONSE_TIMEOUT_MS,
                    ),
                )
            },
        },
    }
}

/// The number of points that a device set to `sweep_points` points reports:
/// the request rounded down to a multiple of 16, and at least 112.
pub open spec fn expected_sweep_points(sweep_points: u16) -> u16 {
    if (sweep_points / 16) * 16 > MIN_SWEEP_POINTS {
        ((sweep_points / 16) * 16) as u16
    } else {
        MIN_SWEEP_POINTS
    }
}

/// The command that sets the number of sweep points: the short one up to
/// 4096 points, the long one above.
pub open spec fn sweep_points_command(sweep_points: u16) -> Command {
    if sweep_points <= MAX_SWEEP_POINTS_EXT {
        Command::SetSweepPointsExt(sweep_points)
    } else {
        Command::SetSweepPointsLarge(sweep_points)
    }
}

/// What setting the number of sweep points takes.
pub open spec fn spec_set_sweep_points(slots: Slots, sweep_points: u16) -> Result<
    RequestValue,
    Failure,
> {
    if !spec_active_radio_module(slots).spec_model().spec_is_plus_model() {
        Err(Failure::InvalidOperation(not_a_plus_model()))
    } else if spec_config(slots).sweep_points == expected_sweep_points(sweep_points) {
        Ok(spec_done())
    } else {
        Ok(
            spec_exchange(
                sweep_points_command(sweep_points),
                ExpectationValue::SweepPoints(expected_sweep_points(sweep_points)),
                COMMAND_RESPONSE_TIMEOUT_MS,
            ),
        )
    }
}

/// What switching to the main module takes.
pub open spec fn spec_activate_main(slots: Slots) -> RequestValue {
    if spec_active_radio_module(slots) is Main {
        spec_done()
    } else {
        spec_exchange(
            Command::SwitchModuleMain,
            ExpectationValue::MainRadioModuleActive,
            COMMAND_RESPONSE_TIMEOUT_MS,
        )
    }
}

/// What switching to the expansion module takes.
pub open spec fn spec_activate_expansion(slots: Slots) -> Result<RequestValue, Failure> {
    if spec_expansion_radio_module(slots) is None {
        Err(Failure::InvalidOperation(no_expansion_module()))
    } else if spec_active_radio_module(slots) is Expansion {
        Ok(spec_done())
    } else {
        Ok(
            spec_exchange(
                Command::SwitchModuleExp,
                ExpectationValue::ExpansionRadioModuleActive,
                COMMAND_RESPONSE_TIMEOUT_MS,
            ),
        )
    }
}

/// What setting the DSP mode takes.
pub open spec fn spec_set_dsp_mode(slots: Slots, dsp_mode: DspMode) -> RequestValue {
    if slots.dsp_mode == Some(dsp_mode) {
        spec_done()
    } else {
        spec_exchange(
            Command::SetDsp(dsp_mode),
            ExpectationValue::DspMode(dsp_mode),
            COMMAND_RESPONSE_TIMEOUT_MS,
        )
    }
}

/// The range that a center and a span stand for, where it can be written
/// down: from half the span below the center to half the span above.
pub open spec fn spec_center_span(center: Frequency, span: Frequency) -> Option<
    (Frequency, Frequency),
> {
    let half = span.hz / 2;
    if half <= center.hz && center.hz + half <= u64::MAX {
        Some((Frequency { hz: (center.hz - half) as u64 }, Frequency { hz: (center.hz + half) as u64 }))
    } else {
        None
    }
}

#[derive(Debug)]
pub struct SpectrumAnalyzer {
    rfe: RfExplorer,
}

impl View for SpectrumAnalyzer {
    type V = Engine;

    closed spec fn view(&self) -> Engine {
        self.rfe@
    }
}

/// The value of a result: of what it holds, or of its error.
pub open spec fn result_view<T: View>(r: Result<T, Error>) -> Result<T::V, Failure> {
    match r {
        Ok(value) => Ok(value@),
        Err(e) => Err(e@),
    }
}

impl SpectrumAnalyzer {
    /// Whether the device has told what it is and how it is set. It holds
    /// of every analyzer that `connect` and its kin hand out, and no
    /// operation ends it.
    pub open spec fn is_connected(&self) -> bool {
        has_device_info(self@.slots)
    }

    /// The first device among the outcomes of probing, in the order in which
    /// the ports were tried.
    pub fn connect(probes: Vec<Probe>) -> (r: Option<SpectrumAnalyzer>)
        ensures
            option_view(r) == if spec_identified(probe_values(probes@)).len() > 0 {
                Some(spec_identified(probe_values(probes@))[0])
            } else {
                None
            },
            r matches Some(device) ==> device.is_connected(),
    {
        let ghost all = probe_values(probes@);
        let mut remaining = probes;
        let mut i: usize = 0;
        assert(all.skip(0) =~= all);
        while i < remaining.len()
            invariant
                i <= remaining.len(),
                all == probe_values(probes@),
                probe_values(remaining@) == all,
                spec_identified(all) == spec_identified(all.skip(i as int)),
            decreases remaining.len() - i,
        {
            let found = match &remaining[i] {
                Probe::Answered(rfe) => rfe.messages().is_met(&Expectation::DeviceInfo),
                _ => false,
            };
            assert(all.skip(i as int)[0] == remaining@[i as int]@);
            assert(found == identified(all.skip(i as int)[0]));
            if found {
                let ghost rest = all.skip(i as int);
                assert(spec_identified(rest) == seq![rest[0]->Answered_0] + spec_identified(
                    rest.skip(1),
                ));
                assert(spec_identified(rest)[0] == rest[0]->Answered_0);
                let probe = remaining.remove(i);
                match probe {
                    Probe::Answered(rfe) => {
                        return Some(SpectrumAnalyzer { rfe });
                    },
                    _ => {
                        return None;
                    },
                }
            }
            assert(all.skip(i as int).skip(1) =~= all.skip(i + 1));
            i += 1;
        }
        assert(all.skip(all.len() as int) =~= Seq::<ProbeValue>::empty());
        None
    }

    /// Every device among the outcomes of probing, in the order in which the
    /// ports were tried.
    pub fn connect_all(probes: Vec<Probe>) -> (r: Vec<SpectrumAnalyzer>)
        ensures
            analyzer_values(r@) == spec_identified(probe_values(probes@)),
            forall|i: int| 0 <= i < r@.len() ==> (#[trigger] r@[i]).is_connected(),
    {
        let ghost all = probe_values(probes@);
        let mut remaining = probes;
        let mut devices: Vec<SpectrumAnalyzer> = Vec::new();
        assert(analyzer_values(devices@) =~= Seq::<Engine>::empty());
        assert(Seq::<Engine>::empty() + spec_identified(all) =~= spec_identified(all));
        while remaining.len() > 0
            invariant
                spec_identified(all) == analyzer_values(devices@) + spec_identified(
                    probe_values(remaining@),
                ),
                forall|i: int| 0 <= i < devices@.len() ==> (#[trigger] devices@[i]).is_connected(),
            decreases remaining.len(),
        {
            let ghost rest = probe_values(remaining@);
            let ghost told = analyzer_values(devices@);
            let probe = remaining.remove(0);
            assert(probe_values(remaining@) =~= rest.skip(1));
            assert(rest[0] == probe@);
            match probe {
                Probe::Answered(rfe) => {
                    if rfe.messages().is_met(&Expectation::DeviceInfo) {
                        let ghost engine = rfe@;
                        devices.push(SpectrumAnalyzer { rfe });
                        assert(analyzer_values(devices@) =~= told + seq![engine]);
                        assert(told + (seq![engine] + spec_identified(rest.skip(1))) =~= (told
                            + seq![engine]) + spec_identified(rest.skip(1)));
                    }
                },
                _ => {},
            }
        }
        assert(probe_values(remaining@) =~= Seq::<ProbeValue>::empty());
        assert(analyzer_values(devices@) + Seq::<Engine>::empty() =~= analyzer_values(devices@));
        devices
    }

    /// The device behind a port that was named by the caller, or the reason
    /// why there is none.
    pub fn connect_with_name_and_baud_rate(probe: Probe) -> (r: Result<
        SpectrumAnalyzer,
        ConnectionError,
    >)
        ensures
            match r {
                Ok(device) => identified(probe@) && probe@ == ProbeValue::Answered(device@)
                    && device.is_connected(),
                Err(e) => !identified(probe@) && e == match probe@ {
                    ProbeValue::PortOpen => ConnectionError::PortOpen,
                    ProbeValue::Io => ConnectionError::Io,
                    ProbeValue::Answered(_) => ConnectionError::DeviceInfoTimeout,
                },
            },
    {
        match probe {
            Probe::PortOpen => Err(ConnectionError::PortOpen),
            Probe::Io => Err(ConnectionError::Io),
            Probe::Answered(rfe) => {
                if rfe.messages().is_met(&Expectation::DeviceInfo) {
                    Ok(SpectrumAnalyzer { rfe })
                } else {
                    Err(ConnectionError::DeviceInfoTimeout)
                }
            },
        }
    }

    /// The engine of the connection.
    pub fn rfe(&self) -> (rfe: &RfExplorer)
        ensures
            rfe@ == self@,
    {
        &self.rfe
    }

    /// Takes in what the host has read from the port, stamping sweeps and
    /// screen dumps with the host's clock.
    pub fn receive(&mut self, bytes: &[u8]) -> (notices: Vec<Notice>)
        ensures
            exists|timestamp: i64|
                (final(self)@, notice_values(notices@)) == spec_receive(
                    old(self)@,
                    bytes@,
                    timestamp,
                ),
            old(self).is_connected() ==> final(self).is_connected(),
    {
        self.rfe.receive(bytes)
    }

    /// Takes in what the host has read from the port at the time
    /// `timestamp`.
    pub fn receive_at(&mut self, bytes: &[u8], timestamp: i64) -> (notices: Vec<Notice>)
        ensures
            (final(self)@, notice_values(notices@)) == spec_receive(old(self)@, bytes@, timestamp),
            old(self).is_connected() ==> final(self).is_connected(),
    {
        self.rfe.receive_at(bytes, timestamp)
    }

    /// The serial number, where the device has sent it.
    pub fn serial_number(&self) -> (r: Option<SerialNumber>)
        ensures
            option_view(r) == self@.slots.serial_number,
    {
        self.rfe.messages().serial_number()
    }

    /// What it takes to learn the serial number: nothing where it is known,
    /// else a question to the device.
    pub fn request_serial_number(&self) -> (request: Request)
        ensures
            request@ == if self@.slots.serial_number is Some {
                spec_done()
            } else {
                spec_exchange(
                    Command::RequestSerialNumber,
                    ExpectationValue::SerialNumber,
                    COMMAND_RESPONSE_TIMEOUT_MS,
                )
            },
    {
        if self.rfe.messages().is_met(&Expectation::SerialNumber) {
            Request::done()
        } else {
            Request::exchange(
                Command::RequestSerialNumber,
                Expectation::SerialNumber,
                COMMAND_RESPONSE_TIMEOUT_MS,
            )
        }
    }

    /// The device's current configuration.
    pub fn config(&self) -> (config: Config)
        ensures
            config == spec_config(self@.slots),
    {
        match self.rfe.messages().config() {
            Some(config) => config,
            None => Config::default(),
        }
    }

    /// The most recent sweep.
    pub fn sweep(&self) -> (r: Option<Sweep>)
        ensures
            option_view(r) == self@.slots.sweep,
    {
        self.rfe.messages().sweep()
    }

    /// What it takes to get the sweep after the one that is there now.
    pub fn wait_for_next_sweep(&self) -> (request: Request)
        ensures
            request@ == spec_await(
                ExpectationValue::NextSweep(self@.slots.sweep),
                NEXT_SWEEP_TIMEOUT_MS,
            ),
    {
        self.wait_for_next_sweep_with_timeout(NEXT_SWEEP_TIMEOUT_MS)
    }

    /// What it takes to get the sweep after the one that is there now,
    /// within `timeout_ms` milliseconds.
    pub fn wait_for_next_sweep_with_timeout(&self, timeout_ms: u64) -> (request: Request)
        ensures
            request@ == spec_await(ExpectationValue::NextSweep(self@.slots.sweep), timeout_ms),
    {
        Request::await_only(Expectation::NextSweep(self.sweep()), timeout_ms)
    }

    /// The most recent screen dump.
    pub fn screen_data(&self) -> (r: Option<ScreenData>)
        ensures
            option_view(r) == self@.slots.screen_data,
    {
        self.rfe.messages().screen_data()
    }

    /// What it takes to get the screen dump after the one that is there now.
    pub fn wait_for_next_screen_data(&self) -> (request: Request)
        ensures
            request@ == spec_await(
                ExpectationValue::NextScreenData(self@.slots.screen_data),
                NEXT_SCREEN_DATA_TIMEOUT_MS,
            ),
    {
        self.wait_for_next_screen_data_with_timeout(NEXT_SCREEN_DATA_TIMEOUT_MS)
    }

    /// What it takes to get the screen dump after the one that is there
    /// now, within `timeout_ms` milliseconds.
    pub fn wait_for_next_screen_data_with_timeout(&self, timeout_ms: u64) -> (request: Request)
        ensures
            request@ == spec_await(
                ExpectationValue::NextScreenData(self@.slots.screen_data),
                timeout_ms,
            ),
    {
        Request::await_only(Expectation::NextScreenData(self.screen_data()), timeout_ms)
    }

    /// The device's DSP mode.
    pub fn dsp_mode(&self) -> (r: Option<DspMode>)
        ensures
            r == self@.slots.dsp_mode,
    {
        self.rfe.messages().dsp_mode()
    }

    /// Whether tracking is on.
    pub fn tracking_status(&self) -> (r: Option<TrackingStatus>)
        ensures
            r == self@.slots.tracking_status,
    {
        self.rfe.messages().tracking_status()
    }

    /// The device's input stage.
    pub fn input_stage(&self) -> (r: Option<InputStage>)
        ensures
            r == self@.slots.input_stage,
    {
        self.rfe.messages().input_stage()
    }

    /// The main radio module.
    pub fn main_radio_module(&self) -> (module: RadioModule)
        ensures
            module == spec_main_radio_module(self@.slots),
            module is Main,
    {
        match self.rfe.messages().main_radio_model() {
            Some(model) => RadioModule::Main { model },
            None => RadioModule::Main { model: Model::Unknown },
        }
    }

    /// The expansion radio module, if the device has one.
    pub fn expansion_radio_module(&self) -> (module: Option<RadioModule>)
        ensures
            module == spec_expansion_radio_module(self@.slots),
            module matches Some(m) ==> m is Expansion,
    {
        match self.rfe.messages().expansion_radio_model() {
            Some(model) => Some(RadioModule::Expansion { model }),
            None => None,
        }
    }

    /// The module that measures. It is the expansion module only where the
    /// device has one.
    pub fn active_radio_module(&self) -> (module: RadioModule)
        ensures
            module == spec_active_radio_module(self@.slots),
            module is Expansion ==> spec_expansion_radio_module(self@.slots) == Some(module),
    {
        match self.expansion_radio_module() {
            Some(expansion) => {
                if self.config().is_expansion_radio_module_active {
                    expansion
                } else {
                    self.main_radio_module()
                }
            },
            None => self.main_radio_module(),
        }
    }

    /// The module that does not measure, if the device has two.
    pub fn inactive_radio_module(&self) -> (module: Option<RadioModule>)
        ensures
            module == spec_inactive_radio_module(self@.slots),
    {
        match self.expansion_radio_module() {
            Some(expansion) => {
                if self.config().is_expansion_radio_module_active {
                    Some(self.main_radio_module())
                } else {
                    Some(expansion)
                }
            },
            None => None,
        }
    }

    /// What starts the Wi-Fi analyzer.
    pub fn start_wifi_analyzer(&self, wifi_band: WifiBand) -> (request: Request)
        ensures
            request@ == spec_send(Command::StartWifiAnalyzer(wifi_band)),
    {
        Request::send(Command::StartWifiAnalyzer(wifi_band))
    }

    /// What stops the Wi-Fi analyzer.
    pub fn stop_wifi_analyzer(&self) -> (request: Request)
        ensures
            request@ == spec_send(Command::StopWifiAnalyzer),
    {
        Request::send(Command::StopWifiAnalyzer)
    }

    /// What asks the analyzer to enter tracking mode. The tracking status
    /// that is there is forgotten, so that the device's answer can be told
    /// from it. Frequencies that the command has no room for are refused,
    /// and then nothing is forgotten.
    pub fn request_tracking(&mut self, start_hz: u64, step_hz: u64) -> (r: Result<Request, Error>)
        ensures
            start_hz / 1_000 <= MAX_WIRE_KHZ && step_hz / 1_000 <= MAX_WIRE_KHZ ==> result_view(r)
                == Ok::<RequestValue, Failure>(
                spec_exchange(
                    Command::StartTracking {
                        start: Frequency { hz: start_hz },
                        step: Frequency { hz: step_hz },
                    },
                    ExpectationValue::TrackingStatus,
                    COMMAND_RESPONSE_TIMEOUT_MS,
                ),
            ) && final(self)@ == (Engine {
                slots: Slots { tracking_status: None, ..old(self)@.slots },
                ..old(self)@
            }),
            !(start_hz / 1_000 <= MAX_WIRE_KHZ && step_hz / 1_000 <= MAX_WIRE_KHZ) ==> result_view(
                r,
            ) == Err::<RequestValue, Failure>(Failure::InvalidInput(tracking_out_of_reach()))
                && final(self)@ == old(
                self,
            )@,
    {
        if start_hz / 1_000 > MAX_WIRE_KHZ || step_hz / 1_000 > MAX_WIRE_KHZ {
            return Err(
                Error::invalid_input(
                    "The tracking start and step frequencies must be below 10 GHz",
                ),
            );
        }
        self.rfe.clear_tracking_status();
        Ok(
            Request::exchange(
                Command::StartTracking {
                    start: Frequency::from_hz(start_hz),
                    step: Frequency::from_hz(step_hz),
                },
                Expectation::TrackingStatus,
                COMMAND_RESPONSE_TIMEOUT_MS,
            ),
        )
    }

    /// What steps over the tracking step frequency and makes a measurement.
    pub fn tracking_step(&self, step: u16) -> (request: Request)
        ensures
            request@ == spec_send(Command::TrackingStep(step)),
    {
        Request::send(Command::TrackingStep(step))
    }

    /// What switches to the main radio module: nothing where it is the
    /// active one.
    pub fn activate_main_radio_module(&self) -> (request: Request)
        ensures
            request@ == spec_activate_main(self@.slots),
    {
        if self.active_radio_module().is_main() {
            Request::done()
        } else {
            Request::exchange(
                Command::SwitchModuleMain,
                Expectation::MainRadioModuleActive,
                COMMAND_RESPONSE_TIMEOUT_MS,
            )
        }
    }

    /// What switches to the expansion radio module. A device without one
    /// refuses; nothing is sent then.
    pub fn activate_expansion_radio_module(&self) -> (r: Result<Request, Error>)
        ensures
            result_view(r) == spec_activate_expansion(self@.slots),
    {
        if self.expansion_radio_module().is_none() {
            return Err(
                Error::invalid_operation(
                    "This RF Explorer does not contain an expansion radio module.",
                ),
            );
        }
        if self.active_radio_module().is_expansion() {
            Ok(Request::done())
        } else {
            Ok(
                Request::exchange(
                    Command::SwitchModuleExp,
                    Expectation::ExpansionRadioModuleActive,
                    COMMAND_RESPONSE_TIMEOUT_MS,
                ),
            )
        }
    }

    /// What sets the start and stop frequency of the sweeps; the amplitude
    /// bounds stay.
    pub fn set_start_stop(&self, start: Frequency, stop: Frequency) -> (r: Result<Request, Error>)
        ensures
            result_view(r) == spec_set_config(
                self@.slots,
                start,
                stop,
                spec_config(self@.slots).min_amp_dbm,
                spec_config(self@.slots).max_amp_dbm,
            ),
    {
        let config = self.config();
        self.set_config(start, stop, config.min_amp_dbm, config.max_amp_dbm)
    }

    /// What sets the start frequency, the stop frequency and the number of
    /// points of the sweeps: first the points, then the range. Where either
    /// is refused, nothing is sent.
    pub fn set_start_stop_sweep_points(
        &self,
        start: Frequency,
        stop: Frequency,
        sweep_points: u16,
    ) -> (r: Result<(Request, Request), Error>)
        ensures
            match r {
                Ok((points, range)) => {
                    &&& spec_set_sweep_points(self@.slots, sweep_points) == Ok::<
                        RequestValue,
                        Failure,
                    >(points@)
                    &&& spec_set_config(
                        self@.slots,
                        start,
                        stop,
                        spec_config(self@.slots).min_amp_dbm,
                        spec_config(self@.slots).max_amp_dbm,
                    ) == Ok::<RequestValue, Failure>(range@)
                },
                Err(e) => {
                    let points = spec_set_sweep_points(self@.slots, sweep_points);
                    let range = spec_set_config(
                        self@.slots,
                        start,
                        stop,
                        spec_config(self@.slots).min_amp_dbm,
                        spec_config(self@.slots).max_amp_dbm,
                    );
                    if points is Err {
                        points == Err::<RequestValue, Failure>(e@)
                    } else {
                        range == Err::<RequestValue, Failure>(e@)
                    }
                },
            },
    {
        let points = match self.set_sweep_points(sweep_points) {
            Ok(request) => request,
            Err(e) => {
                return Err(e);
            },
        };
        match self.set_start_stop(start, stop) {
            Ok(range) => Ok((points, range)),
            Err(e) => Err(e),
        }
    }

    /// What sets the center frequency and the span of the sweeps. A center
    /// and a span whose range cannot be written down are refused.
    pub fn set_center_span(&self, center: Frequency, span: Frequency) -> (r: Result<Request, Error>)
        ensures
            result_view(r) == match spec_center_span(center, span) {
                Some((start, stop)) => spec_set_config(
                    self@.slots,
                    start,
                    stop,
                    spec_config(self@.slots).min_amp_dbm,
                    spec_config(self@.slots).max_amp_dbm,
                ),
                None => Err(Failure::InvalidInput(span_out_of_reach())),
            },
    {
        match center_span(center, span) {
            Some((start, stop)) => self.set_start_stop(start, stop),
            None => Err(
                Error::invalid_input("The span reaches beyond the frequencies that exist"),
            ),
        }
    }

    /// What sets the center frequency, the span and the number of points of
    /// the sweeps.
    pub fn set_center_span_sweep_points(
        &self,
        center: Frequency,
        span: Frequency,
        sweep_points: u16,
    ) -> (r: Result<(Request, Request), Error>)
        ensures
            spec_center_span(center, span) is None ==> (r matches Err(e) && e@
                == Failure::InvalidInput(span_out_of_reach())),
            spec_center_span(center, span) matches Some((start, stop)) ==> match r {
                Ok((points, range)) => {
                    &&& spec_set_sweep_points(self@.slots, sweep_points) == Ok::<
                        RequestValue,
                        Failure,
                    >(points@)
                    &&& spec_set_config(
                        self@.slots,
                        start,
                        stop,
                        spec_config(self@.slots).min_amp_dbm,
                        spec_config(self@.slots).max_amp_dbm,
                    ) == Ok::<RequestValue, Failure>(range@)
                },
                Err(e) => {
                    let points = spec_set_sweep_points(self@.slots, sweep_points);
                    let range = spec_set_config(
                        self@.slots,
                        start,
                        stop,
                        spec_config(self@.slots).min_amp_dbm,
                        spec_config(self@.slots).max_amp_dbm,
                    );
                    if points is Err {
                        points == Err::<RequestValue, Failure>(e@)
                    } else {
                        range == Err::<RequestValue, Failure>(e@)
                    }
                },
            },
    {
        match center_span(center, span) {
            Some((start, stop)) => self.set_start_stop_sweep_points(start, stop, sweep_points),
            None => Err(
                Error::invalid_input("The span reaches beyond the frequencies that exist"),
            ),
        }
    }

    /// What sets the lowest and highest amplitude that the device's screen
    /// shows; the range stays.
    pub fn set_min_max_amps(&self, min_amp_dbm: i16, max_amp_dbm: i16) -> (r: Result<
        Request,
        Error,
    >)
        ensures
            result_view(r) == spec_set_config(
                self@.slots,
                spec_config(self@.slots).start,
                spec_config(self@.slots).stop,
                min_amp_dbm,
                max_amp_dbm,
            ),
    {
        let config = self.config();
        self.set_config(config.start, config.stop, min_amp_dbm, max_amp_dbm)
    }

    /// What sets the range and the amplitude bounds: nothing where the
    /// device reports them already, else the command and a wait for the
    /// configuration that shows them. A range that the active module cannot
    /// sweep and bounds that the display cannot show are refused.
    pub fn set_config(
        &self,
        start: Frequency,
        stop: Frequency,
        min_amp_dbm: i16,
        max_amp_dbm: i16,
    ) -> (r: Result<Request, Error>)
        ensures
            result_view(r) == spec_set_config(self@.slots, start, stop, min_amp_dbm, max_amp_dbm),
    {
        match self.validate_start_stop(start, stop) {
            Err(e) => {
                return Err(e);
            },
            Ok(()) => {},
        }
        match SpectrumAnalyzer::validate_min_max_amps(min_amp_dbm, max_amp_dbm) {
            Err(e) => {
                return Err(e);
            },
            Ok(()) => {},
        }
        if self.config().contains_start_stop_amp_range(start, stop, min_amp_dbm, max_amp_dbm) {
            return Ok(Request::done());
        }
        proof {
            lemma_model_ranges(spec_active_radio_module(self@.slots).spec_model());
        }
        Ok(
            Request::exchange(
                Command::SetConfig { start, stop, min_amp_dbm, max_amp_dbm },
                Expectation::Config { start, stop, min_amp_dbm, max_amp_dbm },
                COMMAND_RESPONSE_TIMEOUT_MS,
            ),
        )
    }

    /// Registers the callback for sweeps under the handle `callback`, in
    /// place of the one that was registered before; `None` registers none.
    pub fn set_sweep_callback(&mut self, callback: Option<u64>)
        ensures
            final(self)@ == (Engine {
                slots: Slots { sweep_callback: callback, ..old(self)@.slots },
                ..old(self)@
            }),
    {
        self.rfe.set_sweep_callback(callback);
    }

    /// Registers the callback for configurations under the handle
    /// `callback`, in place of the one that was registered before; `None`
    /// registers none.
    pub fn set_config_callback(&mut self, callback: Option<u64>)
        ensures
            final(self)@ == (Engine {
                slots: Slots { config_callback: callback, ..old(self)@.slots },
                ..old(self)@
            }),
    {
        self.rfe.set_config_callback(callback);
    }

    /// What sets the number of points of the sweeps: nothing where the
    /// device reports the number already, else the command and a wait for
    /// the configuration that shows it. Only a "Plus" model takes the
    /// command; any other refuses, and nothing is sent.
    pub fn set_sweep_points(&self, sweep_points: u16) -> (r: Result<Request, Error>)
        ensures
            result_view(r) == spec_set_sweep_points(self@.slots, sweep_points),
    {
        if !self.active_radio_module().model().is_plus_model() {
            return Err(
                Error::invalid_operation(
                    "Only RF Explorer 'Plus' models support setting the number of sweep points",
                ),
            );
        }
        let command = if sweep_points <= MAX_SWEEP_POINTS_EXT {
            Command::SetSweepPointsExt(sweep_points)
        } else {
            Command::SetSweepPointsLarge(sweep_points)
        };
        let expected = if sweep_points < MIN_SWEEP_POINTS {
            MIN_SWEEP_POINTS
        } else {
            (sweep_points / 16) * 16
        };
        assert(expected == expected_sweep_points(sweep_points));
        if self.config().sweep_points == expected {
            return Ok(Request::done());
        }
        Ok(
            Request::exchange(
                command,
                Expectation::SweepPoints(expected),
                COMMAND_RESPONSE_TIMEOUT_MS,
            ),
        )
    }

    /// What sets the calculator mode.
    pub fn set_calc_mode(&self, calc_mode: CalcMode) -> (request: Request)
        ensures
            request@ == spec_send(Command::SetCalcMode(calc_mode)),
    {
        Request::send(Command::SetCalcMode(calc_mode))
    }

    /// What sets the input stage.
    pub fn set_input_stage(&self, input_stage: InputStage) -> (request: Request)
        ensures
            request@ == spec_send(Command::SetInputStage(input_stage)),
    {
        Request::send(Command::SetInputStage(input_stage))
    }

    /// What adds an offset, in dB, to the amplitudes of every sweep.
    pub fn set_offset_db(&self, offset_db: i8) -> (request: Request)
        ensures
            request@ == spec_send(Command::SetOffsetDB(offset_db)),
    {
        Request::send(Command::SetOffsetDB(offset_db))
    }

    /// What sets the DSP mode: nothing where the device reports the mode
    /// already, else the command and a wait for the device to report it.
    pub fn set_dsp_mode(&self, dsp_mode: DspMode) -> (request: Request)
        ensures
            request@ == spec_set_dsp_mode(self@.slots, dsp_mode),
    {
        if self.rfe.messages().is_met(&Expectation::DspMode(dsp_mode)) {
            Request::done()
        } else {
            Request::exchange(
                Command::SetDsp(dsp_mode),
                Expectation::DspMode(dsp_mode),
                COMMAND_RESPONSE_TIMEOUT_MS,
            )
        }
    }

    /// Whether a wait for the cache to meet `condition` has to go on.
    pub fn wait_for_config_while(&self, condition: &Expectation) -> (waiting: bool)
        ensures
            waiting == !spec_is_met(self@.slots, condition@),
    {
        !self.rfe.messages().is_met(condition)
    }

    /// Ends the wait of a request: hands back the latest value where the
    /// cache is in the state that was waited for, and reports the time-out
    /// where it is not.
    pub fn wait_for(&self, expectation: &Expectation, timeout_ms: u64) -> (r: Result<Reply, Error>)
        ensures
            outcome_value(r) == spec_wait_for(self@.slots, expectation@, timeout_ms),
    {
        self.rfe.messages().wait_for(expectation, timeout_ms)
    }

    /// Tells whether the active module can sweep from `start` to `stop`.
    pub fn validate_start_stop(&self, start: Frequency, stop: Frequency) -> (r: Result<(), Error>)
        ensures
            r is Ok <==> valid_start_stop(
                spec_active_radio_module(self@.slots).spec_model(),
                start,
                stop,
            ),
            match r {
                Ok(_) => start_stop_problem(
                    spec_active_radio_module(self@.slots).spec_model(),
                    start,
                    stop,
                ) is None,
                Err(e) => start_stop_problem(
                    spec_active_radio_module(self@.slots).spec_model(),
                    start,
                    stop,
                ) matches Some(text) && e@ == Failure::InvalidInput(text),
            },
    {
        if start.hz >= stop.hz {
            return Err(
                Error::invalid_input("The start frequency must be less than the stop frequency"),
            );
        }
        let active_model = self.active_radio_module().model();
        let min_freq = active_model.min_freq();
        let max_freq = active_model.max_freq();
        if start.hz < min_freq.hz || start.hz > max_freq.hz {
            return Err(
                Error::invalid_input(
                    "The start frequency is not within the RF Explorer's frequency range",
                ),
            );
        } else if stop.hz < min_freq.hz || stop.hz > max_freq.hz {
            return Err(
                Error::invalid_input(
                    "The stop frequency is not within the RF Explorer's frequency range",
                ),
            );
        }
        let span = stop.hz - start.hz;
        if span < active_model.min_span().hz || span > active_model.max_span().hz {
            return Err(
                Error::invalid_input("The span is not within the RF Explorer's span range"),
            );
        }
        Ok(())
    }

    /// Tells whether the display can be set to these bounds.
    pub fn validate_min_max_amps(min_amp_dbm: i16, max_amp_dbm: i16) -> (r: Result<(), Error>)
        ensures
            r is Ok <==> valid_min_max_amps(min_amp_dbm, max_amp_dbm),
            match r {
                Ok(_) => min_max_amps_problem(min_amp_dbm, max_amp_dbm) is None,
                Err(e) => min_max_amps_problem(min_amp_dbm, max_amp_dbm) matches Some(text) && e@
                    == Failure::InvalidInput(text),
            },
    {
        if min_amp_dbm >= max_amp_dbm {
            return Err(
                Error::invalid_input(
                    "The minimum amplitude must be less than the maximum amplitude",
                ),
            );
        }
        if min_amp_dbm < MIN_AMP_DBM || min_amp_dbm > MAX_AMP_DBM {
            return Err(
                Error::invalid_input(
                    "The minimum amplitude is not within the RF Explorer's amplitude range of -120 to 35 dBm",
                ),
            );
        } else if max_amp_dbm < MIN_AMP_DBM || max_amp_dbm > MAX_AMP_DBM {
            return Err(
                Error::invalid_input(
                    "The maximum amplitude is not within the RF Explorer's amplitude range of -120 to 35 dBm",
                ),
            );
        }
        Ok(())
    }
}

/// The range that a center and a span stand for.
fn center_span(center: Frequency, span: Frequency) -> (r: Option<(Frequency, Frequency)>)
    ensures
        r == spec_center_span(center, span),
{
    let half = span.hz / 2;
    if half <= center.hz && half <= u64::MAX - center.hz {
        Some((Frequency { hz: center.hz - half }, Frequency { hz: center.hz + half }))
    } else {
        None
    }
}

/// The number of points that the device is expected to report is the
/// largest multiple of 16 that does not exceed the request, and at least 112.
pub proof fn lemma_expected_sweep_points(sweep_points: u16)
    ensures
        expected_sweep_points(sweep_points) % 16 == 0,
        expected_sweep_points(sweep_points) >= MIN_SWEEP_POINTS,
        sweep_points >= MIN_SWEEP_POINTS ==> sweep_points - 16 < expected_sweep_points(
            sweep_points,
        ) <= sweep_points,
        sweep_points < MIN_SWEEP_POINTS ==> expected_sweep_points(sweep_points)
            == MIN_SWEEP_POINTS,
{
}

/// A device without an expansion module refuses to switch to it, and
/// nothing is to be sent.
pub proof fn lemma_no_expansion_module(slots: Slots)
    requires
        slots.setup_info matches Some(info) ==> info.expansion_radio_model is None,
    ensures
        spec_activate_expansion(slots) == Err::<RequestValue, Failure>(
            Failure::InvalidOperation(no_expansion_module()),
        ),
{
}

/// Every request that sets the range and the amplitude bounds asks for a
/// start below the stop and for bounds between -120 and 35 dBm; it waits for
/// the device to report what was asked for, for no longer than a command may
/// stay unconfirmed; and the command fits its fields.
pub proof fn lemma_set_config_request(
    slots: Slots,
    start: Frequency,
    stop: Frequency,
    min_amp_dbm: i16,
    max_amp_dbm: i16,
)
    ensures
        spec_set_config(slots, start, stop, min_amp_dbm, max_amp_dbm) matches Ok(request) ==> {
            &&& start.hz < stop.hz
            &&& MIN_AMP_DBM <= min_amp_dbm < max_amp_dbm <= MAX_AMP_DBM
            &&& (Command::SetConfig { start, stop, min_amp_dbm, max_amp_dbm }).fits()
            &&& (request.expectation is Some ==> request.timeout_ms
                == COMMAND_RESPONSE_TIMEOUT_MS)
        },
{
    lemma_model_ranges(spec_active_radio_module(slots).spec_model());
    lemma_problems(
        spec_active_radio_module(slots).spec_model(),
        start,
        stop,
        min_amp_dbm,
        max_amp_dbm,
    );
}

/// The module that measures is the expansion module only where the device
/// has one.
pub proof fn lemma_active_expansion_exists(slots: Slots)
    ensures
        spec_active_radio_module(slots) is Expansion ==> spec_expansion_radio_module(slots)
            is Some,
        spec_active_radio_module(slots) is Expansion ==> (slots.setup_info matches Some(info)
            && info.expansion_radio_model is Some),
{
}

/// The frame with which a device confirms a request for a range and for
/// amplitude bounds: the configuration that was asked for, and a line
/// ending.
pub open spec fn config_answer(
    start: Frequency,
    stop: Frequency,
    min_amp_dbm: i16,
    max_amp_dbm: i16,
) -> Seq<u8> {
    config_echo(start, stop, min_amp_dbm, max_amp_dbm) + seq![CR, LF]
}

/// Whether what waits in the buffer leaves the answer of the device alone:
/// the reader drops it and comes to the answer as it stands. A buffer in
/// which an unfinished frame waits may take the answer for the rest of that
/// frame.
pub open spec fn leaves_alone(buffer: Seq<u8>, answer: Seq<u8>, timestamp: i64) -> bool {
    spec_scan(buffer + answer, timestamp) == spec_scan(answer, timestamp)
}

/// An empty buffer leaves every answer alone, and so does a buffer that
/// holds nothing but bytes that start no frame.
pub proof fn lemma_leaves_alone(buffer: Seq<u8>, answer: Seq<u8>, timestamp: i64)
    requires
        forall|i: int| 0 <= i < buffer.len() ==> starts_no_frame(#[trigger] buffer[i]),
    ensures
        leaves_alone(buffer, answer, timestamp),
{
    lemma_scan_drops_noise(buffer, answer, timestamp);
}

/// The exchange that sets the range and the amplitude bounds, as a whole.
/// When a request is granted and the device answers with the configuration
/// that was asked for, the answer is decoded and stored, nothing is left in
/// the buffer, the wait of the request ends well, and the configuration
/// shows what was asked for: the bounds as they were given, the frequencies
/// in whole kHz. This holds where what waits in the buffer leaves the answer
/// alone.
pub proof fn lemma_set_config_exchange(
    engine: Engine,
    start: Frequency,
    stop: Frequency,
    min_amp_dbm: i16,
    max_amp_dbm: i16,
    timestamp: i64,
)
    requires
        leaves_alone(
            engine.buffer,
            config_answer(start, stop, min_amp_dbm, max_amp_dbm),
            timestamp,
        ),
        spec_set_config(engine.slots, start, stop, min_amp_dbm, max_amp_dbm) is Ok,
    ensures
        ({
            let request = spec_set_config(engine.slots, start, stop, min_amp_dbm, max_amp_dbm)->Ok_0;
            let answer = config_answer(start, stop, min_amp_dbm, max_amp_dbm);
            let (after, notices) = spec_receive(engine, answer, timestamp);
            let config = spec_config(after.slots);
            &&& after.buffer.len() == 0
            &&& notices.len() == 1
            &&& notices[0].kind == MessageKind::Config
            &&& after.slots.config == Some(config)
            &&& config.start == Frequency { hz: (start.hz / 1_000 * 1_000) as u64 }
            &&& config.stop == Frequency { hz: (stop.hz / 1_000 * 1_000) as u64 }
            &&& config.min_amp_dbm == min_amp_dbm
            &&& config.max_amp_dbm == max_amp_dbm
            &&& (request.expectation matches Some(expectation) ==> spec_wait_for(
                after.slots,
                expectation,
                request.timeout_ms,
            ) == Ok::<ReplyValue, Failure>(ReplyValue::Config(config)))
        }),
{
    lemma_set_config_request(engine.slots, start, stop, min_amp_dbm, max_amp_dbm);
    lemma_config_echo(start, stop, min_amp_dbm, max_amp_dbm);
    let echo = config_echo(start, stop, min_amp_dbm, max_amp_dbm);
    let answer = config_answer(start, stop, min_amp_dbm, max_amp_dbm);
    let message = MessageValue::Config(short_config(echo));
    lemma_scan_short_config(echo, timestamp);
    lemma_scan_empty(timestamp);
    let stored = spec_store(engine.slots, message);
    assert(spec_drain(Seq::<u8>::empty(), stored, timestamp) == (
        Seq::<u8>::empty(),
        stored,
        Seq::<NoticeValue>::empty(),
    ));
    assert(spec_drain(engine.buffer + answer, engine.slots, timestamp) == (
        Seq::<u8>::empty(),
        stored,
        seq![spec_notice(engine.slots, message)] + Seq::<NoticeValue>::empty(),
    ));
}

/// The exchange that sets the range, as a whole: what
/// `lemma_set_config_exchange` says, for the amplitude bounds that the
/// device reports.
pub proof fn lemma_set_start_stop_exchange(
    engine: Engine,
    start: Frequency,
    stop: Frequency,
    timestamp: i64,
)
    requires
        leaves_alone(
            engine.buffer,
            config_answer(
                start,
                stop,
                spec_config(engine.slots).min_amp_dbm,
                spec_config(engine.slots).max_amp_dbm,
            ),
            timestamp,
        ),
        spec_set_config(
            engine.slots,
            start,
            stop,
            spec_config(engine.slots).min_amp_dbm,
            spec_config(engine.slots).max_amp_dbm,
        ) is Ok,
    ensures
        ({
            let min_amp_dbm = spec_config(engine.slots).min_amp_dbm;
            let max_amp_dbm = spec_config(engine.slots).max_amp_dbm;
            let request = spec_set_config(engine.slots, start, stop, min_amp_dbm, max_amp_dbm)->Ok_0;
            let answer = config_answer(start, stop, min_amp_dbm, max_amp_dbm);
            let (after, notices) = spec_receive(engine, answer, timestamp);
            let config = spec_config(after.slots);
            &&& config.start == Frequency { hz: (start.hz / 1_000 * 1_000) as u64 }
            &&& config.stop == Frequency { hz: (stop.hz / 1_000 * 1_000) as u64 }
            &&& (request.expectation matches Some(expectation) ==> spec_wait_for(
                after.slots,
                expectation,
                request.timeout_ms,
            ) is Ok)
        }),
{
    lemma_set_config_exchange(
        engine,
        start,
        stop,
        spec_config(engine.slots).min_amp_dbm,
        spec_config(engine.slots).max_amp_dbm,
        timestamp,
    );
}

} // verus!
