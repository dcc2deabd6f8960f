//! Protocol engine for RF Explorer handheld spectrum analyzers and signal
//! generators.
//!
//! The device talks over a serial line: the host sends short commands, and
//! the device sends frames of text and of binary data, asked for or not. This
//! crate holds everything about that conversation that can be decided
//! without touching a serial line:
//!
//! - [`common`] holds the frames that both device classes send, and the
//!   fields and layouts that frames are made of;
//! - [`spectrum_analyzer`] decodes what an analyzer sends, encodes what it
//!   is sent, keeps the latest message of every kind, frames the stream of
//!   bytes, and tells for every operation what has to be written and what
//!   has to be waited for;
//! - [`signal_generator`] decodes what a generator sends;
//! - [`setup`] reads an analyzer's setup frame field by field.
//!
//! The crate opens no port, starts no thread and never blocks. The one thing
//! it takes from the machine is the time of day, to stamp sweeps and screen
//! dumps, and every function that does so has a twin that takes the time as
//! an argument.

pub mod common;
pub mod setup;
pub mod signal_generator;
pub mod spectrum_analyzer;

pub use common::{
    ConnectionError, Error, Frequency, MessageContainer, MessageParseError, ScreenData,
    SerialNumber, SetupInfo,
};
pub use setup::{ParseSetupError, RfExplorerModel, RfExplorerSetup};
pub use spectrum_analyzer::{
    CalcMode, Config, DspMode, InputStage, Mode, RadioModule, SpectrumAnalyzer, Sweep,
    TrackingStatus, WifiBand,
};
