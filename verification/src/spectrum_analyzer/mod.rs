//! The spectrum analyzer: its messages, its commands and its facade.

pub mod command;
pub mod config;
pub mod container;
pub mod kinds;
pub mod message;
pub mod model;
pub mod reader;
pub mod request;
pub mod rf_explorer;
pub mod setup_info;
pub mod spectrum_analyzer;
pub mod sweep;

pub use command::Command;
pub use config::Config;
pub use container::MessageContainer;
pub use kinds::{CalcMode, DspMode, InputStage, Mode, RadioModule, TrackingStatus, WifiBand};
pub use message::Message;
pub use model::Model;
pub use request::Request;
pub use rf_explorer::RfExplorer;
pub use spectrum_analyzer::SpectrumAnalyzer;
pub use sweep::Sweep;
