//! The signal generator: its models and its messages.

pub mod config;
pub mod config_amp_sweep;
pub mod config_amp_sweep_exp;
pub mod config_cw;
pub mod config_cw_exp;
pub mod config_exp;
pub mod config_freq_sweep;
pub mod config_freq_sweep_exp;
pub mod kinds;
pub mod message;
pub mod model;
pub mod power;
pub mod setup_info;
pub mod temperature;

pub use config::Config;
pub use config_amp_sweep::ConfigAmpSweep;
pub use config_amp_sweep_exp::ConfigAmpSweepExp;
pub use config_cw::ConfigCw;
pub use config_cw_exp::ConfigCwExp;
pub use config_exp::ConfigExp;
pub use config_freq_sweep::ConfigFreqSweep;
pub use config_freq_sweep_exp::ConfigFreqSweepExp;
pub use kinds::{Attenuation, PowerLevel, RfPower};
pub use message::Message;
pub use model::Model;
pub use temperature::Temperature;
