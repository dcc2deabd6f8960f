use vstd::prelude::*;
use crate::common::frequency::Frequency;

verus! {

/// The spectrum analyzer models, as the setup frame names them. A byte that
/// names none of them decodes to `Unknown`.
#[derive(Debug, Clone, Copy, PartialEq, Eq, Structural, Hash)]
pub enum Model {
    Rfe433M,
    Rfe868M,
    Rfe915M,
    RfeWSub1G,
    Rfe24G,
    RfeWSub3G,
    Rfe6G,
    RfeWSub1GPlus,
    RfeProAudio,
    Rfe24GPlus,
    Rfe4GPlus,
    Rfe6GPlus,
    Unknown,
}

/// The highest frequency that a field of seven digits of kilohertz can
/// carry.
pub const MAX_WIRE_KHZ: u64 = 9_999_999;

impl Model {
    pub open spec fn spec_from_byte(byte: u8) -> Model {
        if byte == 0 {
            Model::Rfe433M
        } else if byte == 1 {
            Model::Rfe868M
        } else if byte == 2 {
            Model::Rfe915M
        } else if byte == 3 {
            Model::RfeWSub1G
        } else if byte == 4 {
            Model::Rfe24G
        } else if byte == 5 {
            Model::RfeWSub3G
        } else if byte == 6 {
            Model::Rfe6G
        } else if byte == 10 {
            Model::RfeWSub1GPlus
        } else if byte == 11 {
            Model::RfeProAudio
        } else if byte == 12 {
            Model::Rfe24GPlus
        } else if byte == 13 {
            Model::Rfe4GPlus
        } else if byte == 14 {
            Model::Rfe6GPlus
        } else {
            Model::Unknown
        }
    }

    /// The model that a byte of the setup frame stands for.
    #[verifier::when_used_as_spec(spec_from_byte)]
    pub fn from_byte(byte: u8) -> (model: Model)
        ensures
            model == Model::spec_from_byte(byte),
    {
        if byte == 0 {
            Model::Rfe433M
        } else if byte == 1 {
            Model::Rfe868M
        } else if byte == 2 {
            Model::Rfe915M
        } else if byte == 3 {
            Model::RfeWSub1G
        } else if byte == 4 {
            Model::Rfe24G
        } else if byte == 5 {
            Model::RfeWSub3G
        } else if byte == 6 {
            Model::Rfe6G
        } else if byte == 10 {
            Model::RfeWSub1GPlus
        } else if byte == 11 {
            Model::RfeProAudio
        } else if byte == 12 {
            Model::Rfe24GPlus
        } else if byte == 13 {
            Model::Rfe4GPlus
        } else if byte == 14 {
            Model::Rfe6GPlus
        } else {
            Model::Unknown
        }
    }

    /// The lowest frequency the model measures, in kHz.
    pub open spec fn spec_min_khz(self) -> u64 {
        match self {
            Model::Rfe433M => 430_000,
            Model::Rfe868M => 860_000,
            Model::Rfe915M => 910_000,
            Model::RfeWSub1G => 240_000,
            Model::Rfe24G => 2_350_000,
            Model::RfeWSub3G => 15_000,
            Model::Rfe6G => 4_850_000,
            Model::RfeWSub1GPlus => 50,
            Model::RfeProAudio => 15_000,
            Model::Rfe24GPlus => 2_350_000,
            Model::Rfe4GPlus => 240_000,
            Model::Rfe6GPlus => 240_000,
            Model::Unknown => 0,
        }
    }

    /// The highest frequency the model measures, in kHz.
    pub open spec fn spec_max_khz(self) -> u64 {
        match self {
            Model::Rfe433M => 440_000,
            Model::Rfe868M => 870_000,
            Model::Rfe915M => 920_000,
            Model::RfeWSub1G => 960_000,
            Model::Rfe24G => 2_550_000,
            Model::RfeWSub3G => 2_700_000,
            Model::Rfe6G => 6_100_000,
            Model::RfeWSub1GPlus => 960_000,
            Model::RfeProAudio => 2_700_000,
            Model::Rfe24GPlus => 2_550_000,
            Model::Rfe4GPlus => 4_000_000,
            Model::Rfe6GPlus => 6_000_000,
            Model::Unknown => MAX_WIRE_KHZ,
        }
    }

    /// The narrowest span the model sweeps, in kHz.
    pub open spec fn spec_min_span_khz(self) -> u64 {
        match self {
            Model::Rfe24G => 2_000,
            Model::Rfe6G => 2_000,
            Model::Rfe24GPlus => 2_000,
            Model::Unknown => 0,
            _ => 112,
        }
    }

    /// The widest span the model sweeps, in kHz.
    pub open spec fn spec_max_span_khz(self) -> u64 {
        match self {
            Model::Rfe433M => 10_000,
            Model::Rfe868M => 10_000,
            Model::Rfe915M => 10_000,
            Model::RfeWSub1G => 300_000,
            Model::Rfe24G => 100_000,
            Model::RfeWSub3G => 600_000,
            Model::Rfe6G => 600_000,
            Model::RfeWSub1GPlus => 959_950,
            Model::RfeProAudio => 600_000,
            Model::Rfe24GPlus => 85_000,
            Model::Rfe4GPlus => 960_000,
            Model::Rfe6GPlus => 960_000,
            Model::Unknown => MAX_WIRE_KHZ,
        }
    }

    pub open spec fn spec_min_freq(self) -> Frequency {
        Frequency { hz: (self.spec_min_khz() * 1_000) as u64 }
    }

    pub open spec fn spec_max_freq(self) -> Frequency {
        Frequency { hz: (self.spec_max_khz() * 1_000) as u64 }
    }

    pub open spec fn spec_min_span(self) -> Frequency {
        Frequency { hz: (self.spec_min_span_khz() * 1_000) as u64 }
    }

    pub open spec fn spec_max_span(self) -> Frequency {
        Frequency { hz: (self.spec_max_span_khz() * 1_000) as u64 }
    }

    /// Whether the model is one of the "Plus" line, which takes commands
    /// that set the number of sweep points.
    pub open spec fn spec_is_plus_model(self) -> bool {
        self == Model::RfeWSub1GPlus || self == Model::RfeProAudio || self == Model::Rfe24GPlus
            || self == Model::Rfe4GPlus || self == Model::Rfe6GPlus
    }

    fn min_khz(self) -> (khz: u64)
        ensures
            khz == self.spec_min_khz(),
    {
        match self {
            Model::Rfe433M => 430_000,
            Model::Rfe868M => 860_000,
            Model::Rfe915M => 910_000,
            Model::RfeWSub1G => 240_000,
            Model::Rfe24G => 2_350_000,
            Model::RfeWSub3G => 15_000,
            Model::Rfe6G => 4_850_000,
            Model::RfeWSub1GPlus => 50,
            Model::RfeProAudio => 15_000,
            Model::Rfe24GPlus => 2_350_000,
            Model::Rfe4GPlus => 240_000,
            Model::Rfe6GPlus => 240_000,
            Model::Unknown => 0,
        }
    }

    fn max_khz(self) -> (khz: u64)
        ensures
            khz == self.spec_max_khz(),
    {
        match self {
            Model::Rfe433M => 440_000,
            Model::Rfe868M => 870_000,
            Model::Rfe915M => 920_000,
            Model::RfeWSub1G => 960_000,
            Model::Rfe24G => 2_550_000,
            Model::RfeWSub3G => 2_700_000,
            Model::Rfe6G => 6_100_000,
            Model::RfeWSub1GPlus => 960_000,
            Model::RfeProAudio => 2_700_000,
            Model::Rfe24GPlus => 2_550_000,
            Model::Rfe4GPlus => 4_000_000,
            Model::Rfe6GPlus => 6_000_000,
            Model::Unknown => MAX_WIRE_KHZ,
        }
    }

    fn min_span_khz(self) -> (khz: u64)
        ensures
            khz == self.spec_min_span_khz(),
    {
        match self {
            Model::Rfe24G => 2_000,
            Model::Rfe6G => 2_000,
            Model::Rfe24GPlus => 2_000,
            Model::Unknown => 0,
            _ => 112,
        }
    }

    fn max_span_khz(self) -> (khz: u64)
        ensures
            khz == self.spec_max_span_khz(),
    {
        match self {
            Model::Rfe433M => 10_000,
            Model::Rfe868M => 10_000,
            Model::Rfe915M => 10_000,
            Model::RfeWSub1G => 300_000,
            Model::Rfe24G => 100_000,
            Model::RfeWSub3G => 600_000,
            Model::Rfe6G => 600_000,
            Model::RfeWSub1GPlus => 959_950,
            Model::RfeProAudio => 600_000,
            Model::Rfe24GPlus => 85_000,
            Model::Rfe4GPlus => 960_000,
            Model::Rfe6GPlus => 960_000,
            Model::Unknown => MAX_WIRE_KHZ,
        }
    }

    /// The lowest frequency the model measures.
    #[verifier::when_used_as_spec(spec_min_freq)]
    pub fn min_freq(self) -> (f: Frequency)
        ensures
            f == self.spec_min_freq(),
    {
        Frequency::from_khz(self.min_khz())
    }

    /// The highest frequency the model measures.
    #[verifier::when_used_as_spec(spec_max_freq)]
    pub fn max_freq(self) -> (f: Frequency)
        ensures
            f == self.spec_max_freq(),
    {
        Frequency::from_khz(self.max_khz())
    }

    /// The narrowest span the model sweeps.
    #[verifier::when_used_as_spec(spec_min_span)]
    pub fn min_span(self) -> (f: Frequency)
        ensures
            f == self.spec_min_span(),
    {
        Frequency::from_khz(self.min_span_khz())
    }

    /// The widest span the model sweeps.
    #[verifier::when_used_as_spec(spec_max_span)]
    pub fn max_span(self) -> (f: Frequency)
        ensures
            f == self.spec_max_span(),
    {
        Frequency::from_khz(self.max_span_khz())
    }

    #[verifier::when_used_as_spec(spec_is_plus_model)]
    pub fn is_plus_model(self) -> (r: bool)
        ensures
            r == self.spec_is_plus_model(),
    {
        match self {
            Model::RfeWSub1GPlus => true,
            Model::RfeProAudio => true,
            Model::Rfe24GPlus => true,
            Model::Rfe4GPlus => true,
            Model::Rfe6GPlus => true,
            _ => false,
        }
    }
}

impl crate::common::model::Model for Model {
    open spec fn spec_from_byte(byte: u8) -> Model {
        Model::spec_from_byte(byte)
    }

    fn from_byte(byte: u8) -> (model: Model) {
        Model::from_byte(byte)
    }
}

/// Every model's range can be written in the seven digits of kilohertz that
/// a frame has room for.
pub proof fn lemma_model_ranges(model: Model)
    ensures
        model.spec_min_khz() <= model.spec_max_khz() <= MAX_WIRE_KHZ,
        model.spec_min_span_khz() <= model.spec_max_span_khz(),
{
}

} // verus!
