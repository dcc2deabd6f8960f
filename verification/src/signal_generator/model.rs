use vstd::prelude::*;

verus! {

/// The signal generator models, as the setup frame names them. A byte that
/// names none of them decodes to `Unknown`.
#[derive(Debug, Clone, Copy, PartialEq, Eq, Structural, Hash)]
pub enum Model {
    Rfe6Gen,
    Rfe6GenExpansion,
    Unknown,
}

impl Model {
    pub open spec fn spec_from_byte(byte: u8) -> Model {
        if byte == 60 {
            Model::Rfe6Gen
        } else if byte == 61 {
            Model::Rfe6GenExpansion
        } else {
            Model::Unknown
        }
    }

    /// The model that a byte of the setup frame stands for.
    #[verifier::when_used_as_spec(spec_from_byte)]
    pub fn from_byte(byte: u8) -> (model: Model)
        ensures
            model == Model::spec_from_byte(byte),
    {
        if byte == 60 {
            Model::Rfe6Gen
        } else if byte == 61 {
            Model::Rfe6GenExpansion
        } else {
            Model::Unknown
        }
    }
}

impl crate::common::model::Model for Model {
    open spec fn spec_from_byte(byte: u8) -> Model {
        Model::spec_from_byte(byte)
    }

    fn from_byte(byte: u8) -> (model: Model) {
        Model::from_byte(byte)
    }
}

} // verus!
