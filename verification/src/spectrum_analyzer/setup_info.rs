use vstd::prelude::*;
use crate::common::error::{MessageParseError, ParseFailure};
use crate::common::setup_info::{spec_decode, SetupInfo, SetupInfoValue};
use crate::spectrum_analyzer::model::Model;

verus! {

/// The prefix of a spectrum analyzer's setup frame: `#C2-M:`.
pub const SETUP_PREFIX: [u8; 6] = [35, 67, 50, 45, 77, 58];

impl SetupInfo<Model> {
    /// Decodes a spectrum analyzer's setup frame, such as
    /// `#C2-M:006,004,01.12B20`.
    pub fn try_from<'a>(bytes: &'a [u8]) -> (r: Result<Self, MessageParseError<'a>>)
        ensures
            match r {
                Ok(info) => spec_decode::<Model>(SETUP_PREFIX@, bytes@) == Ok::<
                    SetupInfoValue<Model>,
                    ParseFailure,
                >(info@),
                Err(e) => spec_decode::<Model>(SETUP_PREFIX@, bytes@) == Err::<
                    SetupInfoValue<Model>,
                    ParseFailure,
                >(e@),
            },
    {
        SetupInfo::try_from_with_prefix(bytes, SETUP_PREFIX.as_slice())
    }
}

} // verus!
