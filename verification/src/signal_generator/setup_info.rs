use vstd::prelude::*;
use crate::common::error::{MessageParseError, ParseFailure};
use crate::common::setup_info::{spec_decode, SetupInfo, SetupInfoValue};
use crate::signal_generator::model::Model;

verus! {

/// The prefix of a signal generator's setup frame: `#C3-M:`.
pub const SETUP_PREFIX: [u8; 6] = [35, 67, 51, 45, 77, 58];

impl SetupInfo<Model> {
    /// Decodes a signal generator's setup frame, such as
    /// `#C3-M:060,255,01.15`.
    pub fn try_from<'a>(bytes: &'a [u8]) -> (r: Result<Self, MessageParseError<'a>>)
        ensures
            match r {
                Ok(info) => spec_decode::<Model>(SETUP_PREFIX@, bytes@) == Ok::<
                    SetupInfoValue<Model>,
                    ParseFailure,
                >(info@),
                Err(e) => spec_decode::<Model>(SETUP_PREFIX@, bytes@) == Err::<
                    SetupInfoValue<Model>,
                    ParseFailure,
                >(e@),
            },
    {
        SetupInfo::try_from_with_prefix(bytes, SETUP_PREFIX.as_slice())
    }
}

} // verus!
