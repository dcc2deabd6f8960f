//! The setup frame: which radio modules a device holds and what firmware it
//! runs.
//!
//! The frame is a six-byte prefix that tells the device class, the main model
//! and the expansion model as three digits each, and the firmware version as
//! printable text up to the end of the line: `#C2-M:006,004,01.12B20`.

use vstd::prelude::*;
use crate::common::error::{MessageParseError, ParseFailure};
use crate::common::fields::{
    all_digits,
    conforms,
    decimal,
    fits,
    is_digit,
    is_line_ending,
    line_ending,
    parse_decimal,
    DIGIT,
};
use crate::common::model::Model;
use crate::common::text::{ascii_chars, ascii_to_string, count_printable, printable_run};

verus! {

/// The model byte that says that a slot holds no module.
pub const NO_MODULE: u8 = 255;

#[derive(Debug, Clone, PartialEq, Eq)]
pub struct SetupInfo<M> {
    pub main_radio_model: Option<M>,
    pub expansion_radio_model: Option<M>,
    pub firmware_version: String,
}

/// The mathematical value of a [`SetupInfo`].
pub struct SetupInfoValue<M> {
    pub main_radio_model: Option<M>,
    pub expansion_radio_model: Option<M>,
    pub firmware_version: Seq<char>,
}

impl<M> View for SetupInfo<M> {
    type V = SetupInfoValue<M>;

    open spec fn view(&self) -> SetupInfoValue<M> {
        SetupInfoValue {
            main_radio_model: self.main_radio_model,
            expansion_radio_model: self.expansion_radio_model,
            firmware_version: self.firmware_version@,
        }
    }
}

/// The layout of the frame up to the firmware version.
pub open spec fn head_pattern(prefix: Seq<u8>) -> Seq<u8> {
    prefix + seq![DIGIT, DIGIT, DIGIT, 44u8, DIGIT, DIGIT, DIGIT, 44u8]
}

/// The module that a model field names: none for 255, else the model that
/// the byte stands for.
pub open spec fn spec_module<M: Model>(value: nat) -> Option<M> {
    if value == NO_MODULE {
        None
    } else {
        Some(M::spec_from_byte(value as u8))
    }
}

/// What a byte string decodes to as the setup frame with the given prefix.
pub open spec fn spec_decode<M: Model>(prefix: Seq<u8>, bytes: Seq<u8>) -> Result<
    SetupInfoValue<M>,
    ParseFailure,
> {
    let head = head_pattern(prefix);
    let p = prefix.len() as int;
    let main = decimal(bytes.subrange(p, p + 3));
    let expansion = decimal(bytes.subrange(p + 4, p + 7));
    let rest = bytes.skip(head.len() as int);
    let run = printable_run(rest);
    if !conforms(bytes, head) {
        Err(ParseFailure::Invalid)
    } else if bytes.len() < head.len() {
        Err(ParseFailure::Incomplete)
    } else if main > 255 || expansion > 255 {
        Err(ParseFailure::Invalid)
    } else if !is_line_ending(rest.skip(run)) {
        Err(ParseFailure::Invalid)
    } else {
        Ok(
            SetupInfoValue {
                main_radio_model: spec_module::<M>(main),
                expansion_radio_model: spec_module::<M>(expansion),
                firmware_version: ascii_chars(rest.take(run)),
            },
        )
    }
}

fn module<M: Model>(value: u32) -> (r: Option<M>)
    requires
        value <= 255,
    ensures
        r == spec_module::<M>(value as nat),
{
    if value == 255 {
        None
    } else {
        Some(M::from_byte(value as u8))
    }
}

impl<M: Model> SetupInfo<M> {
    /// Decodes the setup frame that starts with `prefix`.
    pub fn try_from_with_prefix<'a>(bytes: &'a [u8], prefix: &[u8]) -> (r: Result<
        Self,
        MessageParseError<'a>,
    >)
        requires
            prefix@.len() + 8 <= usize::MAX,
        ensures
            match r {
                Ok(info) => spec_decode::<M>(prefix@, bytes@) == Ok::<
                    SetupInfoValue<M>,
                    ParseFailure,
                >(info@),
                Err(e) => spec_decode::<M>(prefix@, bytes@) == Err::<
                    SetupInfoValue<M>,
                    ParseFailure,
                >(e@),
            },
    {
        let mut head: Vec<u8> = Vec::new();
        let mut i: usize = 0;
        while i < prefix.len()
            invariant
                i <= prefix.len(),
                head@ == prefix@.take(i as int),
            decreases prefix.len() - i,
        {
            head.push(prefix[i]);
            assert(prefix@.take(i + 1) =~= prefix@.take(i as int).push(prefix@[i as int]));
            i += 1;
        }
        head.push(DIGIT);
        head.push(DIGIT);
        head.push(DIGIT);
        head.push(44);
        head.push(DIGIT);
        head.push(DIGIT);
        head.push(DIGIT);
        head.push(44);
        assert(head@ =~= head_pattern(prefix@));
        let p = prefix.len();
        if !fits(bytes, head.as_slice()) {
            return Err(MessageParseError::Invalid);
        }
        if bytes.len() < head.len() {
            return Err(MessageParseError::Incomplete);
        }
        proof {
            assert forall|k: int| p <= k < p + 3 || p + 4 <= k < p + 7 implies is_digit(
                #[trigger] bytes@[k],
            ) by {
                assert(head@[k] == DIGIT);
            }
            assert(all_digits(bytes@.subrange(p as int, p + 3)));
            assert(all_digits(bytes@.subrange(p + 4, p + 7)));
        }
        let main = parse_decimal(bytes, p, 3);
        let expansion = parse_decimal(bytes, p + 4, 3);
        if main > 255 || expansion > 255 {
            return Err(MessageParseError::Invalid);
        }
        let start = head.len();
        let run = count_printable(bytes, start);
        let tail = vstd::slice::slice_subrange(bytes, start + run, bytes.len());
        assert(tail@ =~= bytes@.skip(start as int).skip(run as int));
        if !line_ending(tail) {
            return Err(MessageParseError::Invalid);
        }
        let firmware = vstd::slice::slice_subrange(bytes, start, start + run);
        assert(firmware@ =~= bytes@.skip(start as int).take(run as int));
        let firmware_version = ascii_to_string(firmware);
        Ok(
            SetupInfo {
                main_radio_model: module::<M>(main),
                expansion_radio_model: module::<M>(expansion),
                firmware_version,
            },
        )
    }
}

impl<M: Copy> SetupInfo<M> {
    /// A copy of the setup information.
    pub fn duplicate(&self) -> (r: SetupInfo<M>)
        ensures
            r@ == self@,
    {
        SetupInfo {
            main_radio_model: self.main_radio_model,
            expansion_radio_model: self.expansion_radio_model,
            firmware_version: self.firmware_version.clone(),
        }
    }
}

/// A setup frame names an expansion module exactly where its second model
/// field is not 255, and a main module exactly where its first is not.
pub proof fn lemma_module_presence<M: Model>(prefix: Seq<u8>, bytes: Seq<u8>)
    ensures
        spec_decode::<M>(prefix, bytes) matches Ok(info) ==> {
            let p = prefix.len() as int;
            &&& info.main_radio_model is Some <==> decimal(bytes.subrange(p, p + 3)) != NO_MODULE
            &&& info.expansion_radio_model is Some <==> decimal(bytes.subrange(p + 4, p + 7))
                != NO_MODULE
        },
{
}

} // verus!
