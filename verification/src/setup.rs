//! The setup frame of a spectrum analyzer, read field by field.
//!
//! The frame is `#C2-M:`, then fields separated by commas: the main model,
//! the expansion model, the firmware version. A model is a number of at most
//! 255, which white space may surround and `+` may precede; 255 says that
//! there is no module, and a number that names no known model stands for a
//! model that is not known. The firmware version is the third field without
//! the `\r` or `\r\n` that ends the frame.

use vstd::prelude::*;
use vstd::utf8::encode_utf8;
use crate::common::fields::{all_digits, decimal, is_digit, starts_with, CR, LF};
use crate::common::setup_info::NO_MODULE;
use crate::common::text::{
    from_utf8,
    lossy_string,
    trim,
    unicode_trimmed,
    utf8_chars,
    utf8_lossy,
};
use crate::spectrum_analyzer::model::Model;
use crate::spectrum_analyzer::setup_info::SETUP_PREFIX;

verus! {

/// The spectrum analyzer models.
pub type RfExplorerModel = Model;

#[derive(Clone, Debug, PartialEq, Eq)]
pub struct RfExplorerSetup {
    main_model: RfExplorerModel,
    expansion_model: Option<RfExplorerModel>,
    firmware_version: String,
}

/// The mathematical value of an [`RfExplorerSetup`].
pub struct RfExplorerSetupValue {
    pub main_model: RfExplorerModel,
    pub expansion_model: Option<RfExplorerModel>,
    pub firmware_version: Seq<char>,
}

impl View for RfExplorerSetup {
    type V = RfExplorerSetupValue;

    closed spec fn view(&self) -> RfExplorerSetupValue {
        RfExplorerSetupValue {
            main_model: self.main_model,
            expansion_model: self.expansion_model,
            firmware_version: self.firmware_version@,
        }
    }
}

/// Why bytes could not be read as a setup frame.
#[derive(Debug, Clone, Copy, PartialEq, Eq, Structural)]
pub enum ParseSetupError {
    /// The main model's number says that there is no module.
    ConvertToModelError(u8),
    /// The bytes do not start with `#C2-M:`.
    InvalidFormatError,
    /// The frame ends before the field.
    MissingFieldError,
    /// The field holds no number of at most 255.
    ParseIntError,
    /// The field is not valid UTF-8.
    Utf8Error,
}

impl ParseSetupError {
    /// The text that describes the error.
    pub fn message(&self) -> (text: &'static str)
        ensures
            text@ == match self {
                ParseSetupError::ConvertToModelError(_) => "No model corresponds to the number"@,
                ParseSetupError::InvalidFormatError => {
                    "Invalid RfExplorerSetup: expected bytes to start with #C2-M:"@
                },
                ParseSetupError::MissingFieldError => {
                    "A required field is missing from the bytes"@
                },
                ParseSetupError::ParseIntError => "invalid digit found in string"@,
                ParseSetupError::Utf8Error => "invalid utf-8 sequence"@,
            },
    {
        match self {
            ParseSetupError::ConvertToModelError(_) => "No model corresponds to the number",
            ParseSetupError::InvalidFormatError => {
                "Invalid RfExplorerSetup: expected bytes to start with #C2-M:"
            },
            ParseSetupError::MissingFieldError => "A required field is missing from the bytes",
            ParseSetupError::ParseIntError => "invalid digit found in string",
            ParseSetupError::Utf8Error => "invalid utf-8 sequence",
        }
    }
}

/// The length of the field at the start of `bytes`: the number of bytes
/// before the first comma, or all of them.
pub open spec fn field_len(bytes: Seq<u8>) -> int
    decreases bytes.len(),
{
    if bytes.len() == 0 || bytes[0] == 44 {
        0
    } else {
        1 + field_len(bytes.skip(1))
    }
}

/// The field at the start of `bytes`, where there is one.
pub open spec fn first_field(bytes: Option<Seq<u8>>) -> Option<Seq<u8>> {
    match bytes {
        Some(bytes) => Some(bytes.take(field_len(bytes))),
        None => None,
    }
}

/// What follows the first field and its comma, where a comma follows it.
pub open spec fn after_field(bytes: Option<Seq<u8>>) -> Option<Seq<u8>> {
    match bytes {
        Some(bytes) => if field_len(bytes) < bytes.len() {
            Some(bytes.skip(field_len(bytes) + 1))
        } else {
            None
        },
        None => None,
    }
}

/// The digits of a number: the text without a `+` at its start.
pub open spec fn unsigned(text: Seq<u8>) -> Seq<u8> {
    if text.len() > 0 && text[0] == 43 {
        text.skip(1)
    } else {
        text
    }
}

/// The number that a text writes: an optional `+`, then decimal digits that
/// write a number of at most 255.
pub open spec fn spec_parse_number(text: Seq<u8>) -> Result<u8, ParseSetupError> {
    let digits = unsigned(text);
    if digits.len() == 0 || !all_digits(digits) || decimal(digits) > 255 {
        Err(ParseSetupError::ParseIntError)
    } else {
        Ok(decimal(digits) as u8)
    }
}

/// The number that a field holds: the field is read as UTF-8, the white
/// space around it is taken away, and what is left is read as a number.
pub open spec fn spec_parse_field(field: Option<Seq<u8>>) -> Result<u8, ParseSetupError> {
    match field {
        None => Err(ParseSetupError::MissingFieldError),
        Some(field) => match utf8_chars(field) {
            None => Err(ParseSetupError::Utf8Error),
            Some(text) => spec_parse_number(encode_utf8(unicode_trimmed(text))),
        },
    }
}

/// The module that a number names: none for 255, else the model that the
/// number stands for.
pub open spec fn spec_model(number: u8) -> Option<RfExplorerModel> {
    if number == NO_MODULE {
        None
    } else {
        Some(Model::spec_from_byte(number))
    }
}

/// A field without the `\r\n` or `\r` at its end.
pub open spec fn without_line_ending(field: Seq<u8>) -> Seq<u8> {
    if field.len() >= 2 && field[field.len() - 2] == CR && field[field.len() - 1] == LF {
        field.take(field.len() - 2)
    } else if field.len() >= 1 && field[field.len() - 1] == CR {
        field.take(field.len() - 1)
    } else {
        field
    }
}

/// What a byte string reads as.
pub open spec fn spec_setup(bytes: Seq<u8>) -> Result<RfExplorerSetupValue, ParseSetupError> {
    let fields = Some(bytes.skip(6));
    let main = spec_parse_field(first_field(fields));
    let expansion = spec_parse_field(first_field(after_field(fields)));
    let firmware = first_field(after_field(after_field(fields)));
    if !SETUP_PREFIX@.is_prefix_of(bytes) {
        Err(ParseSetupError::InvalidFormatError)
    } else if main is Err {
        Err(main->Err_0)
    } else if spec_model(main->Ok_0) is None {
        Err(ParseSetupError::ConvertToModelError(main->Ok_0))
    } else if expansion is Err {
        Err(expansion->Err_0)
    } else if firmware is None {
        Err(ParseSetupError::MissingFieldError)
    } else {
        Ok(
            RfExplorerSetupValue {
                main_model: spec_model(main->Ok_0)->0,
                expansion_model: spec_model(expansion->Ok_0),
                firmware_version: utf8_lossy(without_line_ending(firmware->0)),
            },
        )
    }
}

/// `field_len` is the one place `n` before which no comma stands and at
/// which one does, or the bytes end.
pub proof fn lemma_field_len(bytes: Seq<u8>, n: int)
    requires
        0 <= n <= bytes.len(),
        forall|i: int| 0 <= i < n ==> bytes[i] != 44,
        n < bytes.len() ==> bytes[n] == 44,
    ensures
        field_len(bytes) == n,
    decreases n,
{
    if n > 0 {
        lemma_field_len(bytes.skip(1), n - 1);
    }
}

/// More digits never make a number smaller.
pub proof fn lemma_decimal_grows(digits: Seq<u8>, n: int)
    requires
        all_digits(digits),
        0 <= n <= digits.len(),
    ensures
        decimal(digits.take(n)) <= decimal(digits),
    decreases digits.len() - n,
{
    if n < digits.len() {
        lemma_decimal_grows(digits, n + 1);
        assert(digits.take(n + 1).drop_last() =~= digits.take(n));
        assert(is_digit(digits[n]));
        assert(digits.take(n + 1).last() == digits[n]);
    } else {
        assert(digits.take(n) =~= digits);
    }
}

/// Reads the number that a text writes.
pub fn parse_number(text: &[u8]) -> (r: Result<u8, ParseSetupError>)
    ensures
        r == spec_parse_number(text@),
{
    let from: usize = if text.len() > 0 && text[0] == 43 {
        1
    } else {
        0
    };
    let end = text.len();
    let ghost digits = text@.subrange(from as int, end as int);
    assert(digits =~= unsigned(text@));
    if from == end {
        return Err(ParseSetupError::ParseIntError);
    }
    assert(digits.take(0) =~= Seq::<u8>::empty());
    let mut value: u32 = 0;
    let mut k: usize = from;
    while k < end
        invariant
            from <= k <= end,
            end == text.len(),
            digits == unsigned(text@),
            digits == text@.subrange(from as int, end as int),
            all_digits(digits.take(k - from)),
            value == decimal(digits.take(k - from)),
            value <= 255,
        decreases end - k,
    {
        let byte = text[k];
        assert(digits[k - from] == byte);
        if byte < 48 || byte > 57 {
            assert(!is_digit(digits[k - from]));
            return Err(ParseSetupError::ParseIntError);
        }
        let ghost next = digits.take(k - from + 1);
        assert(next.drop_last() =~= digits.take(k - from));
        assert(next.last() == byte);
        assert(all_digits(next)) by {
            assert forall|j: int| 0 <= j < next.len() implies is_digit(#[trigger] next[j]) by {
                if j < next.len() - 1 {
                    assert(next[j] == digits.take(k - from)[j]);
                }
            }
        }
        value = value * 10 + (byte - 48) as u32;
        if value > 255 {
            proof {
                if all_digits(digits) {
                    lemma_decimal_grows(digits, k - from + 1);
                }
            }
            return Err(ParseSetupError::ParseIntError);
        }
        k += 1;
    }
    assert(digits.take(end - from) =~= digits);
    Ok(value as u8)
}

/// Reads the number that a field holds.
pub fn parse_field(field: Option<&[u8]>) -> (r: Result<u8, ParseSetupError>)
    ensures
        r == spec_parse_field(
            match field {
                Some(f) => Some(f@),
                None => None,
            },
        ),
{
    match field {
        None => Err(ParseSetupError::MissingFieldError),
        Some(bytes) => match from_utf8(bytes) {
            None => Err(ParseSetupError::Utf8Error),
            Some(text) => parse_number(trim(text).as_bytes()),
        },
    }
}

/// The module that a number names.
fn model(number: u8) -> (r: Option<RfExplorerModel>)
    ensures
        r == spec_model(number),
{
    if number == NO_MODULE {
        None
    } else {
        Some(Model::from_byte(number))
    }
}

/// The end of a field without the line ending at its end.
fn before_line_ending(bytes: &[u8], start: usize, end: usize) -> (cut: usize)
    requires
        start <= end <= bytes.len(),
    ensures
        start <= cut <= end,
        bytes@.subrange(start as int, cut as int) == without_line_ending(
            bytes@.subrange(start as int, end as int),
        ),
{
    let ghost field = bytes@.subrange(start as int, end as int);
    let cut = if end - start >= 2 && bytes[end - 2] == CR && bytes[end - 1] == LF {
        end - 2
    } else if end - start >= 1 && bytes[end - 1] == CR {
        end - 1
    } else {
        end
    };
    assert(bytes@.subrange(start as int, cut as int) =~= without_line_ending(field));
    cut
}

/// The end of the field that starts at `start`.
fn field_end(bytes: &[u8], start: usize) -> (end: usize)
    requires
        start <= bytes.len(),
    ensures
        start <= end <= bytes.len(),
        end - start == field_len(bytes@.skip(start as int)),
{
    let mut end = start;
    while end < bytes.len() && bytes[end] != 44
        invariant
            start <= end <= bytes.len(),
            forall|i: int| start <= i < end ==> bytes@[i] != 44,
        decreases bytes.len() - end,
    {
        end += 1;
    }
    proof {
        lemma_field_len(bytes@.skip(start as int), end - start);
    }
    end
}

impl RfExplorerSetup {
    pub fn main_model(&self) -> (r: RfExplorerModel)
        ensures
            r == self@.main_model,
    {
        self.main_model
    }

    pub fn expansion_model(&self) -> (r: Option<RfExplorerModel>)
        ensures
            r == self@.expansion_model,
    {
        self.expansion_model
    }

    pub fn firmware_version(&self) -> (r: &str)
        ensures
            r@ == self@.firmware_version,
    {
        self.firmware_version.as_str()
    }

    /// Reads a setup frame.
    pub fn try_from(value: &[u8]) -> (r: Result<RfExplorerSetup, ParseSetupError>)
        ensures
            match r {
                Ok(setup) => spec_setup(value@) == Ok::<RfExplorerSetupValue, ParseSetupError>(
                    setup@,
                ),
                Err(e) => spec_setup(value@) == Err::<RfExplorerSetupValue, ParseSetupError>(e),
            },
    {
        if !starts_with(value, SETUP_PREFIX.as_slice()) {
            return Err(ParseSetupError::InvalidFormatError);
        }
        let ghost fields = value@.skip(6);
        let first_end = field_end(value, 6);
        let first = vstd::slice::slice_subrange(value, 6, first_end);
        assert(first@ =~= fields.take(field_len(fields)));
        let main = match parse_field(Some(first)) {
            Ok(number) => number,
            Err(e) => {
                return Err(e);
            },
        };
        let main_model = match model(main) {
            Some(model) => model,
            None => {
                return Err(ParseSetupError::ConvertToModelError(main));
            },
        };
        if first_end == value.len() {
            return Err(ParseSetupError::MissingFieldError);
        }
        let second_start = first_end + 1;
        assert(value@.skip(second_start as int) =~= fields.skip(field_len(fields) + 1));
        let ghost second_fields = value@.skip(second_start as int);
        let second_end = field_end(value, second_start);
        let second = vstd::slice::slice_subrange(value, second_start, second_end);
        assert(second@ =~= second_fields.take(field_len(second_fields)));
        let expansion = match parse_field(Some(second)) {
            Ok(number) => number,
            Err(e) => {
                return Err(e);
            },
        };
        if second_end == value.len() {
            return Err(ParseSetupError::MissingFieldError);
        }
        let third_start = second_end + 1;
        assert(value@.skip(third_start as int) =~= second_fields.skip(
            field_len(second_fields) + 1,
        ));
        let ghost third_fields = value@.skip(third_start as int);
        let third_end = field_end(value, third_start);
        assert(value@.subrange(third_start as int, third_end as int) =~= third_fields.take(
            field_len(third_fields),
        ));
        let cut = before_line_ending(value, third_start, third_end);
        let third = vstd::slice::slice_subrange(value, third_start, cut);
        Ok(
            RfExplorerSetup {
                main_model,
                expansion_model: model(expansion),
                firmware_version: lossy_string(third),
            },
        )
    }
}

} // verus!
