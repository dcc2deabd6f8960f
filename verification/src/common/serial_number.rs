//! The serial number frame: `#Sn` and sixteen printable characters.

use vstd::prelude::*;
use crate::common::error::{MessageParseError, ParseFailure};
use crate::common::fields::{
    shape,
    slot_accepts,
    spec_shape,
    Shape,
    PRINTABLE,
};
use crate::common::text::{ascii_chars, ascii_to_string};

verus! {

/// The prefix of the serial number frame: `#Sn`.
pub const SERIAL_NUMBER_PREFIX: [u8; 3] = [35, 83, 110];

/// The layout of the frame: the prefix, then sixteen printable bytes.
pub const SERIAL_NUMBER_PATTERN: [u8; 19] = [
    35, 83, 110,
    PRINTABLE, PRINTABLE, PRINTABLE, PRINTABLE, PRINTABLE, PRINTABLE, PRINTABLE, PRINTABLE,
    PRINTABLE, PRINTABLE, PRINTABLE, PRINTABLE, PRINTABLE, PRINTABLE, PRINTABLE, PRINTABLE,
];

#[derive(Debug, Clone, PartialEq, Eq)]
pub struct SerialNumber {
    serial_number: String,
}

impl View for SerialNumber {
    type V = Seq<char>;

    closed spec fn view(&self) -> Seq<char> {
        self.serial_number@
    }
}

/// What a byte string decodes to as a serial number frame: the sixteen
/// characters.
pub open spec fn spec_decode(bytes: Seq<u8>) -> Result<Seq<char>, ParseFailure> {
    match spec_shape(bytes, SERIAL_NUMBER_PATTERN@) {
        Shape::Malformed => Err(ParseFailure::Invalid),
        Shape::Partial => Err(ParseFailure::Incomplete),
        Shape::Complete => Ok(ascii_chars(bytes.subrange(3, 19))),
    }
}

impl SerialNumber {
    /// Decodes a serial number frame.
    pub fn try_from<'a>(bytes: &'a [u8]) -> (r: Result<SerialNumber, MessageParseError<'a>>)
        ensures
            match r {
                Ok(serial) => spec_decode(bytes@) == Ok::<Seq<char>, ParseFailure>(serial@),
                Err(e) => spec_decode(bytes@) == Err::<Seq<char>, ParseFailure>(e@),
            },
    {
        match shape(bytes, SERIAL_NUMBER_PATTERN.as_slice()) {
            Shape::Malformed => Err(MessageParseError::Invalid),
            Shape::Partial => Err(MessageParseError::Incomplete),
            Shape::Complete => {
                let field = vstd::slice::slice_subrange(bytes, 3, 19);
                proof {
                    assert forall|i: int| 0 <= i < field@.len() implies field@[i] < 128 by {
                        assert(field@[i] == bytes@[i + 3]);
                        assert(SERIAL_NUMBER_PATTERN@[i + 3] == PRINTABLE);
                        assert(slot_accepts(SERIAL_NUMBER_PATTERN@[i + 3], bytes@[i + 3]));
                    }
                }
                Ok(SerialNumber { serial_number: ascii_to_string(field) })
            },
        }
    }

    /// The sixteen characters.
    pub fn as_str(&self) -> (text: &str)
        ensures
            text@ == self@,
    {
        self.serial_number.as_str()
    }

    /// A copy of the serial number.
    pub fn duplicate(&self) -> (r: SerialNumber)
        ensures
            r@ == self@,
    {
        SerialNumber { serial_number: self.serial_number.clone() }
    }
}

} // verus!
