//! The screen dump: `$D` and the 128 by 64 pixels of the device's display.
//!
//! The display is sent as eight rows of 128 bytes. Each byte holds eight
//! pixels of one column, the topmost in the lowest bit. The device sends no
//! time stamp: a dump carries the host's clock at the moment it was decoded.

use vstd::prelude::*;
use crate::common::clock::now_millis;
use crate::common::error::{MessageParseError, ParseFailure};
use crate::common::fields::{is_line_ending, line_ending};

verus! {

/// The prefix of the screen dump: `$D`.
pub const SCREEN_DATA_PREFIX: [u8; 2] = [36, 68];

pub const SCREEN_WIDTH: usize = 128;

pub const SCREEN_HEIGHT: usize = 64;

/// The number of bytes that hold the pixels.
pub const SCREEN_BYTES: usize = 1024;

#[derive(Debug, PartialEq, Eq)]
pub struct ScreenData {
    pixels: Vec<u8>,
    timestamp: i64,
}

/// The mathematical value of a [`ScreenData`].
pub struct ScreenDataValue {
    pub pixels: Seq<u8>,
    pub timestamp: i64,
}

impl View for ScreenData {
    type V = ScreenDataValue;

    closed spec fn view(&self) -> ScreenDataValue {
        ScreenDataValue { pixels: self.pixels@, timestamp: self.timestamp }
    }
}

/// What a byte string decodes to as a screen dump: the 1024 bytes of pixels.
pub open spec fn spec_decode(bytes: Seq<u8>) -> Result<Seq<u8>, ParseFailure> {
    if bytes.len() >= 1 && bytes[0] != 36 {
        Err(ParseFailure::Invalid)
    } else if bytes.len() >= 2 && bytes[1] != 68 {
        Err(ParseFailure::Invalid)
    } else if bytes.len() < 2 + SCREEN_BYTES {
        Err(ParseFailure::Incomplete)
    } else if !is_line_ending(bytes.skip(2 + SCREEN_BYTES)) {
        Err(ParseFailure::Invalid)
    } else {
        Ok(bytes.subrange(2, 2 + SCREEN_BYTES))
    }
}

/// Whether the pixel in column `x` and line `y` is lit.
pub open spec fn spec_pixel(pixels: Seq<u8>, x: int, y: int) -> bool {
    (pixels[(y / 8) * 128 + x] >> ((y % 8) as u8)) & 1u8 == 1u8
}

impl ScreenData {
    #[verifier::type_invariant]
    spec fn well_formed(self) -> bool {
        self.pixels@.len() == SCREEN_BYTES
    }

    /// Decodes a screen dump and stamps it with the host's clock.
    pub fn try_from<'a>(bytes: &'a [u8]) -> (r: Result<ScreenData, MessageParseError<'a>>)
        ensures
            match r {
                Ok(screen) => spec_decode(bytes@) == Ok::<Seq<u8>, ParseFailure>(screen@.pixels),
                Err(e) => spec_decode(bytes@) == Err::<Seq<u8>, ParseFailure>(e@),
            },
    {
        let timestamp = now_millis();
        ScreenData::received_at(bytes, timestamp)
    }

    /// Decodes a screen dump that the host received at `timestamp`.
    pub fn received_at<'a>(bytes: &'a [u8], timestamp: i64) -> (r: Result<
        ScreenData,
        MessageParseError<'a>,
    >)
        ensures
            match r {
                Ok(screen) => spec_decode(bytes@) == Ok::<Seq<u8>, ParseFailure>(screen@.pixels)
                    && screen@.timestamp == timestamp,
                Err(e) => spec_decode(bytes@) == Err::<Seq<u8>, ParseFailure>(e@),
            },
    {
        if bytes.len() >= 1 && bytes[0] != 36 {
            return Err(MessageParseError::Invalid);
        }
        if bytes.len() >= 2 && bytes[1] != 68 {
            return Err(MessageParseError::Invalid);
        }
        if bytes.len() < 2 + SCREEN_BYTES {
            return Err(MessageParseError::Incomplete);
        }
        let tail = vstd::slice::slice_subrange(bytes, 2 + SCREEN_BYTES, bytes.len());
        assert(tail@ =~= bytes@.skip(2 + SCREEN_BYTES));
        if !line_ending(tail) {
            return Err(MessageParseError::Invalid);
        }
        let pixels = vstd::slice::slice_to_vec(
            vstd::slice::slice_subrange(bytes, 2, 2 + SCREEN_BYTES),
        );
        Ok(ScreenData { pixels, timestamp })
    }

    /// The pixels as the device sent them.
    pub fn pixels(&self) -> (r: &[u8])
        ensures
            r@ == self@.pixels,
            r@.len() == SCREEN_BYTES,
    {
        proof {
            use_type_invariant(self);
        }
        self.pixels.as_slice()
    }

    /// Whether the pixel in column `x` and line `y` is lit.
    pub fn pixel(&self, x: usize, y: usize) -> (lit: bool)
        requires
            x < SCREEN_WIDTH,
            y < SCREEN_HEIGHT,
        ensures
            lit == spec_pixel(self@.pixels, x as int, y as int),
    {
        proof {
            use_type_invariant(self);
        }
        let byte = self.pixels[(y / 8) * 128 + x];
        (byte >> ((y % 8) as u8)) & 1u8 == 1u8
    }

    /// The host's clock when the dump was received, in milliseconds since the
    /// Unix epoch.
    pub fn timestamp(&self) -> (r: i64)
        ensures
            r == self@.timestamp,
    {
        self.timestamp
    }

    /// Whether both dumps hold the same pixels and time stamp.
    pub fn same(&self, other: &ScreenData) -> (r: bool)
        ensures
            r == (self@ == other@),
    {
        proof {
            use_type_invariant(self);
            use_type_invariant(other);
        }
        if self.timestamp != other.timestamp {
            return false;
        }
        let mut i: usize = 0;
        while i < SCREEN_BYTES
            invariant
                i <= SCREEN_BYTES,
                self.pixels@.len() == SCREEN_BYTES,
                other.pixels@.len() == SCREEN_BYTES,
                forall|j: int| 0 <= j < i ==> self.pixels@[j] == other.pixels@[j],
            decreases SCREEN_BYTES - i,
        {
            if self.pixels[i] != other.pixels[i] {
                return false;
            }
            i += 1;
        }
        assert(self.pixels@ =~= other.pixels@);
        true
    }

    /// A copy of the dump.
    pub fn duplicate(&self) -> (r: ScreenData)
        ensures
            r@ == self@,
    {
        proof {
            use_type_invariant(self);
        }
        ScreenData {
            pixels: vstd::slice::slice_to_vec(self.pixels.as_slice()),
            timestamp: self.timestamp,
        }
    }
}

impl Clone for ScreenData {
    fn clone(&self) -> (r: ScreenData)
        ensures
            r@ == self@,
    {
        self.duplicate()
    }
}

} // verus!
