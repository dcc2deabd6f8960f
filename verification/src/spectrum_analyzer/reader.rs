//! The reader: it finds the frames in the stream of bytes that a spectrum
//! analyzer sends.
//!
//! The host appends what it has read to the reader's buffer. The reader then
//! looks at the head of the buffer, over and over:
//!
//! - A sweep or a screen dump reaches as far as its length says, and takes
//!   the line ending behind it along. While its end has not arrived, all of
//!   the buffer is looked at, so that a sweep that was cut short is found
//!   out.
//! - Any other frame is a line: it reaches up to the first `\r`, and takes a
//!   `\n` behind it along. A line whose `\r` has not arrived has to wait.
//! - A head that starts no frame is dropped byte by byte, until a frame
//!   starts.
//!
//! What was framed is decoded. A message is handed out; a frame that does not
//! decode is dropped by one byte; a sweep that was cut short is dropped up to
//! the place where decoding starts again.

use vstd::prelude::*;
use crate::common::clock::now_millis;
use crate::common::error::{MessageParseError, ParseFailure};
use crate::common::fields::{conforms, slot_accepts, starts_with, CR, LF};
use crate::common::option_view;
use crate::common::screen_data::{SCREEN_BYTES, SCREEN_DATA_PREFIX};
use crate::common::serial_number::SERIAL_NUMBER_PREFIX;
use crate::spectrum_analyzer::config::{
    lemma_short_frame,
    lemma_short_frame_bytes,
    short_config,
    CONFIG_PREFIX,
    SHORT_PATTERN,
};
use crate::spectrum_analyzer::kinds::{
    DSP_MODE_PREFIX,
    INPUT_STAGE_PREFIX,
    TRACKING_STATUS_PREFIX,
};
use crate::spectrum_analyzer::message::{
    has_known_prefix,
    lemma_truncated_remainder,
    spec_decode,
    Message,
    MessageValue,
    SWEEP_EXT_PREFIX,
    SWEEP_LARGE_PREFIX,
    SWEEP_STANDARD_PREFIX,
};
use crate::spectrum_analyzer::setup_info::SETUP_PREFIX;
use crate::spectrum_analyzer::sweep::Encoding;

verus! {

/// The most bytes that the buffer keeps while it waits for a frame to end.
/// The longest frame, a large sweep of 65535 amplitudes, fits.
pub const MAX_BUFFER: usize = 131_072;

/// What stands at the head of the buffer.
#[derive(Debug, Clone, Copy, PartialEq, Eq, Structural)]
pub enum Framing {
    /// Too little to tell, or a line that has not ended.
    NeedMore,
    /// The head starts no frame.
    Skip,
    /// The first bytes, this many, are to be decoded as one frame.
    Candidate(usize),
}

/// Whether the head starts a sweep or a screen dump, which are framed by
/// their length.
pub open spec fn is_binary(buf: Seq<u8>) -> bool {
    ||| SWEEP_STANDARD_PREFIX@.is_prefix_of(buf)
    ||| SWEEP_EXT_PREFIX@.is_prefix_of(buf)
    ||| SWEEP_LARGE_PREFIX@.is_prefix_of(buf)
    ||| SCREEN_DATA_PREFIX@.is_prefix_of(buf)
}

/// The encoding of the sweep that the head starts.
pub open spec fn sweep_encoding(buf: Seq<u8>) -> Encoding {
    if SWEEP_STANDARD_PREFIX@.is_prefix_of(buf) {
        Encoding::Standard
    } else if SWEEP_EXT_PREFIX@.is_prefix_of(buf) {
        Encoding::Ext
    } else {
        Encoding::Large
    }
}

/// Where the payload of the sweep or screen dump at the head ends, as far as
/// the head tells: a sweep whose length field has not arrived tells nothing.
pub open spec fn payload_end(buf: Seq<u8>) -> Option<int> {
    if SCREEN_DATA_PREFIX@.is_prefix_of(buf) {
        Some(2 + SCREEN_BYTES as int)
    } else {
        let encoding = sweep_encoding(buf);
        let width = encoding.spec_length_width();
        if buf.len() < 2 + width {
            None
        } else {
            Some(2 + width + encoding.spec_count(buf.skip(2)))
        }
    }
}

/// The length of the line ending at the start of `tail`: 2 for `\r\n`, 1
/// for `\r`, else 0.
pub open spec fn line_ending_len(tail: Seq<u8>) -> int {
    if tail.len() >= 2 && tail[0] == CR && tail[1] == LF {
        2
    } else if tail.len() >= 1 && tail[0] == CR {
        1
    } else {
        0
    }
}

/// How far the sweep or screen dump at the head reaches: to the end of its
/// payload and of the line ending behind it, or, while the payload has not
/// arrived in full, to the end of the buffer.
pub open spec fn binary_extent(buf: Seq<u8>) -> int {
    match payload_end(buf) {
        Some(end) => if end <= buf.len() {
            end + line_ending_len(buf.skip(end))
        } else {
            buf.len() as int
        },
        None => buf.len() as int,
    }
}

pub open spec fn has_cr(buf: Seq<u8>) -> bool {
    exists|i: int| 0 <= i < buf.len() && buf[i] == CR
}

pub open spec fn is_first_cr(buf: Seq<u8>, i: int) -> bool {
    &&& 0 <= i < buf.len()
    &&& buf[i] == CR
    &&& forall|j: int| 0 <= j < i ==> buf[j] != CR
}

/// The place of the first `\r`, where there is one.
pub open spec fn first_cr(buf: Seq<u8>) -> int {
    choose|i: int| is_first_cr(buf, i)
}

/// How far the line at the head reaches: past its first `\r`, and past a
/// `\n` that follows at once.
pub open spec fn line_extent(buf: Seq<u8>) -> int {
    let cr = first_cr(buf);
    if cr + 1 < buf.len() && buf[cr + 1] == LF {
        cr + 2
    } else {
        cr + 1
    }
}

/// `buf` is the beginning of `prefix`, and shorter.
pub open spec fn starts(buf: Seq<u8>, prefix: Seq<u8>) -> bool {
    buf.len() < prefix.len() && buf.is_prefix_of(prefix)
}

/// Whether more bytes can turn `buf` into the start of a frame.
pub open spec fn may_become_frame(buf: Seq<u8>) -> bool {
    ||| starts(buf, CONFIG_PREFIX@)
    ||| starts(buf, SWEEP_STANDARD_PREFIX@)
    ||| starts(buf, SWEEP_EXT_PREFIX@)
    ||| starts(buf, SWEEP_LARGE_PREFIX@)
    ||| starts(buf, SCREEN_DATA_PREFIX@)
    ||| starts(buf, DSP_MODE_PREFIX@)
    ||| starts(buf, INPUT_STAGE_PREFIX@)
    ||| starts(buf, TRACKING_STATUS_PREFIX@)
    ||| starts(buf, SERIAL_NUMBER_PREFIX@)
    ||| starts(buf, SETUP_PREFIX@)
}

/// What stands at the head of `buf`.
pub open spec fn spec_frame(buf: Seq<u8>) -> Framing {
    if is_binary(buf) {
        Framing::Candidate(binary_extent(buf) as usize)
    } else if has_known_prefix(buf) {
        if has_cr(buf) {
            Framing::Candidate(line_extent(buf) as usize)
        } else {
            Framing::NeedMore
        }
    } else if may_become_frame(buf) {
        Framing::NeedMore
    } else {
        Framing::Skip
    }
}

/// What the reader does with the head of the buffer.
pub enum Step {
    /// Nothing, until more bytes arrive.
    Wait,
    /// It drops this many bytes.
    Advance(int),
    /// It hands out the message and drops the bytes that held it.
    Deliver(MessageValue, int),
}

/// What the reader does with the head of `buf` at the time `timestamp`.
#[verifier::opaque]
pub open spec fn spec_step(buf: Seq<u8>, timestamp: i64) -> Step {
    match spec_frame(buf) {
        Framing::NeedMore => Step::Wait,
        Framing::Skip => Step::Advance(1),
        Framing::Candidate(n) => match spec_decode(buf.take(n as int), timestamp) {
            Ok(message) => Step::Deliver(message, n as int),
            Err(ParseFailure::Incomplete) => Step::Wait,
            Err(ParseFailure::Truncated { remainder: Some(rest) }) => Step::Advance(
                n - rest.len(),
            ),
            Err(_) => Step::Advance(1),
        },
    }
}

/// The first message in `buf`, if a whole one is there, and what is left of
/// `buf` behind it; without a message, what is left is what has to wait for
/// more bytes.
pub open spec fn spec_scan(buf: Seq<u8>, timestamp: i64) -> (Option<MessageValue>, Seq<u8>)
    decreases buf.len(),
{
    match spec_step(buf, timestamp) {
        Step::Wait => (None, buf),
        Step::Deliver(message, n) => (Some(message), buf.skip(n)),
        Step::Advance(n) => {
            if 0 < n <= buf.len() {
                spec_scan(buf.skip(n), timestamp)
            } else {
                (None, buf)
            }
        },
    }
}

/// The first `\r` is the only place that satisfies `is_first_cr`.
pub proof fn lemma_first_cr(buf: Seq<u8>, i: int)
    requires
        is_first_cr(buf, i),
    ensures
        has_cr(buf),
        first_cr(buf) == i,
{
    let k = first_cr(buf);
    assert(is_first_cr(buf, k));
}

/// Where there is a `\r`, there is a first one.
pub proof fn lemma_least_cr(buf: Seq<u8>, k: int)
    requires
        0 <= k < buf.len(),
        buf[k] == CR,
    ensures
        is_first_cr(buf, first_cr(buf)),
    decreases k,
{
    if forall|j: int| 0 <= j < k ==> buf[j] != CR {
        assert(is_first_cr(buf, k));
    } else {
        let j = choose|j: int| 0 <= j < k && buf[j] == CR;
        lemma_least_cr(buf, j);
    }
}

/// What is framed is never empty and never more than what is there.
pub proof fn lemma_candidate_extent(buf: Seq<u8>)
    requires
        buf.len() <= usize::MAX,
    ensures
        spec_frame(buf) matches Framing::Candidate(n) ==> 0 < n <= buf.len(),
{
    if is_binary(buf) {
        assert(buf.len() >= 2);
    } else if has_known_prefix(buf) && has_cr(buf) {
        let k = choose|k: int| 0 <= k < buf.len() && buf[k] == CR;
        lemma_least_cr(buf, k);
    }
}

/// The reader always gets on: whenever it does not wait, it drops at least
/// one byte, and never more than the buffer holds. So no stream of bytes,
/// however broken, holds it up for ever.
pub proof fn lemma_progress(buf: Seq<u8>, timestamp: i64)
    requires
        buf.len() <= usize::MAX,
    ensures
        spec_step(buf, timestamp) matches Step::Advance(n) ==> 0 < n <= buf.len(),
        spec_step(buf, timestamp) matches Step::Deliver(_, n) ==> 0 < n <= buf.len(),
{
    reveal(spec_step);
    lemma_candidate_extent(buf);
    match spec_frame(buf) {
        Framing::Candidate(n) => {
            lemma_truncated_remainder(buf.take(n as int), timestamp);
        },
        Framing::Skip => {
            if buf.len() == 0 {
                assert(Seq::<u8>::empty().is_prefix_of(CONFIG_PREFIX@));
                assert(buf =~= Seq::<u8>::empty());
                assert(starts(buf, CONFIG_PREFIX@));
            }
        },
        Framing::NeedMore => {},
    }
}

/// Whether a byte starts none of the frames: it is none of `#`, `$` and
/// `D`.
pub open spec fn starts_no_frame(byte: u8) -> bool {
    byte != 35 && byte != 36 && byte != 68
}

/// Bytes that start no frame are dropped: the reader comes to what stands
/// behind them as if they had not been there.
pub proof fn lemma_scan_drops_noise(noise: Seq<u8>, rest: Seq<u8>, timestamp: i64)
    requires
        forall|i: int| 0 <= i < noise.len() ==> starts_no_frame(#[trigger] noise[i]),
    ensures
        spec_scan(noise + rest, timestamp) == spec_scan(rest, timestamp),
    decreases noise.len(),
{
    if noise.len() == 0 {
        assert(noise + rest =~= rest);
    } else {
        reveal(spec_step);
        let buf = noise + rest;
        assert(buf[0] == noise[0]);
        assert(starts_no_frame(noise[0]));
        assert(spec_frame(buf) == Framing::Skip) by {
            assert(CONFIG_PREFIX@[0] == 35 && SETUP_PREFIX@[0] == 35);
            assert(SERIAL_NUMBER_PREFIX@[0] == 35 && INPUT_STAGE_PREFIX@[0] == 35);
            assert(TRACKING_STATUS_PREFIX@[0] == 35 && DSP_MODE_PREFIX@[0] == 68);
            assert(SWEEP_STANDARD_PREFIX@[0] == 36 && SWEEP_EXT_PREFIX@[0] == 36);
            assert(SWEEP_LARGE_PREFIX@[0] == 36 && SCREEN_DATA_PREFIX@[0] == 36);
        }
        assert(buf.skip(1) =~= noise.skip(1) + rest);
        lemma_scan_drops_noise(noise.skip(1), rest, timestamp);
    }
}

/// An empty buffer waits.
pub proof fn lemma_scan_empty(timestamp: i64)
    ensures
        spec_scan(Seq::<u8>::empty(), timestamp) == (None::<MessageValue>, Seq::<u8>::empty()),
{
    reveal(spec_step);
    let buf = Seq::<u8>::empty();
    assert(buf.is_prefix_of(CONFIG_PREFIX@));
    assert(starts(buf, CONFIG_PREFIX@));
    assert(spec_frame(buf) == Framing::NeedMore);
}

/// A buffer that holds one configuration frame in the short form and its
/// line ending, and nothing else, yields the configuration and is empty
/// afterwards.
pub proof fn lemma_scan_short_config(frame: Seq<u8>, timestamp: i64)
    requires
        conforms(frame, SHORT_PATTERN@),
        frame.len() == 31,
    ensures
        spec_scan(frame + seq![CR, LF], timestamp) == (
            Some(MessageValue::Config(short_config(frame))),
            Seq::<u8>::empty(),
        ),
{
    reveal(spec_step);
    let buf = frame + seq![CR, LF];
    assert(conforms(buf, SHORT_PATTERN@)) by {
        assert forall|i: int| 0 <= i < buf.len() && i < 31 implies slot_accepts(
            SHORT_PATTERN@[i],
            buf[i],
        ) by {
            assert(buf[i] == frame[i]);
        }
    }
    lemma_short_frame_bytes(buf);
    lemma_short_frame(frame, seq![CR, LF]);
    assert(buf[0] == 35);
    assert(!is_binary(buf));
    assert(has_known_prefix(buf));
    assert(buf[31] == CR && buf[32] == LF);
    lemma_first_cr(buf, 31);
    assert(line_extent(buf) == 33);
    assert(spec_frame(buf) == Framing::Candidate(33));
    assert(buf.take(33) =~= buf);
    assert(buf.skip(33) =~= Seq::<u8>::empty());
    assert(spec_step(buf, timestamp) == Step::Deliver(
        MessageValue::Config(short_config(frame)),
        33,
    ));
}

fn find_cr(buf: &[u8]) -> (r: Option<usize>)
    ensures
        match r {
            Some(i) => is_first_cr(buf@, i as int),
            None => !has_cr(buf@),
        },
{
    let mut i: usize = 0;
    while i < buf.len()
        invariant
            i <= buf.len(),
            forall|j: int| 0 <= j < i ==> buf@[j] != CR,
        decreases buf.len() - i,
    {
        if buf[i] == CR {
            return Some(i);
        }
        i += 1;
    }
    None
}

fn begins(buf: &[u8], prefix: &[u8]) -> (r: bool)
    ensures
        r == starts(buf@, prefix@),
{
    if buf.len() >= prefix.len() {
        return false;
    }
    let mut i: usize = 0;
    while i < buf.len()
        invariant
            i <= buf.len() < prefix.len(),
            forall|k: int| 0 <= k < i ==> buf@[k] == prefix@[k],
        decreases buf.len() - i,
    {
        if buf[i] != prefix[i] {
            return false;
        }
        i += 1;
    }
    assert(buf@ =~= prefix@.subrange(0, buf@.len() as int));
    true
}

fn ending_len(buf: &[u8], at: usize) -> (n: usize)
    requires
        at <= buf.len(),
    ensures
        n == line_ending_len(buf@.skip(at as int)),
        at + n <= buf.len(),
{
    let rest = buf.len() - at;
    if rest >= 2 && buf[at] == CR && buf[at + 1] == LF {
        2
    } else if rest >= 1 && buf[at] == CR {
        1
    } else {
        0
    }
}

/// Tells what stands at the head of `buf`.
pub fn frame(buf: &[u8]) -> (r: Framing)
    ensures
        r == spec_frame(buf@),
        r matches Framing::Candidate(n) ==> n <= buf@.len(),
{
    let standard = starts_with(buf, SWEEP_STANDARD_PREFIX.as_slice());
    let ext = starts_with(buf, SWEEP_EXT_PREFIX.as_slice());
    let large = starts_with(buf, SWEEP_LARGE_PREFIX.as_slice());
    let screen = starts_with(buf, SCREEN_DATA_PREFIX.as_slice());
    if standard || ext || large || screen {
        let end: Option<usize> = if screen {
            Some(2 + SCREEN_BYTES)
        } else if large {
            if buf.len() < 4 {
                None
            } else {
                assert(buf@.skip(2)[0] == buf@[2] && buf@.skip(2)[1] == buf@[3]);
                Some(4 + buf[2] as usize * 256 + buf[3] as usize)
            }
        } else {
            if buf.len() < 3 {
                None
            } else {
                assert(buf@.skip(2)[0] == buf@[2]);
                if standard {
                    Some(3 + buf[2] as usize)
                } else {
                    Some(3 + (buf[2] as usize + 1) * 16)
                }
            }
        };
        assert(match end {
            Some(e) => payload_end(buf@) == Some(e as int),
            None => payload_end(buf@) is None,
        }) by {
            assert(SCREEN_DATA_PREFIX@[1] != SWEEP_STANDARD_PREFIX@[1]);
            assert(SWEEP_EXT_PREFIX@[1] != SWEEP_STANDARD_PREFIX@[1]);
            assert(SWEEP_LARGE_PREFIX@[1] != SWEEP_STANDARD_PREFIX@[1]);
            assert(SWEEP_LARGE_PREFIX@[1] != SWEEP_EXT_PREFIX@[1]);
            assert(SCREEN_DATA_PREFIX@[1] != SWEEP_EXT_PREFIX@[1]);
            assert(SCREEN_DATA_PREFIX@[1] != SWEEP_LARGE_PREFIX@[1]);
        }
        match end {
            Some(end) => {
                if end <= buf.len() {
                    let n = ending_len(buf, end);
                    Framing::Candidate(end + n)
                } else {
                    Framing::Candidate(buf.len())
                }
            },
            None => Framing::Candidate(buf.len()),
        }
    } else if starts_with(buf, CONFIG_PREFIX.as_slice()) || starts_with(
        buf,
        DSP_MODE_PREFIX.as_slice(),
    ) || starts_with(buf, INPUT_STAGE_PREFIX.as_slice()) || starts_with(
        buf,
        TRACKING_STATUS_PREFIX.as_slice(),
    ) || starts_with(buf, SERIAL_NUMBER_PREFIX.as_slice()) || starts_with(
        buf,
        SETUP_PREFIX.as_slice(),
    ) {
        match find_cr(buf) {
            Some(cr) => {
                proof {
                    lemma_first_cr(buf@, cr as int);
                }
                assert(cr < buf@.len());
                if buf.len() - cr > 1 && buf[cr + 1] == LF {
                    Framing::Candidate(cr + 2)
                } else {
                    Framing::Candidate(cr + 1)
                }
            },
            None => Framing::NeedMore,
        }
    } else if begins(buf, CONFIG_PREFIX.as_slice()) || begins(
        buf,
        SWEEP_STANDARD_PREFIX.as_slice(),
    ) || begins(buf, SWEEP_EXT_PREFIX.as_slice()) || begins(buf, SWEEP_LARGE_PREFIX.as_slice())
        || begins(buf, SCREEN_DATA_PREFIX.as_slice()) || begins(buf, DSP_MODE_PREFIX.as_slice())
        || begins(buf, INPUT_STAGE_PREFIX.as_slice()) || begins(
        buf,
        TRACKING_STATUS_PREFIX.as_slice(),
    ) || begins(buf, SERIAL_NUMBER_PREFIX.as_slice()) || begins(buf, SETUP_PREFIX.as_slice()) {
        Framing::NeedMore
    } else {
        Framing::Skip
    }
}

/// What was decided about the head of the buffer.
enum Outcome {
    Wait,
    Advance(usize),
    Deliver(Message, usize),
}

/// Decides what to do with the head of `buf`.
fn step(buf: &[u8], timestamp: i64) -> (r: Outcome)
    ensures
        match r {
            Outcome::Wait => spec_step(buf@, timestamp) is Wait,
            Outcome::Advance(n) => spec_step(buf@, timestamp) == Step::Advance(n as int),
            Outcome::Deliver(message, n) => spec_step(buf@, timestamp) == Step::Deliver(
                message@,
                n as int,
            ) && n <= buf@.len(),
        },
{
    reveal(spec_step);
    match frame(buf) {
        Framing::NeedMore => Outcome::Wait,
        Framing::Skip => Outcome::Advance(1),
        Framing::Candidate(n) => {
            let candidate = vstd::slice::slice_subrange(buf, 0, n);
            assert(candidate@ =~= buf@.take(n as int));
            proof {
                lemma_truncated_remainder(candidate@, timestamp);
            }
            match Message::received_at(candidate, timestamp) {
                Ok(message) => Outcome::Deliver(message, n),
                Err(MessageParseError::Incomplete) => Outcome::Wait,
                Err(MessageParseError::Truncated { remainder: Some(rest) }) => Outcome::Advance(
                    n - rest.len(),
                ),
                Err(_) => Outcome::Advance(1),
            }
        },
    }
}

/// The bytes that have arrived and have not been decoded yet.
#[derive(Debug)]
pub struct Reader {
    buffer: Vec<u8>,
}

impl View for Reader {
    type V = Seq<u8>;

    closed spec fn view(&self) -> Seq<u8> {
        self.buffer@
    }
}

/// What is kept of a buffer that has outgrown `MAX_BUFFER`: its newest
/// `MAX_BUFFER` bytes.
pub open spec fn spec_trim(buf: Seq<u8>) -> Seq<u8> {
    if buf.len() > MAX_BUFFER {
        buf.skip(buf.len() - MAX_BUFFER)
    } else {
        buf
    }
}

impl Reader {
    /// A reader that has seen nothing.
    pub fn new() -> (reader: Reader)
        ensures
            reader@ == Seq::<u8>::empty(),
    {
        Reader { buffer: Vec::new() }
    }

    /// The number of bytes that wait to be decoded.
    pub fn len(&self) -> (n: usize)
        ensures
            n == self@.len(),
    {
        self.buffer.len()
    }

    /// Appends what the host has read from the port.
    pub fn push(&mut self, bytes: &[u8])
        ensures
            final(self)@ == old(self)@ + bytes@,
    {
        let ghost before = self.buffer@;
        let mut i: usize = 0;
        while i < bytes.len()
            invariant
                i <= bytes.len(),
                self.buffer@ == before + bytes@.take(i as int),
            decreases bytes.len() - i,
        {
            self.buffer.push(bytes[i]);
            assert(before + bytes@.take(i + 1) =~= (before + bytes@.take(i as int)).push(
                bytes@[i as int],
            ));
            i += 1;
        }
        assert(bytes@.take(bytes@.len() as int) =~= bytes@);
    }

    /// Drops the oldest bytes of a buffer that has outgrown `MAX_BUFFER`.
    pub fn trim(&mut self)
        ensures
            final(self)@ == spec_trim(old(self)@),
    {
        if self.buffer.len() > MAX_BUFFER {
            let at = self.buffer.len() - MAX_BUFFER;
            let newest = self.buffer.split_off(at);
            self.buffer = newest;
        }
    }

    /// Takes the first message out of the buffer, stamped with the host's
    /// clock where it is a sweep or a screen dump.
    pub fn next_message(&mut self) -> (r: Option<Message>)
        ensures
            exists|timestamp: i64| (option_view(r), final(self)@) == spec_scan(old(self)@, timestamp),
    {
        let timestamp = now_millis();
        let r = self.next_message_at(timestamp);
        assert((option_view(r), self@) == spec_scan(old(self)@, timestamp));
        r
    }

    /// Takes the first message out of the buffer, as received at
    /// `timestamp`. What stands before the message is dropped with it; where
    /// no whole message is there, what cannot be part of one is dropped.
    pub fn next_message_at(&mut self, timestamp: i64) -> (r: Option<Message>)
        ensures
            (option_view(r), final(self)@) == spec_scan(old(self)@, timestamp),
    {
        let ghost start = self.buffer@;
        let mut head: usize = 0;
        let mut found: Option<Message> = None;
        assert(start.skip(0) =~= start);
        loop
            invariant_except_break
                found is None,
                spec_scan(start, timestamp) == spec_scan(start.skip(head as int), timestamp),
            invariant
                head <= self.buffer.len(),
                self.buffer@ == start,
            ensures
                (option_view(found), start.skip(head as int)) == spec_scan(start, timestamp),
            decreases self.buffer.len() - head,
        {
            let buf = vstd::slice::slice_subrange(
                self.buffer.as_slice(),
                head,
                self.buffer.len(),
            );
            assert(buf@ =~= start.skip(head as int));
            match step(buf, timestamp) {
                Outcome::Wait => {
                    break ;
                },
                Outcome::Deliver(message, n) => {
                    found = Some(message);
                    assert(start.skip(head as int).skip(n as int) =~= start.skip(head + n));
                    head = head + n;
                    break ;
                },
                Outcome::Advance(n) => {
                    if n == 0 || n > buf.len() {
                        break ;
                    }
                    assert(start.skip(head as int).skip(n as int) =~= start.skip(head + n));
                    head = head + n;
                },
            }
        }
        let rest = self.buffer.split_off(head);
        self.buffer = rest;
        assert(self.buffer@ =~= start.skip(head as int));
        found
    }
}

} // verus!
