//! Sweeps: one pass of amplitude samples across the configured frequency range.
//!
//! A sweep frame is a two-byte prefix, a length field, and one byte per
//! amplitude. A byte `b` stands for `-b/2` dBm; amplitudes are kept as whole
//! numbers of half dBm, so `b` becomes `-b`. The device sends no time stamp:
//! a sweep carries the host's clock at the moment it was decoded.

use vstd::prelude::*;
use crate::common::clock::now_millis;
use crate::common::error::{MessageParseError, ParseFailure};
use crate::common::fields::{is_line_ending, line_ending};

verus! {

/// The three ways a sweep is framed on the wire.
#[derive(Debug, Clone, Copy, PartialEq, Eq, Structural)]
pub enum Encoding {
    /// `$S`, one length byte, that many amplitudes.
    Standard,
    /// `$s`, one length byte `n`, `(n + 1) * 16` amplitudes.
    Ext,
    /// `$z`, a big-endian 16-bit length, that many amplitudes.
    Large,
}

impl Encoding {
    /// The second byte of the frame prefix; the first is `$`.
    pub open spec fn spec_tag(self) -> u8 {
        match self {
            Encoding::Standard => 83,
            Encoding::Ext => 115,
            Encoding::Large => 122,
        }
    }

    /// The number of bytes that the length field takes.
    pub open spec fn spec_length_width(self) -> int {
        match self {
            Encoding::Large => 2,
            _ => 1,
        }
    }

    /// The number of amplitudes that the length field announces. `body` is
    /// what follows the prefix.
    pub open spec fn spec_count(self, body: Seq<u8>) -> int {
        match self {
            Encoding::Standard => body[0] as int,
            Encoding::Ext => (body[0] + 1) * 16,
            Encoding::Large => body[0] * 256 + body[1],
        }
    }

    #[verifier::when_used_as_spec(spec_tag)]
    pub fn tag(self) -> (r: u8)
        ensures
            r == self.spec_tag(),
    {
        match self {
            Encoding::Standard => 83,
            Encoding::Ext => 115,
            Encoding::Large => 122,
        }
    }
}

/// The end-of-transmission escape `FF FE FF FE 00` stands at `i`.
pub open spec fn eeot_at(body: Seq<u8>, i: int) -> bool {
    &&& 0 <= i
    &&& i + 5 <= body.len()
    &&& body[i] == 255
    &&& body[i + 1] == 254
    &&& body[i + 2] == 255
    &&& body[i + 3] == 254
    &&& body[i + 4] == 0
}

/// The first five bytes of a configuration frame (`#C2-F`) or of a setup
/// frame (`#C2-M`) stand at `i`.
pub open spec fn frame_at(body: Seq<u8>, i: int) -> bool {
    &&& 0 <= i
    &&& i + 5 <= body.len()
    &&& body[i] == 35
    &&& body[i + 1] == 67
    &&& body[i + 2] == 50
    &&& body[i + 3] == 45
    &&& (body[i + 4] == 70 || body[i + 4] == 77)
}

/// Something at `i` shows that the sweep was cut short.
pub open spec fn marker_at(body: Seq<u8>, i: int) -> bool {
    eeot_at(body, i) || frame_at(body, i)
}

pub open spec fn has_marker(body: Seq<u8>) -> bool {
    exists|i: int| marker_at(body, i)
}

pub open spec fn is_first_marker(body: Seq<u8>, i: int) -> bool {
    marker_at(body, i) && forall|j: int| 0 <= j < i ==> !marker_at(body, j)
}

/// The place of the leftmost marker, where there is one.
pub open spec fn first_marker(body: Seq<u8>) -> int {
    choose|i: int| is_first_marker(body, i)
}

/// Where decoding starts again after the marker at `i`: behind the escape,
/// or at the embedded frame.
pub open spec fn resume_at(body: Seq<u8>, i: int) -> int {
    if eeot_at(body, i) {
        i + 5
    } else {
        i
    }
}

/// A byte as an amplitude in half dBm.
pub open spec fn half_dbm(byte: u8) -> i16 {
    (-(byte as int)) as i16
}

/// What a byte string decodes to under `encoding`: the amplitudes in half
/// dBm, or the reason why there are none.
pub open spec fn spec_decode(encoding: Encoding, bytes: Seq<u8>) -> Result<Seq<i16>, ParseFailure> {
    let body = bytes.skip(2);
    let width = encoding.spec_length_width();
    let count = encoding.spec_count(body);
    if bytes.len() >= 1 && bytes[0] != 36 {
        Err(ParseFailure::Invalid)
    } else if bytes.len() >= 2 && bytes[1] != encoding.spec_tag() {
        Err(ParseFailure::Invalid)
    } else if bytes.len() < 2 {
        Err(ParseFailure::Incomplete)
    } else if has_marker(body) {
        let i = first_marker(body);
        Err(
            ParseFailure::Truncated {
                remainder: Some(body.skip(resume_at(body, i))),
            },
        )
    } else if body.len() < width {
        Err(ParseFailure::Incomplete)
    } else if body.len() < width + count {
        Err(ParseFailure::Incomplete)
    } else if !is_line_ending(body.skip(width + count)) {
        Err(ParseFailure::Invalid)
    } else {
        Ok(body.subrange(width, width + count).map_values(|b: u8| half_dbm(b)))
    }
}

/// The leftmost marker is the only place that satisfies `is_first_marker`.
pub proof fn lemma_first_marker(body: Seq<u8>, i: int)
    requires
        is_first_marker(body, i),
    ensures
        has_marker(body),
        first_marker(body) == i,
{
    let k = first_marker(body);
    assert(is_first_marker(body, k));
    if k < i {
        assert(!marker_at(body, k));
    }
    if i < k {
        assert(!marker_at(body, i));
    }
}

/// Where there is a marker, there is a leftmost one.
pub proof fn lemma_least_marker(body: Seq<u8>, k: int)
    requires
        marker_at(body, k),
    ensures
        is_first_marker(body, first_marker(body)),
        0 <= first_marker(body) <= k,
    decreases k,
{
    if forall|j: int| 0 <= j < k ==> !marker_at(body, j) {
        assert(is_first_marker(body, k));
        lemma_first_marker(body, k);
    } else {
        let j = choose|j: int| 0 <= j < k && marker_at(body, j);
        lemma_least_marker(body, j);
    }
}

/// A sweep that was cut short always tells where decoding starts again, and
/// that place lies in the bytes that were given, behind the prefix.
pub proof fn lemma_truncated_remainder(encoding: Encoding, bytes: Seq<u8>)
    ensures
        spec_decode(encoding, bytes) matches Err(ParseFailure::Truncated { remainder })
            ==> remainder matches Some(rest) && rest.len() + 2 <= bytes.len() && rest
            == bytes.skip(bytes.len() - rest.len()),
{
    let body = bytes.skip(2);
    if bytes.len() >= 2 && has_marker(body) {
        let k = choose|k: int| marker_at(body, k);
        lemma_least_marker(body, k);
        let i = first_marker(body);
        let resume = resume_at(body, i);
        assert(0 <= resume <= body.len());
        assert(body.skip(resume) =~= bytes.skip(bytes.len() - body.skip(resume).len()));
    }
}

/// A standard sweep holds as many amplitudes as its length byte says, each
/// of them minus its byte, in half dBm. With fewer bytes than that the sweep
/// is incomplete; with more, unless they are a line ending, it is invalid.
/// This holds of every sweep in which nothing tells of a cut.
pub proof fn lemma_standard_sweep_length(n: u8, payload: Seq<u8>)
    requires
        !has_marker(seq![n] + payload),
    ensures
        payload.len() == n ==> (spec_decode(Encoding::Standard, seq![36u8, 83u8, n] + payload)
            matches Ok(amplitudes) && amplitudes.len() == n && forall|i: int|
            0 <= i < n ==> amplitudes[i] == -(payload[i] as int)),
        payload.len() < n ==> spec_decode(Encoding::Standard, seq![36u8, 83u8, n] + payload)
            == Err::<Seq<i16>, ParseFailure>(ParseFailure::Incomplete),
        payload.len() > n && !is_line_ending(payload.skip(n as int)) ==> spec_decode(
            Encoding::Standard,
            seq![36u8, 83u8, n] + payload,
        ) == Err::<Seq<i16>, ParseFailure>(ParseFailure::Invalid),
{
    let bytes = seq![36u8, 83u8, n] + payload;
    let body = bytes.skip(2);
    assert(body =~= seq![n] + payload);
    assert(body[0] == n);
    if payload.len() >= n {
        assert(body.skip(1 + n) =~= payload.skip(n as int));
        assert(body.subrange(1, 1 + n) =~= payload.take(n as int));
    }
    if payload.len() == n {
        assert(payload.skip(n as int) =~= Seq::<u8>::empty());
        assert(payload.take(n as int) =~= payload);
        let amplitudes = payload.map_values(|b: u8| half_dbm(b));
        assert(spec_decode(Encoding::Standard, bytes) == Ok::<Seq<i16>, ParseFailure>(
            amplitudes,
        ));
        assert forall|i: int| 0 <= i < n implies amplitudes[i] == -(payload[i] as int) by {
            assert(amplitudes[i] == half_dbm(payload[i]));
        }
    }
}

/// A sweep with the end-of-transmission escape in it is cut short, and
/// decoding starts again at the byte behind the escape. This holds where
/// nothing before the escape tells of a cut.
pub proof fn lemma_truncated_at_escape(encoding: Encoding, bytes: Seq<u8>, i: int)
    requires
        bytes.len() >= 2,
        bytes[0] == 36,
        bytes[1] == encoding.spec_tag(),
        eeot_at(bytes.skip(2), i),
        forall|j: int| 0 <= j < i ==> !marker_at(bytes.skip(2), j),
    ensures
        spec_decode(encoding, bytes) == Err::<Seq<i16>, ParseFailure>(
            ParseFailure::Truncated { remainder: Some(bytes.skip(2 + i + 5)) },
        ),
{
    let body = bytes.skip(2);
    lemma_first_marker(body, i);
    assert(body.skip(i + 5) =~= bytes.skip(2 + i + 5));
}

/// A sweep with the start of a configuration or setup frame in it is cut
/// short, and decoding starts again at that frame. This holds where nothing
/// before the frame tells of a cut.
pub proof fn lemma_truncated_at_frame(encoding: Encoding, bytes: Seq<u8>, i: int)
    requires
        bytes.len() >= 2,
        bytes[0] == 36,
        bytes[1] == encoding.spec_tag(),
        frame_at(bytes.skip(2), i),
        forall|j: int| 0 <= j < i ==> !marker_at(bytes.skip(2), j),
    ensures
        spec_decode(encoding, bytes) == Err::<Seq<i16>, ParseFailure>(
            ParseFailure::Truncated { remainder: Some(bytes.skip(2 + i)) },
        ),
{
    let body = bytes.skip(2);
    lemma_first_marker(body, i);
    assert(body.skip(i) =~= bytes.skip(2 + i));
}

/// A sweep that decodes holds as many amplitudes as its length field says,
/// each of them minus its byte, in the order of the bytes.
pub proof fn lemma_sweep_length(encoding: Encoding, bytes: Seq<u8>)
    ensures
        spec_decode(encoding, bytes) matches Ok(amplitudes) ==> {
            let body = bytes.skip(2);
            let width = encoding.spec_length_width();
            &&& amplitudes.len() == encoding.spec_count(body)
            &&& forall|i: int|
                0 <= i < amplitudes.len() ==> amplitudes[i] == -(body[width + i] as int)
        },
{
    if let Ok(amplitudes) = spec_decode(encoding, bytes) {
        let body = bytes.skip(2);
        let width = encoding.spec_length_width();
        let count = encoding.spec_count(body);
        let payload = body.subrange(width, width + count);
        assert(amplitudes == payload.map_values(|b: u8| half_dbm(b)));
        assert forall|i: int| 0 <= i < amplitudes.len() implies amplitudes[i] == -(body[width
            + i] as int) by {
            assert(amplitudes[i] == half_dbm(payload[i]));
        }
    }
}

/// Looks for the leftmost marker in `body`.
fn find_marker(body: &[u8]) -> (r: Option<usize>)
    ensures
        match r {
            Some(i) => is_first_marker(body@, i as int),
            None => !has_marker(body@),
        },
{
    if body.len() < 5 {
        return None;
    }
    let last = body.len() - 5;
    let mut i: usize = 0;
    while i <= last
        invariant
            last + 5 == body.len(),
            i <= last + 1,
            forall|j: int| 0 <= j < i ==> !marker_at(body@, j),
        decreases last + 1 - i,
    {
        let eeot = body[i] == 255 && body[i + 1] == 254 && body[i + 2] == 255 && body[i + 3] == 254
            && body[i + 4] == 0;
        let frame = body[i] == 35 && body[i + 1] == 67 && body[i + 2] == 50 && body[i + 3] == 45
            && (body[i + 4] == 70 || body[i + 4] == 77);
        if eeot || frame {
            return Some(i);
        }
        i += 1;
    }
    None
}

/// Decodes the amplitudes of a sweep frame.
fn decode<'a>(encoding: Encoding, bytes: &'a [u8]) -> (r: Result<Vec<i16>, MessageParseError<'a>>)
    ensures
        match r {
            Ok(amplitudes) => spec_decode(encoding, bytes@) == Ok::<Seq<i16>, ParseFailure>(
                amplitudes@,
            ),
            Err(e) => spec_decode(encoding, bytes@) == Err::<Seq<i16>, ParseFailure>(e@),
        },
{
    if bytes.len() >= 1 && bytes[0] != 36 {
        return Err(MessageParseError::Invalid);
    }
    if bytes.len() >= 2 && bytes[1] != encoding.tag() {
        return Err(MessageParseError::Invalid);
    }
    if bytes.len() < 2 {
        return Err(MessageParseError::Incomplete);
    }
    let body = vstd::slice::slice_subrange(bytes, 2, bytes.len());
    assert(body@ =~= bytes@.skip(2));
    match find_marker(body) {
        Some(i) => {
            proof {
                lemma_first_marker(body@, i as int);
            }
            let eeot = body[i] == 255;
            let resume = if eeot {
                i + 5
            } else {
                i
            };
            let rest = vstd::slice::slice_subrange(body, resume, body.len());
            assert(rest@ =~= body@.skip(resume as int));
            return Err(MessageParseError::Truncated { remainder: Some(rest) });
        },
        None => {},
    }
    let width: usize = match encoding {
        Encoding::Large => 2,
        _ => 1,
    };
    if body.len() < width {
        return Err(MessageParseError::Incomplete);
    }
    let count: usize = match encoding {
        Encoding::Standard => body[0] as usize,
        Encoding::Ext => (body[0] as usize + 1) * 16,
        Encoding::Large => body[0] as usize * 256 + body[1] as usize,
    };
    if body.len() - width < count {
        return Err(MessageParseError::Incomplete);
    }
    let tail = vstd::slice::slice_subrange(body, width + count, body.len());
    assert(tail@ =~= body@.skip(width + count));
    if !line_ending(tail) {
        return Err(MessageParseError::Invalid);
    }
    let ghost payload = body@.subrange(width as int, width + count);
    let mut amplitudes: Vec<i16> = Vec::new();
    let mut k: usize = 0;
    while k < count
        invariant
            k <= count,
            width + count <= body.len(),
            payload == body@.subrange(width as int, width + count),
            amplitudes@.len() == k,
            forall|j: int| 0 <= j < k ==> amplitudes@[j] == half_dbm(payload[j]),
        decreases count - k,
    {
        let byte = body[width + k];
        assert(payload[k as int] == byte);
        amplitudes.push(-(byte as i16));
        k += 1;
    }
    assert(amplitudes@ =~= payload.map_values(|b: u8| half_dbm(b)));
    Ok(amplitudes)
}

/// What a sweep holds: the amplitudes in half dBm, in the order they were sent,
/// and the host's clock in milliseconds since the Unix epoch when the sweep was
/// received.
pub struct SweepData {
    pub amplitudes: Seq<i16>,
    pub timestamp: i64,
}

/// Whether two amplitude vectors hold the same values.
fn same_amplitudes(a: &Vec<i16>, b: &Vec<i16>) -> (r: bool)
    ensures
        r == (a@ == b@),
{
    if a.len() != b.len() {
        return false;
    }
    let mut i: usize = 0;
    while i < a.len()
        invariant
            i <= a.len(),
            a.len() == b.len(),
            forall|j: int| 0 <= j < i ==> a@[j] == b@[j],
        decreases a.len() - i,
    {
        if a[i] != b[i] {
            return false;
        }
        i += 1;
    }
    assert(a@ =~= b@);
    true
}

/// Copies an amplitude vector.
fn copy_amplitudes(a: &Vec<i16>) -> (r: Vec<i16>)
    ensures
        r@ == a@,
{
    let mut r: Vec<i16> = Vec::new();
    let mut i: usize = 0;
    while i < a.len()
        invariant
            i <= a.len(),
            r@ == a@.take(i as int),
        decreases a.len() - i,
    {
        r.push(a[i]);
        assert(a@.take(i + 1) =~= a@.take(i as int).push(a@[i as int]));
        i += 1;
    }
    assert(a@.take(a@.len() as int) =~= a@);
    r
}

/// A sweep in the standard encoding.
#[derive(Debug, Clone, PartialEq, Eq)]
pub struct SweepDataStandard {
    amplitudes_half_dbm: Vec<i16>,
    timestamp: i64,
}

impl View for SweepDataStandard {
    type V = SweepData;

    closed spec fn view(&self) -> SweepData {
        SweepData { amplitudes: self.amplitudes_half_dbm@, timestamp: self.timestamp }
    }
}

impl SweepDataStandard {
    /// A sweep with the given amplitudes, in half dBm, received at `timestamp`.
    pub fn new(amplitudes_half_dbm: Vec<i16>, timestamp: i64) -> (sweep: Self)
        ensures
            sweep@ == (SweepData { amplitudes: amplitudes_half_dbm@, timestamp }),
    {
        SweepDataStandard { amplitudes_half_dbm, timestamp }
    }

    /// Decodes a `$S` frame and stamps it with the host's clock.
    pub fn try_from<'a>(bytes: &'a [u8]) -> (r: Result<Self, MessageParseError<'a>>)
        ensures
            match r {
                Ok(sweep) => spec_decode(Encoding::Standard, bytes@) == Ok::<Seq<i16>, ParseFailure>(
                    sweep@.amplitudes,
                ),
                Err(e) => spec_decode(Encoding::Standard, bytes@) == Err::<Seq<i16>, ParseFailure>(e@),
            },
    {
        let timestamp = now_millis();
        Self::received_at(bytes, timestamp)
    }

    /// Decodes a `$S` frame that the host received at `timestamp`.
    pub fn received_at<'a>(bytes: &'a [u8], timestamp: i64) -> (r: Result<
        Self,
        MessageParseError<'a>,
    >)
        ensures
            match r {
                Ok(sweep) => spec_decode(Encoding::Standard, bytes@) == Ok::<Seq<i16>, ParseFailure>(
                    sweep@.amplitudes,
                ) && sweep@.timestamp == timestamp,
                Err(e) => spec_decode(Encoding::Standard, bytes@) == Err::<Seq<i16>, ParseFailure>(e@),
            },
    {
        match decode(Encoding::Standard, bytes) {
            Ok(amplitudes_half_dbm) => Ok(SweepDataStandard { amplitudes_half_dbm, timestamp }),
            Err(e) => Err(e),
        }
    }

    /// The amplitudes in half dBm, in the order they were sent.
    pub fn amplitudes_half_dbm(&self) -> (r: &[i16])
        ensures
            r@ == self@.amplitudes,
    {
        self.amplitudes_half_dbm.as_slice()
    }

    /// The host's clock when the sweep was received, in milliseconds since the
    /// Unix epoch.
    pub fn timestamp(&self) -> (r: i64)
        ensures
            r == self@.timestamp,
    {
        self.timestamp
    }

    /// Whether both sweeps hold the same amplitudes and time stamp.
    pub fn same(&self, other: &Self) -> (r: bool)
        ensures
            r == (self@ == other@),
    {
        self.timestamp == other.timestamp && same_amplitudes(
            &self.amplitudes_half_dbm,
            &other.amplitudes_half_dbm,
        )
    }

    /// A copy of the sweep.
    pub fn duplicate(&self) -> (r: Self)
        ensures
            r@ == self@,
    {
        SweepDataStandard {
            amplitudes_half_dbm: copy_amplitudes(&self.amplitudes_half_dbm),
            timestamp: self.timestamp,
        }
    }

    /// Appends the amplitudes of `rhs`; the time stamp stays.
    pub fn append(&mut self, rhs: Self)
        ensures
            final(self)@ == (SweepData {
                amplitudes: old(self)@.amplitudes + rhs@.amplitudes,
                timestamp: old(self)@.timestamp,
            }),
    {
        let mut rhs = rhs;
        self.amplitudes_half_dbm.append(&mut rhs.amplitudes_half_dbm);
    }
}

/// A sweep in the extended encoding.
#[derive(Debug, Clone, PartialEq, Eq)]
pub struct SweepDataExt {
    amplitudes_half_dbm: Vec<i16>,
    timestamp: i64,
}

impl View for SweepDataExt {
    type V = SweepData;

    closed spec fn view(&self) -> SweepData {
        SweepData { amplitudes: self.amplitudes_half_dbm@, timestamp: self.timestamp }
    }
}

impl SweepDataExt {
    /// A sweep with the given amplitudes, in half dBm, received at `timestamp`.
    pub fn new(amplitudes_half_dbm: Vec<i16>, timestamp: i64) -> (sweep: Self)
        ensures
            sweep@ == (SweepData { amplitudes: amplitudes_half_dbm@, timestamp }),
    {
        SweepDataExt { amplitudes_half_dbm, timestamp }
    }

    /// Decodes a `$s` frame and stamps it with the host's clock.
    pub fn try_from<'a>(bytes: &'a [u8]) -> (r: Result<Self, MessageParseError<'a>>)
        ensures
            match r {
                Ok(sweep) => spec_decode(Encoding::Ext, bytes@) == Ok::<Seq<i16>, ParseFailure>(
                    sweep@.amplitudes,
                ),
                Err(e) => spec_decode(Encoding::Ext, bytes@) == Err::<Seq<i16>, ParseFailure>(e@),
            },
    {
        let timestamp = now_millis();
        Self::received_at(bytes, timestamp)
    }

    /// Decodes a `$s` frame that the host received at `timestamp`.
    pub fn received_at<'a>(bytes: &'a [u8], timestamp: i64) -> (r: Result<
        Self,
        MessageParseError<'a>,
    >)
        ensures
            match r {
                Ok(sweep) => spec_decode(Encoding::Ext, bytes@) == Ok::<Seq<i16>, ParseFailure>(
                    sweep@.amplitudes,
                ) && sweep@.timestamp == timestamp,
                Err(e) => spec_decode(Encoding::Ext, bytes@) == Err::<Seq<i16>, ParseFailure>(e@),
            },
    {
        match decode(Encoding::Ext, bytes) {
            Ok(amplitudes_half_dbm) => Ok(SweepDataExt { amplitudes_half_dbm, timestamp }),
            Err(e) => Err(e),
        }
    }

    /// The amplitudes in half dBm, in the order they were sent.
    pub fn amplitudes_half_dbm(&self) -> (r: &[i16])
        ensures
            r@ == self@.amplitudes,
    {
        self.amplitudes_half_dbm.as_slice()
    }

    /// The host's clock when the sweep was received, in milliseconds since the
    /// Unix epoch.
    pub fn timestamp(&self) -> (r: i64)
        ensures
            r == self@.timestamp,
    {
        self.timestamp
    }

    /// Whether both sweeps hold the same amplitudes and time stamp.
    pub fn same(&self, other: &Self) -> (r: bool)
        ensures
            r == (self@ == other@),
    {
        self.timestamp == other.timestamp && same_amplitudes(
            &self.amplitudes_half_dbm,
            &other.amplitudes_half_dbm,
        )
    }

    /// A copy of the sweep.
    pub fn duplicate(&self) -> (r: Self)
        ensures
            r@ == self@,
    {
        SweepDataExt {
            amplitudes_half_dbm: copy_amplitudes(&self.amplitudes_half_dbm),
            timestamp: self.timestamp,
        }
    }

    /// Appends the amplitudes of `rhs`; the time stamp stays.
    pub fn append(&mut self, rhs: Self)
        ensures
            final(self)@ == (SweepData {
                amplitudes: old(self)@.amplitudes + rhs@.amplitudes,
                timestamp: old(self)@.timestamp,
            }),
    {
        let mut rhs = rhs;
        self.amplitudes_half_dbm.append(&mut rhs.amplitudes_half_dbm);
    }
}

/// A sweep in the large encoding.
#[derive(Debug, Clone, PartialEq, Eq)]
pub struct SweepDataLarge {
    amplitudes_half_dbm: Vec<i16>,
    timestamp: i64,
}

impl View for SweepDataLarge {
    type V = SweepData;

    closed spec fn view(&self) -> SweepData {
        SweepData { amplitudes: self.amplitudes_half_dbm@, timestamp: self.timestamp }
    }
}

impl SweepDataLarge {
    /// A sweep with the given amplitudes, in half dBm, received at `timestamp`.
    pub fn new(amplitudes_half_dbm: Vec<i16>, timestamp: i64) -> (sweep: Self)
        ensures
            sweep@ == (SweepData { amplitudes: amplitudes_half_dbm@, timestamp }),
    {
        SweepDataLarge { amplitudes_half_dbm, timestamp }
    }

    /// Decodes a `$z` frame and stamps it with the host's clock.
    pub fn try_from<'a>(bytes: &'a [u8]) -> (r: Result<Self, MessageParseError<'a>>)
        ensures
            match r {
                Ok(sweep) => spec_decode(Encoding::Large, bytes@) == Ok::<Seq<i16>, ParseFailure>(
                    sweep@.amplitudes,
                ),
                Err(e) => spec_decode(Encoding::Large, bytes@) == Err::<Seq<i16>, ParseFailure>(e@),
            },
    {
        let timestamp = now_millis();
        Self::received_at(bytes, timestamp)
    }

    /// Decodes a `$z` frame that the host received at `timestamp`.
    pub fn received_at<'a>(bytes: &'a [u8], timestamp: i64) -> (r: Result<
        Self,
        MessageParseError<'a>,
    >)
        ensures
            match r {
                Ok(sweep) => spec_decode(Encoding::Large, bytes@) == Ok::<Seq<i16>, ParseFailure>(
                    sweep@.amplitudes,
                ) && sweep@.timestamp == timestamp,
                Err(e) => spec_decode(Encoding::Large, bytes@) == Err::<Seq<i16>, ParseFailure>(e@),
            },
    {
        match decode(Encoding::Large, bytes) {
            Ok(amplitudes_half_dbm) => Ok(SweepDataLarge { amplitudes_half_dbm, timestamp }),
            Err(e) => Err(e),
        }
    }

    /// The amplitudes in half dBm, in the order they were sent.
    pub fn amplitudes_half_dbm(&self) -> (r: &[i16])
        ensures
            r@ == self@.amplitudes,
    {
        self.amplitudes_half_dbm.as_slice()
    }

    /// The host's clock when the sweep was received, in milliseconds since the
    /// Unix epoch.
    pub fn timestamp(&self) -> (r: i64)
        ensures
            r == self@.timestamp,
    {
        self.timestamp
    }

    /// Whether both sweeps hold the same amplitudes and time stamp.
    pub fn same(&self, other: &Self) -> (r: bool)
        ensures
            r == (self@ == other@),
    {
        self.timestamp == other.timestamp && same_amplitudes(
            &self.amplitudes_half_dbm,
            &other.amplitudes_half_dbm,
        )
    }

    /// A copy of the sweep.
    pub fn duplicate(&self) -> (r: Self)
        ensures
            r@ == self@,
    {
        SweepDataLarge {
            amplitudes_half_dbm: copy_amplitudes(&self.amplitudes_half_dbm),
            timestamp: self.timestamp,
        }
    }

    /// Appends the amplitudes of `rhs`; the time stamp stays.
    pub fn append(&mut self, rhs: Self)
        ensures
            final(self)@ == (SweepData {
                amplitudes: old(self)@.amplitudes + rhs@.amplitudes,
                timestamp: old(self)@.timestamp,
            }),
    {
        let mut rhs = rhs;
        self.amplitudes_half_dbm.append(&mut rhs.amplitudes_half_dbm);
    }
}

/// The most recent pass of amplitude samples, in the encoding it arrived in.
#[derive(Debug, Clone, PartialEq, Eq)]
pub enum Sweep {
    Standard(SweepDataStandard),
    Ext(SweepDataExt),
    Large(SweepDataLarge),
}

/// The mathematical value of a [`Sweep`].
pub struct SweepValue {
    pub encoding: Encoding,
    pub data: SweepData,
}

impl View for Sweep {
    type V = SweepValue;

    open spec fn view(&self) -> SweepValue {
        match self {
            Sweep::Standard(data) => SweepValue { encoding: Encoding::Standard, data: data@ },
            Sweep::Ext(data) => SweepValue { encoding: Encoding::Ext, data: data@ },
            Sweep::Large(data) => SweepValue { encoding: Encoding::Large, data: data@ },
        }
    }
}

impl Sweep {
    /// The amplitudes in half dBm, in the order they were sent.
    pub fn amplitudes_half_dbm(&self) -> (r: &[i16])
        ensures
            r@ == self@.data.amplitudes,
    {
        match self {
            Sweep::Standard(data) => data.amplitudes_half_dbm(),
            Sweep::Ext(data) => data.amplitudes_half_dbm(),
            Sweep::Large(data) => data.amplitudes_half_dbm(),
        }
    }

    /// The host's clock when the sweep was received, in milliseconds since the
    /// Unix epoch.
    pub fn timestamp(&self) -> (r: i64)
        ensures
            r == self@.data.timestamp,
    {
        match self {
            Sweep::Standard(data) => data.timestamp(),
            Sweep::Ext(data) => data.timestamp(),
            Sweep::Large(data) => data.timestamp(),
        }
    }

    /// Whether both sweeps came in the same encoding with the same amplitudes
    /// and time stamp.
    pub fn same(&self, other: &Sweep) -> (r: bool)
        ensures
            r == (self@ == other@),
    {
        match (self, other) {
            (Sweep::Standard(a), Sweep::Standard(b)) => a.same(b),
            (Sweep::Ext(a), Sweep::Ext(b)) => a.same(b),
            (Sweep::Large(a), Sweep::Large(b)) => a.same(b),
            _ => false,
        }
    }

    /// A copy of the sweep.
    pub fn duplicate(&self) -> (r: Sweep)
        ensures
            r@ == self@,
    {
        match self {
            Sweep::Standard(data) => Sweep::Standard(data.duplicate()),
            Sweep::Ext(data) => Sweep::Ext(data.duplicate()),
            Sweep::Large(data) => Sweep::Large(data.duplicate()),
        }
    }
}

impl Default for Sweep {
    /// A standard sweep without amplitudes, stamped with the Unix epoch.
    fn default() -> (sweep: Sweep)
        ensures
            sweep@ == (SweepValue {
                encoding: Encoding::Standard,
                data: SweepData { amplitudes: Seq::<i16>::empty(), timestamp: 0 },
            }),
    {
        Sweep::Standard(SweepDataStandard::new(Vec::new(), 0))
    }
}

impl core::ops::Add for SweepDataStandard {
    type Output = SweepDataStandard;

    /// The amplitudes of `self`, then those of `rhs`, under the time stamp of
    /// `self`.
    fn add(self, rhs: SweepDataStandard) -> (sum: SweepDataStandard)
        ensures
            sum@ == (SweepData {
                amplitudes: self@.amplitudes + rhs@.amplitudes,
                timestamp: self@.timestamp,
            }),
    {
        let mut sum = self;
        sum.append(rhs);
        sum
    }
}

impl vstd::std_specs::ops::AddSpecImpl for SweepDataStandard {
    open spec fn obeys_add_spec() -> bool {
        false
    }

    open spec fn add_req(self, rhs: SweepDataStandard) -> bool {
        true
    }

    open spec fn add_spec(self, rhs: SweepDataStandard) -> SweepDataStandard {
        self
    }
}

impl core::ops::AddAssign for SweepDataStandard {
    fn add_assign(&mut self, rhs: SweepDataStandard)
        ensures
            final(self)@ == (SweepData {
                amplitudes: old(self)@.amplitudes + rhs@.amplitudes,
                timestamp: old(self)@.timestamp,
            }),
    {
        self.append(rhs);
    }
}

impl core::ops::Add for SweepDataExt {
    type Output = SweepDataExt;

    /// The amplitudes of `self`, then those of `rhs`, under the time stamp of
    /// `self`.
    fn add(self, rhs: SweepDataExt) -> (sum: SweepDataExt)
        ensures
            sum@ == (SweepData {
                amplitudes: self@.amplitudes + rhs@.amplitudes,
                timestamp: self@.timestamp,
            }),
    {
        let mut sum = self;
        sum.append(rhs);
        sum
    }
}

impl vstd::std_specs::ops::AddSpecImpl for SweepDataExt {
    open spec fn obeys_add_spec() -> bool {
        false
    }

    open spec fn add_req(self, rhs: SweepDataExt) -> bool {
        true
    }

    open spec fn add_spec(self, rhs: SweepDataExt) -> SweepDataExt {
        self
    }
}

impl core::ops::AddAssign for SweepDataExt {
    fn add_assign(&mut self, rhs: SweepDataExt)
        ensures
            final(self)@ == (SweepData {
                amplitudes: old(self)@.amplitudes + rhs@.amplitudes,
                timestamp: old(self)@.timestamp,
            }),
    {
        self.append(rhs);
    }
}

impl core::ops::Add for SweepDataLarge {
    type Output = SweepDataLarge;

    /// The amplitudes of `self`, then those of `rhs`, under the time stamp of
    /// `self`.
    fn add(self, rhs: SweepDataLarge) -> (sum: SweepDataLarge)
        ensures
            sum@ == (SweepData {
                amplitudes: self@.amplitudes + rhs@.amplitudes,
                timestamp: self@.timestamp,
            }),
    {
        let mut sum = self;
        sum.append(rhs);
        sum
    }
}

impl vstd::std_specs::ops::AddSpecImpl for SweepDataLarge {
    open spec fn obeys_add_spec() -> bool {
        false
    }

    open spec fn add_req(self, rhs: SweepDataLarge) -> bool {
        true
    }

    open spec fn add_spec(self, rhs: SweepDataLarge) -> SweepDataLarge {
        self
    }
}

impl core::ops::AddAssign for SweepDataLarge {
    fn add_assign(&mut self, rhs: SweepDataLarge)
        ensures
            final(self)@ == (SweepData {
                amplitudes: old(self)@.amplitudes + rhs@.amplitudes,
                timestamp: old(self)@.timestamp,
            }),
    {
        self.append(rhs);
    }
}

} // verus!
