//! ASCII text carried in frames.

use vstd::prelude::*;

verus! {

/// A printable ASCII byte: a space, or anything visible.
pub open spec fn is_printable(byte: u8) -> bool {
    32 <= byte <= 126
}

pub open spec fn all_printable(bytes: Seq<u8>) -> bool {
    forall|i: int| 0 <= i < bytes.len() ==> is_printable(#[trigger] bytes[i])
}

/// The characters that a string of ASCII bytes stands for, one per byte.
pub open spec fn ascii_chars(bytes: Seq<u8>) -> Seq<char> {
    bytes.map_values(|byte: u8| byte as char)
}

/// The text that `String::from_utf8_lossy` makes of a byte string: valid
/// UTF-8 is kept, and every invalid sequence becomes the replacement
/// character.
pub uninterp spec fn utf8_lossy(bytes: Seq<u8>) -> Seq<char>;

/// Whether every byte is an ASCII byte.
pub open spec fn all_ascii(bytes: Seq<u8>) -> bool {
    forall|i: int| 0 <= i < bytes.len() ==> bytes[i] < 128
}

/// The text that a byte string stands for.
///
/// Calls `String::from_utf8_lossy`, which keeps valid UTF-8 as it is. Bytes
/// below 128 are valid UTF-8 of one byte per character, so for a string of
/// such bytes the result holds one character per byte, with the byte's value.
#[verifier::external_body]
pub(crate) fn lossy_string(bytes: &[u8]) -> (text: String)
    ensures
        text@ == utf8_lossy(bytes@),
        all_ascii(bytes@) ==> text@ == ascii_chars(bytes@),
{
    String::from_utf8_lossy(bytes).into_owned()
}

/// What `str::from_utf8` makes of a byte string: the text that the bytes
/// encode, where they are valid UTF-8, and nothing where they are not.
pub uninterp spec fn utf8_chars(bytes: Seq<u8>) -> Option<Seq<char>>;

/// What `str::trim` leaves of a text: the text without the white space at
/// its start and at its end, where white space is what Unicode calls so.
pub uninterp spec fn unicode_trimmed(text: Seq<char>) -> Seq<char>;

/// The text that a byte string encodes, where it is valid UTF-8.
///
/// Calls `str::from_utf8`, which checks that the bytes are valid UTF-8 and
/// hands them back as a string slice, or reports that they are not. The
/// error is dropped: only that there is one is kept.
#[verifier::external_body]
pub(crate) fn from_utf8(bytes: &[u8]) -> (text: Option<&str>)
    ensures
        match text {
            Some(text) => utf8_chars(bytes@) == Some(text@),
            None => utf8_chars(bytes@) is None,
        },
{
    core::str::from_utf8(bytes).ok()
}

/// The text without the white space around it.
///
/// Calls `str::trim`, which returns the slice of the text that is left when
/// leading and trailing white space is taken away.
#[verifier::external_body]
pub(crate) fn trim(text: &str) -> (inner: &str)
    ensures
        inner@ == unicode_trimmed(text@),
{
    text.trim()
}

/// The text that a string of ASCII bytes stands for.
pub fn ascii_to_string(bytes: &[u8]) -> (text: String)
    requires
        all_ascii(bytes@),
    ensures
        text@ == ascii_chars(bytes@),
{
    lossy_string(bytes)
}

/// The number of printable bytes at the start of `bytes`.
pub open spec fn printable_run(bytes: Seq<u8>) -> int
    decreases bytes.len(),
{
    if bytes.len() == 0 || !is_printable(bytes[0]) {
        0
    } else {
        1 + printable_run(bytes.skip(1))
    }
}

/// `printable_run` is the one place `n` at which the printable bytes stop.
pub proof fn lemma_printable_run(bytes: Seq<u8>, n: int)
    requires
        0 <= n <= bytes.len(),
        all_printable(bytes.take(n)),
        n < bytes.len() ==> !is_printable(bytes[n]),
    ensures
        printable_run(bytes) == n,
    decreases n,
{
    if n > 0 {
        assert(bytes.take(n)[0] == bytes[0]);
        let rest = bytes.skip(1);
        assert(rest.take(n - 1) =~= bytes.take(n).skip(1));
        assert forall|i: int| 0 <= i < n - 1 implies is_printable(#[trigger] rest.take(n - 1)[i]) by {
            assert(rest.take(n - 1)[i] == bytes.take(n)[i + 1]);
        }
        lemma_printable_run(rest, n - 1);
    }
}

/// Counts the printable bytes that `bytes` holds from `start` on.
pub fn count_printable(bytes: &[u8], start: usize) -> (n: usize)
    requires
        start <= bytes.len(),
    ensures
        n == printable_run(bytes@.skip(start as int)),
        start + n <= bytes.len(),
        all_printable(bytes@.subrange(start as int, start + n)),
{
    let ghost rest = bytes@.skip(start as int);
    let mut n: usize = 0;
    while start + n < bytes.len() && 32 <= bytes[start + n] && bytes[start + n] <= 126
        invariant
            start + n <= bytes.len(),
            rest == bytes@.skip(start as int),
            all_printable(rest.take(n as int)),
        decreases bytes.len() - start - n,
    {
        assert forall|i: int| 0 <= i < n + 1 implies is_printable(#[trigger] rest.take(n + 1)[i]) by {
            if i < n {
                assert(rest.take(n + 1)[i] == rest.take(n as int)[i]);
            }
        }
        n += 1;
    }
    proof {
        lemma_printable_run(rest, n as int);
        assert(bytes@.subrange(start as int, start + n) =~= rest.take(n as int));
    }
    n
}

} // verus!
