//! Text helpers: character-wise comparison of strings and UTF-8 decoding.

use vstd::prelude::*;
use vstd::string::*;
use vstd::slice::slice_to_vec;
use vstd::utf8::*;

verus! {

/// True when `a` and `b` hold the same characters.
pub fn str_equals(a: &str, b: &str) -> (r: bool)
    ensures
        r == (a@ == b@),
{
    let n = a.unicode_len();
    if n != b.unicode_len() {
        return false;
    }
    let mut i: usize = 0;
    while i < n
        invariant
            n == a@.len(),
            n == b@.len(),
            i <= n,
            forall|j: int| 0 <= j < i ==> a@[j] == b@[j],
        decreases n - i,
    {
        if a.get_char(i) != b.get_char(i) {
            return false;
        }
        i += 1;
    }
    assert(a@ =~= b@);
    true
}

/// True when `prefix` is a prefix of `s`, character by character.
pub open spec fn is_prefix_of(prefix: Seq<char>, s: Seq<char>) -> bool {
    prefix.len() <= s.len() && s.subrange(0, prefix.len() as int) == prefix
}

/// True when `s` starts with the characters of `prefix`.
pub fn starts_with(s: &str, prefix: &str) -> (r: bool)
    ensures
        r == is_prefix_of(prefix@, s@),
{
    let n = prefix.unicode_len();
    if n > s.unicode_len() {
        return false;
    }
    let mut i: usize = 0;
    while i < n
        invariant
            n == prefix@.len(),
            n <= s@.len(),
            i <= n,
            forall|j: int| 0 <= j < i ==> s@[j] == prefix@[j],
        decreases n - i,
    {
        if s.get_char(i) != prefix.get_char(i) {
            assert(s@.subrange(0, n as int)[i as int] != prefix@[i as int]);
            return false;
        }
        i += 1;
    }
    assert(s@.subrange(0, n as int) =~= prefix@);
    true
}

/// What `String::from_utf8_lossy` makes of a byte sequence: the decoded
/// characters, with each maximal invalid subsequence replaced by U+FFFD.
pub uninterp spec fn lossy_utf8(bytes: Seq<u8>) -> Seq<char>;

/// Calls `String::from_utf8_lossy`.  Its documentation promises that a valid
/// UTF-8 input is returned unchanged; for other inputs the result is named
/// by `lossy_utf8` and not described further.
#[verifier::external_body]
fn from_utf8_lossy(bytes: &[u8]) -> (s: String)
    ensures
        s@ == lossy_utf8(bytes@),
        valid_utf8(bytes@) ==> s@ == decode_utf8(bytes@),
{
    String::from_utf8_lossy(bytes).into_owned()
}

/// The message of the error that `std::str::from_utf8` reports for bytes
/// that are not well-formed UTF-8 (it names where the valid prefix ends and
/// how long the offending sequence is).
pub uninterp spec fn utf8_error_message(bytes: Seq<u8>) -> Seq<char>;

/// Calls `std::str::from_utf8`, which succeeds exactly on well-formed UTF-8
/// and then yields the decoded characters; a refusal is handed back as the
/// message of its `Utf8Error`, named by `utf8_error_message`.
#[verifier::external_body]
pub(crate) fn str_from_utf8(bytes: &[u8]) -> (r: Result<&str, String>)
    ensures
        r is Ok <==> valid_utf8(bytes@),
        r matches Ok(s) ==> s@ == decode_utf8(bytes@),
        r matches Err(m) ==> m@ == utf8_error_message(bytes@),
{
    std::str::from_utf8(bytes).map_err(|e| e.to_string())
}

/// Clipboard bytes as text: well-formed UTF-8 is decoded exactly, anything
/// else is decoded lossily (invalid sequences become U+FFFD).
pub fn text_from_bytes(bytes: &[u8]) -> (s: String)
    ensures
        s@ == lossy_utf8(bytes@),
        valid_utf8(bytes@) ==> s@ == decode_utf8(bytes@),
{
    from_utf8_lossy(bytes)
}

/// Text as clipboard bytes: its UTF-8 encoding.
pub fn text_to_bytes(text: &str) -> (bytes: Vec<u8>)
    ensures
        bytes@ == encode_utf8(text@),
{
    slice_to_vec(text.as_bytes())
}

/// Writing text and reading it back gives the same text: the bytes that
/// `text_to_bytes` produces for any text are well-formed UTF-8 and decode to
/// that text, which is what `text_from_bytes` then returns.
pub proof fn lemma_text_round_trip(text: Seq<char>)
    ensures
        valid_utf8(encode_utf8(text)),
        decode_utf8(encode_utf8(text)) == text,
{
    encode_utf8_valid_utf8(text);
    encode_utf8_decode_utf8(text);
}

} // verus!
