//! Lossy UTF-8 decoding of the byte strings that Lua hands back.
use vstd::prelude::*;
use vstd::string::StringSliceAdditionalSpecFns;

verus! {

/// The string that `String::from_utf8_lossy` makes of `bytes`: each maximal
/// invalid sequence replaced by U+FFFD.
pub uninterp spec fn utf8_lossy(bytes: Seq<u8>) -> Seq<char>;

/// `String::from_utf8_lossy` (std), made owned. Trusted: its result is the
/// named decoding of the bytes and depends on nothing else.
#[verifier::external_body]
pub(crate) fn decode_lossy(bytes: &[u8]) -> (s: String)
    ensures
        s@ == utf8_lossy(bytes@),
{
    String::from_utf8_lossy(bytes).into_owned()
}

/// [`utf8_lossy`] of the bytes, if there are any.
pub open spec fn lossy_opt(bytes: Option<Seq<u8>>) -> Option<Seq<char>> {
    match bytes {
        Some(b) => Some(utf8_lossy(b)),
        None => None,
    }
}

/// Decodes an optional C string lossily.
pub fn decode_lossy_opt(bytes: &Option<Vec<u8>>) -> (s: Option<String>)
    ensures
        text_view(s) == lossy_opt(bytes_view(bytes)),
{
    match bytes {
        Some(b) => Some(decode_lossy(b.as_slice())),
        None => None,
    }
}

/// The view of an optional byte string.
pub open spec fn bytes_view(bytes: &Option<Vec<u8>>) -> Option<Seq<u8>> {
    match bytes {
        Some(b) => Some(b@),
        None => None,
    }
}

/// The view of an optional string.
pub open spec fn text_view(s: Option<String>) -> Option<Seq<char>> {
    match s {
        Some(t) => Some(t@),
        None => None,
    }
}

/// The bytes of a C string literal, without the terminating NUL.
pub(crate) fn c_name(s: &str) -> (v: Vec<u8>)
    ensures
        v@ == s.spec_bytes(),
{
    vstd::slice::slice_to_vec(s.as_bytes())
}

} // verus!
