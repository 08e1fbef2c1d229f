//! Names stored as fixed 32-byte fields, read back as text.

use vstd::prelude::*;

verus! {

/// The text that a lossy UTF-8 decoding makes of `bytes`.
pub uninterp spec fn utf8_lossy(bytes: Seq<u8>) -> Seq<char>;

/// `text` without the NUL characters at its end.
pub open spec fn without_trailing_nul(text: Seq<char>) -> Seq<char>
    decreases text.len(),
{
    if text.len() > 0 && text.last() == '\0' {
        without_trailing_nul(text.drop_last())
    } else {
        text
    }
}

/// Calls `String::from_utf8_lossy` and takes the text as an owned string.
/// The decoding is std's, not proved here: the contract only names its
/// result, as a function of the bytes.
#[verifier::external_body]
pub(crate) fn decode_utf8_lossy(bytes: &[u8; 32]) -> (text: String)
    ensures
        text@ == utf8_lossy(bytes@),
{
    String::from_utf8_lossy(bytes).into_owned()
}

/// Calls `str::trim_end_matches` with the NUL character. The contract
/// claims what std documents: the result is the text with every match at
/// its end removed.
#[verifier::external_body]
pub(crate) fn trim_trailing_nul(text: &str) -> (trimmed: String)
    ensures
        trimmed@ == without_trailing_nul(text@),
{
    text.trim_end_matches('\0').to_string()
}

/// The name held in a 32-byte field: the bytes decoded as UTF-8, without
/// the NUL padding at the end.
pub fn name_string(name: &[u8; 32]) -> (text: String)
    ensures
        text@ == without_trailing_nul(utf8_lossy(name@)),
{
    let decoded = decode_utf8_lossy(name);
    trim_trailing_nul(decoded.as_str())
}

} // verus!
