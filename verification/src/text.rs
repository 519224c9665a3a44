//! Text that arrives from a controller as raw bytes.

use vstd::prelude::*;
use vstd::string::*;
use vstd::utf8::*;

verus! {

/// Why raw text was refused.
#[derive(Clone, Copy, Debug, PartialEq, Eq, Structural)]
pub enum TextError {
    /// No text was given at all.
    Absent,
    /// The bytes are not UTF-8.
    Malformed,
}

/// What raw text decodes to: the characters that the bytes encode in UTF-8,
/// or the reason why there are none.
pub open spec fn decoded(raw: Option<Seq<u8>>) -> Result<Seq<char>, TextError> {
    match raw {
        None => Err(TextError::Absent),
        Some(bytes) => if valid_utf8(bytes) {
            Ok(decode_utf8(bytes))
        } else {
            Err(TextError::Malformed)
        },
    }
}

/// The bytes of a slice that may be absent.
pub open spec fn raw_view(raw: Option<&[u8]>) -> Option<Seq<u8>> {
    match raw {
        None => None,
        Some(bytes) => Some(bytes@),
    }
}

/// `core::str::from_utf8`, with its error dropped. The standard library
/// documents that it succeeds exactly on well-formed UTF-8 and that the
/// string slice it gives is the input read as text; the contract says so
/// with vstd's definition of UTF-8.
#[verifier::external_body]
fn utf8_text<'a>(bytes: &'a [u8]) -> (text: Option<&'a str>)
    ensures
        text is Some <==> valid_utf8(bytes@),
        text matches Some(s) ==> s@ == decode_utf8(bytes@),
{
    match core::str::from_utf8(bytes) {
        Ok(text) => Some(text),
        Err(_) => None,
    }
}

/// Decodes raw text: absent text and bytes that are not UTF-8 are refused,
/// each with its own error; anything else is the text that the bytes encode.
pub fn decode_text(raw: Option<&[u8]>) -> (text: Result<String, TextError>)
    ensures
        match text {
            Ok(s) => decoded(raw_view(raw)) == Ok::<Seq<char>, TextError>(s@),
            Err(e) => decoded(raw_view(raw)) == Err::<Seq<char>, TextError>(e),
        },
{
    match raw {
        None => Err(TextError::Absent),
        Some(bytes) => match utf8_text(bytes) {
            Some(s) => Ok(String::from_str(s)),
            None => Err(TextError::Malformed),
        },
    }
}

/// Decodes raw text and puts `fallback` in its place where it is absent or
/// not UTF-8.
pub fn decode_text_or(raw: Option<&[u8]>, fallback: &str) -> (text: String)
    ensures
        text@ == match decoded(raw_view(raw)) {
            Ok(s) => s,
            Err(_) => fallback@,
        },
{
    match decode_text(raw) {
        Ok(s) => s,
        Err(_) => String::from_str(fallback),
    }
}

} // verus!
