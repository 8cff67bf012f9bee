//! Lossy decoding of text, as the standard library does it.

use vstd::prelude::*;
use vstd::utf8::{decode_utf8, valid_utf8};

verus! {

/// The text that lossy decoding makes of bytes meant as UTF-8: what
/// `String::from_utf8_lossy` returns for them.
pub uninterp spec fn lossy_utf8(bytes: Seq<u8>) -> Seq<char>;

/// The text that lossy decoding makes of 16-bit units meant as UTF-16: what
/// `String::from_utf16_lossy` returns for them.
pub uninterp spec fn lossy_utf16(units: Seq<u16>) -> Seq<char>;

/// Calls `String::from_utf8_lossy`, which decodes the bytes as UTF-8 and puts
/// U+FFFD in place of what is not. Trusted: the result is a function of the
/// bytes alone, and bytes that are valid UTF-8 come out as the text they
/// encode.
#[verifier::external_body]
pub(crate) fn decode_utf8_lossy(bytes: &[u8]) -> (text: String)
    ensures
        text@ == lossy_utf8(bytes@),
        valid_utf8(bytes@) ==> text@ == decode_utf8(bytes@),
{
    String::from_utf8_lossy(bytes).into_owned()
}

/// Calls `String::from_utf16_lossy`, which decodes the units as UTF-16 and
/// puts U+FFFD in place of what is not. Trusted: the result is a function of
/// the units alone.
#[verifier::external_body]
pub(crate) fn decode_utf16_lossy(units: &[u16]) -> (text: String)
    ensures
        text@ == lossy_utf16(units@),
{
    String::from_utf16_lossy(units)
}

} // verus!
