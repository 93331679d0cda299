//! Trusted bridges to the two byte-level decoding passes the stream parser
//! leans on: terminal-escape stripping and lossy UTF-8 decoding. Both are
//! pure functions of their input bytes; their results are named rather than
//! spelled out, and everything built on top of them is verified against the
//! names.

use vstd::prelude::*;

verus! {

/// What stripping ANSI/terminal escape sequences leaves of `b`.
pub uninterp spec fn ansi_stripped(b: Seq<u8>) -> Seq<u8>;

/// What lossy UTF-8 decoding makes of `b`.
pub uninterp spec fn lossy_of(b: Seq<u8>) -> Seq<char>;

/// Relies on `strip_ansi_escapes::strip`: removes ANSI and other terminal
/// escape sequences from a byte sequence; the result depends on the input
/// bytes alone, and writing to the backing `Vec` cannot fail.
#[verifier::external_body]
pub(crate) fn strip_ansi(data: &[u8]) -> (r: Vec<u8>)
    ensures
        r@ == ansi_stripped(data@),
{
    strip_ansi_escapes::strip(data)
}

/// Relies on `String::from_utf8_lossy`: decodes `data` as UTF-8, replacing
/// invalid sequences with the replacement character; the result depends on
/// the input bytes alone.
#[verifier::external_body]
pub(crate) fn utf8_lossy(data: &[u8]) -> (r: String)
    ensures
        r@ == lossy_of(data@),
{
    String::from_utf8_lossy(data).into_owned()
}

} // verus!
