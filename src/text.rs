use vstd::prelude::*;
use vstd::utf8::{decode_utf8, valid_utf8};

use crate::platform::Platform;

verus! {

/// The text that lossy UTF-8 decoding gives for a byte buffer.
pub uninterp spec fn lossy_text(b: Seq<u8>) -> Seq<char>;

/// The text that the GBK legacy code page decoder gives for a byte buffer.
pub uninterp spec fn gbk_text(b: Seq<u8>) -> Seq<char>;

/// Relies on `String::from_utf8`: it succeeds exactly on valid UTF-8 and then
/// holds the decoded characters.
#[verifier::external_body]
fn strict_utf8(b: &Vec<u8>) -> (r: Option<String>)
    ensures
        r is Some <==> valid_utf8(b@),
        r is Some ==> r->0@ == decode_utf8(b@),
{
    String::from_utf8(b.clone()).ok()
}

/// Relies on `String::from_utf8_lossy`: invalid sequences are replaced, and a
/// valid buffer is decoded unchanged.
#[verifier::external_body]
pub(crate) fn lossy_utf8(b: &Vec<u8>) -> (r: String)
    ensures
        r@ == lossy_text(b@),
        valid_utf8(b@) ==> r@ == decode_utf8(b@),
{
    String::from_utf8_lossy(b).into_owned()
}

/// Relies on `encoding_rs::GBK.decode`: malformed sequences are replaced, the
/// result depends on the bytes alone, and an empty buffer gives empty text.
/// The decoder panics only when its output buffer size overflows `usize`.
#[verifier::external_body]
fn gbk_decode(b: &Vec<u8>) -> (r: String)
    requires
        b@.len() <= GBK_MAX_INPUT,
    ensures
        r@ == gbk_text(b@),
        b@.len() == 0 ==> r@.len() == 0,
{
    encoding_rs::GBK.decode(b).0.into_owned()
}

/// The largest buffer handed to the GBK decoder, whose output buffer size
/// would overflow `usize` beyond it.
pub const GBK_MAX_INPUT: usize = usize::MAX / 4;

/// The text recovered from a process stream: strict UTF-8 when the bytes are
/// valid, otherwise the platform's fallback (the GBK code page on Windows,
/// for any buffer it can take; lossy UTF-8 elsewhere and beyond that).
pub open spec fn decoded_text(b: Seq<u8>, platform: Platform) -> Seq<char> {
    if valid_utf8(b) {
        decode_utf8(b)
    } else if platform == Platform::Windows && b.len() <= GBK_MAX_INPUT {
        gbk_text(b)
    } else {
        lossy_text(b)
    }
}

/// Decodes captured process output. Total: every buffer yields text, and an
/// empty buffer yields empty text.
pub fn decode_output(b: &Vec<u8>, platform: Platform) -> (r: String)
    ensures
        r@ == decoded_text(b@, platform),
        b@.len() == 0 ==> r@.len() == 0,
{
    proof {
        if b@.len() == 0 {
            assert(valid_utf8(b@));
            assert(decode_utf8(b@) == Seq::<char>::empty());
        }
    }
    match strict_utf8(b) {
        Some(s) => s,
        None => if platform == Platform::Windows && b.len() <= GBK_MAX_INPUT {
            gbk_decode(b)
        } else {
            lossy_utf8(b)
        },
    }
}

} // verus!
