//! Decoding the bytes of a reply as text.

use vstd::prelude::*;
use vstd::string::*;
use vstd::utf8::*;
use crate::error::TransportError;

verus! {

/// The error of `std::str::from_utf8`. Nothing is read from it.
#[verifier::external_type_specification]
#[verifier::external_body]
pub struct ExUtf8Error(std::str::Utf8Error);

/// Assumed of `std::str::from_utf8`, as its documentation has it: it accepts
/// exactly the byte sequences that are well-formed UTF-8, and the string
/// slice it hands back lies over the same bytes.
pub assume_specification[ std::str::from_utf8 ](v: &[u8]) -> (res: Result<
    &str,
    std::str::Utf8Error,
>)
    ensures
        res is Ok <==> valid_utf8(v@),
        res matches Ok(s) ==> encode_utf8(s@) == v@,
;

/// The text that a reply stands for, if it is text at all.
pub open spec fn reply_text(bytes: Seq<u8>) -> Option<Seq<char>> {
    if valid_utf8(bytes) {
        Some(decode_utf8(bytes))
    } else {
        None
    }
}

/// Interprets the bytes of a reply as text. A reply that is not well-formed
/// UTF-8 is refused with [`TransportError::DecodeFailed`]; an empty reply is
/// the empty text.
pub fn decode(bytes: &[u8]) -> (res: Result<String, TransportError>)
    ensures
        match res {
            Ok(text) => reply_text(bytes@) == Some(text@),
            Err(e) => e == TransportError::DecodeFailed && reply_text(bytes@) is None,
        },
{
    match std::str::from_utf8(bytes) {
        Ok(s) => {
            proof {
                encode_utf8_decode_utf8(s@);
            }
            Ok(String::from_str(s))
        },
        Err(_) => Err(TransportError::DecodeFailed),
    }
}

/// The empty reply is the empty text.
pub proof fn lemma_empty_reply_is_empty_text()
    ensures
        reply_text(Seq::<u8>::empty()) == Some(Seq::<char>::empty()),
{
}

} // verus!
