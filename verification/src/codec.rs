//! Thumbnail codec: a raw byte buffer to and from its text-safe,
//! padded standard base-64 encoding.
//!
//! The encoding itself is done by an outside engine; this module pins
//! its behaviour down by naming the encoded text of a buffer
//! ([`b64_of`]) and stating both directions against that name: encoding
//! a buffer yields exactly `b64_of` of it, and decoding succeeds on
//! exactly the texts of that form, giving the buffer back.

use base64::Engine;
use vstd::prelude::*;

use crate::error::FcmConversionError;

verus! {

/// The padded standard base-64 text of a byte buffer.  The encoding
/// depends on the bytes alone.
pub uninterp spec fn b64_of(bytes: Seq<u8>) -> Seq<char>;

/// A character of the standard base-64 alphabet, or the padding mark.
pub open spec fn is_base64_char(c: char) -> bool {
    (65 <= c as u32 && c as u32 <= 90)  // 'A' ..= 'Z'
     || (97 <= c as u32 && c as u32 <= 122)  // 'a' ..= 'z'
     || (48 <= c as u32 && c as u32 <= 57)  // '0' ..= '9'
     || c as u32 == 43  // '+'
     || c as u32 == 47  // '/'
     || c as u32 == 61  // '='

}

/// Relies on the padded standard base-64 engine's `encode`: the result
/// is the canonical encoding of the input bytes, four characters per
/// three-byte group, drawn from the alphabet and the padding mark.
#[verifier::external_body]
pub fn encode(bytes: &Vec<u8>) -> (r: String)
    ensures
        r@ == b64_of(bytes@),
        r@.len() == 4 * ((bytes@.len() + 2) / 3),
        forall|i: int| 0 <= i < r@.len() ==> is_base64_char(#[trigger] r@[i]),
{
    base64::engine::general_purpose::STANDARD.encode(bytes.as_slice())
}

/// Relies on the padded standard base-64 engine's `decode`, which
/// requires canonical padding and rejects set trailing bits as well as
/// any character outside the alphabet: it succeeds exactly on the
/// canonical encodings, returning the encoded bytes.
#[verifier::external_body]
fn decode_raw(text: &str) -> (r: Result<Vec<u8>, String>)
    ensures
        r matches Ok(b) ==> text@ == b64_of(b@) && (forall|i: int|
            0 <= i < text@.len() ==> is_base64_char(#[trigger] text@[i])) && (forall|bs: Seq<u8>|
            text@ == b64_of(bs) ==> bs == b@),
        r matches Err(e) ==> forall|bs: Seq<u8>| text@ != b64_of(bs),
{
    match base64::engine::general_purpose::STANDARD.decode(text.as_bytes()) {
        Ok(v) => Ok(v),
        Err(e) => Err(format!("{e}")),
    }
}

/// Decode a thumbnail's text back into its byte buffer.
///
/// Succeeds exactly on the canonical encodings: on `b64_of(bs)` it
/// returns `bs`; on anything else — in particular on any text holding a
/// character outside the base-64 alphabet — it fails with a structured
/// interchange-format error, never with silently substituted data.
pub fn decode(text: &str) -> (r: Result<Vec<u8>, FcmConversionError>)
    ensures
        r matches Ok(b) ==> text@ == b64_of(b@),
        forall|bs: Seq<u8>| text@ == b64_of(bs) ==> (r matches Ok(b) && b@ == bs),
        r is Err ==> !exists|bs: Seq<u8>| text@ == b64_of(bs),
        (exists|i: int| 0 <= i < text@.len() && !is_base64_char(text@[i])) ==> r is Err,
        r matches Err(e) ==> e is SerdeError,
{
    match decode_raw(text) {
        Ok(v) => Ok(v),
        Err(msg) => Err(FcmConversionError::SerdeError(msg)),
    }
}

/// Thumbnail codec round trip, stated on the functions themselves: any
/// byte buffer decodes from its own encoding, unchanged.
pub fn round_trip(bytes: &Vec<u8>) -> (r: Vec<u8>)
    ensures
        r@ == bytes@,
{
    let text = encode(bytes);
    match decode(text.as_str()) {
        Ok(b) => b,
        Err(_) => {
            proof {
                assert(false);
            }
            Vec::new()
        },
    }
}

} // verus!
