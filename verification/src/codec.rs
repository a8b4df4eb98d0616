//! Base64 encoding and decoding of BLOB payloads, named but not restated:
//! the engine stores raw bytes, while the command surface carries them as
//! base64 text.
use vstd::prelude::*;

verus! {

/// The canonical base64 text of a byte sequence, as the STANDARD engine
/// produces it.
pub uninterp spec fn b64_encode_of(b: Seq<u8>) -> Seq<char>;

/// The bytes a text encodes under the STANDARD engine, or nothing when the
/// text is not valid base64.
pub uninterp spec fn b64_decode_of(s: Seq<char>) -> Option<Seq<u8>>;

/// Relies on base64's STANDARD engine encode: the canonical base64 text of
/// the bytes, a function of them alone; decoding that text returns the same
/// bytes. Encoding panics only when the output length would not fit in usize,
/// which the bound on the input length rules out.
#[verifier::external_body]
pub(crate) fn b64_encode(b: &Vec<u8>) -> (r: String)
    requires
        b@.len() <= usize::MAX / 4,
    ensures
        r@ == b64_encode_of(b@),
        b64_decode_of(r@) == Some(b@),
{
    base64::Engine::encode(&base64::engine::general_purpose::STANDARD, b)
}

/// Relies on base64's STANDARD engine decode: the bytes the text encodes, a
/// function of it alone, or nothing when the text is not valid base64.
#[verifier::external_body]
pub(crate) fn b64_decode(s: &str) -> (r: Option<Vec<u8>>)
    ensures
        match r {
            Some(b) => b64_decode_of(s@) == Some(b@),
            None => b64_decode_of(s@) is None,
        },
{
    match base64::Engine::decode(&base64::engine::general_purpose::STANDARD, s) {
        Ok(b) => Some(b),
        Err(_) => None,
    }
}

} // verus!
