//! Standard Base64 (RFC 4648 alphabet, with `=` padding), as the `base64`
//! crate's `STANDARD` engine writes and reads it. Keys, nonces and
//! ciphertexts travel in this form.
use base64::engine::general_purpose::STANDARD;
use base64::{DecodeError, Engine};
use vstd::prelude::*;
use vstd::utf8::is_ascii_chars;

verus! {

/// The error type of `base64`'s decoders; the library only tells it apart
/// from success.
#[verifier::external_type_specification]
#[verifier::external_body]
pub struct ExDecodeError(DecodeError);

/// The text that `base64::engine::general_purpose::STANDARD.encode` writes
/// for the given bytes.
pub uninterp spec fn base64_encoding(bytes: Seq<u8>) -> Seq<char>;

/// What `base64::engine::general_purpose::STANDARD.decode` reads from the
/// given text: the bytes, or `None` where it returns an error.
pub uninterp spec fn base64_decoding(text: Seq<char>) -> Option<Seq<u8>>;

/// Calls `STANDARD.encode` of the `base64` crate.
///
/// Trusted: the result is the named encoding of the bytes; it is ASCII and
/// `4 * ceil(n / 3)` characters long (the crate's `encoded_len` with
/// padding), and `STANDARD.decode` reads the same bytes back from it.
/// `encode` panics when that length overflows `usize`, which `requires`
/// rules out.
#[verifier::external_body]
pub(crate) fn encode_base64(bytes: &[u8]) -> (text: String)
    requires
        4 * ((bytes@.len() + 2) / 3) <= usize::MAX,
    ensures
        text@ == base64_encoding(bytes@),
        text@.len() == 4 * ((bytes@.len() + 2) / 3),
        is_ascii_chars(text@),
        base64_decoding(text@) == Some(bytes@),
{
    STANDARD.encode(bytes)
}

/// A character of the standard Base64 alphabet, or the padding `=`.
pub open spec fn is_base64_char(c: char) -> bool {
    ||| 'A' <= c <= 'Z'
    ||| 'a' <= c <= 'z'
    ||| '0' <= c <= '9'
    ||| c == '+'
    ||| c == '/'
    ||| c == '='
}

/// Calls `STANDARD.decode` of the `base64` crate.
///
/// Trusted: it succeeds exactly where the named decoding is defined and then
/// returns those bytes. With canonical padding required, a text it accepts
/// is ASCII and holds only characters of the standard alphabet and `=` (any
/// other byte is an `InvalidByte` error), its length is a multiple of four,
/// and each group of four
/// characters gives three bytes except the last, which gives one to three.
#[verifier::external_body]
pub(crate) fn decode_base64(text: &str) -> (res: Result<Vec<u8>, DecodeError>)
    ensures
        res is Ok <==> base64_decoding(text@) is Some,
        res matches Ok(bytes) ==> bytes@ == base64_decoding(text@).unwrap(),
        res matches Ok(bytes) ==> {
            &&& is_ascii_chars(text@)
            &&& forall|i: int| 0 <= i < text@.len() ==> is_base64_char(#[trigger] text@[i])
            &&& text@.len() % 4 == 0
            &&& bytes@.len() <= 3 * (text@.len() / 4)
            &&& 3 * (text@.len() / 4) <= bytes@.len() + 2
        },
{
    STANDARD.decode(text)
}

/// Decodes standard Base64 text, `None` where it is not valid.
pub fn decode_b64(text: &str) -> (res: Option<Vec<u8>>)
    ensures
        res matches Some(bytes) ==> base64_decoding(text@) == Some(bytes@),
        res is None ==> base64_decoding(text@) is None,
        res matches Some(bytes) ==> {
            &&& is_ascii_chars(text@)
            &&& forall|i: int| 0 <= i < text@.len() ==> is_base64_char(#[trigger] text@[i])
            &&& text@.len() % 4 == 0
            &&& bytes@.len() <= 3 * (text@.len() / 4)
            &&& 3 * (text@.len() / 4) <= bytes@.len() + 2
        },
{
    match decode_base64(text) {
        Ok(bytes) => Some(bytes),
        Err(_) => None,
    }
}

} // verus!
