//! Checks on the Base64 fields of keys: a public key must decode to 32
//! bytes, a nonce to 12, and a ciphertext must be present and decode.
use vstd::prelude::*;
use vstd::utf8::is_ascii_chars;

use crate::encoding::{base64_decoding, decode_b64};
use crate::text::{decimal, decimal_text, join3, opt_bytes};

verus! {

/// Returned when a public key is not Base64.
pub const PUBLIC_KEY_NOT_BASE64: &'static str = "That public key is not valid Base64, so whatever it came from is damaged.";

/// Starts the message for a public key of the wrong length; the length follows.
pub const PUBLIC_KEY_LENGTH_START: &'static str = "That public key is ";

/// Ends the message for a public key of the wrong length.
pub const PUBLIC_KEY_LENGTH_END: &'static str = " bytes long, but a GhostLayer public key is 32 bytes. Whatever it came from is damaged.";

/// Returned when a nonce is not Base64.
pub const NONCE_NOT_BASE64: &'static str = "This message's nonce is not valid Base64, so the message was damaged before it reached you.";

/// Starts the message for a nonce of the wrong length; the length follows.
pub const NONCE_LENGTH_START: &'static str = "This message's nonce is ";

/// Ends the message for a nonce of the wrong length.
pub const NONCE_LENGTH_END: &'static str = " bytes long, but it should be 12. The message was damaged before it reached you.";

/// Returned when a message carries no ciphertext.
pub const CIPHERTEXT_EMPTY: &'static str = "This message has a GhostLayer header but no encrypted content, so it was cut off.";

/// Returned when a ciphertext is not Base64.
pub const CIPHERTEXT_NOT_BASE64: &'static str = "This message's encrypted content is not valid Base64, so it was damaged before it reached you.";

/// The verdict on the decoded bytes of a public key.
pub open spec fn public_key_check(decoded: Option<Seq<u8>>) -> Result<(), Seq<char>> {
    match decoded {
        None => Err(PUBLIC_KEY_NOT_BASE64@),
        Some(b) => if b.len() == 32 {
            Ok(())
        } else {
            Err(PUBLIC_KEY_LENGTH_START@ + decimal(b.len()) + PUBLIC_KEY_LENGTH_END@)
        },
    }
}

/// The verdict on the decoded bytes of a nonce.
pub open spec fn nonce_check(decoded: Option<Seq<u8>>) -> Result<(), Seq<char>> {
    match decoded {
        None => Err(NONCE_NOT_BASE64@),
        Some(b) => if b.len() == 12 {
            Ok(())
        } else {
            Err(NONCE_LENGTH_START@ + decimal(b.len()) + NONCE_LENGTH_END@)
        },
    }
}

/// The verdict on a public key given as Base64 text.
pub open spec fn spec_public_key(text: Seq<char>) -> Result<(), Seq<char>> {
    public_key_check(base64_decoding(text))
}

/// The verdict on a nonce given as Base64 text.
pub open spec fn spec_nonce(text: Seq<char>) -> Result<(), Seq<char>> {
    nonce_check(base64_decoding(text))
}

/// The verdict on a ciphertext given as Base64 text.
pub open spec fn spec_ciphertext(text: Seq<char>) -> Result<(), Seq<char>> {
    if text.len() == 0 {
        Err(CIPHERTEXT_EMPTY@)
    } else if base64_decoding(text) is None {
        Err(CIPHERTEXT_NOT_BASE64@)
    } else {
        Ok(())
    }
}

/// A valid public key: 44 ASCII characters of Base64 that decode to 32 bytes.
pub open spec fn valid_public_key(text: Seq<char>) -> bool {
    &&& is_ascii_chars(text)
    &&& text.len() == 44
    &&& base64_decoding(text) matches Some(b) && b.len() == 32
}

/// A valid nonce: 16 ASCII characters of Base64 that decode to 12 bytes.
pub open spec fn valid_nonce(text: Seq<char>) -> bool {
    &&& is_ascii_chars(text)
    &&& text.len() == 16
    &&& base64_decoding(text) matches Some(b) && b.len() == 12
}

/// A valid ciphertext: non-empty ASCII Base64.
pub open spec fn valid_ciphertext(text: Seq<char>) -> bool {
    &&& is_ascii_chars(text)
    &&& text.len() > 0
    &&& base64_decoding(text) is Some
}

/// The verdict on decoded public key bytes: they must be 32 bytes.
pub fn check_public_key_bytes(decoded: Option<Vec<u8>>) -> (res: Result<(), String>)
    ensures
        match res {
            Ok(_) => public_key_check(opt_bytes(decoded)) is Ok,
            Err(e) => public_key_check(opt_bytes(decoded)) == Err::<(), Seq<char>>(e@),
        },
{
    match decoded {
        None => Err(PUBLIC_KEY_NOT_BASE64.to_owned()),
        Some(bytes) => {
            if bytes.len() != 32 {
                let n = decimal_text(bytes.len());
                Err(join3(PUBLIC_KEY_LENGTH_START, n.as_str(), PUBLIC_KEY_LENGTH_END))
            } else {
                Ok(())
            }
        },
    }
}

/// The verdict on decoded nonce bytes: they must be 12 bytes.
pub fn check_nonce_bytes(decoded: Option<Vec<u8>>) -> (res: Result<(), String>)
    ensures
        match res {
            Ok(_) => nonce_check(opt_bytes(decoded)) is Ok,
            Err(e) => nonce_check(opt_bytes(decoded)) == Err::<(), Seq<char>>(e@),
        },
{
    match decoded {
        None => Err(NONCE_NOT_BASE64.to_owned()),
        Some(bytes) => {
            if bytes.len() != 12 {
                let n = decimal_text(bytes.len());
                Err(join3(NONCE_LENGTH_START, n.as_str(), NONCE_LENGTH_END))
            } else {
                Ok(())
            }
        },
    }
}

/// Checks that a public key is valid Base64 that decodes to exactly 32 bytes.
pub fn public_key(key: &str) -> (res: Result<(), String>)
    ensures
        res is Ok <==> valid_public_key(key@),
        res is Ok <==> spec_public_key(key@) is Ok,
        res matches Err(e) ==> spec_public_key(key@) == Err::<(), Seq<char>>(e@),
{
    let decoded = decode_b64(key);
    check_public_key_bytes(decoded)
}

/// Checks that a nonce is valid Base64 that decodes to exactly 12 bytes.
pub fn nonce_b64(nonce: &str) -> (res: Result<(), String>)
    ensures
        res is Ok <==> valid_nonce(nonce@),
        res is Ok <==> spec_nonce(nonce@) is Ok,
        res matches Err(e) ==> spec_nonce(nonce@) == Err::<(), Seq<char>>(e@),
{
    let decoded = decode_b64(nonce);
    check_nonce_bytes(decoded)
}

/// Checks that a ciphertext is present and is valid Base64.
pub fn ciphertext_b64(value: &str) -> (res: Result<(), String>)
    ensures
        res is Ok <==> valid_ciphertext(value@),
        res is Ok <==> spec_ciphertext(value@) is Ok,
        res matches Err(e) ==> spec_ciphertext(value@) == Err::<(), Seq<char>>(e@),
{
    if value.is_empty() {
        return Err(CIPHERTEXT_EMPTY.to_owned());
    }
    match decode_b64(value) {
        None => Err(CIPHERTEXT_NOT_BASE64.to_owned()),
        Some(_) => Ok(()),
    }
}

} // verus!
