//! The version 1 message payload: the sender's 44 character Base64 public
//! key, the 16 character Base64 nonce, then the Base64 ciphertext.
use vstd::prelude::*;
use vstd::string::*;
use vstd::utf8::*;

use crate::protocol::framing::{NONCE_B64_LENGTH, PUBLIC_KEY_B64_LENGTH};
use crate::protocol::types::{CreateMessageInput, MessageDetails, MessageView};
use crate::protocol::v1::validation::{
    self, spec_ciphertext, spec_nonce, spec_public_key, valid_ciphertext, valid_nonce,
    valid_public_key,
};

verus! {

broadcast use vstd::string::group_string_axioms, vstd::utf8::group_utf8_lib;

/// Returned when a message payload is too short to hold any ciphertext.
pub const MESSAGE_INCOMPLETE: &'static str = "Encrypted message is incomplete.";

/// What building a message payload gives: the three fields joined, once each
/// has passed its check, or the first failed check's message.
pub open spec fn spec_create_message(
    sender_public_key: Seq<char>,
    nonce_b64: Seq<char>,
    ciphertext_b64: Seq<char>,
) -> Result<Seq<char>, Seq<char>> {
    if !valid_public_key(sender_public_key) {
        Err(spec_public_key(sender_public_key)->Err_0)
    } else if !valid_nonce(nonce_b64) {
        Err(spec_nonce(nonce_b64)->Err_0)
    } else if !valid_ciphertext(ciphertext_b64) {
        Err(spec_ciphertext(ciphertext_b64)->Err_0)
    } else {
        Ok(sender_public_key + nonce_b64 + ciphertext_b64)
    }
}

/// What reading a message payload gives, from its bytes: 44 bytes of public
/// key, 16 bytes of nonce and at least one byte of ciphertext.
pub open spec fn spec_parse_message(p: Seq<u8>) -> Result<MessageView, Seq<char>> {
    if p.len() <= 60 {
        Err(MESSAGE_INCOMPLETE@)
    } else {
        let key = decode_utf8(p.subrange(0, 44));
        let nonce = decode_utf8(p.subrange(44, 60));
        let ciphertext = decode_utf8(p.subrange(60, p.len() as int));
        if !valid_public_key(key) {
            Err(spec_public_key(key)->Err_0)
        } else if !valid_nonce(nonce) {
            Err(spec_nonce(nonce)->Err_0)
        } else {
            Ok(MessageView { sender_public_key: key, nonce_b64: nonce, ciphertext_b64: ciphertext })
        }
    }
}

/// A message payload can be read without cutting a character in two: when
/// it is long enough, bytes 44 and 60 start characters.
pub open spec fn message_splits(p: Seq<u8>) -> bool {
    p.len() > 60 ==> {
        &&& is_char_boundary(p, 44)
        &&& is_char_boundary(p.subrange(44, p.len() as int), 16)
    }
}

/// Builds the message payload from checked fields.
pub fn create(input: &CreateMessageInput<'_>) -> (res: Result<String, String>)
    ensures
        res matches Ok(p) ==> spec_create_message(
            input.sender_public_key@,
            input.nonce_b64@,
            input.ciphertext_b64@,
        ) == Ok::<_, Seq<char>>(p@),
        res matches Err(e) ==> spec_create_message(
            input.sender_public_key@,
            input.nonce_b64@,
            input.ciphertext_b64@,
        ) == Err::<Seq<char>, _>(e@),
{
    validation::public_key(input.sender_public_key)?;
    validation::nonce_b64(input.nonce_b64)?;
    validation::ciphertext_b64(input.ciphertext_b64)?;
    let mut payload = input.sender_public_key.to_owned();
    payload.append(input.nonce_b64);
    payload.append(input.ciphertext_b64);
    Ok(payload)
}

/// Reads a message payload.
pub fn parse(message: &str) -> (res: Result<MessageDetails, String>)
    requires
        message_splits(message.spec_bytes()),
    ensures
        res matches Ok(d) ==> spec_parse_message(message.spec_bytes()) == Ok::<_, Seq<char>>(d@),
        res matches Err(e) ==> spec_parse_message(message.spec_bytes()) == Err::<MessageView, _>(e@),
{
    let fixed_length = PUBLIC_KEY_B64_LENGTH + NONCE_B64_LENGTH;
    if message.as_bytes().len() <= fixed_length {
        return Err(MESSAGE_INCOMPLETE.to_owned());
    }
    let ghost p = message.spec_bytes();
    let (sender_public_key, nonce_and_ciphertext) = message.split_at(PUBLIC_KEY_B64_LENGTH);
    let (nonce_b64, ciphertext_b64) = nonce_and_ciphertext.split_at(NONCE_B64_LENGTH);
    proof {
        assert(nonce_b64.spec_bytes() =~= p.subrange(44, 60));
        assert(ciphertext_b64.spec_bytes() =~= p.subrange(60, p.len() as int));
        assert(decode_utf8(encode_utf8(sender_public_key@)) == sender_public_key@);
        assert(decode_utf8(encode_utf8(nonce_b64@)) == nonce_b64@);
        assert(decode_utf8(encode_utf8(ciphertext_b64@)) == ciphertext_b64@);
    }
    validation::public_key(sender_public_key)?;
    validation::nonce_b64(nonce_b64)?;
    Ok(
        MessageDetails {
            sender_public_key: sender_public_key.to_owned(),
            nonce_b64: nonce_b64.to_owned(),
            ciphertext_b64: ciphertext_b64.to_owned(),
        },
    )
}

} // verus!
