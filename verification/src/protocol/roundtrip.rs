//! What reading gives back of what building wrote: invite keys and message
//! keys read back to the fields they were built from.
use vstd::prelude::*;
use vstd::utf8::{decode_utf8, encode_utf8, encode_utf8_decode_utf8};

use crate::protocol::framing::{lemma_frame_roundtrip, FrameKind};
use crate::protocol::registry::{
    invite_key_readable, invite_key_text, message_key_readable, message_key_text,
    spec_parse_invite_key, spec_parse_message_key,
};
use crate::protocol::traits::Protocol;
use crate::protocol::types::{InviteView, MessageView};
use crate::protocol::v1::invite::nickname_part;
use crate::protocol::v1::validation::{valid_ciphertext, valid_nonce, valid_public_key};
use crate::protocol::v1::V1;
use crate::text::{is_blank, lemma_ascii_boundary, lemma_encode_boundary, lemma_encode_utf8_concat};

verus! {

/// What reading back an invite key built from a public key and a nickname
/// gives: the key, the nickname unless it was absent or blank, and the first
/// five characters of the key as its id.
pub open spec fn invite_read_back(public_key: Seq<char>, nickname: Option<Seq<char>>) -> InviteView {
    InviteView {
        nickname: match nickname {
            Some(n) => if is_blank(n) {
                None
            } else {
                Some(n)
            },
            None => None,
        },
        public_key: public_key,
        key_id: public_key.subrange(0, 5),
    }
}

/// An invite key built from a valid public key reads back to that key, its
/// key id and the nickname (left out when absent or blank); it can always
/// be read without cutting a character in two.
pub proof fn lemma_invite_key_roundtrip(public_key: Seq<char>, nickname: Option<Seq<char>>)
    requires
        valid_public_key(public_key),
    ensures
        invite_key_readable(encode_utf8(invite_key_text(public_key, nickname))),
        spec_parse_invite_key(encode_utf8(invite_key_text(public_key, nickname))) == Ok::<
            _,
            Seq<char>,
        >(invite_read_back(public_key, nickname)),
{
    reveal_strlit("1");
    let part = nickname_part(nickname);
    let payload = public_key + part;
    assert(V1.spec_invite_payload(public_key, nickname) == payload);
    lemma_frame_roundtrip(FrameKind::Invite, "1"@, payload);
    let p = encode_utf8(payload);
    lemma_encode_utf8_concat(public_key, part);
    lemma_ascii_boundary(public_key, 44);
    lemma_encode_boundary(public_key, part);
    assert(p.subrange(0, 44) =~= encode_utf8(public_key));
    assert(p.subrange(44, p.len() as int) =~= encode_utf8(part));
    encode_utf8_decode_utf8(public_key);
    encode_utf8_decode_utf8(part);
    encode_utf8_decode_utf8("1"@);
    if nickname is None || is_blank(nickname->0) {
        assert(part.len() == 0);
    }
}

/// The reading of a message key: its three fields.
pub open spec fn message_read_back(
    sender_public_key: Seq<char>,
    nonce_b64: Seq<char>,
    ciphertext_b64: Seq<char>,
) -> MessageView {
    MessageView { sender_public_key, nonce_b64, ciphertext_b64 }
}

/// A message key built from a valid public key, nonce and ciphertext reads
/// back to those three fields, and can be read without cutting a character
/// in two.
pub proof fn lemma_message_key_roundtrip(
    sender_public_key: Seq<char>,
    nonce_b64: Seq<char>,
    ciphertext_b64: Seq<char>,
)
    requires
        valid_public_key(sender_public_key),
        valid_nonce(nonce_b64),
        valid_ciphertext(ciphertext_b64),
    ensures
        message_key_readable(encode_utf8(message_key_text(sender_public_key, nonce_b64, ciphertext_b64))),
        spec_parse_message_key(
            encode_utf8(message_key_text(sender_public_key, nonce_b64, ciphertext_b64)),
        ) == Ok::<_, Seq<char>>(message_read_back(sender_public_key, nonce_b64, ciphertext_b64)),
{
    reveal_strlit("1");
    let payload = sender_public_key + nonce_b64 + ciphertext_b64;
    lemma_frame_roundtrip(FrameKind::Message, "1"@, payload);
    let p = encode_utf8(payload);
    assert(payload =~= sender_public_key + (nonce_b64 + ciphertext_b64));
    lemma_encode_utf8_concat(sender_public_key, nonce_b64 + ciphertext_b64);
    lemma_encode_utf8_concat(nonce_b64, ciphertext_b64);
    lemma_ascii_boundary(sender_public_key, 44);
    lemma_ascii_boundary(nonce_b64, 16);
    lemma_ascii_boundary(ciphertext_b64, 0);
    lemma_encode_boundary(sender_public_key, nonce_b64 + ciphertext_b64);
    lemma_encode_boundary(nonce_b64, ciphertext_b64);
    assert(p.subrange(0, 44) =~= encode_utf8(sender_public_key));
    assert(p.subrange(44, p.len() as int) =~= encode_utf8(nonce_b64 + ciphertext_b64));
    assert(p.subrange(44, 60) =~= encode_utf8(nonce_b64));
    assert(p.subrange(60, p.len() as int) =~= encode_utf8(ciphertext_b64));
    encode_utf8_decode_utf8(sender_public_key);
    encode_utf8_decode_utf8(nonce_b64);
    encode_utf8_decode_utf8(ciphertext_b64);
    encode_utf8_decode_utf8("1"@);
}

} // verus!
