//! Picks the protocol that builds new keys and the one that reads a key,
//! by the version its frame carries.
use vstd::prelude::*;
use vstd::string::*;
use vstd::utf8::*;

use crate::protocol::framing::{self, frame_text, spec_parse_frame, FrameKind};
use crate::protocol::traits::Protocol;
use crate::protocol::types::{
    CreateInviteInput, CreateMessageInput, InviteDetails, InviteView, MessageDetails, MessageView,
};
use crate::protocol::v1::V1;
use crate::protocol::v1::validation::{valid_ciphertext, valid_nonce, valid_public_key};
use crate::text::{opt_str, str_equal};

verus! {

broadcast use vstd::string::group_string_axioms, vstd::utf8::group_utf8_lib;

/// Returned when an invite is read from a frame of another kind.
pub const NOT_AN_INVITE: &'static str = "Invalid kind !";

/// Returned when a message is read from a frame of another kind.
pub const NOT_A_MESSAGE: &'static str = "Invalid kind!";

/// Returned when no protocol has the frame's version.
pub const UNKNOWN_VERSION: &'static str = "Invalid Protocol version";

/// The protocol that builds new keys.
fn current_protocol() -> (p: V1) {
    V1
}

/// The protocol with the given version, if there is one.
fn protocol_by_version(version: &str) -> (res: Result<V1, String>)
    ensures
        res is Ok <==> version@ == V1.spec_version(),
        res matches Err(e) ==> e@ == UNKNOWN_VERSION@,
{
    let candidate = V1;
    if str_equal(candidate.version(), version) {
        Ok(candidate)
    } else {
        Err(UNKNOWN_VERSION.to_owned())
    }
}

/// What reading an invite key gives, from its bytes.
pub open spec fn spec_parse_invite_key(b: Seq<u8>) -> Result<InviteView, Seq<char>> {
    match spec_parse_frame(b) {
        Err(e) => Err(e),
        Ok((kind, version, payload)) => if kind != FrameKind::Invite {
            Err(NOT_AN_INVITE@)
        } else if decode_utf8(version) != V1.spec_version() {
            Err(UNKNOWN_VERSION@)
        } else {
            V1.spec_read_invite(payload)
        },
    }
}

/// What reading a message key gives, from its bytes.
pub open spec fn spec_parse_message_key(b: Seq<u8>) -> Result<MessageView, Seq<char>> {
    match spec_parse_frame(b) {
        Err(e) => Err(e),
        Ok((kind, version, payload)) => if kind != FrameKind::Message {
            Err(NOT_A_MESSAGE@)
        } else if decode_utf8(version) != V1.spec_version() {
            Err(UNKNOWN_VERSION@)
        } else {
            V1.spec_read_message(payload)
        },
    }
}

/// An invite key whose payload, if it gets as far as being read, can be read
/// without cutting a character in two.
pub open spec fn invite_key_readable(b: Seq<u8>) -> bool {
    match spec_parse_frame(b) {
        Ok((kind, version, payload)) => (kind == FrameKind::Invite && decode_utf8(version)
            == V1.spec_version()) ==> V1.invite_readable(payload),
        Err(_) => true,
    }
}

/// A message key whose payload, if it gets as far as being read, can be read
/// without cutting a character in two.
pub open spec fn message_key_readable(b: Seq<u8>) -> bool {
    match spec_parse_frame(b) {
        Ok((kind, version, payload)) => (kind == FrameKind::Message && decode_utf8(version)
            == V1.spec_version()) ==> V1.message_readable(payload),
        Err(_) => true,
    }
}

/// The invite key for an input: a version 1 invite frame.
pub open spec fn invite_key_text(public_key: Seq<char>, nickname: Option<Seq<char>>) -> Seq<char> {
    frame_text(FrameKind::Invite, V1.spec_version(), V1.spec_invite_payload(public_key, nickname))
}

/// The message key for three fields: a version 1 message frame whose
/// payload is the sender's public key, the nonce and the ciphertext, joined.
pub open spec fn message_key_text(
    sender_public_key: Seq<char>,
    nonce_b64: Seq<char>,
    ciphertext_b64: Seq<char>,
) -> Seq<char> {
    frame_text(FrameKind::Message, V1.spec_version(), sender_public_key + nonce_b64 + ciphertext_b64)
}

/// What building a message key gives: the key, or why a field is refused.
pub open spec fn spec_create_message_key(
    sender_public_key: Seq<char>,
    nonce_b64: Seq<char>,
    ciphertext_b64: Seq<char>,
) -> Result<Seq<char>, Seq<char>> {
    match V1.spec_message_payload(sender_public_key, nonce_b64, ciphertext_b64) {
        Ok(payload) => Ok(frame_text(FrameKind::Message, V1.spec_version(), payload)),
        Err(e) => Err(e),
    }
}

/// Builds an invite key with the current protocol. It always succeeds.
pub fn create_invite(input: &CreateInviteInput<'_>) -> (res: Result<String, String>)
    ensures
        res matches Ok(k) && k@ == invite_key_text(input.public_key@, opt_str(input.nickname)),
{
    let protocol = current_protocol();
    let payload = protocol.create_invite(input);
    Ok(framing::create_frame(FrameKind::Invite, protocol.version(), payload.as_str()))
}

/// Reads an invite key with the protocol its frame names.
pub fn parse_invite(input: &str) -> (res: Result<InviteDetails, String>)
    requires
        invite_key_readable(input.spec_bytes()),
    ensures
        res matches Ok(d) ==> spec_parse_invite_key(input.spec_bytes()) == Ok::<_, Seq<char>>(d@),
        res matches Err(e) ==> spec_parse_invite_key(input.spec_bytes()) == Err::<InviteView, _>(e@),
{
    let frame = framing::parse_frame(input)?;
    if frame.kind != FrameKind::Invite {
        return Err(NOT_AN_INVITE.to_owned());
    }
    proof {
        assert(decode_utf8(encode_utf8(frame.version@)) == frame.version@);
    }
    let protocol = protocol_by_version(frame.version)?;
    protocol.parse_invite(frame.payload)
}

/// Builds a message key with the current protocol. It succeeds exactly when
/// the public key, the nonce and the ciphertext pass their checks, and the
/// key then holds the three fields; otherwise the first failed check's
/// message is returned.
pub fn create_message(input: &CreateMessageInput<'_>) -> (res: Result<String, String>)
    ensures
        res matches Ok(k) ==> spec_create_message_key(
            input.sender_public_key@,
            input.nonce_b64@,
            input.ciphertext_b64@,
        ) == Ok::<_, Seq<char>>(k@),
        res matches Err(e) ==> spec_create_message_key(
            input.sender_public_key@,
            input.nonce_b64@,
            input.ciphertext_b64@,
        ) == Err::<Seq<char>, _>(e@),
        res is Ok <==> valid_public_key(input.sender_public_key@) && valid_nonce(input.nonce_b64@)
            && valid_ciphertext(input.ciphertext_b64@),
        res matches Ok(k) ==> k@ == message_key_text(
            input.sender_public_key@,
            input.nonce_b64@,
            input.ciphertext_b64@,
        ),
{
    let protocol = current_protocol();
    let payload = protocol.create_message(input)?;
    Ok(framing::create_frame(FrameKind::Message, protocol.version(), payload.as_str()))
}

/// Reads a message key with the protocol its frame names.
pub fn parse_message(message: &str) -> (res: Result<MessageDetails, String>)
    requires
        message_key_readable(message.spec_bytes()),
    ensures
        res matches Ok(d) ==> spec_parse_message_key(message.spec_bytes()) == Ok::<_, Seq<char>>(d@),
        res matches Err(e) ==> spec_parse_message_key(message.spec_bytes()) == Err::<MessageView, _>(e@),
{
    let frame = framing::parse_frame(message)?;
    if frame.kind != FrameKind::Message {
        return Err(NOT_A_MESSAGE.to_owned());
    }
    proof {
        assert(decode_utf8(encode_utf8(frame.version@)) == frame.version@);
    }
    let protocol = protocol_by_version(frame.version)?;
    protocol.parse_message(frame.payload)
}

/// Whether an invite key can be read without cutting a character in two:
/// tests the condition that [`parse_invite`] requires.
pub fn invite_key_is_readable(invite_key: &str) -> (readable: bool)
    ensures
        readable == invite_key_readable(invite_key.spec_bytes()),
{
    match framing::parse_frame(invite_key) {
        Err(_) => true,
        Ok(frame) => {
            proof {
                assert(decode_utf8(encode_utf8(frame.version@)) == frame.version@);
            }
            if frame.kind == FrameKind::Invite && str_equal(frame.version, V1.version()) {
                let n = frame.payload.as_bytes().len();
                n < 44 || frame.payload.is_char_boundary(44)
            } else {
                true
            }
        },
    }
}

/// Whether a message key can be read without cutting a character in two:
/// tests the condition that [`parse_message`] requires.
pub fn message_key_is_readable(message_key: &str) -> (readable: bool)
    ensures
        readable == message_key_readable(message_key.spec_bytes()),
{
    match framing::parse_frame(message_key) {
        Err(_) => true,
        Ok(frame) => {
            proof {
                assert(decode_utf8(encode_utf8(frame.version@)) == frame.version@);
            }
            if frame.kind == FrameKind::Message && str_equal(frame.version, V1.version()) {
                let payload = frame.payload;
                if payload.as_bytes().len() <= 60 {
                    true
                } else if !payload.is_char_boundary(44) {
                    false
                } else {
                    let (_, rest) = payload.split_at(44);
                    rest.is_char_boundary(16)
                }
            } else {
                true
            }
        },
    }
}

} // verus!
