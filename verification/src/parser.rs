//! Invite keys and message keys as the rest of the library uses them.
use vstd::prelude::*;
use vstd::string::*;

use crate::protocol::registry::{
    invite_key_readable, invite_key_text, message_key_readable, message_key_text,
    spec_create_message_key, spec_parse_invite_key, spec_parse_message_key,
};
use crate::protocol::types::{InviteView, MessageView};
use crate::protocol::v1::validation::{valid_ciphertext, valid_nonce, valid_public_key};
use crate::protocol::{
    create_invite, create_message, parse_invite, parse_message, CreateInviteInput,
    CreateMessageInput, InviteDetails, MessageDetails,
};
use crate::text::opt_str;

verus! {

/// Builds the invite key that shares a public key and an optional nickname.
/// It always succeeds.
pub fn create_invite_key(public_key: &str, nickname: Option<&str>) -> (res: Result<String, String>)
    ensures
        res matches Ok(k) && k@ == invite_key_text(public_key@, opt_str(nickname)),
{
    create_invite(&CreateInviteInput { public_key, nickname })
}

/// Reads the public key, key id and nickname out of an invite key.
pub fn extract_details_from_invite_key(invite_key: &str) -> (res: Result<InviteDetails, String>)
    requires
        invite_key_readable(invite_key.spec_bytes()),
    ensures
        res matches Ok(d) ==> spec_parse_invite_key(invite_key.spec_bytes()) == Ok::<_, Seq<char>>(d@),
        res matches Err(e) ==> spec_parse_invite_key(invite_key.spec_bytes()) == Err::<InviteView, _>(e@),
{
    parse_invite(invite_key)
}

/// Builds the message key that carries a sender's public key, a nonce and a
/// ciphertext. It succeeds exactly when the three fields pass their checks;
/// otherwise it returns the first failed check's message.
pub fn create_message_key(sender_public_key: &str, nonce_b64: &str, ciphertext_b64: &str) -> (res: Result<String, String>)
    ensures
        res matches Ok(k) ==> spec_create_message_key(sender_public_key@, nonce_b64@, ciphertext_b64@)
            == Ok::<_, Seq<char>>(k@),
        res matches Err(e) ==> spec_create_message_key(sender_public_key@, nonce_b64@, ciphertext_b64@)
            == Err::<Seq<char>, _>(e@),
        res is Ok <==> valid_public_key(sender_public_key@) && valid_nonce(nonce_b64@) && valid_ciphertext(
            ciphertext_b64@,
        ),
        res matches Ok(k) ==> k@ == message_key_text(sender_public_key@, nonce_b64@, ciphertext_b64@),
{
    create_message(&CreateMessageInput { sender_public_key, nonce_b64, ciphertext_b64 })
}

/// Reads the sender's public key, the nonce and the ciphertext out of a
/// message key.
pub fn extract_details_from_message_key(message_key: &str) -> (res: Result<MessageDetails, String>)
    requires
        message_key_readable(message_key.spec_bytes()),
    ensures
        res matches Ok(d) ==> spec_parse_message_key(message_key.spec_bytes()) == Ok::<_, Seq<char>>(d@),
        res matches Err(e) ==> spec_parse_message_key(message_key.spec_bytes()) == Err::<MessageView, _>(e@),
{
    parse_message(message_key)
}

} // verus!
