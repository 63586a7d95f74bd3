//! What the protocol takes to build keys and what it reads out of them.
use vstd::prelude::*;

use crate::text::opt_string;

verus! {

/// What an invite key is built from; it borrows its fields.
#[derive(Debug)]
pub struct CreateInviteInput<'a> {
    pub public_key: &'a str,
    pub nickname: Option<&'a str>,
}

/// What a message key is built from; it borrows its fields.
#[derive(Debug)]
pub struct CreateMessageInput<'a> {
    pub sender_public_key: &'a str,
    pub nonce_b64: &'a str,
    pub ciphertext_b64: &'a str,
}

/// What an invite key holds.
#[derive(Debug)]
pub struct InviteDetails {
    pub nickname: Option<String>,
    pub public_key: String,
    pub key_id: String,
}

/// What a message key holds. `sender_public_key` is the public key of the
/// sender, which the receiver pairs with their own private key.
#[derive(Debug)]
pub struct MessageDetails {
    pub sender_public_key: String,
    pub nonce_b64: String,
    pub ciphertext_b64: String,
}

/// The contents of an [`InviteDetails`] as text.
pub struct InviteView {
    pub nickname: Option<Seq<char>>,
    pub public_key: Seq<char>,
    pub key_id: Seq<char>,
}

/// The contents of a [`MessageDetails`] as text.
pub struct MessageView {
    pub sender_public_key: Seq<char>,
    pub nonce_b64: Seq<char>,
    pub ciphertext_b64: Seq<char>,
}

impl View for InviteDetails {
    type V = InviteView;

    open spec fn view(&self) -> InviteView {
        InviteView {
            nickname: opt_string(self.nickname),
            public_key: self.public_key@,
            key_id: self.key_id@,
        }
    }
}

impl View for MessageDetails {
    type V = MessageView;

    open spec fn view(&self) -> MessageView {
        MessageView {
            sender_public_key: self.sender_public_key@,
            nonce_b64: self.nonce_b64@,
            ciphertext_b64: self.ciphertext_b64@,
        }
    }
}

} // verus!
