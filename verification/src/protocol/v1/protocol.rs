//! Version 1 of the protocol.
use vstd::prelude::*;
use vstd::string::*;

use crate::protocol::traits::Protocol;
use crate::protocol::types::{
    CreateInviteInput, CreateMessageInput, InviteDetails, InviteView, MessageDetails, MessageView,
};
use crate::protocol::v1::invite::{self, invite_payload, invite_splits, spec_parse_invite};
use crate::protocol::v1::message::{self, message_splits, spec_create_message, spec_parse_message};
use crate::text::opt_str;

verus! {

/// The payload written when an invite payload cannot be built.
pub const INVITE_CREATION_FAILED: &'static str = "Error while creating invite key!";

/// Protocol version 1.
pub struct V1;

impl Protocol for V1 {
    open spec fn spec_version(&self) -> Seq<char> {
        "1"@
    }

    open spec fn spec_invite_payload(&self, public_key: Seq<char>, nickname: Option<Seq<char>>) -> Seq<char> {
        invite_payload(public_key, nickname)
    }

    open spec fn spec_message_payload(
        &self,
        sender_public_key: Seq<char>,
        nonce_b64: Seq<char>,
        ciphertext_b64: Seq<char>,
    ) -> Result<Seq<char>, Seq<char>> {
        spec_create_message(sender_public_key, nonce_b64, ciphertext_b64)
    }

    open spec fn spec_read_invite(&self, payload: Seq<u8>) -> Result<InviteView, Seq<char>> {
        spec_parse_invite(payload)
    }

    open spec fn spec_read_message(&self, payload: Seq<u8>) -> Result<MessageView, Seq<char>> {
        spec_parse_message(payload)
    }

    open spec fn invite_readable(&self, payload: Seq<u8>) -> bool {
        invite_splits(payload)
    }

    open spec fn message_readable(&self, payload: Seq<u8>) -> bool {
        message_splits(payload)
    }

    fn version(&self) -> (v: &'static str) {
        "1"
    }

    fn create_invite(&self, input: &CreateInviteInput<'_>) -> (payload: String) {
        match invite::create(input) {
            Ok(result) => result,
            Err(_) => INVITE_CREATION_FAILED.to_owned(),
        }
    }

    fn create_message(&self, input: &CreateMessageInput<'_>) -> (res: Result<String, String>) {
        message::create(input)
    }

    fn parse_invite(&self, invite: &str) -> (res: Result<InviteDetails, String>) {
        invite::parse(invite)
    }

    fn parse_message(&self, message: &str) -> (res: Result<MessageDetails, String>) {
        message::parse(message)
    }
}

} // verus!
