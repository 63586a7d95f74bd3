//! What every protocol version provides.
use vstd::prelude::*;
use vstd::string::StringSliceAdditionalSpecFns;

use crate::protocol::types::{
    CreateInviteInput, CreateMessageInput, InviteDetails, InviteView, MessageDetails, MessageView,
};
use crate::text::opt_str;

verus! {

/// A version of the invite and message payload formats.
pub trait Protocol {
    /// The version field that frames of this protocol carry.
    spec fn spec_version(&self) -> Seq<char>;

    /// The invite payload for a public key and an optional nickname.
    spec fn spec_invite_payload(&self, public_key: Seq<char>, nickname: Option<Seq<char>>) -> Seq<char>;

    /// What building the message payload for a sender's public key, a nonce
    /// and a ciphertext gives: the payload, or why a field is refused.
    spec fn spec_message_payload(
        &self,
        sender_public_key: Seq<char>,
        nonce_b64: Seq<char>,
        ciphertext_b64: Seq<char>,
    ) -> Result<Seq<char>, Seq<char>>;

    /// What reading an invite payload, given as bytes, gives.
    spec fn spec_read_invite(&self, payload: Seq<u8>) -> Result<InviteView, Seq<char>>;

    /// What reading a message payload, given as bytes, gives.
    spec fn spec_read_message(&self, payload: Seq<u8>) -> Result<MessageView, Seq<char>>;

    /// The invite payloads that can be read without cutting a character in two.
    spec fn invite_readable(&self, payload: Seq<u8>) -> bool;

    /// The message payloads that can be read without cutting a character in two.
    spec fn message_readable(&self, payload: Seq<u8>) -> bool;

    /// The version field of this protocol.
    fn version(&self) -> (v: &'static str)
        ensures
            v@ == self.spec_version(),
    ;

    /// Builds an invite payload.
    fn create_invite(&self, input: &CreateInviteInput<'_>) -> (payload: String)
        ensures
            payload@ == self.spec_invite_payload(input.public_key@, opt_str(input.nickname)),
    ;

    /// Builds a message payload, refusing fields that fail their checks.
    fn create_message(&self, input: &CreateMessageInput<'_>) -> (res: Result<String, String>)
        ensures
            res matches Ok(payload) ==> self.spec_message_payload(
                input.sender_public_key@,
                input.nonce_b64@,
                input.ciphertext_b64@,
            ) == Ok::<_, Seq<char>>(payload@),
            res matches Err(e) ==> self.spec_message_payload(
                input.sender_public_key@,
                input.nonce_b64@,
                input.ciphertext_b64@,
            ) == Err::<Seq<char>, _>(e@),
    ;

    /// Reads an invite payload.
    fn parse_invite(&self, invite: &str) -> (res: Result<InviteDetails, String>)
        requires
            self.invite_readable(invite.spec_bytes()),
        ensures
            res matches Ok(d) ==> self.spec_read_invite(invite.spec_bytes()) == Ok::<_, Seq<char>>(d@),
            res matches Err(e) ==> self.spec_read_invite(invite.spec_bytes()) == Err::<InviteView, _>(e@),
    ;

    /// Reads a message payload.
    fn parse_message(&self, message: &str) -> (res: Result<MessageDetails, String>)
        requires
            self.message_readable(message.spec_bytes()),
        ensures
            res matches Ok(d) ==> self.spec_read_message(message.spec_bytes()) == Ok::<_, Seq<char>>(d@),
            res matches Err(e) ==> self.spec_read_message(message.spec_bytes()) == Err::<MessageView, _>(e@),
    ;
}

} // verus!
