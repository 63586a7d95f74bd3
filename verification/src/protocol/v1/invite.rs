//! The version 1 invite payload: the 44 character Base64 public key,
//! followed by the nickname, if there is one.
use vstd::prelude::*;
use vstd::string::*;
use vstd::utf8::*;

use crate::protocol::framing::PUBLIC_KEY_B64_LENGTH;
use crate::protocol::types::{CreateInviteInput, InviteDetails, InviteView};
use crate::protocol::v1::validation::{self, spec_public_key, valid_public_key};
use crate::text::{blank, is_blank, lemma_ascii_boundary, opt_str};

verus! {

broadcast use vstd::string::group_string_axioms, vstd::utf8::group_utf8_lib;

/// Returned when an invite payload is shorter than a public key.
pub const INVITE_TOO_SHORT: &'static str = "Invite key is too short.";

/// The nickname part of an invite: the nickname, unless it is absent or blank.
pub open spec fn nickname_part(nickname: Option<Seq<char>>) -> Seq<char> {
    match nickname {
        Some(n) => if is_blank(n) {
            Seq::empty()
        } else {
            n
        },
        None => Seq::empty(),
    }
}

/// The invite payload for a public key and an optional nickname.
pub open spec fn invite_payload(public_key: Seq<char>, nickname: Option<Seq<char>>) -> Seq<char> {
    public_key + nickname_part(nickname)
}

/// What reading an invite payload gives, from its bytes: the first 44 bytes
/// are the public key, the rest is the nickname unless it is blank, and the
/// key id is the first five characters of the key.
pub open spec fn spec_parse_invite(p: Seq<u8>) -> Result<InviteView, Seq<char>> {
    if p.len() < 44 {
        Err(INVITE_TOO_SHORT@)
    } else {
        let key = decode_utf8(p.subrange(0, 44));
        let rest = decode_utf8(p.subrange(44, p.len() as int));
        if !valid_public_key(key) {
            Err(spec_public_key(key)->Err_0)
        } else {
            Ok(
                InviteView {
                    nickname: if is_blank(rest) {
                        None
                    } else {
                        Some(rest)
                    },
                    public_key: key,
                    key_id: key.subrange(0, 5),
                },
            )
        }
    }
}

/// An invite payload can be read without cutting a character in two: when
/// it is long enough, byte 44 starts a character.
pub open spec fn invite_splits(p: Seq<u8>) -> bool {
    p.len() >= 44 ==> is_char_boundary(p, 44)
}

/// Builds the invite payload: the public key followed by the nickname, which
/// is left out when it is blank.
pub fn create(input: &CreateInviteInput<'_>) -> (res: Result<String, String>)
    ensures
        res matches Ok(p) && p@ == invite_payload(input.public_key@, opt_str(input.nickname)),
{
    let nickname = match input.nickname {
        Some(name) => if blank(name) {
            ""
        } else {
            name
        },
        None => "",
    };
    proof {
        reveal_strlit("");
    }
    let mut payload = input.public_key.to_owned();
    payload.append(nickname);
    Ok(payload)
}

/// Reads an invite payload.
pub fn parse(invite: &str) -> (res: Result<InviteDetails, String>)
    requires
        invite_splits(invite.spec_bytes()),
    ensures
        res matches Ok(d) ==> spec_parse_invite(invite.spec_bytes()) == Ok::<_, Seq<char>>(d@),
        res matches Err(e) ==> spec_parse_invite(invite.spec_bytes()) == Err::<InviteView, _>(e@),
{
    if invite.as_bytes().len() < PUBLIC_KEY_B64_LENGTH {
        return Err(INVITE_TOO_SHORT.to_owned());
    }
    let ghost p = invite.spec_bytes();
    let (public_key, nickname) = invite.split_at(PUBLIC_KEY_B64_LENGTH);
    proof {
        assert(decode_utf8(encode_utf8(public_key@)) == public_key@);
        assert(decode_utf8(encode_utf8(nickname@)) == nickname@);
    }
    validation::public_key(public_key)?;
    let nickname = if blank(nickname) {
        None
    } else {
        Some(nickname.to_owned())
    };
    proof {
        lemma_ascii_boundary(public_key@, 5);
    }
    let key_id = public_key.substring_ascii(0, 5).to_owned();
    Ok(InviteDetails { nickname, public_key: public_key.to_owned(), key_id })
}

} // verus!
