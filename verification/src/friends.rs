//! Friends: the public keys, key ids and nicknames of the people one
//! exchanges messages with, added from their invite keys.
use vstd::prelude::*;
use vstd::string::*;
use vstd::utf8::*;

use crate::encoding::{base64_decoding, decode_b64};
use crate::json::{json_of_strings, json_strings_read};
use crate::parser::extract_details_from_invite_key;
use crate::protocol::registry::{invite_key_readable, spec_parse_invite_key};
use crate::storage::{
    add_to_index, friend_json, friend_key, friend_key_text, friend_to_json, index_to_json,
    LoadResult, ALREADY_A_FRIEND, FRIEND_INDEX_KEY,
};
use crate::text::{blank, is_blank, join3, opt_string};
use crate::types::{FunctionResult, FunctionView, StorageWrite, WriteView};

verus! {

/// A saved friend.
pub struct Friend {
    pub nickname: Option<String>,
    pub public_key: String,
    pub key_id: String,
}

/// A [`Friend`] as text.
pub struct FriendView {
    pub nickname: Option<Seq<char>>,
    pub public_key: Seq<char>,
    pub key_id: Seq<char>,
}

impl View for Friend {
    type V = FriendView;

    open spec fn view(&self) -> FriendView {
        FriendView { nickname: opt_string(self.nickname), public_key: self.public_key@, key_id: self.key_id@ }
    }
}

} // verus!

verus! {

/// A copy of an optional string.
pub fn copy_opt_string(o: &Option<String>) -> (c: Option<String>)
    ensures
        opt_string(c) == opt_string(*o),
{
    match o {
        Some(s) => Some(s.clone()),
        None => None,
    }
}

/// A copy of a friend.
pub fn copy_friend(friend: &Friend) -> (c: Friend)
    ensures
        c@ == friend@,
{
    Friend {
        nickname: copy_opt_string(&friend.nickname),
        public_key: friend.public_key.clone(),
        key_id: friend.key_id.clone(),
    }
}

} // verus!

verus! {

/// Logged when a friend is added before there is an identity.
pub const ERROR_NO_IDENTITY: &'static str = "add_friend called with has_identity = false";

/// Shown when a friend is added before there is an identity.
pub const CREATE_IDENTITY_FIRST: &'static str = "Create your own identity first. GhostLayer needs your key pair to work out a shared secret with a friend.";

/// Logged when the invite key cannot be read.
pub const ERROR_READING_INVITE: &'static str = "extract_details_from_invite_key failed";

/// Logged when the invite's public key is refused.
pub const ERROR_FRIEND_REFUSED: &'static str = "create_friend rejected the invite key";

/// Logged when the friend is already in the list.
pub const ERROR_ALREADY_LISTED: &'static str = "add_to_index rejected the public key";

/// Returned when an invite's public key is blank.
pub const INVITE_WITHOUT_KEY: &'static str = "That invite key has no public key in it. Ask your friend to copy their invite again.";

/// Returned when an invite's public key does not decode to 32 bytes.
pub const INVITE_KEY_WRONG_LENGTH: &'static str = "That invite key's public key is the wrong length, so the invite is damaged. Ask your friend to copy it again.";

/// Returned when an invite's public key is not Base64.
pub const INVITE_KEY_NOT_BASE64: &'static str = "That invite key's public key is not valid Base64, so the invite is damaged. Ask your friend to copy it again.";

/// Starts the message shown when a friend is added; the friend's name follows.
pub const FRIEND_CREATED_START: &'static str = "Friend ";

/// Ends the message shown when a friend is added.
pub const FRIEND_CREATED_END: &'static str = " has been created!";

/// What making a friend from an invite's fields gives.
pub open spec fn spec_create_friend(nickname: Option<Seq<char>>, public_key: Seq<char>, key_id: Seq<char>) -> Result<FriendView, Seq<char>> {
    match base64_decoding(public_key) {
        None => Err(INVITE_KEY_NOT_BASE64@),
        Some(bytes) => if is_blank(public_key) {
            Err(INVITE_WITHOUT_KEY@)
        } else if bytes.len() != 32 {
            Err(INVITE_KEY_WRONG_LENGTH@)
        } else {
            Ok(FriendView { nickname, public_key, key_id })
        },
    }
}

/// The nickname a new friend gets: the one given, unless it is absent or
/// blank; otherwise the one in the invite, unless that is blank.
pub open spec fn chosen_nickname(given: Option<Seq<char>>, from_invite: Option<Seq<char>>) -> Option<Seq<char>> {
    let fallback = match from_invite {
        Some(m) => if is_blank(m) {
            None
        } else {
            Some(m)
        },
        None => None,
    };
    match given {
        Some(n) => if !is_blank(n) {
            Some(n)
        } else {
            fallback
        },
        None => fallback,
    }
}

/// A failed operation on friends: what it logs and what it shows.
pub open spec fn refused(error: Seq<char>, display: Seq<char>) -> FunctionView {
    FunctionView { success: false, username: None, error: Some(error), display, write: Seq::empty() }
}

/// What adding a friend from an invite key gives, given whether there is an
/// identity and the current friend list: on success, the text shown and the
/// two storage writes, the friend's record and the list with the friend's
/// public key appended.
pub open spec fn spec_add_friend(
    nickname: Option<Seq<char>>,
    invite_key: Seq<char>,
    has_identity: bool,
    index: Seq<Seq<char>>,
) -> FunctionView {
    if !has_identity {
        refused(ERROR_NO_IDENTITY@, CREATE_IDENTITY_FIRST@)
    } else {
        match spec_parse_invite_key(encode_utf8(invite_key)) {
            Err(e) => refused(ERROR_READING_INVITE@, e),
            Ok(details) => {
                let name = chosen_nickname(nickname, details.nickname);
                match spec_create_friend(name, details.public_key, details.key_id) {
                    Err(e) => refused(ERROR_FRIEND_REFUSED@, e),
                    Ok(friend) => if index.contains(friend.public_key) {
                        refused(ERROR_ALREADY_LISTED@, ALREADY_A_FRIEND@)
                    } else {
                        let shown = match name {
                            Some(n) => n,
                            None => friend.key_id,
                        };
                        FunctionView {
                            success: true,
                            username: None,
                            error: None,
                            display: FRIEND_CREATED_START@ + shown + FRIEND_CREATED_END@,
                            write: seq![
                                WriteView {
                                    key: friend_key_text(friend.public_key),
                                    value: friend_json(name, friend.public_key, friend.key_id),
                                },
                                WriteView {
                                    key: FRIEND_INDEX_KEY@,
                                    value: json_of_strings(index.push(friend.public_key)),
                                },
                            ],
                        }
                    },
                }
            },
        }
    }
}

/// Makes a friend from an invite's fields, checking that the public key is
/// Base64 of 32 bytes.
fn create_friend(nickname: Option<String>, public_key: String, key_id: String) -> (res: Result<Friend, String>)
    ensures
        res matches Ok(f) ==> spec_create_friend(opt_string(nickname), public_key@, key_id@) == Ok::<_, Seq<char>>(f@),
        res matches Err(e) ==> spec_create_friend(opt_string(nickname), public_key@, key_id@) == Err::<FriendView, _>(e@),
{
    match decode_b64(public_key.as_str()) {
        Some(bytes) => {
            if blank(public_key.as_str()) {
                return Err(INVITE_WITHOUT_KEY.to_owned());
            }
            if bytes.len() != 32 {
                return Err(INVITE_KEY_WRONG_LENGTH.to_owned());
            }
            Ok(Friend { nickname, public_key, key_id })
        },
        None => Err(INVITE_KEY_NOT_BASE64.to_owned()),
    }
}

fn refuse(error: &str, display: String) -> (res: FunctionResult)
    ensures
        res@ == refused(error@, display@),
{
    let res = FunctionResult {
        success: false,
        username: None,
        error: Some(error.to_owned()),
        display,
        write: Vec::new(),
    };
    assert(res@.write =~= Seq::<WriteView>::empty());
    res
}

/// The nickname to give a new friend, as [`chosen_nickname`] says.
fn choose_nickname(given: Option<String>, from_invite: Option<String>) -> (name: Option<String>)
    ensures
        opt_string(name) == chosen_nickname(opt_string(given), opt_string(from_invite)),
{
    let fallback = match from_invite {
        Some(m) => if blank(m.as_str()) {
            None
        } else {
            Some(m)
        },
        None => None,
    };
    match given {
        Some(n) => if !blank(n.as_str()) {
            Some(n)
        } else {
            fallback
        },
        None => fallback,
    }
}

/// Adds a friend from an invite key, with an optional nickname that takes
/// the place of the invite's. Needs an identity; refuses a friend already
/// in the list. The friend list it writes reads back as the old list with
/// the friend's public key appended.
pub fn add_friend(nickname: Option<String>, invite_key: String, storage: &LoadResult) -> (res: FunctionResult)
    requires
        storage.has_identity ==> invite_key_readable(encode_utf8(invite_key@)),
    ensures
        res@ == spec_add_friend(opt_string(nickname), invite_key@, storage.has_identity, storage.friend_index.deep_view()),
        res@.success ==> json_strings_read(res@.write[1].value) == Some(
            storage.friend_index.deep_view().push(
                spec_parse_invite_key(encode_utf8(invite_key@))->Ok_0.public_key,
            ),
        ),
{
    if !storage.has_identity {
        return refuse(ERROR_NO_IDENTITY, CREATE_IDENTITY_FIRST.to_owned());
    }
    let details = match extract_details_from_invite_key(invite_key.as_str()) {
        Ok(d) => d,
        Err(e) => {
            return refuse(ERROR_READING_INVITE, e);
        },
    };
    let name = choose_nickname(nickname, details.nickname);
    let shown_name = copy_opt_string(&name);
    let friend = match create_friend(name, details.public_key, details.key_id) {
        Ok(f) => f,
        Err(e) => {
            return refuse(ERROR_FRIEND_REFUSED, e);
        },
    };
    let new_index = match add_to_index(&storage.friend_index, friend.public_key.as_str()) {
        Ok(i) => i,
        Err(e) => {
            return refuse(ERROR_ALREADY_LISTED, e);
        },
    };
    let shown = match shown_name {
        Some(n) => n,
        None => friend.key_id.clone(),
    };
    let display = join3(FRIEND_CREATED_START, shown.as_str(), FRIEND_CREATED_END);
    let record = StorageWrite { key: friend_key(friend.public_key.as_str()), value: friend_to_json(&friend) };
    let list = StorageWrite { key: FRIEND_INDEX_KEY.to_owned(), value: index_to_json(&new_index) };
    let mut write: Vec<StorageWrite> = Vec::new();
    write.push(record);
    write.push(list);
    let res = FunctionResult { success: true, username: None, error: None, display, write };
    proof {
        let spec = spec_add_friend(opt_string(nickname), invite_key@, storage.has_identity, storage.friend_index.deep_view());
        assert(res@.write =~= spec.write);
    }
    res
}

} // verus!

verus! {

/// Adding a friend keeps the friend list free of repeats: when it succeeds,
/// the list it writes is the old list with the new key appended, the key was
/// not there before, a list without repeats stays without repeats, and
/// adding the same invite again to the written list is refused, whatever
/// nickname comes with it.
pub proof fn lemma_added_friend_keeps_list_unique(
    nickname: Option<Seq<char>>,
    invite_key: Seq<char>,
    index: Seq<Seq<char>>,
)
    requires
        spec_add_friend(nickname, invite_key, true, index).success,
    ensures
        ({
            let key = spec_parse_invite_key(encode_utf8(invite_key))->Ok_0.public_key;
            &&& !index.contains(key)
            &&& spec_add_friend(nickname, invite_key, true, index).write[1].value == json_of_strings(index.push(key))
            &&& index.no_duplicates() ==> index.push(key).no_duplicates()
            &&& forall|again: Option<Seq<char>>|
                #[trigger] spec_add_friend(again, invite_key, true, index.push(key)) == refused(
                    ERROR_ALREADY_LISTED@,
                    ALREADY_A_FRIEND@,
                )
        }),
{
    let key = spec_parse_invite_key(encode_utf8(invite_key))->Ok_0.public_key;
    let pushed = index.push(key);
    assert(pushed.contains(key)) by {
        assert(pushed[index.len() as int] == key);
    }
    if index.no_duplicates() {
        assert forall|a: int, b: int| 0 <= a < pushed.len() && 0 <= b < pushed.len() && a != b
            implies pushed[a] != pushed[b] by {
            if a == index.len() as int {
                assert(pushed[b] == index[b]);
            } else if b == index.len() as int {
                assert(pushed[a] == index[a]);
            }
        }
    }
}

} // verus!

verus! {

/// A nickname given with the invite is the new friend's nickname whenever
/// it is not blank, whatever nickname the invite carries: it is the one
/// shown, and the one written in the friend's record.
pub proof fn lemma_given_nickname_wins(
    name: Seq<char>,
    invite_key: Seq<char>,
    index: Seq<Seq<char>>,
)
    requires
        !is_blank(name),
        spec_add_friend(Some(name), invite_key, true, index).success,
    ensures
        ({
            let details = spec_parse_invite_key(encode_utf8(invite_key))->Ok_0;
            let res = spec_add_friend(Some(name), invite_key, true, index);
            &&& res.display == FRIEND_CREATED_START@ + name + FRIEND_CREATED_END@
            &&& res.write[0].value == friend_json(Some(name), details.public_key, details.key_id)
        }),
        forall|from_invite: Option<Seq<char>>| #[trigger] chosen_nickname(Some(name), from_invite) == Some(name),
{
}

/// Without a usable given nickname (none, or blank), the new friend takes the
/// invite's nickname when it is not blank, and otherwise has none; the
/// friend is then shown by its key id.
pub proof fn lemma_invite_nickname_is_the_fallback(given: Option<Seq<char>>, from_invite: Option<Seq<char>>)
    requires
        given matches Some(n) ==> is_blank(n),
    ensures
        chosen_nickname(given, from_invite) == match from_invite {
            Some(m) => if is_blank(m) {
                None
            } else {
                Some(m)
            },
            None => None,
        },
{
}

} // verus!
