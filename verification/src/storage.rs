//! The records the extension keeps in `chrome.storage`: the identity, one
//! record per friend under `friend:<public key>`, and `friend_index`, the
//! JSON list of the friends' public keys.
use vstd::prelude::*;
use vstd::string::*;

use crate::friends::{chosen_nickname, copy_friend, copy_opt_string, spec_add_friend, Friend, FriendView};
use crate::identity::Identity;
use crate::json::{
    json_of_str, json_of_strings, json_strings_read, str_to_json, strings_from_json,
    strings_to_json,
};
use crate::protocol::registry::spec_parse_invite_key;
use crate::text::{opt_string, str_equal};
use vstd::utf8::encode_utf8;

verus! {

broadcast use vstd::string::group_string_axioms;

/// Returned when the stored friend list is not a JSON list of strings.
pub const INDEX_CORRUPTED: &'static str = "Your saved friend list could not be read, so it is corrupted.";

/// Returned when a public key is already in the friend list.
pub const ALREADY_A_FRIEND: &'static str = "That friend is already in your list.";

/// The start of every friend record's storage key.
pub const FRIEND_KEY_PREFIX: &'static str = "friend:";

/// The storage key of the friend list.
pub const FRIEND_INDEX_KEY: &'static str = "friend_index";

/// The storage key of a friend's record: `friend:<public key>`.
pub fn friend_key(public_key: &str) -> (key: String)
    ensures
        key@ == FRIEND_KEY_PREFIX@ + public_key@,
{
    let mut key = FRIEND_KEY_PREFIX.to_owned();
    key.append(public_key);
    key
}

/// Writes the friend list as JSON.
pub fn index_to_json(index: &Vec<String>) -> (json: String)
    ensures
        json@ == json_of_strings(index.deep_view()),
        json_strings_read(json@) == Some(index.deep_view()),
{
    strings_to_json(index)
}

/// Reads the friend list from JSON.
pub fn index_from_json(json: &str) -> (res: Result<Vec<String>, String>)
    ensures
        res matches Ok(index) ==> json_strings_read(json@) == Some(index.deep_view()),
        res matches Err(e) ==> json_strings_read(json@) is None && e@ == INDEX_CORRUPTED@,
{
    match strings_from_json(json) {
        Ok(index) => Ok(index),
        Err(_) => Err(INDEX_CORRUPTED.to_owned()),
    }
}

/// Whether a text is among the keys of a friend list.
pub fn index_contains(index: &Vec<String>, public_key: &str) -> (found: bool)
    ensures
        found == index.deep_view().contains(public_key@),
{
    let n = index.len();
    let mut i: usize = 0;
    while i < n
        invariant
            n == index@.len(),
            i <= n,
            forall|k: int| 0 <= k < i ==> index.deep_view()[k] != public_key@,
        decreases n - i,
    {
        if str_equal(index[i].as_str(), public_key) {
            assert(index.deep_view()[i as int] == public_key@);
            return true;
        }
        i = i + 1;
    }
    false
}

/// Adds a public key at the end of the friend list, refusing one that is
/// already there. The list given is left as it was.
pub fn add_to_index(index: &Vec<String>, public_key: &str) -> (res: Result<Vec<String>, String>)
    ensures
        res is Ok <==> !index.deep_view().contains(public_key@),
        res matches Ok(new_index) ==> new_index.deep_view() == index.deep_view().push(public_key@),
        res matches Err(e) ==> e@ == ALREADY_A_FRIEND@,
        res matches Ok(new_index) ==> (index.deep_view().no_duplicates() ==> new_index.deep_view().no_duplicates()),
{
    if index_contains(index, public_key) {
        return Err(ALREADY_A_FRIEND.to_owned());
    }
    let n = index.len();
    let mut new_index: Vec<String> = Vec::new();
    let mut i: usize = 0;
    while i < n
        invariant
            n == index@.len(),
            i <= n,
            new_index@.len() == i,
            forall|k: int| 0 <= k < i ==> new_index@[k]@ == index@[k]@,
        decreases n - i,
    {
        new_index.push(index[i].clone());
        i = i + 1;
    }
    new_index.push(public_key.to_owned());
    let ghost old_keys = index.deep_view();
    let ghost new_keys = new_index.deep_view();
    assert(new_keys =~= old_keys.push(public_key@));
    assert(old_keys.no_duplicates() ==> new_keys.no_duplicates()) by {
        if old_keys.no_duplicates() {
            assert forall|a: int, b: int| 0 <= a < new_keys.len() && 0 <= b < new_keys.len() && a != b
                implies new_keys[a] != new_keys[b] by {
                if a == n as int {
                    assert(new_keys[b] == old_keys[b]);
                } else if b == n as int {
                    assert(new_keys[a] == old_keys[a]);
                }
            }
        }
    }
    Ok(new_index)
}

} // verus!

verus! {

/// The JSON text of a friend record, as `serde_json` writes a struct with
/// the fields `nickname`, `public_key` and `key_id` in that order: each text
/// as a JSON string literal, and a missing nickname as `null`.
pub open spec fn friend_json(nickname: Option<Seq<char>>, public_key: Seq<char>, key_id: Seq<char>) -> Seq<char> {
    "{\"nickname\":"@ + match nickname {
        Some(n) => json_of_str(n),
        None => "null"@,
    } + ",\"public_key\":"@ + json_of_str(public_key) + ",\"key_id\":"@ + json_of_str(key_id) + "}"@
}

/// Writes a friend record as JSON.
pub fn friend_to_json(friend: &Friend) -> (json: String)
    ensures
        json@ == friend_json(friend@.nickname, friend@.public_key, friend@.key_id),
{
    let mut json = "{\"nickname\":".to_owned();
    match &friend.nickname {
        Some(n) => {
            let literal = str_to_json(n.as_str());
            json.append(literal.as_str());
        },
        None => {
            json.append("null");
        },
    }
    json.append(",\"public_key\":");
    let key = str_to_json(friend.public_key.as_str());
    json.append(key.as_str());
    json.append(",\"key_id\":");
    let id = str_to_json(friend.key_id.as_str());
    json.append(id.as_str());
    json.append("}");
    json
}

/// The JSON text of an identity record, as `serde_json` writes a struct with
/// the fields `name`, `public_key`, `private_key` and `key_id` in that order:
/// each text as a JSON string literal, and a missing name as `null`.
pub open spec fn identity_json(
    name: Option<Seq<char>>,
    public_key: Seq<char>,
    private_key: Seq<char>,
    key_id: Seq<char>,
) -> Seq<char> {
    "{\"name\":"@ + match name {
        Some(n) => json_of_str(n),
        None => "null"@,
    } + ",\"public_key\":"@ + json_of_str(public_key) + ",\"private_key\":"@ + json_of_str(private_key)
        + ",\"key_id\":"@ + json_of_str(key_id) + "}"@
}

/// Writes an identity record as JSON.
pub fn identity_to_json(identity: &Identity) -> (json: String)
    ensures
        json@ == identity_json(identity@.name, identity@.public_key, identity@.private_key, identity@.key_id),
{
    let mut json = "{\"name\":".to_owned();
    match &identity.name {
        Some(n) => {
            let literal = str_to_json(n.as_str());
            json.append(literal.as_str());
        },
        None => {
            json.append("null");
        },
    }
    json.append(",\"public_key\":");
    let public_key = str_to_json(identity.public_key.as_str());
    json.append(public_key.as_str());
    json.append(",\"private_key\":");
    let private_key = str_to_json(identity.private_key.as_str());
    json.append(private_key.as_str());
    json.append(",\"key_id\":");
    let key_id = str_to_json(identity.key_id.as_str());
    json.append(key_id.as_str());
    json.append("}");
    json
}

} // verus!

verus! {

/// What the extension's storage holds, already read from its JSON: the
/// identity, if there is one; the friend list, if there is one; and each
/// `friend:` record by its storage key, `None` where it could not be read.
pub struct StoredData {
    pub identity: Option<Identity>,
    pub friend_index: Option<Vec<String>>,
    pub friend_records: Vec<FriendRecord>,
}

/// A friend record under its storage key; `None` where it could not be read.
pub struct FriendRecord {
    pub key: String,
    pub friend: Option<Friend>,
}

/// What the popup shows: whether there is an identity, its key id, name and
/// public key, and the friends in list order.
pub struct LoadResult {
    pub has_identity: bool,
    pub identity_key_id: Option<String>,
    pub username: Option<String>,
    pub public_key: Option<String>,
    pub friends: Vec<Friend>,
    pub friend_index: Vec<String>,
}

/// A [`LoadResult`] as text.
pub struct LoadView {
    pub has_identity: bool,
    pub identity_key_id: Option<Seq<char>>,
    pub username: Option<Seq<char>>,
    pub public_key: Option<Seq<char>>,
    pub friends: Seq<FriendView>,
    pub friend_index: Seq<Seq<char>>,
}

impl View for LoadResult {
    type V = LoadView;

    open spec fn view(&self) -> LoadView {
        LoadView {
            has_identity: self.has_identity,
            identity_key_id: opt_string(self.identity_key_id),
            username: opt_string(self.username),
            public_key: opt_string(self.public_key),
            friends: self.friends@.map_values(|f: Friend| f@),
            friend_index: self.friend_index.deep_view(),
        }
    }
}

/// The first record stored under a key: `Some(None)` when it could not be
/// read, `None` when there is none.
pub open spec fn record_for(records: Seq<FriendRecord>, key: Seq<char>) -> Option<Option<FriendView>>
    decreases records.len(),
{
    if records.len() == 0 {
        None
    } else if records[0].key@ == key {
        Some(
            match records[0].friend {
                Some(f) => Some(f@),
                None => None,
            },
        )
    } else {
        record_for(records.drop_first(), key)
    }
}

/// The storage key of a friend record, as text.
pub open spec fn friend_key_text(public_key: Seq<char>) -> Seq<char> {
    FRIEND_KEY_PREFIX@ + public_key
}

/// Every friend in the list has a readable record.
pub open spec fn friends_complete(stored: StoredData) -> bool {
    stored.friend_index matches Some(index) ==> forall|i: int|
        0 <= i < index@.len() ==> record_for(stored.friend_records@, friend_key_text(#[trigger] index@[i]@)) matches Some(
            Some(_),
        )
}

/// What loading the storage gives.
pub open spec fn spec_load(stored: StoredData) -> LoadView {
    let index = match stored.friend_index {
        Some(index) => index.deep_view(),
        None => Seq::empty(),
    };
    LoadView {
        has_identity: stored.identity is Some,
        identity_key_id: match stored.identity {
            Some(id) => Some(id.key_id@),
            None => None,
        },
        username: match stored.identity {
            Some(id) => opt_string(id.name),
            None => None,
        },
        public_key: match stored.identity {
            Some(id) => Some(id.public_key@),
            None => None,
        },
        friends: index.map_values(
            |pk: Seq<char>| record_for(stored.friend_records@, friend_key_text(pk))->Some_0->Some_0,
        ),
        friend_index: index,
    }
}

/// Looks up the first record stored under a key.
fn lookup_record(records: &Vec<FriendRecord>, key: &str) -> (found: Option<Option<Friend>>)
    ensures
        match found {
            Some(Some(f)) => record_for(records@, key@) == Some(Some(f@)),
            Some(None) => record_for(records@, key@) == Some(None::<FriendView>),
            None => record_for(records@, key@) is None,
        },
{
    let n = records.len();
    let mut i: usize = 0;
    assert(records@.skip(0) =~= records@);
    while i < n
        invariant
            n == records@.len(),
            i <= n,
            record_for(records@, key@) == record_for(records@.skip(i as int), key@),
        decreases n - i,
    {
        let ghost rest = records@.skip(i as int);
        assert(rest[0] == records@[i as int]);
        assert(rest.drop_first() =~= records@.skip(i + 1));
        if str_equal(records[i].key.as_str(), key) {
            return match &records[i].friend {
                Some(f) => Some(Some(copy_friend(f))),
                None => Some(None),
            };
        }
        i = i + 1;
    }
    None
}

/// Whether every friend in the list has a readable record, so that the
/// storage can be loaded.
pub fn is_complete(stored: &StoredData) -> (complete: bool)
    ensures
        complete == friends_complete(*stored),
{
    match &stored.friend_index {
        None => true,
        Some(index) => {
            let n = index.len();
            let mut i: usize = 0;
            #[verifier::loop_isolation(false)]
            while i < n
                invariant
                    n == index@.len(),
                    i <= n,
                    forall|k: int|
                        0 <= k < i ==> record_for(stored.friend_records@, friend_key_text(#[trigger] index@[k]@)) matches Some(
                            Some(_),
                        ),
                decreases n - i,
            {
                let key = friend_key(index[i].as_str());
                match lookup_record(&stored.friend_records, key.as_str()) {
                    Some(Some(_)) => {},
                    _ => {
                        assert(!(record_for(stored.friend_records@, friend_key_text(index@[i as int]@)) matches Some(Some(_))));
                        return false;
                    },
                }
                i = i + 1;
            }
            true
        },
    }
}

/// Loads what the popup shows from the stored data: the identity's key id,
/// name and public key, and each friend of the list, in list order, from
/// its record.
pub fn parse_storage(stored: &StoredData) -> (loaded: LoadResult)
    requires
        friends_complete(*stored),
    ensures
        loaded@ == spec_load(*stored),
{
    let has_identity = stored.identity.is_some();
    let (username, public_key, identity_key_id) = match &stored.identity {
        Some(identity) => (
            copy_opt_string(&identity.name),
            Some(identity.public_key.clone()),
            Some(identity.key_id.clone()),
        ),
        None => (None, None, None),
    };
    let mut friend_index: Vec<String> = Vec::new();
    let mut friends: Vec<Friend> = Vec::new();
    match &stored.friend_index {
        None => {},
        Some(index) => {
            let n = index.len();
            let mut i: usize = 0;
            while i < n
                invariant
                    n == index@.len(),
                    i <= n,
                    friends_complete(*stored),
                    stored.friend_index == Some(*index),
                    friend_index@.len() == i,
                    friends@.len() == i,
                    forall|k: int| 0 <= k < i ==> friend_index@[k]@ == index@[k]@,
                    forall|k: int|
                        0 <= k < i ==> Some(Some(#[trigger] friends@[k]@)) == record_for(
                            stored.friend_records@,
                            friend_key_text(index@[k]@),
                        ),
                decreases n - i,
            {
                let public_key = index[i].clone();
                let key = friend_key(public_key.as_str());
                match lookup_record(&stored.friend_records, key.as_str()) {
                    Some(Some(friend)) => {
                        friends.push(friend);
                    },
                    _ => {
                        assert(record_for(stored.friend_records@, friend_key_text(index@[i as int]@)) matches Some(Some(_)));
                        assert(false);
                    },
                }
                friend_index.push(public_key);
                i = i + 1;
            }
        },
    }
    let loaded = LoadResult { has_identity, identity_key_id, username, public_key, friends, friend_index };
    proof {
        let spec = spec_load(*stored);
        assert(loaded@.friend_index =~= spec.friend_index);
        assert(loaded@.friends =~= spec.friends);
    }
    loaded
}

} // verus!

verus! {

/// The friend that adding a friend from an invite key makes: the invite's
/// public key and key id, with the nickname chosen from the given one and
/// the invite's.
pub open spec fn added_friend(nickname: Option<Seq<char>>, invite_key: Seq<char>) -> FriendView {
    let details = spec_parse_invite_key(encode_utf8(invite_key))->Ok_0;
    FriendView {
        nickname: chosen_nickname(nickname, details.nickname),
        public_key: details.public_key,
        key_id: details.key_id,
    }
}

/// Storage keys of different friends differ.
proof fn lemma_friend_key_text_injective(a: Seq<char>, b: Seq<char>)
    requires
        friend_key_text(a) == friend_key_text(b),
    ensures
        a == b,
{
    let n = FRIEND_KEY_PREFIX@.len() as int;
    assert(friend_key_text(a).subrange(n, friend_key_text(a).len() as int) =~= a);
    assert(friend_key_text(b).subrange(n, friend_key_text(b).len() as int) =~= b);
}

/// Storing what adding a friend writes, then loading, gives the friend back.
///
/// When adding a friend succeeds, it writes the friend's record under
/// `friend:<public key>` and the friend list with the public key appended.
/// Stored data that then holds that list and that record (read back as the
/// friend that was added), and is otherwise unchanged, loads with the public
/// key appended to the friend list, the new friend last among the friends,
/// and the identity as it was.
pub proof fn lemma_added_friend_loads_back(
    stored: StoredData,
    nickname: Option<Seq<char>>,
    invite_key: Seq<char>,
    updated: StoredData,
)
    requires
        friends_complete(stored),
        spec_add_friend(nickname, invite_key, stored.identity is Some, spec_load(stored).friend_index).success,
        updated.identity == stored.identity,
        updated.friend_index matches Some(index) && index.deep_view() == spec_load(stored).friend_index.push(
            added_friend(nickname, invite_key).public_key,
        ),
        forall|k: Seq<char>|
            #[trigger] record_for(updated.friend_records@, k) == if k == friend_key_text(
                added_friend(nickname, invite_key).public_key,
            ) {
                Some(Some(added_friend(nickname, invite_key)))
            } else {
                record_for(stored.friend_records@, k)
            },
    ensures
        ({
            let friend = added_friend(nickname, invite_key);
            let written = spec_add_friend(nickname, invite_key, true, spec_load(stored).friend_index).write;
            let before = spec_load(stored);
            let after = spec_load(updated);
            &&& written.len() == 2
            &&& written[0].key == friend_key_text(friend.public_key)
            &&& written[0].value == friend_json(friend.nickname, friend.public_key, friend.key_id)
            &&& written[1].key == FRIEND_INDEX_KEY@
            &&& written[1].value == json_of_strings(before.friend_index.push(friend.public_key))
            &&& friends_complete(updated)
            &&& after.friend_index == before.friend_index.push(friend.public_key)
            &&& after.friends == before.friends.push(friend)
            &&& after.has_identity && before.has_identity
            &&& after.identity_key_id == before.identity_key_id
            &&& after.username == before.username
            &&& after.public_key == before.public_key
        }),
{
    let friend = added_friend(nickname, invite_key);
    let key = friend.public_key;
    let before = spec_load(stored);
    let after = spec_load(updated);
    let old_index = before.friend_index;
    let new_index = updated.friend_index->Some_0;
    assert(!old_index.contains(key));
    assert forall|i: int| 0 <= i < old_index.len() implies record_for(
        updated.friend_records@,
        friend_key_text(#[trigger] old_index[i]),
    ) == record_for(stored.friend_records@, friend_key_text(old_index[i])) by {
        if friend_key_text(old_index[i]) == friend_key_text(key) {
            lemma_friend_key_text_injective(old_index[i], key);
            assert(old_index.contains(key));
        }
    }
    assert(new_index@.len() == old_index.len() + 1);
    assert forall|i: int| 0 <= i < new_index@.len() implies record_for(
        updated.friend_records@,
        friend_key_text(#[trigger] new_index@[i]@),
    ) matches Some(Some(_)) by {
        assert(new_index@[i]@ == new_index.deep_view()[i]);
        if i < old_index.len() {
            assert(stored.friend_index matches Some(old) && old@[i]@ == old_index[i]);
        }
    }
    assert(after.friend_index =~= old_index.push(key));
    assert(after.friends =~= before.friends.push(friend)) by {
        assert forall|i: int| 0 <= i < after.friends.len() implies after.friends[i] == before.friends.push(
            friend,
        )[i] by {
            if i < old_index.len() {
                assert(after.friend_index[i] == old_index[i]);
            } else {
                assert(after.friend_index[i] == key);
            }
        }
    }
}

} // verus!

verus! {

/// Loading reports the stored identity as it is: there is a username exactly
/// when the identity has a name, and then it is that name; the public key and
/// key id are the identity's own; without an identity, none of them is
/// reported.
pub proof fn lemma_loaded_identity_is_stored(stored: StoredData)
    ensures
        spec_load(stored).has_identity <==> stored.identity is Some,
        spec_load(stored).username is Some <==> (stored.identity matches Some(id) && id.name is Some),
        stored.identity is Some && stored.identity->Some_0.name is Some ==> spec_load(stored).username == Some(
            stored.identity->Some_0.name->Some_0@,
        ),
        stored.identity matches Some(id) ==> spec_load(stored).public_key == Some(id.public_key@)
            && spec_load(stored).identity_key_id == Some(id.key_id@),
        stored.identity is None ==> spec_load(stored).public_key is None && spec_load(stored).identity_key_id is None,
{
}

} // verus!
