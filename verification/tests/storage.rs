use ghostlayer::friends::{add_friend, Friend};
use ghostlayer::identity::Identity;
use ghostlayer::storage::{
    add_to_index, friend_key, friend_to_json, identity_to_json, index_contains, index_from_json, index_to_json,
    is_complete, parse_storage, FriendRecord, StoredData,
};

fn friend(pk: &str, nick: Option<&str>) -> Friend {
    Friend { nickname: nick.map(|n| n.to_string()), public_key: pk.to_string(), key_id: pk[0..2].to_string() }
}

#[test]
fn friend_keys_and_index_json() {
    assert_eq!(friend_key("abc"), "friend:abc");
    let index = vec!["a".to_string(), "b\"c".to_string()];
    let json = index_to_json(&index);
    assert_eq!(json, "[\"a\",\"b\\\"c\"]");
    assert_eq!(index_from_json(&json).unwrap(), index);
    assert_eq!(index_from_json("[]").unwrap(), Vec::<String>::new());
    assert_eq!(
        index_from_json("{").err().unwrap(),
        "Your saved friend list could not be read, so it is corrupted."
    );
    assert_eq!(index_from_json("[1]").err().unwrap(), "Your saved friend list could not be read, so it is corrupted.");
}

#[test]
fn index_refuses_duplicates() {
    let index = vec!["a".to_string()];
    assert_eq!(add_to_index(&index, "b").unwrap(), vec!["a".to_string(), "b".to_string()]);
    assert_eq!(add_to_index(&index, "a").err().unwrap(), "That friend is already in your list.");
    assert!(index_contains(&index, "a"));
    assert!(!index_contains(&index, "b"));
}

#[test]
fn friend_record_json() {
    assert_eq!(
        friend_to_json(&friend("xyz", Some("Zed"))),
        "{\"nickname\":\"Zed\",\"public_key\":\"xyz\",\"key_id\":\"xy\"}"
    );
    assert_eq!(
        friend_to_json(&friend("xyz", None)),
        "{\"nickname\":null,\"public_key\":\"xyz\",\"key_id\":\"xy\"}"
    );
}

#[test]
fn storage_loads_identity_and_friends_in_list_order() {
    let stored = StoredData {
        identity: Some(Identity {
            name: Some("me".to_string()),
            public_key: "PUB".to_string(),
            private_key: "PRIV".to_string(),
            key_id: "PU".to_string(),
        }),
        friend_index: Some(vec!["kb".to_string(), "ka".to_string()]),
        friend_records: vec![
            FriendRecord { key: "friend:ka".to_string(), friend: Some(friend("ka", Some("A"))) },
            FriendRecord { key: "friend:kb".to_string(), friend: Some(friend("kb", None)) },
            FriendRecord { key: "friend:zz".to_string(), friend: None },
        ],
    };
    assert!(is_complete(&stored));
    let loaded = parse_storage(&stored);
    assert!(loaded.has_identity);
    assert_eq!(loaded.username.as_deref(), Some("me"));
    assert_eq!(loaded.public_key.as_deref(), Some("PUB"));
    assert_eq!(loaded.identity_key_id.as_deref(), Some("PU"));
    assert_eq!(loaded.friend_index, vec!["kb".to_string(), "ka".to_string()]);
    assert_eq!(loaded.friends.len(), 2);
    assert_eq!(loaded.friends[0].public_key, "kb");
    assert_eq!(loaded.friends[1].nickname.as_deref(), Some("A"));
}

#[test]
fn empty_storage_loads_nothing() {
    let stored = StoredData { identity: None, friend_index: None, friend_records: vec![] };
    assert!(is_complete(&stored));
    let loaded = parse_storage(&stored);
    assert!(!loaded.has_identity);
    assert_eq!(loaded.username, None);
    assert!(loaded.friends.is_empty());
    assert!(loaded.friend_index.is_empty());
}

#[test]
fn missing_or_unreadable_record_is_incomplete() {
    let missing = StoredData { identity: None, friend_index: Some(vec!["ka".to_string()]), friend_records: vec![] };
    assert!(!is_complete(&missing));
    let unreadable = StoredData {
        identity: None,
        friend_index: Some(vec!["ka".to_string()]),
        friend_records: vec![FriendRecord { key: "friend:ka".to_string(), friend: None }],
    };
    assert!(!is_complete(&unreadable));
}

#[test]
fn identity_record_json() {
    let mut identity = Identity {
        name: Some("Al \"A\"".to_string()),
        public_key: "pub".to_string(),
        private_key: "priv".to_string(),
        key_id: "pu".to_string(),
    };
    assert_eq!(
        identity_to_json(&identity),
        "{\"name\":\"Al \\\"A\\\"\",\"public_key\":\"pub\",\"private_key\":\"priv\",\"key_id\":\"pu\"}"
    );
    identity.name = None;
    assert_eq!(
        identity_to_json(&identity),
        "{\"name\":null,\"public_key\":\"pub\",\"private_key\":\"priv\",\"key_id\":\"pu\"}"
    );
}

#[test]
fn added_friend_loads_back_last() {
    let bob_public = "3p7bfXt9wbTTW2HC7OQ1Nz+DQ8hbeGdNrfx+FG+IK08=";
    let stored = StoredData {
        identity: Some(Identity {
            name: Some("me".to_string()),
            public_key: "PUB".to_string(),
            private_key: "PRIV".to_string(),
            key_id: "PU".to_string(),
        }),
        friend_index: Some(vec!["ka".to_string()]),
        friend_records: vec![FriendRecord { key: "friend:ka".to_string(), friend: Some(friend("ka", Some("A"))) }],
    };
    let before = parse_storage(&stored);
    let added = add_friend(None, format!("ghl:inv:1:{bob_public}Bob"), &before);
    assert!(added.success);
    assert_eq!(added.write[0].key, format!("friend:{bob_public}"));
    assert_eq!(added.write[1].key, "friend_index");

    let record: serde_json::Value = serde_json::from_str(&added.write[0].value).unwrap();
    let written = Friend {
        nickname: record["nickname"].as_str().map(|n| n.to_string()),
        public_key: record["public_key"].as_str().unwrap().to_string(),
        key_id: record["key_id"].as_str().unwrap().to_string(),
    };
    let mut records = vec![FriendRecord { key: "friend:ka".to_string(), friend: Some(friend("ka", Some("A"))) }];
    records.push(FriendRecord { key: added.write[0].key.clone(), friend: Some(written) });
    let updated = StoredData {
        identity: stored.identity,
        friend_index: Some(index_from_json(&added.write[1].value).unwrap()),
        friend_records: records,
    };
    assert!(is_complete(&updated));
    let after = parse_storage(&updated);
    assert_eq!(after.friend_index, vec!["ka".to_string(), bob_public.to_string()]);
    assert_eq!(after.friends.len(), 2);
    assert_eq!(after.friends[1].public_key, bob_public);
    assert_eq!(after.friends[1].nickname.as_deref(), Some("Bob"));
    assert_eq!(after.friends[1].key_id, "3p7bf");
    assert!(after.has_identity);
    assert_eq!(after.public_key, before.public_key);
    assert_eq!(after.username, before.username);
    assert_eq!(after.identity_key_id, before.identity_key_id);
}
