use ghostlayer::friends::{add_friend, Friend};
use ghostlayer::storage::{index_from_json, LoadResult};

const BOB_PUBLIC: &str = "3p7bfXt9wbTTW2HC7OQ1Nz+DQ8hbeGdNrfx+FG+IK08=";

fn storage(has_identity: bool, index: Vec<String>) -> LoadResult {
    LoadResult {
        has_identity,
        identity_key_id: None,
        username: None,
        public_key: None,
        friends: Vec::<Friend>::new(),
        friend_index: index,
    }
}

#[test]
fn friend_is_added_with_its_writes() {
    let invite = format!("ghl:inv:1:{BOB_PUBLIC}Bob");
    let res = add_friend(None, invite, &storage(true, vec!["AAAA".to_string()]));
    assert!(res.success);
    assert_eq!(res.error, None);
    assert_eq!(res.display, "Friend Bob has been created!");
    assert_eq!(res.write.len(), 2);
    assert_eq!(res.write[0].key, format!("friend:{BOB_PUBLIC}"));
    assert_eq!(
        res.write[0].value,
        format!("{{\"nickname\":\"Bob\",\"public_key\":\"{BOB_PUBLIC}\",\"key_id\":\"3p7bf\"}}")
    );
    assert_eq!(res.write[1].key, "friend_index");
    assert_eq!(res.write[1].value, format!("[\"AAAA\",\"{BOB_PUBLIC}\"]"));
}

#[test]
fn given_nickname_wins_and_key_id_is_the_fallback() {
    let invite = format!("ghl:inv:1:{BOB_PUBLIC}Bob");
    let res = add_friend(Some("Robert".to_string()), invite.clone(), &storage(true, vec![]));
    assert_eq!(res.display, "Friend Robert has been created!");
    let res = add_friend(Some("  ".to_string()), invite, &storage(true, vec![]));
    assert_eq!(res.display, "Friend Bob has been created!");
    let bare = format!("ghl:inv:1:{BOB_PUBLIC}");
    let res = add_friend(None, bare, &storage(true, vec![]));
    assert_eq!(res.display, "Friend 3p7bf has been created!");
    assert_eq!(
        res.write[0].value,
        format!("{{\"nickname\":null,\"public_key\":\"{BOB_PUBLIC}\",\"key_id\":\"3p7bf\"}}")
    );
}

#[test]
fn friend_refusals() {
    let invite = format!("ghl:inv:1:{BOB_PUBLIC}");
    let res = add_friend(None, invite.clone(), &storage(false, vec![]));
    assert!(!res.success);
    assert_eq!(res.error.as_deref(), Some("add_friend called with has_identity = false"));
    assert_eq!(
        res.display,
        "Create your own identity first. GhostLayer needs your key pair to work out a shared secret with a friend."
    );
    assert!(res.write.is_empty());

    let res = add_friend(None, invite, &storage(true, vec![BOB_PUBLIC.to_string()]));
    assert!(!res.success);
    assert_eq!(res.display, "That friend is already in your list.");
    assert_eq!(res.error.as_deref(), Some("add_to_index rejected the public key"));

    let res = add_friend(None, "ghl:inv:1:tooshort".to_string(), &storage(true, vec![]));
    assert!(!res.success);
    assert_eq!(res.display, "Invite key is too short.");
    assert_eq!(res.error.as_deref(), Some("extract_details_from_invite_key failed"));
}

#[test]
fn nickname_with_quotes_is_escaped_in_the_record() {
    let invite = format!("ghl:inv:1:{BOB_PUBLIC}Bob \"B\"");
    let res = add_friend(None, invite, &storage(true, vec![]));
    assert_eq!(
        res.write[0].value,
        format!("{{\"nickname\":\"Bob \\\"B\\\"\",\"public_key\":\"{BOB_PUBLIC}\",\"key_id\":\"3p7bf\"}}")
    );
}

#[test]
fn adding_the_same_invite_twice_is_refused() {
    let invite = format!("ghl:inv:1:{BOB_PUBLIC}Bob");
    let first = add_friend(None, invite.clone(), &storage(true, vec!["AAAA".to_string()]));
    assert!(first.success);
    let written = index_from_json(&first.write[1].value).unwrap();
    assert_eq!(written, vec!["AAAA".to_string(), BOB_PUBLIC.to_string()]);
    let again = add_friend(Some("Robert".to_string()), invite, &storage(true, written));
    assert!(!again.success);
    assert_eq!(again.error.as_deref(), Some("add_to_index rejected the public key"));
    assert_eq!(again.display, "That friend is already in your list.");
    assert!(again.write.is_empty());
}
