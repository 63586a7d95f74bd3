use ghostlayer::clipboard::{clipboard_plan, ClipboardPlan};
use ghostlayer::friends::Friend;
use ghostlayer::storage::LoadResult;

const PK: &str = "3p7bfXt9wbTTW2HC7OQ1Nz+DQ8hbeGdNrfx+FG+IK08=";

fn storage(has_identity: bool) -> LoadResult {
    LoadResult {
        has_identity,
        identity_key_id: if has_identity { Some("3p7bf".to_string()) } else { None },
        username: if has_identity { Some("bob".to_string()) } else { None },
        public_key: if has_identity { Some(PK.to_string()) } else { None },
        friends: Vec::<Friend>::new(),
        friend_index: vec![],
    }
}

#[test]
fn public_key_item_copies_the_key_id() {
    match clipboard_plan(&storage(true), "PUBLIC_KEY") {
        ClipboardPlan::Copy { text, then } => {
            assert_eq!(text, "3p7bf");
            assert!(then.success);
            assert_eq!(then.display, "Public key 3p7bf.. was copied to clipboard");
        },
        ClipboardPlan::Report(_) => panic!("expected a copy"),
    }
}

#[test]
fn username_item_copies_the_username() {
    match clipboard_plan(&storage(true), "username") {
        ClipboardPlan::Copy { text, then } => {
            assert_eq!(text, "bob");
            assert_eq!(then.username.as_deref(), Some("bob"));
            assert_eq!(then.display, "Username bob was copied to clipboard");
        },
        ClipboardPlan::Report(_) => panic!("expected a copy"),
    }
}

#[test]
fn invite_item_copies_the_invite_key() {
    match clipboard_plan(&storage(true), "Invite_Key") {
        ClipboardPlan::Copy { text, then } => {
            assert_eq!(text, format!("ghl:inv:1:{PK}bob"));
            assert_eq!(then.display, "Invite key ghl:in has been copied to clipboard!");
        },
        ClipboardPlan::Report(_) => panic!("expected a copy"),
    }
}

#[test]
fn copies_need_an_identity() {
    for (item, display) in [
        ("public_key", "You have no public key yet. Click Create Identity first."),
        ("username", "You have no username yet. Click Create Identity first."),
        ("invite_key", "You have no invite key yet. Click Create Identity first."),
    ] {
        match clipboard_plan(&storage(false), item) {
            ClipboardPlan::Report(r) => {
                assert!(!r.success);
                assert_eq!(r.display, display);
            },
            ClipboardPlan::Copy { .. } => panic!("expected a report"),
        }
    }
}

#[test]
fn unknown_item_is_reported() {
    match clipboard_plan(&storage(true), "private_key") {
        ClipboardPlan::Report(r) => {
            assert_eq!(r.error.as_deref(), Some("copy_to_clipboard called with an unknown item"));
            assert_eq!(
                r.display,
                "GhostLayer does not know how to copy that. This is a bug in GhostLayer, please report it."
            );
        },
        ClipboardPlan::Copy { .. } => panic!("expected a report"),
    }
}
