use ghostlayer::crypto::{NOT_ENCRYPTED_FOR_YOU, NO_SAVED_FRIEND_CAN_OPEN};

#[test]
fn continued_messages_keep_their_spaces() {
    assert!(NO_SAVED_FRIEND_CAN_OPEN.contains("open it. Either you removed"));
    assert!(NO_SAVED_FRIEND_CAN_OPEN.contains("identity was moved to another browser"));
    assert!(NO_SAVED_FRIEND_CAN_OPEN.contains("message cannot be recovered"));
    assert!(!NO_SAVED_FRIEND_CAN_OPEN.contains("  "));

    assert!(NOT_ENCRYPTED_FOR_YOU.contains("someone else, or the sender"));
    assert!(NOT_ENCRYPTED_FOR_YOU.contains("you have saved for them"));
    assert!(!NOT_ENCRYPTED_FOR_YOU.contains("  "));
}
