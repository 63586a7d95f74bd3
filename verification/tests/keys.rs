use ghostlayer::parser::{
    create_invite_key, create_message_key, extract_details_from_invite_key,
    extract_details_from_message_key,
};
use ghostlayer::protocol::registry::{invite_key_is_readable, message_key_is_readable};

const ALICE_PUBLIC: &str = "hSDwCYkwp1R0i33ctD73Wg2/Og0mOBr066SpjqqbTmo=";
const NONCE: &str = "AAECAwQFBgcICQoL";

#[test]
fn invite_key_reads_back() {
    let key = create_invite_key(ALICE_PUBLIC, Some("Alice")).unwrap();
    assert_eq!(key, format!("ghl:inv:1:{ALICE_PUBLIC}Alice"));
    let details = extract_details_from_invite_key(&key).unwrap();
    assert_eq!(details.public_key, ALICE_PUBLIC);
    assert_eq!(details.nickname.as_deref(), Some("Alice"));
    assert_eq!(details.key_id, "hSDwC");
}

#[test]
fn blank_nickname_is_left_out() {
    let key = create_invite_key(ALICE_PUBLIC, Some("   ")).unwrap();
    assert_eq!(key, format!("ghl:inv:1:{ALICE_PUBLIC}"));
    let details = extract_details_from_invite_key(&key).unwrap();
    assert_eq!(details.nickname, None);
    let key = create_invite_key(ALICE_PUBLIC, None).unwrap();
    assert_eq!(extract_details_from_invite_key(&key).unwrap().nickname, None);
}

#[test]
fn invite_key_errors() {
    assert_eq!(
        extract_details_from_invite_key("ghl:inv:1:short").err().unwrap(),
        "Invite key is too short."
    );
    assert_eq!(
        extract_details_from_invite_key(&format!("ghl:msg:1:{ALICE_PUBLIC}")).err().unwrap(),
        "Invalid kind !"
    );
    assert_eq!(
        extract_details_from_invite_key(&format!("ghl:inv:2:{ALICE_PUBLIC}")).err().unwrap(),
        "Invalid Protocol version"
    );
    assert_eq!(
        extract_details_from_invite_key("ghl:inv:1:!!!!AAAAAAAAAAAAAAAAAAAAAAAAAAAAAAAAAAAAAAAA").err().unwrap(),
        "That public key is not valid Base64, so whatever it came from is damaged."
    );
    assert_eq!(extract_details_from_invite_key("nope").err().unwrap(), "Invalid ghostlayer prefix!");
}

#[test]
fn message_key_reads_back() {
    let key = create_message_key(ALICE_PUBLIC, NONCE, "jpOCLNegWWPqvWxy/TcfbHWAWFeYm6BL8Q==").unwrap();
    assert_eq!(key, format!("ghl:msg:1:{ALICE_PUBLIC}{NONCE}jpOCLNegWWPqvWxy/TcfbHWAWFeYm6BL8Q=="));
    let details = extract_details_from_message_key(&key).unwrap();
    assert_eq!(details.sender_public_key, ALICE_PUBLIC);
    assert_eq!(details.nonce_b64, NONCE);
    assert_eq!(details.ciphertext_b64, "jpOCLNegWWPqvWxy/TcfbHWAWFeYm6BL8Q==");
}

#[test]
fn invalid_message_fields_are_refused() {
    assert_eq!(
        create_message_key("bad", NONCE, "AAAA").err().unwrap(),
        "That public key is not valid Base64, so whatever it came from is damaged."
    );
    assert_eq!(
        create_message_key("AAAA", NONCE, "AAAA").err().unwrap(),
        "That public key is 3 bytes long, but a GhostLayer public key is 32 bytes. Whatever it came from is damaged."
    );
    assert_eq!(
        create_message_key(ALICE_PUBLIC, "AAAA", "AAAA").err().unwrap(),
        "This message's nonce is 3 bytes long, but it should be 12. The message was damaged before it reached you."
    );
    assert_eq!(
        create_message_key(ALICE_PUBLIC, NONCE, "").err().unwrap(),
        "This message has a GhostLayer header but no encrypted content, so it was cut off."
    );
    assert_eq!(
        create_message_key(ALICE_PUBLIC, NONCE, "A").err().unwrap(),
        "This message's encrypted content is not valid Base64, so it was damaged before it reached you."
    );
}

#[test]
fn message_key_errors() {
    assert_eq!(
        extract_details_from_message_key(&format!("ghl:inv:1:{ALICE_PUBLIC}{NONCE}AAAA")).err().unwrap(),
        "Invalid kind!"
    );
    assert_eq!(
        extract_details_from_message_key(&format!("ghl:msg:1:{ALICE_PUBLIC}AAAAAAAAAAAAAAA=AAAA")).err().unwrap(),
        "This message's nonce is 11 bytes long, but it should be 12. The message was damaged before it reached you."
    );
}

#[test]
fn readability_checks_find_split_characters() {
    let key = "3p7bfXt9wbTTW2HC7OQ1Nz+DQ8hbeGdNrfx+FG+IK08=";
    assert!(invite_key_is_readable(&format!("ghl:inv:1:{key}Bob")));
    assert!(invite_key_is_readable("not a key"));
    assert!(invite_key_is_readable(&format!("ghl:msg:1:{}é", "A".repeat(43))));
    assert!(!invite_key_is_readable(&format!("ghl:inv:1:{}éBob", "A".repeat(43))));

    assert!(message_key_is_readable(&format!("ghl:msg:1:{key}{}xyz", "A".repeat(16))));
    assert!(message_key_is_readable(&format!("ghl:inv:1:{}éxx", "A".repeat(59))));
    assert!(!message_key_is_readable(&format!("ghl:msg:1:{}é{}", "A".repeat(43), "x".repeat(20))));
    assert!(!message_key_is_readable(&format!("ghl:msg:1:{}éxx", "A".repeat(59))));
}
