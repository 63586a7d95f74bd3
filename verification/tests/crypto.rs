use ghostlayer::crypto::{
    compute_shared_secret, decrypt, decrypt_text, encrypt, encrypt_message, package_message, plaintext_from_opened, NOT_ENCRYPTED_FOR_YOU,
    NO_SAVED_FRIEND_CAN_OPEN,
};
use ghostlayer::encoding::decode_b64;
use ghostlayer::friends::{add_friend, Friend};
use ghostlayer::identity::{create_identity, identity_from_secret};
use ghostlayer::parser::{create_invite_key, extract_details_from_message_key};
use ghostlayer::storage::LoadResult;

const ALICE_PRIVATE: &str = "dwdtCnMYpX08FsFyUbJmRd9ML4frwJkqsXf7pR25LCo=";
const ALICE_PUBLIC: &str = "hSDwCYkwp1R0i33ctD73Wg2/Og0mOBr066SpjqqbTmo=";
const BOB_PRIVATE: &str = "XasIfmJKikt54X+Lg4AO5m87sSkmGLb9HC+LJ/+I4Os=";
const BOB_PUBLIC: &str = "3p7bfXt9wbTTW2HC7OQ1Nz+DQ8hbeGdNrfx+FG+IK08=";
const NONCE_B64: &str = "AAECAwQFBgcICQoL";
const HELLO_BOB: &str = "jpOCLNegWWPqvWxy/TcfbHWAWFeYm6BL8Q==";

fn hex(s: &str) -> Vec<u8> {
    (0..s.len()).step_by(2).map(|i| u8::from_str_radix(&s[i..i + 2], 16).unwrap()).collect()
}

fn s(x: &str) -> String {
    x.to_string()
}

#[test]
fn identity_of_known_secret() {
    let secret = hex("77076d0a7318a57d3c16c17251b26645df4c2f87ebc0992ab177fba51db92c2a");
    let identity = identity_from_secret(Some(s("alice")), &secret);
    assert_eq!(identity.private_key, ALICE_PRIVATE);
    assert_eq!(identity.public_key, ALICE_PUBLIC);
    assert_eq!(identity.key_id, "hSDwC");
    assert_eq!(identity.name.as_deref(), Some("alice"));
}

#[test]
fn new_identities_differ_and_have_44_character_keys() {
    let a = create_identity(None);
    let b = create_identity(Some(s("bob")));
    assert_eq!(a.public_key.len(), 44);
    assert_eq!(a.private_key.len(), 44);
    assert_eq!(&a.public_key[0..5], a.key_id);
    assert_ne!(a.public_key, b.public_key);
    assert_eq!(b.name.as_deref(), Some("bob"));
}

#[test]
fn known_message_decrypts_for_the_receiver() {
    let key = format!("ghl:msg:1:{ALICE_PUBLIC}{NONCE_B64}{HELLO_BOB}");
    let res = decrypt(s(BOB_PUBLIC), s(BOB_PRIVATE), s("[]"), key);
    assert!(res.success);
    assert_eq!(res.display, "hello bob");
    assert_eq!(res.error, None);
}

#[test]
fn known_ciphertext_opens_with_the_shared_key() {
    let key = hex("4a5d9d5ba4ce2de1728e3bf480350f25e07e21c947d19e3376f09b3c1e161742");
    let nonce: Vec<u8> = (0u8..12).collect();
    let ct = vec![
        0x8e, 0x93, 0x82, 0x2c, 0xd7, 0xa0, 0x59, 0x63, 0xea, 0xbd, 0x6c, 0x72, 0xfd, 0x37, 0x1f, 0x6c,
        0x75, 0x80, 0x58, 0x57, 0x98, 0x9b, 0xa0, 0x4b, 0xf1,
    ];
    assert_eq!(decrypt_text(&key, &nonce, &ct).unwrap(), "hello bob");
    let mut tampered = ct.clone();
    tampered[0] ^= 1;
    assert_eq!(decrypt_text(&key, &nonce, &tampered).err().unwrap(), "wrong key");
    assert_eq!(
        decrypt_text(&key, &nonce[0..5], &ct).err().unwrap(),
        "This message's nonce is the wrong size, so the message was damaged before it reached you."
    );
}

#[test]
fn opened_bytes_must_be_text() {
    assert_eq!(plaintext_from_opened(None).err().unwrap(), "wrong key");
    assert_eq!(plaintext_from_opened(Some(b"hi".to_vec())).unwrap(), "hi");
    assert_eq!(
        plaintext_from_opened(Some(vec![0xff, 0xfe])).err().unwrap(),
        "This message decrypted, but what came out is not readable text. It was probably damaged in transit."
    );
}

#[test]
fn package_writes_base64_and_the_message_key() {
    let nonce: Vec<u8> = (0u8..12).collect();
    let ct = vec![
        0x8e, 0x93, 0x82, 0x2c, 0xd7, 0xa0, 0x59, 0x63, 0xea, 0xbd, 0x6c, 0x72, 0xfd, 0x37, 0x1f, 0x6c,
        0x75, 0x80, 0x58, 0x57, 0x98, 0x9b, 0xa0, 0x4b, 0xf1,
    ];
    let res = package_message(ALICE_PUBLIC, &nonce, &ct);
    let key = format!("ghl:msg:1:{ALICE_PUBLIC}{NONCE_B64}{HELLO_BOB}");
    assert!(res.success);
    assert_eq!(res.nonce.as_deref(), Some(NONCE_B64));
    assert_eq!(res.display, key);
    assert_eq!(res.message_key.as_deref(), Some(key.as_str()));
}

#[test]
fn receiver_reads_what_the_sender_encrypted() {
    let alice = create_identity(None);
    let bob = create_identity(None);
    let sent = encrypt(alice.public_key.clone(), alice.private_key.clone(), bob.public_key.clone(), s("meet at 5 ☕"));
    assert!(sent.success);
    let key = sent.message_key.clone().unwrap();
    assert!(key.starts_with("ghl:msg:1:"));
    assert_eq!(sent.display, key);
    assert_eq!(sent.nonce.as_ref().unwrap().len(), 16);
    let read = decrypt(bob.public_key.clone(), bob.private_key.clone(), s("[]"), key.clone());
    assert!(read.success);
    assert_eq!(read.display, "meet at 5 ☕");
}

#[test]
fn sender_reads_own_message_through_the_friend_list() {
    let alice = create_identity(None);
    let bob = create_identity(None);
    let carol = create_identity(None);
    let key = encrypt(alice.public_key.clone(), alice.private_key.clone(), bob.public_key.clone(), s("hi"))
        .message_key
        .unwrap();
    let index = format!("[\"{}\",\"{}\"]", carol.public_key, bob.public_key);
    let read = decrypt(alice.public_key.clone(), alice.private_key.clone(), index, key.clone());
    assert!(read.success);
    assert_eq!(read.display, "hi");

    let only_carol = format!("[\"{}\"]", carol.public_key);
    let lost = decrypt(alice.public_key.clone(), alice.private_key.clone(), only_carol, key.clone());
    assert!(!lost.success);
    assert_eq!(lost.display, NO_SAVED_FRIEND_CAN_OPEN);
    assert_eq!(lost.error.as_deref(), Some("sender branch: no key in friend_index verified the tag"));

    let broken = decrypt(alice.public_key.clone(), alice.private_key.clone(), s("{not json"), key);
    assert!(!broken.success);
    assert_eq!(
        broken.display,
        "Your saved friend list could not be read, so it is corrupted. Try adding a friend again to rebuild it."
    );
}

#[test]
fn third_party_cannot_read() {
    let alice = create_identity(None);
    let bob = create_identity(None);
    let eve = create_identity(None);
    let key = encrypt(alice.public_key.clone(), alice.private_key.clone(), bob.public_key.clone(), s("secret"))
        .message_key
        .unwrap();
    let read = decrypt(eve.public_key, eve.private_key, s("[]"), key);
    assert!(!read.success);
    assert_eq!(read.display, NOT_ENCRYPTED_FOR_YOU);
    assert_eq!(read.error.as_deref(), Some("decrypt_text failed on the receiver path"));
}

#[test]
fn encrypt_reports_unusable_keys() {
    let res = encrypt(s(ALICE_PUBLIC), s(ALICE_PRIVATE), s("not base64!"), s("x"));
    assert!(!res.success);
    assert_eq!(
        res.display,
        "The public key of the friend you picked is not valid Base64. Remove that friend and add them again with a fresh invite key."
    );
    assert_eq!(res.error.as_deref(), Some("compute_shared_secret failed in encrypt"));
    let res = encrypt(s(ALICE_PUBLIC), s(ALICE_PRIVATE), s("AAAA"), s("x"));
    assert_eq!(
        res.display,
        "The public key of the friend you picked is the wrong length. A GhostLayer key is 32 bytes. Remove that friend and add them again with a fresh invite key."
    );
    let res = encrypt(s(ALICE_PUBLIC), s("AAAA"), s(BOB_PUBLIC), s("x"));
    assert_eq!(
        res.display,
        "Your saved identity is damaged: its private key is the wrong length. Create a new identity in the GhostLayer popup. Remove that friend and add them again with a fresh invite key."
    );
    let res = encrypt(s(ALICE_PUBLIC), s("???"), s(BOB_PUBLIC), s("x"));
    assert!(res.display.starts_with("Your saved identity is damaged: its private key is not valid Base64."));
}

#[test]
fn encrypt_refuses_to_package_with_a_broken_own_key() {
    let res = encrypt(s("AAAA"), s(ALICE_PRIVATE), s(BOB_PUBLIC), s("x"));
    assert!(!res.success);
    assert_eq!(res.error.as_deref(), Some("create_message_key failed in encrypt"));
    assert_eq!(
        res.display,
        "GhostLayer encrypted your message but could not package it. That public key is 3 bytes long, but a GhostLayer public key is 32 bytes. Whatever it came from is damaged."
    );
    assert_eq!(res.nonce, None);
    assert_eq!(res.message_key, None);
}

#[test]
fn encrypted_key_has_the_documented_layout() {
    let message = "layout ☕";
    let res = encrypt(s(ALICE_PUBLIC), s(ALICE_PRIVATE), s(BOB_PUBLIC), s(message));
    assert!(res.success);
    let nonce = res.nonce.clone().unwrap();
    let key = res.message_key.clone().unwrap();
    assert_eq!(res.display, key);
    let details = extract_details_from_message_key(&key).unwrap();
    assert_eq!(details.sender_public_key, ALICE_PUBLIC);
    assert_eq!(details.nonce_b64, nonce);
    assert_eq!(nonce.len(), 16);
    assert_eq!(key, format!("ghl:msg:1:{ALICE_PUBLIC}{nonce}{}", details.ciphertext_b64));
    assert_eq!(decode_b64(&details.ciphertext_b64).unwrap().len(), message.len() + 16);
    assert_eq!(decode_b64(&nonce).unwrap().len(), 12);
}

#[test]
fn decrypt_reports_damaged_keys() {
    let res = decrypt(s(BOB_PUBLIC), s(BOB_PRIVATE), s("[]"), s("hello"));
    assert!(!res.success);
    assert_eq!(res.display, "Invalid ghostlayer prefix!");
    assert_eq!(res.error.as_deref(), Some("extract_details_from_message_key failed"));
    let key = format!("ghl:msg:1:{ALICE_PUBLIC}{NONCE_B64}@@@@");
    let res = decrypt(s(BOB_PUBLIC), s(BOB_PRIVATE), s("[]"), key);
    assert_eq!(
        res.display,
        "This message's encrypted content is not valid Base64, so the message was damaged before it reached you. Ask the sender to send it again."
    );
    let key = format!("ghl:msg:1:{ALICE_PUBLIC}{NONCE_B64}{HELLO_BOB}");
    let res = decrypt(s(BOB_PUBLIC), s("AAAA"), s("[]"), key);
    assert_eq!(
        res.display,
        "Your saved identity is damaged: its private key is the wrong length. Create a new identity in the GhostLayer popup."
    );
    assert_eq!(res.error.as_deref(), Some("compute_shared_secret failed in decrypt"));
}

#[test]
fn sender_reads_own_message_after_adding_the_friend() {
    let alice = create_identity(Some(s("Alice")));
    let bob = create_identity(Some(s("Bob")));
    let invite = create_invite_key(&bob.public_key, bob.name.as_deref()).unwrap();
    let storage = LoadResult {
        has_identity: true,
        identity_key_id: Some(alice.key_id.clone()),
        username: alice.name.clone(),
        public_key: Some(alice.public_key.clone()),
        friends: Vec::<Friend>::new(),
        friend_index: Vec::new(),
    };
    let added = add_friend(None, invite, &storage);
    assert!(added.success);
    assert_eq!(added.display, "Friend Bob has been created!");
    let friend_index_json = added.write[1].value.clone();

    let sent = encrypt(alice.public_key.clone(), alice.private_key.clone(), bob.public_key.clone(), s("see you"));
    let key = sent.message_key.unwrap();
    let own = decrypt(alice.public_key.clone(), alice.private_key.clone(), friend_index_json, key.clone());
    assert!(own.success);
    assert_eq!(own.display, "see you");
    let theirs = decrypt(bob.public_key.clone(), bob.private_key.clone(), s("[]"), key);
    assert_eq!(theirs.display, "see you");
}

#[test]
fn both_sides_derive_the_same_key() {
    let ours = compute_shared_secret(ALICE_PRIVATE, BOB_PUBLIC, "the friend you picked").unwrap();
    let theirs = compute_shared_secret(BOB_PRIVATE, ALICE_PUBLIC, "the sender of this message").unwrap();
    assert_eq!(ours.len(), 32);
    assert_eq!(ours, theirs);
}

#[test]
fn sealed_text_opens_with_the_same_key() {
    let key = compute_shared_secret(ALICE_PRIVATE, BOB_PUBLIC, "a saved friend").unwrap();
    let (nonce, ciphertext) = encrypt_message(&key, "tea at 4 🍵");
    assert_eq!(nonce.len(), 12);
    assert_eq!(ciphertext.len(), "tea at 4 🍵".len() + 16);
    assert_eq!(decrypt_text(&key, &nonce, &ciphertext), Ok(s("tea at 4 🍵")));
}
