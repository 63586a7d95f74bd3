use ghostlayer::protocol::v1::validation::{
    check_nonce_bytes, check_public_key_bytes, ciphertext_b64, nonce_b64, public_key,
};

const ZERO_KEY: &str = "AAAAAAAAAAAAAAAAAAAAAAAAAAAAAAAAAAAAAAAAAAA=";

#[test]
fn public_key_must_be_32_bytes_of_base64() {
    assert!(public_key(ZERO_KEY).is_ok());
    assert!(public_key("hSDwCYkwp1R0i33ctD73Wg2/Og0mOBr066SpjqqbTmo=").is_ok());
    assert_eq!(
        public_key("AAAA").err().unwrap(),
        "That public key is 3 bytes long, but a GhostLayer public key is 32 bytes. Whatever it came from is damaged."
    );
    assert_eq!(
        public_key("!!!!").err().unwrap(),
        "That public key is not valid Base64, so whatever it came from is damaged."
    );
    assert_eq!(
        public_key("").err().unwrap(),
        "That public key is 0 bytes long, but a GhostLayer public key is 32 bytes. Whatever it came from is damaged."
    );
}

#[test]
fn nonce_must_be_12_bytes_of_base64() {
    assert!(nonce_b64("AAAAAAAAAAAAAAAA").is_ok());
    assert_eq!(
        nonce_b64(ZERO_KEY).err().unwrap(),
        "This message's nonce is 32 bytes long, but it should be 12. The message was damaged before it reached you."
    );
    assert_eq!(
        nonce_b64("AAAAAAAAAAAAAAA").err().unwrap(),
        "This message's nonce is not valid Base64, so the message was damaged before it reached you."
    );
}

#[test]
fn ciphertext_must_be_present_base64() {
    assert!(ciphertext_b64("AAAA").is_ok());
    assert_eq!(
        ciphertext_b64("").err().unwrap(),
        "This message has a GhostLayer header but no encrypted content, so it was cut off."
    );
    assert_eq!(
        ciphertext_b64("A").err().unwrap(),
        "This message's encrypted content is not valid Base64, so it was damaged before it reached you."
    );
}

#[test]
fn decoded_lengths_are_checked() {
    assert!(check_public_key_bytes(Some(vec![0u8; 32])).is_ok());
    assert_eq!(
        check_public_key_bytes(Some(vec![0u8; 123])).err().unwrap(),
        "That public key is 123 bytes long, but a GhostLayer public key is 32 bytes. Whatever it came from is damaged."
    );
    assert!(check_public_key_bytes(None).is_err());
    assert!(check_nonce_bytes(Some(vec![1u8; 12])).is_ok());
    assert_eq!(
        check_nonce_bytes(Some(vec![1u8; 10])).err().unwrap(),
        "This message's nonce is 10 bytes long, but it should be 12. The message was damaged before it reached you."
    );
}
