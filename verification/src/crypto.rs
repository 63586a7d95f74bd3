//! Encrypting and decrypting message text. Both sides derive the same key
//! with X25519 from their own private key and the other side's public key,
//! and the text is sealed with ChaCha20-Poly1305 under a random nonce.
use vstd::prelude::*;
use vstd::string::*;
use vstd::utf8::*;

use crate::encoding::{base64_decoding, base64_encoding, decode_b64, encode_base64};
use crate::primitives::{
    chacha20poly1305_opened, chacha20poly1305_sealed, chacha_open, chacha_plaintext_limit,
    chacha_seal, diffie_hellman, random_nonce, x25519_public, x25519_shared,
};
use crate::json::json_strings_read;
use crate::parser::{create_message_key, extract_details_from_message_key};
use crate::protocol::registry::{
    message_key_readable, message_key_text, spec_create_message_key, spec_parse_message_key,
};
use crate::protocol::roundtrip::lemma_message_key_roundtrip;
use crate::protocol::v1::validation::{valid_ciphertext, valid_nonce, valid_public_key};
use crate::storage::{index_from_json, INDEX_CORRUPTED};
use crate::text::{join3, opt_bytes, str_equal, string_from_utf8};
use crate::protocol::types::MessageView;
use crate::types::{CryptoFunctionResult, CryptoView};

verus! {

broadcast use vstd::string::group_string_axioms, vstd::utf8::group_utf8_lib;

/// Shown to the sender when none of their saved friends' keys opens their
/// own message.
pub const NO_SAVED_FRIEND_CAN_OPEN: &'static str =
    "You sent this message, but none of your saved friends can open it. \
     Either you removed the friend you sent it to, or this identity was moved \
     to another browser without its friend list. The message cannot be \
     recovered on this device.";

/// Shown to a receiver whose key does not open the message.
pub const NOT_ENCRYPTED_FOR_YOU: &'static str =
    "This message was not encrypted for you. It was sent to someone else, or \
     the sender made a new identity and the invite key you have saved for them \
     is out of date.";

/// What decrypting with a key that does not verify the tag reports; callers
/// replace it with a message that says why the key was wrong.
pub const WRONG_KEY: &'static str = "wrong key";

/// Returned when a nonce is not 12 bytes.
pub const NONCE_WRONG_SIZE: &'static str = "This message's nonce is the wrong size, so the message was damaged before it reached you.";

/// Returned when the decrypted bytes are not UTF-8 text.
pub const NOT_READABLE_TEXT: &'static str = "This message decrypted, but what came out is not readable text. It was probably damaged in transit.";

/// Returned when the own private key is not Base64.
pub const PRIVATE_KEY_NOT_BASE64: &'static str = "Your saved identity is damaged: its private key is not valid Base64. Create a new identity in the GhostLayer popup.";

/// Returned when the own private key does not decode to 32 bytes.
pub const PRIVATE_KEY_WRONG_LENGTH: &'static str = "Your saved identity is damaged: its private key is the wrong length. Create a new identity in the GhostLayer popup.";

/// Starts the messages about the other side's public key; whose key it is follows.
pub const PUBLIC_KEY_OF: &'static str = "The public key of ";

/// Ends the message for another side's public key that is not Base64.
pub const PUBLIC_KEY_NOT_BASE64_END: &'static str = " is not valid Base64.";

/// Ends the message for another side's public key of the wrong length.
pub const PUBLIC_KEY_WRONG_LENGTH_END: &'static str = " is the wrong length. A GhostLayer key is 32 bytes.";

/// Names the recipient's key when encrypting.
pub const THE_FRIEND_YOU_PICKED: &'static str = "the friend you picked";

/// Names a friend's key when the sender opens their own message.
pub const A_SAVED_FRIEND: &'static str = "a saved friend";

/// Names the sender's key when the receiver opens a message.
pub const THE_SENDER: &'static str = "the sender of this message";

/// What deriving the shared key from an own private key and another side's
/// public key, both as Base64 text, gives; `whose` names the other side in
/// the error messages.
pub open spec fn spec_shared_secret(my_private: Seq<char>, their_public: Seq<char>, whose: Seq<char>) -> Result<Seq<u8>, Seq<char>> {
    match base64_decoding(my_private) {
        None => Err(PRIVATE_KEY_NOT_BASE64@),
        Some(mine) => match base64_decoding(their_public) {
            None => Err(PUBLIC_KEY_OF@ + whose + PUBLIC_KEY_NOT_BASE64_END@),
            Some(theirs) => if mine.len() != 32 {
                Err(PRIVATE_KEY_WRONG_LENGTH@)
            } else if theirs.len() != 32 {
                Err(PUBLIC_KEY_OF@ + whose + PUBLIC_KEY_WRONG_LENGTH_END@)
            } else {
                Ok(x25519_shared(mine, theirs))
            },
        },
    }
}

/// What an opened ciphertext gives: the text when the bytes are UTF-8,
/// [`WRONG_KEY`] when the tag did not verify.
pub open spec fn spec_plaintext(opened: Option<Seq<u8>>) -> Result<Seq<char>, Seq<char>> {
    match opened {
        None => Err(WRONG_KEY@),
        Some(bytes) => if valid_utf8(bytes) {
            Ok(decode_utf8(bytes))
        } else {
            Err(NOT_READABLE_TEXT@)
        },
    }
}

/// What decrypting a ciphertext with a key and a nonce gives.
pub open spec fn spec_decrypt_text(key: Seq<u8>, nonce: Seq<u8>, ciphertext: Seq<u8>) -> Result<Seq<char>, Seq<char>> {
    if nonce.len() != 12 {
        Err(NONCE_WRONG_SIZE@)
    } else {
        spec_plaintext(chacha20poly1305_opened(key, nonce, ciphertext))
    }
}

/// Derives the key both sides arrive at independently: X25519 of the own
/// private key and the other side's public key. When that public key belongs
/// to a secret `other`, the key is what `other` derives with the own public
/// key, so both sides get the same key.
pub fn compute_shared_secret(my_private_b64: &str, their_public_b64: &str, whose_public_key: &str) -> (res: Result<Vec<u8>, String>)
    ensures
        res matches Ok(k) ==> spec_shared_secret(my_private_b64@, their_public_b64@, whose_public_key@) == Ok::<_, Seq<char>>(k@),
        res matches Err(e) ==> spec_shared_secret(my_private_b64@, their_public_b64@, whose_public_key@) == Err::<Seq<u8>, _>(e@),
        res matches Ok(k) ==> k@.len() == 32,
        res matches Ok(k) ==> forall|other: Seq<u8>|
            #![trigger x25519_public(other)]
            other.len() == 32 && base64_decoding(their_public_b64@) == Some(x25519_public(other))
                ==> k@ == x25519_shared(other, x25519_public(base64_decoding(my_private_b64@)->Some_0)),
{
    let mine = match decode_b64(my_private_b64) {
        Some(b) => b,
        None => {
            return Err(PRIVATE_KEY_NOT_BASE64.to_owned());
        },
    };
    let theirs = match decode_b64(their_public_b64) {
        Some(b) => b,
        None => {
            return Err(join3(PUBLIC_KEY_OF, whose_public_key, PUBLIC_KEY_NOT_BASE64_END));
        },
    };
    if mine.len() != 32 {
        return Err(PRIVATE_KEY_WRONG_LENGTH.to_owned());
    }
    if theirs.len() != 32 {
        return Err(join3(PUBLIC_KEY_OF, whose_public_key, PUBLIC_KEY_WRONG_LENGTH_END));
    }
    Ok(diffie_hellman(mine.as_slice(), theirs.as_slice()))
}

/// Turns what opening a ciphertext gave into its text: [`WRONG_KEY`] when
/// the tag did not verify, [`NOT_READABLE_TEXT`] when the bytes are not UTF-8.
pub fn plaintext_from_opened(opened: Option<Vec<u8>>) -> (res: Result<String, String>)
    ensures
        res matches Ok(t) ==> spec_plaintext(opt_bytes(opened)) == Ok::<_, Seq<char>>(t@),
        res matches Err(e) ==> spec_plaintext(opt_bytes(opened)) == Err::<Seq<char>, _>(e@),
{
    match opened {
        None => Err(WRONG_KEY.to_owned()),
        Some(bytes) => {
            let ghost b = bytes@;
            match string_from_utf8(bytes) {
                Some(text) => {
                    proof {
                        assert(decode_utf8(encode_utf8(text@)) == text@);
                    }
                    Ok(text)
                },
                None => Err(NOT_READABLE_TEXT.to_owned()),
            }
        },
    }
}

/// Decrypts a ciphertext with a 32-byte key and the message's nonce.
pub fn decrypt_text(key_bytes: &[u8], nonce: &[u8], ciphertext: &[u8]) -> (res: Result<String, String>)
    requires
        key_bytes@.len() == 32,
    ensures
        res matches Ok(t) ==> spec_decrypt_text(key_bytes@, nonce@, ciphertext@) == Ok::<_, Seq<char>>(t@),
        res matches Err(e) ==> spec_decrypt_text(key_bytes@, nonce@, ciphertext@) == Err::<Seq<char>, _>(e@),
        nonce@.len() == 12 && ciphertext@.len() < 16 ==> (res matches Err(e) && e@ == WRONG_KEY@),
{
    if nonce.len() != 12 {
        return Err(NONCE_WRONG_SIZE.to_owned());
    }
    plaintext_from_opened(chacha_open(key_bytes, nonce, ciphertext))
}

} // verus!

verus! {

/// Logged when a message key cannot be read.
pub const ERROR_READING_MESSAGE_KEY: &'static str = "extract_details_from_message_key failed";

/// Logged when a message's nonce is not Base64.
pub const ERROR_NONCE_DECODE: &'static str = "base64 decode of nonce_b64 failed";

/// Logged when a message's ciphertext is not Base64.
pub const ERROR_CIPHERTEXT_DECODE: &'static str = "base64 decode of ciphertext_b64 failed";

/// Logged when no saved friend's key opens the sender's own message.
pub const ERROR_NO_FRIEND_OPENS: &'static str = "sender branch: no key in friend_index verified the tag";

/// Logged when the friend list cannot be read.
pub const ERROR_READING_INDEX: &'static str = "index_from_json failed on friend_index";

/// Logged when the key shared with the sender cannot be derived.
pub const ERROR_SECRET_IN_DECRYPT: &'static str = "compute_shared_secret failed in decrypt";

/// Logged when a received message does not decrypt.
pub const ERROR_RECEIVER_DECRYPT: &'static str = "decrypt_text failed on the receiver path";

/// Shown when a message's nonce is not Base64.
pub const NONCE_DAMAGED: &'static str = "This message's nonce is not valid Base64, so the message was damaged before it reached you. Ask the sender to send it again.";

/// Shown when a message's ciphertext is not Base64.
pub const CIPHERTEXT_DAMAGED: &'static str = "This message's encrypted content is not valid Base64, so the message was damaged before it reached you. Ask the sender to send it again.";

/// Appended to the message for an unreadable friend list.
pub const REBUILD_INDEX: &'static str = " Try adding a friend again to rebuild it.";

/// A failed operation: what it logs and what it shows.
pub open spec fn failure(error: Seq<char>, display: Seq<char>) -> CryptoView {
    CryptoView { success: false, error: Some(error), nonce: None, display, message_key: None }
}

/// A decrypted message: its text is shown.
pub open spec fn opened_message(plaintext: Seq<char>) -> CryptoView {
    CryptoView { success: true, error: None, nonce: None, display: plaintext, message_key: None }
}

/// The text of the first friend in the list whose shared key opens the
/// ciphertext, trying the friends in order.
pub open spec fn spec_try_friends(
    my_private: Seq<char>,
    friends: Seq<Seq<char>>,
    nonce: Seq<u8>,
    ciphertext: Seq<u8>,
) -> Option<Seq<char>>
    decreases friends.len(),
{
    if friends.len() == 0 {
        None
    } else {
        match spec_shared_secret(my_private, friends[0], A_SAVED_FRIEND@) {
            Ok(k) => match spec_decrypt_text(k, nonce, ciphertext) {
                Ok(text) => Some(text),
                Err(_) => spec_try_friends(my_private, friends.drop_first(), nonce, ciphertext),
            },
            Err(_) => spec_try_friends(my_private, friends.drop_first(), nonce, ciphertext),
        }
    }
}

/// What decrypting a message key gives, for the identity with the given
/// public and private keys and the given friend list (as JSON).
///
/// A message the identity sent itself carries its own public key; it is
/// opened with the first saved friend whose key works. Any other message is
/// opened with the key shared with its sender.
pub open spec fn spec_decrypt(
    my_public: Seq<char>,
    my_private: Seq<char>,
    friend_index_json: Seq<char>,
    message_key: Seq<u8>,
) -> CryptoView {
    match spec_parse_message_key(message_key) {
        Err(e) => failure(ERROR_READING_MESSAGE_KEY@, e),
        Ok(details) => match base64_decoding(details.nonce_b64) {
            None => failure(ERROR_NONCE_DECODE@, NONCE_DAMAGED@),
            Some(nonce) => match base64_decoding(details.ciphertext_b64) {
                None => failure(ERROR_CIPHERTEXT_DECODE@, CIPHERTEXT_DAMAGED@),
                Some(ciphertext) => if my_public == details.sender_public_key {
                    match json_strings_read(friend_index_json) {
                        None => failure(ERROR_READING_INDEX@, INDEX_CORRUPTED@ + REBUILD_INDEX@),
                        Some(index) => match spec_try_friends(my_private, index, nonce, ciphertext) {
                            Some(text) => opened_message(text),
                            None => failure(ERROR_NO_FRIEND_OPENS@, NO_SAVED_FRIEND_CAN_OPEN@),
                        },
                    }
                } else {
                    match spec_shared_secret(my_private, details.sender_public_key, THE_SENDER@) {
                        Err(e) => failure(ERROR_SECRET_IN_DECRYPT@, e),
                        Ok(k) => match spec_decrypt_text(k, nonce, ciphertext) {
                            Ok(text) => opened_message(text),
                            Err(e) => failure(
                                ERROR_RECEIVER_DECRYPT@,
                                if e == WRONG_KEY@ {
                                    NOT_ENCRYPTED_FOR_YOU@
                                } else {
                                    e
                                },
                            ),
                        },
                    }
                },
            },
        },
    }
}

fn fail(error: &str, display: String) -> (res: CryptoFunctionResult)
    ensures
        res@ == failure(error@, display@),
{
    CryptoFunctionResult {
        success: false,
        error: Some(error.to_owned()),
        nonce: None,
        display,
        message_key: None,
    }
}

fn opened(plaintext: String) -> (res: CryptoFunctionResult)
    ensures
        res@ == opened_message(plaintext@),
{
    CryptoFunctionResult { success: true, nonce: None, error: None, display: plaintext, message_key: None }
}

/// Decrypts a message key. The sender of a message opens it again with the
/// saved friends' keys, in list order; a receiver opens it with the key
/// shared with the sender.
pub fn decrypt(
    my_public_b64: String,
    my_private_b64: String,
    friend_index_json: String,
    message_key: String,
) -> (res: CryptoFunctionResult)
    requires
        message_key_readable(encode_utf8(message_key@)),
    ensures
        res@ == spec_decrypt(my_public_b64@, my_private_b64@, friend_index_json@, encode_utf8(message_key@)),
{
    let details = match extract_details_from_message_key(message_key.as_str()) {
        Ok(detail) => detail,
        Err(e) => {
            return fail(ERROR_READING_MESSAGE_KEY, e);
        },
    };
    let nonce = match decode_b64(details.nonce_b64.as_str()) {
        Some(n) => n,
        None => {
            return fail(ERROR_NONCE_DECODE, NONCE_DAMAGED.to_owned());
        },
    };
    let ciphertext = match decode_b64(details.ciphertext_b64.as_str()) {
        Some(c) => c,
        None => {
            return fail(ERROR_CIPHERTEXT_DECODE, CIPHERTEXT_DAMAGED.to_owned());
        },
    };
    if my_public_b64 == details.sender_public_key {
        match index_from_json(friend_index_json.as_str()) {
            Ok(friend_index) => {
                let ghost friends = friend_index.deep_view();
                let n = friend_index.len();
                let mut i: usize = 0;
                assert(friends.skip(0) =~= friends);
                #[verifier::loop_isolation(false)]
                while i < n
                    invariant
                        n == friend_index@.len(),
                        friends == friend_index.deep_view(),
                        i <= n,
                        spec_try_friends(my_private_b64@, friends, nonce@, ciphertext@)
                            == spec_try_friends(my_private_b64@, friends.skip(i as int), nonce@, ciphertext@),
                    decreases n - i,
                {
                    let ghost rest = friends.skip(i as int);
                    assert(rest[0] == friend_index@[i as int]@);
                    assert(rest.drop_first() =~= friends.skip(i + 1));
                    match compute_shared_secret(my_private_b64.as_str(), friend_index[i].as_str(), A_SAVED_FRIEND) {
                        Ok(key_bytes) => {
                            match decrypt_text(key_bytes.as_slice(), nonce.as_slice(), ciphertext.as_slice()) {
                                Ok(plaintext) => {
                                    return opened(plaintext);
                                },
                                Err(_) => {},
                            }
                        },
                        Err(_) => {},
                    }
                    i = i + 1;
                }
                assert(friends.skip(n as int).len() == 0);
                return fail(ERROR_NO_FRIEND_OPENS, NO_SAVED_FRIEND_CAN_OPEN.to_owned());
            },
            Err(e) => {
                let mut display = e;
                display.append(REBUILD_INDEX);
                return fail(ERROR_READING_INDEX, display);
            },
        }
    }
    let key_bytes = match compute_shared_secret(my_private_b64.as_str(), details.sender_public_key.as_str(), THE_SENDER) {
        Ok(k) => k,
        Err(e) => {
            return fail(ERROR_SECRET_IN_DECRYPT, e);
        },
    };
    match decrypt_text(key_bytes.as_slice(), nonce.as_slice(), ciphertext.as_slice()) {
        Ok(text) => opened(text),
        Err(e) => {
            let reason = if str_equal(e.as_str(), WRONG_KEY) {
                NOT_ENCRYPTED_FOR_YOU.to_owned()
            } else {
                e
            };
            fail(ERROR_RECEIVER_DECRYPT, reason)
        },
    }
}

} // verus!

verus! {

/// Logged when the key shared with the recipient cannot be derived.
pub const ERROR_SECRET_IN_ENCRYPT: &'static str = "compute_shared_secret failed in encrypt";

/// Logged when the message key cannot be built.
pub const ERROR_PACKAGING: &'static str = "create_message_key failed in encrypt";

/// Appended to the message for a recipient key that cannot be used.
pub const READD_FRIEND: &'static str = " Remove that friend and add them again with a fresh invite key.";

/// Starts the message for a message key that cannot be built.
pub const PACKAGING_FAILED: &'static str = "GhostLayer encrypted your message but could not package it. ";

/// A message short enough to encrypt and to write as Base64: ChaCha20-Poly1305
/// takes at most its limit, and the Base64 length of the sealed bytes must
/// fit in a `usize`.
pub open spec fn message_fits(message: Seq<char>) -> bool {
    &&& encode_utf8(message).len() <= chacha_plaintext_limit()
    &&& 4 * ((encode_utf8(message).len() + 16 + 2) / 3) <= usize::MAX
}

/// The result of encrypting: the nonce as Base64, and the message key, which
/// is also what is shown.
pub open spec fn packaged(my_public: Seq<char>, nonce: Seq<u8>, ciphertext: Seq<u8>) -> CryptoView {
    let nonce_b64 = base64_encoding(nonce);
    let key = message_key_text(my_public, nonce_b64, base64_encoding(ciphertext));
    CryptoView { success: true, error: None, nonce: Some(nonce_b64), display: key, message_key: Some(key) }
}

/// What packaging a nonce and a ciphertext gives: the message key, or, when
/// a field fails its check (the own public key is not a valid public key),
/// the failure that says the message could not be packaged.
pub open spec fn spec_package(my_public: Seq<char>, nonce: Seq<u8>, ciphertext: Seq<u8>) -> CryptoView {
    match spec_create_message_key(my_public, base64_encoding(nonce), base64_encoding(ciphertext)) {
        Ok(_) => packaged(my_public, nonce, ciphertext),
        Err(e) => failure(ERROR_PACKAGING@, PACKAGING_FAILED@ + e),
    }
}

/// What encrypting a message for a recipient gives, with the given nonce.
pub open spec fn encrypt_outcome(
    my_public: Seq<char>,
    my_private: Seq<char>,
    recipient_public: Seq<char>,
    message: Seq<char>,
    nonce: Seq<u8>,
) -> CryptoView {
    match spec_shared_secret(my_private, recipient_public, THE_FRIEND_YOU_PICKED@) {
        Err(e) => failure(ERROR_SECRET_IN_ENCRYPT@, e + READD_FRIEND@),
        Ok(k) => spec_package(my_public, nonce, chacha20poly1305_sealed(k, nonce, encode_utf8(message))),
    }
}

/// The Base64 keys of one identity: the private key decodes to 32 bytes and
/// the public key decodes to its X25519 public key.
pub open spec fn identity_keys(public: Seq<char>, private: Seq<char>) -> bool {
    &&& base64_decoding(private) matches Some(secret) && secret.len() == 32
    &&& base64_decoding(public) == Some(x25519_public(base64_decoding(private)->Some_0))
}

/// Seals a message under a fresh random nonce; returns the nonce and the
/// ciphertext, which is 16 bytes longer than the message. Decrypting it with
/// the same key and nonce gives the message back.
pub fn encrypt_message(key_bytes: &[u8], plaintext: &str) -> (sealed: (Vec<u8>, Vec<u8>))
    requires
        key_bytes@.len() == 32,
        message_fits(plaintext@),
    ensures
        sealed.0@.len() == 12,
        sealed.1@ == chacha20poly1305_sealed(key_bytes@, sealed.0@, encode_utf8(plaintext@)),
        sealed.1@.len() == encode_utf8(plaintext@).len() + 16,
        chacha20poly1305_opened(key_bytes@, sealed.0@, sealed.1@) == Some(encode_utf8(plaintext@)),
        spec_decrypt_text(key_bytes@, sealed.0@, sealed.1@) == Ok::<_, Seq<char>>(plaintext@),
{
    let nonce = random_nonce();
    let ciphertext = chacha_seal(key_bytes, nonce.as_slice(), plaintext.as_bytes());
    proof {
        encode_utf8_valid_utf8(plaintext@);
        encode_utf8_decode_utf8(plaintext@);
    }
    (nonce, ciphertext)
}

/// Writes a nonce and a ciphertext as Base64 and frames them with the
/// sender's public key into a message key; fails, saying the message could
/// not be packaged, when a field is refused.
pub fn package_message(my_public_b64: &str, nonce: &[u8], ciphertext: &[u8]) -> (res: CryptoFunctionResult)
    requires
        nonce@.len() == 12,
        4 * ((ciphertext@.len() + 2) / 3) <= usize::MAX,
    ensures
        res@ == spec_package(my_public_b64@, nonce@, ciphertext@),
        res@.success <==> valid_public_key(my_public_b64@) && ciphertext@.len() > 0,
        valid_nonce(base64_encoding(nonce@)),
        base64_decoding(base64_encoding(nonce@)) == Some(nonce@),
        base64_decoding(base64_encoding(ciphertext@)) == Some(ciphertext@),
        ciphertext@.len() > 0 ==> valid_ciphertext(base64_encoding(ciphertext@)),
{
    let nonce_b64 = encode_base64(nonce);
    let ciphertext_b64 = encode_base64(ciphertext);
    let message_key = match create_message_key(my_public_b64, nonce_b64.as_str(), ciphertext_b64.as_str()) {
        Ok(key) => key,
        Err(e) => {
            let mut display = PACKAGING_FAILED.to_owned();
            display.append(e.as_str());
            return fail(ERROR_PACKAGING, display);
        },
    };
    CryptoFunctionResult {
        success: true,
        error: None,
        nonce: Some(nonce_b64),
        display: message_key.clone(),
        message_key: Some(message_key),
    }
}

/// Encrypts a message for a recipient and packages it as a message key.
///
/// The nonce is random, so the result is stated for some 12-byte nonce,
/// together with what sealing under it gives. It fails when the shared key
/// cannot be derived or the own public key is not a valid public key. When
/// it succeeds, the message key reads back as the own public key, the
/// 16-character Base64 nonce and the Base64 of a ciphertext 16 bytes longer
/// than the message, and with the recipient anywhere in the friend list the
/// sender's decryption succeeds. When the sender's keys also belong
/// together, the recipient's decryption gives the message back, and so does
/// the sender's when no friend before the recipient opens it.
pub fn encrypt(
    my_public_b64: String,
    my_private_b64: String,
    recipient_public_b64: String,
    message: String,
) -> (res: CryptoFunctionResult)
    requires
        message_fits(message@),
    ensures
        exists|nonce: Seq<u8>|
            nonce.len() == 12 && res@ == encrypt_outcome(
                my_public_b64@,
                my_private_b64@,
                recipient_public_b64@,
                message@,
                nonce,
            ) && (spec_shared_secret(my_private_b64@, recipient_public_b64@, THE_FRIEND_YOU_PICKED@) matches Ok(k)
                ==> sealed_for(
                my_private_b64@,
                recipient_public_b64@,
                message@,
                k,
                nonce,
                chacha20poly1305_sealed(k, nonce, encode_utf8(message@)),
            )),
        res@.success <==> (keys_usable(my_private_b64@, recipient_public_b64@) && valid_public_key(my_public_b64@)),
        res@.success ==> {
            &&& valid_public_key(my_public_b64@)
            &&& message_key_readable(encode_utf8(res@.display))
            &&& spec_parse_message_key(encode_utf8(res@.display)) matches Ok(details)
            &&& details.sender_public_key == my_public_b64@
            &&& res@.nonce == Some(details.nonce_b64)
            &&& res@.message_key == Some(res@.display)
            &&& valid_nonce(details.nonce_b64)
            &&& base64_decoding(details.ciphertext_b64) matches Some(ciphertext)
            &&& ciphertext.len() == encode_utf8(message@).len() + 16
        },
        res@.success && identity_keys(my_public_b64@, my_private_b64@)
            ==> forall|their_private: Seq<char>, index_json: Seq<char>|
            #![trigger spec_decrypt(recipient_public_b64@, their_private, index_json, encode_utf8(res@.display))]
            identity_keys(recipient_public_b64@, their_private) && recipient_public_b64@ != my_public_b64@
                ==> spec_decrypt(recipient_public_b64@, their_private, index_json, encode_utf8(res@.display))
                == opened_message(message@),
        res@.success && identity_keys(my_public_b64@, my_private_b64@)
            ==> forall|index_json: Seq<char>, i: int|
            #![trigger spec_decrypt(my_public_b64@, my_private_b64@, index_json, encode_utf8(res@.display)), json_strings_read(index_json)->Some_0[i]]
            json_strings_read(index_json) matches Some(index) && 0 <= i < index.len() && index[i]
                == recipient_public_b64@ && (forall|j: int|
                #![trigger index[j]]
                0 <= j < i ==> !opens_with(my_private_b64@, index[j], encode_utf8(res@.display)))
                ==> spec_decrypt(my_public_b64@, my_private_b64@, index_json, encode_utf8(res@.display))
                == opened_message(message@),
        res@.success ==> forall|index_json: Seq<char>|
            #![trigger spec_decrypt(my_public_b64@, my_private_b64@, index_json, encode_utf8(res@.display))]
            json_strings_read(index_json) matches Some(index) && index.contains(recipient_public_b64@)
                ==> spec_decrypt(my_public_b64@, my_private_b64@, index_json, encode_utf8(res@.display)).success,
{
    let key_bytes = match compute_shared_secret(my_private_b64.as_str(), recipient_public_b64.as_str(), THE_FRIEND_YOU_PICKED) {
        Ok(k) => k,
        Err(e) => {
            let mut display = e;
            display.append(READD_FRIEND);
            let res = fail(ERROR_SECRET_IN_ENCRYPT, display);
            let ghost witness = Seq::new(12, |i: int| 0u8);
            assert(witness.len() == 12);
            assert(res@ == encrypt_outcome(my_public_b64@, my_private_b64@, recipient_public_b64@, message@, witness));
            return res;
        },
    };
    let (nonce, ciphertext) = encrypt_message(key_bytes.as_slice(), message.as_str());
    let res = package_message(my_public_b64.as_str(), nonce.as_slice(), ciphertext.as_slice());
    proof {
        assert(res@ == encrypt_outcome(my_public_b64@, my_private_b64@, recipient_public_b64@, message@, nonce@));
        assert(sealed_for(my_private_b64@, recipient_public_b64@, message@, key_bytes@, nonce@, ciphertext@));
        lemma_encrypt_succeeds_for_any_message(
            my_public_b64@,
            my_private_b64@,
            recipient_public_b64@,
            message@,
            nonce@,
        );
        if res@.success {
            lemma_sealed_key_reads_back(
                my_public_b64@,
                my_private_b64@,
                recipient_public_b64@,
                message@,
                key_bytes@,
                nonce@,
                ciphertext@,
            );
            lemma_sender_succeeds(
                my_public_b64@,
                my_private_b64@,
                recipient_public_b64@,
                message@,
                key_bytes@,
                nonce@,
                ciphertext@,
            );
        }
        if res@.success && identity_keys(my_public_b64@, my_private_b64@) {
            lemma_encrypted_message_opens(
                my_public_b64@,
                my_private_b64@,
                recipient_public_b64@,
                message@,
                key_bytes@,
                nonce@,
                ciphertext@,
            );
        }
    }
    res
}

} // verus!

verus! {

/// Trying friends in order finds some text when one of them opens the
/// ciphertext.
pub proof fn lemma_try_friends_finds(
    my_private: Seq<char>,
    friends: Seq<Seq<char>>,
    nonce: Seq<u8>,
    ciphertext: Seq<u8>,
    friend: Seq<char>,
)
    requires
        friends.contains(friend),
        spec_shared_secret(my_private, friend, A_SAVED_FRIEND@) matches Ok(k) && spec_decrypt_text(
            k,
            nonce,
            ciphertext,
        ) is Ok,
    ensures
        spec_try_friends(my_private, friends, nonce, ciphertext) is Some,
    decreases friends.len(),
{
    if friends[0] != friend {
        let i = choose|i: int| 0 <= i < friends.len() && friends[i] == friend;
        assert(friends.drop_first()[i - 1] == friend);
        lemma_try_friends_finds(my_private, friends.drop_first(), nonce, ciphertext, friend);
    }
}

/// Whether the key shared with `friend` opens the message key's ciphertext.
pub open spec fn opens_with(my_private: Seq<char>, friend: Seq<char>, message_key: Seq<u8>) -> bool {
    &&& spec_parse_message_key(message_key) matches Ok(details)
    &&& base64_decoding(details.nonce_b64) matches Some(nonce)
    &&& base64_decoding(details.ciphertext_b64) matches Some(ciphertext)
    &&& spec_shared_secret(my_private, friend, A_SAVED_FRIEND@) matches Ok(k)
    &&& spec_decrypt_text(k, nonce, ciphertext) is Ok
}

/// Trying friends in order skips the friends before position `i` when none
/// of them opens the ciphertext.
pub proof fn lemma_try_friends_skips(
    my_private: Seq<char>,
    friends: Seq<Seq<char>>,
    nonce: Seq<u8>,
    ciphertext: Seq<u8>,
    i: int,
)
    requires
        0 <= i <= friends.len(),
        forall|j: int|
            #![trigger friends[j]]
            0 <= j < i ==> !(spec_shared_secret(my_private, friends[j], A_SAVED_FRIEND@) matches Ok(k)
                && spec_decrypt_text(k, nonce, ciphertext) is Ok),
    ensures
        spec_try_friends(my_private, friends, nonce, ciphertext) == spec_try_friends(
            my_private,
            friends.skip(i),
            nonce,
            ciphertext,
        ),
    decreases i,
{
    if i == 0 {
        assert(friends.skip(0) =~= friends);
    } else {
        let rest = friends.drop_first();
        assert forall|j: int| #![trigger rest[j]] 0 <= j < i - 1 implies !(spec_shared_secret(
            my_private,
            rest[j],
            A_SAVED_FRIEND@,
        ) matches Ok(k) && spec_decrypt_text(k, nonce, ciphertext) is Ok) by {
            assert(rest[j] == friends[j + 1]);
        }
        lemma_try_friends_skips(my_private, rest, nonce, ciphertext, i - 1);
        assert(rest.skip(i - 1) =~= friends.skip(i));
    }
}

/// The facts that encrypting establishes about the key it shared, the nonce
/// and the ciphertext, as the opening lemmas take them.
pub open spec fn sealed_for(
    my_private: Seq<char>,
    recipient_public: Seq<char>,
    message: Seq<char>,
    k: Seq<u8>,
    nonce: Seq<u8>,
    ciphertext: Seq<u8>,
) -> bool {
    &&& spec_shared_secret(my_private, recipient_public, THE_FRIEND_YOU_PICKED@) == Ok::<_, Seq<char>>(k)
    &&& forall|other: Seq<u8>|
        #![trigger x25519_public(other)]
        other.len() == 32 && base64_decoding(recipient_public) == Some(x25519_public(other)) ==> k
            == x25519_shared(other, x25519_public(base64_decoding(my_private)->Some_0))
    &&& nonce.len() == 12
    &&& chacha20poly1305_opened(k, nonce, ciphertext) == Some(encode_utf8(message))
    &&& ciphertext.len() == encode_utf8(message).len() + 16
    &&& valid_nonce(base64_encoding(nonce))
    &&& base64_decoding(base64_encoding(nonce)) == Some(nonce)
    &&& base64_decoding(base64_encoding(ciphertext)) == Some(ciphertext)
    &&& valid_ciphertext(base64_encoding(ciphertext))
}

/// The message key of a sealed message.
pub open spec fn sealed_key(my_public: Seq<char>, nonce: Seq<u8>, ciphertext: Seq<u8>) -> Seq<u8> {
    encode_utf8(message_key_text(my_public, base64_encoding(nonce), base64_encoding(ciphertext)))
}

proof fn lemma_sealed_key_reads_back(
    my_public: Seq<char>,
    my_private: Seq<char>,
    recipient_public: Seq<char>,
    message: Seq<char>,
    k: Seq<u8>,
    nonce: Seq<u8>,
    ciphertext: Seq<u8>,
)
    requires
        valid_public_key(my_public),
        sealed_for(my_private, recipient_public, message, k, nonce, ciphertext),
    ensures
        message_key_readable(sealed_key(my_public, nonce, ciphertext)),
        spec_parse_message_key(sealed_key(my_public, nonce, ciphertext)) == Ok::<_, Seq<char>>(
            MessageView {
                sender_public_key: my_public,
                nonce_b64: base64_encoding(nonce),
                ciphertext_b64: base64_encoding(ciphertext),
            },
        ),
        spec_decrypt_text(k, nonce, ciphertext) == Ok::<_, Seq<char>>(message),
{
    lemma_message_key_roundtrip(my_public, base64_encoding(nonce), base64_encoding(ciphertext));
    encode_utf8_valid_utf8(message);
    encode_utf8_decode_utf8(message);
}

#[verifier::spinoff_prover]
proof fn lemma_receiver_opens(
    my_public: Seq<char>,
    my_private: Seq<char>,
    recipient_public: Seq<char>,
    message: Seq<char>,
    k: Seq<u8>,
    nonce: Seq<u8>,
    ciphertext: Seq<u8>,
    their_private: Seq<char>,
    index_json: Seq<char>,
)
    requires
        valid_public_key(my_public),
        identity_keys(my_public, my_private),
        sealed_for(my_private, recipient_public, message, k, nonce, ciphertext),
        identity_keys(recipient_public, their_private),
        recipient_public != my_public,
    ensures
        spec_decrypt(recipient_public, their_private, index_json, sealed_key(my_public, nonce, ciphertext))
            == opened_message(message),
{
    lemma_sealed_key_reads_back(my_public, my_private, recipient_public, message, k, nonce, ciphertext);
    let a = base64_decoding(my_private)->Some_0;
    let b = base64_decoding(their_private)->Some_0;
    assert(base64_decoding(recipient_public) == Some(x25519_public(b)));
    assert(k == x25519_shared(b, x25519_public(a)));
    assert(spec_shared_secret(their_private, my_public, THE_SENDER@) == Ok::<_, Seq<char>>(k));
}

#[verifier::spinoff_prover]
proof fn lemma_sender_opens(
    my_public: Seq<char>,
    my_private: Seq<char>,
    recipient_public: Seq<char>,
    message: Seq<char>,
    k: Seq<u8>,
    nonce: Seq<u8>,
    ciphertext: Seq<u8>,
    index_json: Seq<char>,
)
    requires
        valid_public_key(my_public),
        sealed_for(my_private, recipient_public, message, k, nonce, ciphertext),
        json_strings_read(index_json) matches Some(index) && index.contains(recipient_public),
    ensures
        spec_decrypt(my_public, my_private, index_json, sealed_key(my_public, nonce, ciphertext)).success,
        forall|i: int|
            #![trigger json_strings_read(index_json)->Some_0[i]]
            0 <= i < json_strings_read(index_json)->Some_0.len() && json_strings_read(index_json)->Some_0[i]
                == recipient_public && (forall|j: int|
                #![trigger json_strings_read(index_json)->Some_0[j]]
                0 <= j < i ==> !opens_with(
                    my_private,
                    json_strings_read(index_json)->Some_0[j],
                    sealed_key(my_public, nonce, ciphertext),
                )) ==> spec_decrypt(my_public, my_private, index_json, sealed_key(my_public, nonce, ciphertext))
                == opened_message(message),
{
    let key = sealed_key(my_public, nonce, ciphertext);
    lemma_sealed_key_reads_back(my_public, my_private, recipient_public, message, k, nonce, ciphertext);
    let index = json_strings_read(index_json)->Some_0;
    assert(spec_shared_secret(my_private, recipient_public, A_SAVED_FRIEND@) == Ok::<_, Seq<char>>(k));
    lemma_try_friends_finds(my_private, index, nonce, ciphertext, recipient_public);
    assert forall|i: int|
        #![trigger index[i]]
        0 <= i < index.len() && index[i] == recipient_public && (forall|j: int|
            #![trigger index[j]]
            0 <= j < i ==> !opens_with(my_private, index[j], key)) implies spec_decrypt(
        my_public,
        my_private,
        index_json,
        key,
    ) == opened_message(message) by {
        assert forall|j: int| #![trigger index[j]] 0 <= j < i implies !(spec_shared_secret(
            my_private,
            index[j],
            A_SAVED_FRIEND@,
        ) matches Ok(kj) && spec_decrypt_text(kj, nonce, ciphertext) is Ok) by {
            assert(!opens_with(my_private, index[j], key));
        }
        lemma_try_friends_skips(my_private, index, nonce, ciphertext, i);
        assert(index.skip(i)[0] == recipient_public);
        assert(spec_try_friends(my_private, index.skip(i), nonce, ciphertext) == Some(message));
    }
}

/// Both keys of an encryption are usable: the own private key and the
/// recipient's public key are Base64 of 32 bytes each.
pub open spec fn keys_usable(my_private: Seq<char>, recipient_public: Seq<char>) -> bool {
    &&& base64_decoding(my_private) matches Some(mine) && mine.len() == 32
    &&& base64_decoding(recipient_public) matches Some(theirs) && theirs.len() == 32
}

/// Encrypting succeeds exactly when both keys are usable and the own public
/// key is a valid public key, whatever characters the message holds; when it
/// succeeds, the message key and the display are the same text and the
/// nonce is reported. (The facts required are those that sealing under the
/// nonce establishes, as `encrypt` states them.)
pub proof fn lemma_encrypt_succeeds_for_any_message(
    my_public: Seq<char>,
    my_private: Seq<char>,
    recipient_public: Seq<char>,
    message: Seq<char>,
    nonce: Seq<u8>,
)
    requires
        nonce.len() == 12,
        spec_shared_secret(my_private, recipient_public, THE_FRIEND_YOU_PICKED@) matches Ok(k) ==> sealed_for(
            my_private,
            recipient_public,
            message,
            k,
            nonce,
            chacha20poly1305_sealed(k, nonce, encode_utf8(message)),
        ),
    ensures
        encrypt_outcome(my_public, my_private, recipient_public, message, nonce).success <==> (keys_usable(
            my_private,
            recipient_public,
        ) && valid_public_key(my_public)),
        encrypt_outcome(my_public, my_private, recipient_public, message, nonce).success ==> {
            let r = encrypt_outcome(my_public, my_private, recipient_public, message, nonce);
            &&& r.error is None
            &&& r.message_key == Some(r.display)
            &&& r.nonce == Some(base64_encoding(nonce))
        },
{
}

proof fn lemma_sender_succeeds(
    my_public: Seq<char>,
    my_private: Seq<char>,
    recipient_public: Seq<char>,
    message: Seq<char>,
    k: Seq<u8>,
    nonce: Seq<u8>,
    ciphertext: Seq<u8>,
)
    requires
        valid_public_key(my_public),
        sealed_for(my_private, recipient_public, message, k, nonce, ciphertext),
    ensures
        forall|index_json: Seq<char>|
            #![trigger spec_decrypt(my_public, my_private, index_json, sealed_key(my_public, nonce, ciphertext))]
            json_strings_read(index_json) matches Some(index) && index.contains(recipient_public)
                ==> spec_decrypt(my_public, my_private, index_json, sealed_key(my_public, nonce, ciphertext)).success,
{
    assert forall|index_json: Seq<char>|
        #![trigger spec_decrypt(my_public, my_private, index_json, sealed_key(my_public, nonce, ciphertext))]
        json_strings_read(index_json) matches Some(index) && index.contains(recipient_public)
            implies spec_decrypt(my_public, my_private, index_json, sealed_key(my_public, nonce, ciphertext)).success by {
        lemma_sender_opens(my_public, my_private, recipient_public, message, k, nonce, ciphertext, index_json);
    }
}

proof fn lemma_encrypted_message_opens(
    my_public: Seq<char>,
    my_private: Seq<char>,
    recipient_public: Seq<char>,
    message: Seq<char>,
    k: Seq<u8>,
    nonce: Seq<u8>,
    ciphertext: Seq<u8>,
)
    requires
        valid_public_key(my_public),
        identity_keys(my_public, my_private),
        sealed_for(my_private, recipient_public, message, k, nonce, ciphertext),
    ensures
        ({
            let key = sealed_key(my_public, nonce, ciphertext);
            &&& message_key_readable(key)
            &&& forall|their_private: Seq<char>, index_json: Seq<char>|
                #![trigger spec_decrypt(recipient_public, their_private, index_json, key)]
                identity_keys(recipient_public, their_private) && recipient_public != my_public
                    ==> spec_decrypt(recipient_public, their_private, index_json, key) == opened_message(message)
            &&& forall|index_json: Seq<char>, i: int|
                #![trigger spec_decrypt(my_public, my_private, index_json, key), json_strings_read(index_json)->Some_0[i]]
                json_strings_read(index_json) matches Some(index) && 0 <= i < index.len() && index[i]
                    == recipient_public && (forall|j: int|
                    #![trigger index[j]]
                    0 <= j < i ==> !opens_with(my_private, index[j], key)) ==> spec_decrypt(
                    my_public,
                    my_private,
                    index_json,
                    key,
                ) == opened_message(message)
            &&& forall|index_json: Seq<char>|
                #![trigger spec_decrypt(my_public, my_private, index_json, key)]
                json_strings_read(index_json) matches Some(index) && index.contains(recipient_public)
                    ==> spec_decrypt(my_public, my_private, index_json, key).success
        }),
{
    let key = sealed_key(my_public, nonce, ciphertext);
    lemma_sealed_key_reads_back(my_public, my_private, recipient_public, message, k, nonce, ciphertext);
    assert forall|their_private: Seq<char>, index_json: Seq<char>|
        #![trigger spec_decrypt(recipient_public, their_private, index_json, key)]
        identity_keys(recipient_public, their_private) && recipient_public != my_public
            implies spec_decrypt(recipient_public, their_private, index_json, key) == opened_message(message) by {
        lemma_receiver_opens(my_public, my_private, recipient_public, message, k, nonce, ciphertext, their_private, index_json);
    }
    assert forall|index_json: Seq<char>, i: int|
        #![trigger spec_decrypt(my_public, my_private, index_json, key), json_strings_read(index_json)->Some_0[i]]
        json_strings_read(index_json) matches Some(index) && 0 <= i < index.len() && index[i]
            == recipient_public && (forall|j: int|
            #![trigger index[j]]
            0 <= j < i ==> !opens_with(my_private, index[j], key)) implies spec_decrypt(
        my_public,
        my_private,
        index_json,
        key,
    ) == opened_message(message) by {
        let index = json_strings_read(index_json)->Some_0;
        assert(index.contains(recipient_public)) by {
            assert(index[i] == recipient_public);
        }
        lemma_sender_opens(my_public, my_private, recipient_public, message, k, nonce, ciphertext, index_json);
    }
    assert forall|index_json: Seq<char>|
        #![trigger spec_decrypt(my_public, my_private, index_json, key)]
        json_strings_read(index_json) matches Some(index) && index.contains(recipient_public)
            implies spec_decrypt(my_public, my_private, index_json, key).success by {
        lemma_sender_opens(my_public, my_private, recipient_public, message, k, nonce, ciphertext, index_json);
    }
}

} // verus!
