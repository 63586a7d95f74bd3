//! An identity: an X25519 key pair with both keys as Base64, an optional
//! name, and the key id the user sees (the first five characters of the
//! public key).
use vstd::prelude::*;
use vstd::string::*;

use crate::crypto::identity_keys;
use crate::encoding::{base64_decoding, base64_encoding, encode_base64};
use crate::primitives::{public_key_for, random_secret, x25519_public};
use crate::protocol::v1::validation::valid_public_key;
use crate::text::{lemma_ascii_boundary, opt_string};

verus! {

/// A key pair with its name and key id.
pub struct Identity {
    pub name: Option<String>,
    pub public_key: String,
    pub private_key: String,
    pub key_id: String,
}

/// An [`Identity`] as text.
pub struct IdentityView {
    pub name: Option<Seq<char>>,
    pub public_key: Seq<char>,
    pub private_key: Seq<char>,
    pub key_id: Seq<char>,
}

impl View for Identity {
    type V = IdentityView;

    open spec fn view(&self) -> IdentityView {
        IdentityView {
            name: opt_string(self.name),
            public_key: self.public_key@,
            private_key: self.private_key@,
            key_id: self.key_id@,
        }
    }
}

/// The identity made from a 32-byte secret: the Base64 of the secret and of
/// its X25519 public key, and the first five characters of the latter.
pub open spec fn identity_of_secret(name: Option<Seq<char>>, secret: Seq<u8>) -> IdentityView {
    IdentityView {
        name,
        public_key: base64_encoding(x25519_public(secret)),
        private_key: base64_encoding(secret),
        key_id: base64_encoding(x25519_public(secret)).subrange(0, 5),
    }
}

/// Builds the identity of a 32-byte secret under the given name. Its keys
/// belong together and its public key is a valid GhostLayer public key.
pub fn identity_from_secret(name: Option<String>, secret: &[u8]) -> (identity: Identity)
    requires
        secret@.len() == 32,
    ensures
        identity@ == identity_of_secret(opt_string(name), secret@),
        identity_keys(identity.public_key@, identity.private_key@),
        valid_public_key(identity.public_key@),
{
    let public_bytes = public_key_for(secret);
    let private_b64 = encode_base64(secret);
    let public_b64 = encode_base64(public_bytes.as_slice());
    proof {
        lemma_ascii_boundary(public_b64@, 5);
        assert(base64_decoding(private_b64@) == Some(secret@));
    }
    let key_id = public_b64.as_str().substring_ascii(0, 5).to_owned();
    Identity { name, public_key: public_b64, private_key: private_b64, key_id }
}

/// Makes a new identity with a random key pair.
pub fn create_identity(username: Option<String>) -> (identity: Identity)
    ensures
        exists|secret: Seq<u8>|
            secret.len() == 32 && identity@ == identity_of_secret(opt_string(username), secret),
        identity_keys(identity.public_key@, identity.private_key@),
        valid_public_key(identity.public_key@),
{
    let secret = random_secret();
    identity_from_secret(username, secret.as_slice())
}

} // verus!
