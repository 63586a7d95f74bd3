//! The results the library hands back to the extension.
use vstd::prelude::*;

use crate::text::opt_string;

verus! {

/// One value for the extension to store under a key.
pub struct StorageWrite {
    pub key: String,
    pub value: String,
}

/// The result of an operation on identities and friends: whether it worked,
/// a technical `error` for logs, the `display` text for the user and the
/// storage writes to make.
pub struct FunctionResult {
    pub success: bool,
    pub username: Option<String>,
    pub error: Option<String>,
    pub display: String,
    pub write: Vec<StorageWrite>,
}

/// The result of encrypting or decrypting: whether it worked, a technical
/// `error` for logs, the `display` text (the plaintext, or the message key,
/// or what went wrong), and after encryption the nonce and message key.
pub struct CryptoFunctionResult {
    pub success: bool,
    pub error: Option<String>,
    pub nonce: Option<String>,
    pub display: String,
    pub message_key: Option<String>,
}

/// A [`StorageWrite`] as text.
pub struct WriteView {
    pub key: Seq<char>,
    pub value: Seq<char>,
}

/// A [`FunctionResult`] as text.
pub struct FunctionView {
    pub success: bool,
    pub username: Option<Seq<char>>,
    pub error: Option<Seq<char>>,
    pub display: Seq<char>,
    pub write: Seq<WriteView>,
}

/// A [`CryptoFunctionResult`] as text.
pub struct CryptoView {
    pub success: bool,
    pub error: Option<Seq<char>>,
    pub nonce: Option<Seq<char>>,
    pub display: Seq<char>,
    pub message_key: Option<Seq<char>>,
}

impl View for StorageWrite {
    type V = WriteView;

    open spec fn view(&self) -> WriteView {
        WriteView { key: self.key@, value: self.value@ }
    }
}

impl View for FunctionResult {
    type V = FunctionView;

    open spec fn view(&self) -> FunctionView {
        FunctionView {
            success: self.success,
            username: opt_string(self.username),
            error: opt_string(self.error),
            display: self.display@,
            write: self.write@.map_values(|w: StorageWrite| w@),
        }
    }
}

impl View for CryptoFunctionResult {
    type V = CryptoView;

    open spec fn view(&self) -> CryptoView {
        CryptoView {
            success: self.success,
            error: opt_string(self.error),
            nonce: opt_string(self.nonce),
            display: self.display@,
            message_key: opt_string(self.message_key),
        }
    }
}

} // verus!
