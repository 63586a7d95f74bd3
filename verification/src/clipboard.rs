//! What copying to the clipboard copies and reports. The extension asks for
//! the public key id, the username or the invite key; the library decides
//! what text to copy and what to report once it has been copied.
use vstd::prelude::*;
use vstd::string::*;

use crate::parser::create_invite_key;
use crate::protocol::registry::invite_key_text;
use crate::storage::LoadResult;
use crate::text::{first_chars, join3, lowercased, opt_string, str_equal, to_lowercase};
use crate::types::{FunctionResult, FunctionView};

verus! {

/// The item that copies the identity's key id.
pub const ITEM_PUBLIC_KEY: &'static str = "public_key";

/// The item that copies the username.
pub const ITEM_USERNAME: &'static str = "username";

/// The item that copies the invite key.
pub const ITEM_INVITE_KEY: &'static str = "invite_key";

/// Logged when the key id is asked for without an identity.
pub const ERROR_NO_PUBLIC_KEY: &'static str = "copy_to_clipboard public_key with has_identity = false";

/// Shown when the key id is asked for without an identity.
pub const NO_PUBLIC_KEY_YET: &'static str = "You have no public key yet. Click Create Identity first.";

/// Logged when the username is asked for without an identity.
pub const ERROR_NO_USERNAME: &'static str = "copy_to_clipboard username with has_identity = false";

/// Shown when the username is asked for without an identity.
pub const NO_USERNAME_YET: &'static str = "You have no username yet. Click Create Identity first.";

/// Logged when the invite key is asked for without an identity.
pub const ERROR_NO_INVITE_KEY: &'static str = "copy_to_clipboard invite_key with has_identity = false";

/// Shown when the invite key is asked for without an identity.
pub const NO_INVITE_KEY_YET: &'static str = "You have no invite key yet. Click Create Identity first.";

/// Logged when the invite key cannot be built.
pub const ERROR_INVITE_KEY: &'static str = "create_invite_key failed";

/// Logged for an item the library does not know.
pub const ERROR_UNKNOWN_ITEM: &'static str = "copy_to_clipboard called with an unknown item";

/// Shown for an item the library does not know.
pub const UNKNOWN_ITEM: &'static str = "GhostLayer does not know how to copy that. This is a bug in GhostLayer, please report it.";

/// Starts the report of a copied key id.
pub const COPIED_PUBLIC_KEY_START: &'static str = "Public key ";

/// Ends the report of a copied key id.
pub const COPIED_PUBLIC_KEY_END: &'static str = ".. was copied to clipboard";

/// Starts the report of a copied username.
pub const COPIED_USERNAME_START: &'static str = "Username ";

/// Ends the report of a copied username.
pub const COPIED_USERNAME_END: &'static str = " was copied to clipboard";

/// Starts the report of a copied invite key.
pub const COPIED_INVITE_START: &'static str = "Invite key ";

/// Ends the report of a copied invite key.
pub const COPIED_INVITE_END: &'static str = " has been copied to clipboard!";

/// What to do for a copy request: report at once, or copy a text and then
/// report.
pub enum ClipboardPlan {
    Report(FunctionResult),
    Copy { text: String, then: FunctionResult },
}

/// A [`ClipboardPlan`] as text.
pub enum ClipboardView {
    Report(FunctionView),
    Copy { text: Seq<char>, then: FunctionView },
}

impl View for ClipboardPlan {
    type V = ClipboardView;

    open spec fn view(&self) -> ClipboardView {
        match self {
            ClipboardPlan::Report(r) => ClipboardView::Report(r@),
            ClipboardPlan::Copy { text, then } => ClipboardView::Copy { text: text@, then: then@ },
        }
    }
}

/// A refused copy: what it logs and what it shows.
pub open spec fn copy_refused(error: Seq<char>, display: Seq<char>) -> FunctionView {
    FunctionView { success: false, username: None, error: Some(error), display, write: Seq::empty() }
}

/// A copy that was made, with what it shows and the username it reports.
pub open spec fn copied(username: Option<Seq<char>>, display: Seq<char>) -> FunctionView {
    FunctionView { success: true, username, error: None, display, write: Seq::empty() }
}

/// An optional text, or the empty text.
pub open spec fn or_empty(o: Option<Seq<char>>) -> Seq<char> {
    match o {
        Some(t) => t,
        None => Seq::empty(),
    }
}

/// The first `n` characters of a text, or all of it.
pub open spec fn take_chars(text: Seq<char>, n: int) -> Seq<char> {
    text.subrange(0, if text.len() < n { text.len() as int } else { n })
}

/// What a copy request for an item (any case) gives, given the stored data.
/// The `public_key` item copies the identity's key id.
pub open spec fn spec_clipboard_plan(storage: LoadResult, item: Seq<char>) -> ClipboardView {
    let item = lowercased(item);
    if item == ITEM_PUBLIC_KEY@ {
        if !storage.has_identity {
            ClipboardView::Report(copy_refused(ERROR_NO_PUBLIC_KEY@, NO_PUBLIC_KEY_YET@))
        } else {
            let text = or_empty(opt_string(storage.identity_key_id));
            ClipboardView::Copy {
                text,
                then: copied(None, COPIED_PUBLIC_KEY_START@ + text + COPIED_PUBLIC_KEY_END@),
            }
        }
    } else if item == ITEM_USERNAME@ {
        if !storage.has_identity {
            ClipboardView::Report(copy_refused(ERROR_NO_USERNAME@, NO_USERNAME_YET@))
        } else {
            let text = or_empty(opt_string(storage.username));
            ClipboardView::Copy {
                text,
                then: copied(Some(text), COPIED_USERNAME_START@ + text + COPIED_USERNAME_END@),
            }
        }
    } else if item == ITEM_INVITE_KEY@ {
        if !storage.has_identity {
            ClipboardView::Report(copy_refused(ERROR_NO_INVITE_KEY@, NO_INVITE_KEY_YET@))
        } else {
            let text = invite_key_text(or_empty(opt_string(storage.public_key)), opt_string(storage.username));
            ClipboardView::Copy {
                text,
                then: copied(None, COPIED_INVITE_START@ + take_chars(text, 6) + COPIED_INVITE_END@),
            }
        }
    } else {
        ClipboardView::Report(copy_refused(ERROR_UNKNOWN_ITEM@, UNKNOWN_ITEM@))
    }
}

fn refuse_copy(error: &str, display: &str) -> (res: ClipboardPlan)
    ensures
        res@ == ClipboardView::Report(copy_refused(error@, display@)),
{
    let r = FunctionResult {
        success: false,
        username: None,
        error: Some(error.to_owned()),
        display: display.to_owned(),
        write: Vec::new(),
    };
    assert(r@.write =~= Seq::<crate::types::WriteView>::empty());
    ClipboardPlan::Report(r)
}

fn copy_then(text: String, username: Option<String>, display: String) -> (res: ClipboardPlan)
    ensures
        res@ == (ClipboardView::Copy { text: text@, then: copied(opt_string(username), display@) }),
{
    let r = FunctionResult { success: true, username, error: None, display, write: Vec::new() };
    assert(r@.write =~= Seq::<crate::types::WriteView>::empty());
    ClipboardPlan::Copy { text, then: r }
}

fn text_or_empty(o: &Option<String>) -> (t: String)
    ensures
        t@ == or_empty(opt_string(*o)),
{
    match o {
        Some(s) => s.clone(),
        None => String::new(),
    }
}

/// Decides what a copy request copies and reports: the identity's key id for
/// `public_key`, the username for `username`, the invite key for
/// `invite_key` (the item in any case); each needs an identity.
pub fn clipboard_plan(storage: &LoadResult, item: &str) -> (plan: ClipboardPlan)
    ensures
        plan@ == spec_clipboard_plan(*storage, item@),
{
    let item = to_lowercase(item);
    if str_equal(item.as_str(), ITEM_PUBLIC_KEY) {
        if !storage.has_identity {
            return refuse_copy(ERROR_NO_PUBLIC_KEY, NO_PUBLIC_KEY_YET);
        }
        let text = text_or_empty(&storage.identity_key_id);
        let display = join3(COPIED_PUBLIC_KEY_START, text.as_str(), COPIED_PUBLIC_KEY_END);
        copy_then(text, None, display)
    } else if str_equal(item.as_str(), ITEM_USERNAME) {
        if !storage.has_identity {
            return refuse_copy(ERROR_NO_USERNAME, NO_USERNAME_YET);
        }
        let text = text_or_empty(&storage.username);
        let display = join3(COPIED_USERNAME_START, text.as_str(), COPIED_USERNAME_END);
        copy_then(text.clone(), Some(text), display)
    } else if str_equal(item.as_str(), ITEM_INVITE_KEY) {
        if !storage.has_identity {
            return refuse_copy(ERROR_NO_INVITE_KEY, NO_INVITE_KEY_YET);
        }
        let public_key = text_or_empty(&storage.public_key);
        let username = match &storage.username {
            Some(u) => Some(u.as_str()),
            None => None,
        };
        match create_invite_key(public_key.as_str(), username) {
            Err(e) => refuse_copy(ERROR_INVITE_KEY, e.as_str()),
            Ok(text) => {
                let shown = first_chars(text.as_str(), 6);
                let display = join3(COPIED_INVITE_START, shown.as_str(), COPIED_INVITE_END);
                copy_then(text, None, display)
            },
        }
    } else {
        refuse_copy(ERROR_UNKNOWN_ITEM, UNKNOWN_ITEM)
    }
}

} // verus!

verus! {

/// With an identity, copying copies the stored value itself, unchanged: the
/// key id for `public_key`, the username (or nothing) for `username`, and
/// the invite key built from the stored public key and username for
/// `invite_key`; the report then succeeds, writes nothing, and for the
/// username names it and returns it.
pub proof fn lemma_copies_stored_values(storage: LoadResult, item: Seq<char>)
    requires
        storage.has_identity,
    ensures
        lowercased(item) == ITEM_USERNAME@ ==> ({
            let name = or_empty(opt_string(storage.username));
            spec_clipboard_plan(storage, item) == ClipboardView::Copy {
                text: name,
                then: FunctionView {
                    success: true,
                    username: Some(name),
                    error: None,
                    display: COPIED_USERNAME_START@ + name + COPIED_USERNAME_END@,
                    write: Seq::empty(),
                },
            }
        }),
        lowercased(item) == ITEM_PUBLIC_KEY@ ==> (spec_clipboard_plan(storage, item) matches ClipboardView::Copy {
            text,
            then,
        } && text == or_empty(opt_string(storage.identity_key_id)) && then.success && then.username is None),
        lowercased(item) == ITEM_INVITE_KEY@ ==> (spec_clipboard_plan(storage, item) matches ClipboardView::Copy {
            text,
            then,
        } && text == invite_key_text(or_empty(opt_string(storage.public_key)), opt_string(storage.username))
            && then.success && then.username is None),
{
    reveal_strlit("username");
    reveal_strlit("public_key");
    reveal_strlit("invite_key");
    assert(ITEM_USERNAME@.len() != ITEM_PUBLIC_KEY@.len());
    assert(ITEM_USERNAME@.len() != ITEM_INVITE_KEY@.len());
    assert(ITEM_PUBLIC_KEY@[0] != ITEM_INVITE_KEY@[0]);
}

/// Without an identity, nothing is copied: each known item is refused.
pub proof fn lemma_nothing_copied_without_identity(storage: LoadResult, item: Seq<char>)
    requires
        !storage.has_identity,
    ensures
        spec_clipboard_plan(storage, item) matches ClipboardView::Report(r) && !r.success && r.write.len() == 0,
{
}

} // verus!
