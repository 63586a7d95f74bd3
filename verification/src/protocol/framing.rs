//! The outer frame shared by every GhostLayer key:
//!
//! ```text
//! ghl:inv:1:<invite-payload>
//! ghl:msg:1:<message-payload>
//! ```
//!
//! `ghl` marks a GhostLayer key, `inv` or `msg` names the kind, `1` is the
//! protocol version and the remainder is the version-specific payload, which
//! may itself contain `:`.
use vstd::prelude::*;
use vstd::slice::slice_subrange;
use vstd::string::*;
use vstd::utf8::*;

use crate::text::{lemma_encode_utf8_concat, lemma_encode_utf8_no_colon, lemma_first_colon_unique, bytes_equal, colon_after, field_end, find_colon, is_first_colon, lemma_ascii_byte_boundary};

verus! {

broadcast use vstd::string::group_string_axioms, vstd::utf8::group_utf8_lib;

/// The marker that starts every GhostLayer key.
pub const ROOT_PREFIX: &'static str = "ghl";

/// X25519 public keys are 32 bytes; standard Base64 writes 32 bytes as 44 characters.
pub const PUBLIC_KEY_B64_LENGTH: usize = 44;

/// ChaCha20Poly1305 uses a 12-byte nonce; standard Base64 writes 12 bytes as 16 characters.
pub const NONCE_B64_LENGTH: usize = 16;

/// The kind field of a message frame.
pub const MESSAGE_FRAME_KIND: &'static str = "msg";

/// The kind field of an invite frame.
pub const INVITE_FRAME_KIND: &'static str = "inv";

/// Returned when a frame does not start with `ghl`.
pub const INVALID_PREFIX: &'static str = "Invalid ghostlayer prefix!";

/// Returned when the kind field is missing or is neither `inv` nor `msg`.
pub const INVALID_KIND: &'static str = "Invalid ghostlayer kind!";

/// Returned when a frame has no version field.
pub const INVALID_VERSION: &'static str = "Invalid version number!";

/// Returned when a frame has no payload field.
pub const INVALID_PAYLOAD: &'static str = "Invalid payload!";

/// What a frame carries.
#[derive(Debug, Copy, Clone, PartialEq, Eq, Structural)]
pub enum FrameKind {
    Invite,
    Message,
}

/// The three fields of a parsed frame, borrowed from the frame text.
pub struct Frame<'a> {
    pub kind: FrameKind,
    pub version: &'a str,
    pub payload: &'a str,
}

/// The kind field written for each kind.
pub open spec fn kind_text(kind: FrameKind) -> Seq<char> {
    match kind {
        FrameKind::Invite => INVITE_FRAME_KIND@,
        FrameKind::Message => MESSAGE_FRAME_KIND@,
    }
}

/// The text of a frame: `ghl:<kind>:<version>:<payload>`.
pub open spec fn frame_text(kind: FrameKind, version: Seq<char>, payload: Seq<char>) -> Seq<char> {
    ROOT_PREFIX@ + ":"@ + kind_text(kind) + ":"@ + version + ":"@ + payload
}

/// What reading the bytes of a frame gives: the kind, the bytes of the
/// version and the bytes of the payload, or the reason it is refused.
///
/// The text is cut at its first three `:`; whatever follows the third one
/// is the payload, `:` included.
pub open spec fn spec_parse_frame(b: Seq<u8>) -> Result<(FrameKind, Seq<u8>, Seq<u8>), Seq<char>> {
    if b.subrange(0, field_end(b, 0)) != ROOT_PREFIX.spec_bytes() {
        Err(INVALID_PREFIX@)
    } else {
        match colon_after(b, 0) {
            None => Err(INVALID_KIND@),
            Some(i1) => {
                let kind = b.subrange(i1 + 1, field_end(b, i1 + 1));
                if kind != INVITE_FRAME_KIND.spec_bytes() && kind != MESSAGE_FRAME_KIND.spec_bytes() {
                    Err(INVALID_KIND@)
                } else {
                    let k = if kind == INVITE_FRAME_KIND.spec_bytes() {
                        FrameKind::Invite
                    } else {
                        FrameKind::Message
                    };
                    match colon_after(b, i1 + 1) {
                        None => Err(INVALID_VERSION@),
                        Some(i2) => match colon_after(b, i2 + 1) {
                            None => Err(INVALID_PAYLOAD@),
                            Some(i3) => Ok((k, b.subrange(i2 + 1, i3), b.subrange(i3 + 1, b.len() as int))),
                        },
                    }
                }
            },
        }
    }
}

/// Writes a frame: `ghl:<kind>:<version>:<payload>`.
pub fn create_frame(kind: FrameKind, version: &str, payload: &str) -> (frame: String)
    ensures
        frame@ == frame_text(kind, version@, payload@),
{
    let kind_str = match kind {
        FrameKind::Invite => INVITE_FRAME_KIND,
        FrameKind::Message => MESSAGE_FRAME_KIND,
    };
    let mut frame = ROOT_PREFIX.to_owned();
    frame.append(":");
    frame.append(kind_str);
    frame.append(":");
    frame.append(version);
    frame.append(":");
    frame.append(payload);
    frame
}

/// Reads a frame, checking its prefix and kind and splitting off its version
/// and payload.
pub fn parse_frame(frame: &str) -> (res: Result<Frame<'_>, String>)
    ensures
        res matches Ok(f) ==> spec_parse_frame(frame.spec_bytes()) == Ok::<_, Seq<char>>(
            (f.kind, f.version.spec_bytes(), f.payload.spec_bytes()),
        ),
        res matches Err(e) ==> spec_parse_frame(frame.spec_bytes()) == Err::<(FrameKind, Seq<u8>, Seq<u8>), _>(e@),
{
    let b = frame.as_bytes();
    let ghost bs = frame.spec_bytes();
    let n = b.len();
    let c1 = find_colon(b, 0);
    let prefix_end = match c1 {
        Some(i) => i,
        None => n,
    };
    if !bytes_equal(slice_subrange(b, 0, prefix_end), ROOT_PREFIX.as_bytes()) {
        return Err(INVALID_PREFIX.to_owned());
    }
    let i1 = match c1 {
        Some(i) => i,
        None => {
            return Err(INVALID_KIND.to_owned());
        },
    };
    let c2 = find_colon(b, i1 + 1);
    let kind_end = match c2 {
        Some(j) => j,
        None => n,
    };
    let kind_bytes = slice_subrange(b, i1 + 1, kind_end);
    let kind = if bytes_equal(kind_bytes, INVITE_FRAME_KIND.as_bytes()) {
        FrameKind::Invite
    } else if bytes_equal(kind_bytes, MESSAGE_FRAME_KIND.as_bytes()) {
        FrameKind::Message
    } else {
        return Err(INVALID_KIND.to_owned());
    };
    let i2 = match c2 {
        Some(j) => j,
        None => {
            return Err(INVALID_VERSION.to_owned());
        },
    };
    let c3 = find_colon(b, i2 + 1);
    let i3 = match c3 {
        Some(k) => k,
        None => {
            return Err(INVALID_PAYLOAD.to_owned());
        },
    };
    proof {
        assert(is_first_colon(bs, (i2 + 1) as int, i3 as int));
        assert(is_first_colon(bs, (i1 + 1) as int, i2 as int));
        lemma_ascii_byte_boundary(bs, i2 as int);
    }
    let (_, after_kind) = frame.split_at(i2);
    let (_, rest) = after_kind.split_at(1);
    proof {
        let r = rest.spec_bytes();
        assert(r =~= bs.subrange(i2 + 1, n as int));
        assert(r[(i3 - i2 - 1) as int] == bs[i3 as int]);
        lemma_ascii_byte_boundary(r, (i3 - i2 - 1) as int);
    }
    let (version, tail) = rest.split_at(i3 - i2 - 1);
    let (_, payload) = tail.split_at(1);
    proof {
        assert(version.spec_bytes() =~= bs.subrange(i2 + 1, i3 as int));
        assert(payload.spec_bytes() =~= bs.subrange(i3 + 1, n as int));
    }
    Ok(Frame { kind, version, payload })
}

} // verus!

verus! {

/// The fixed texts of a frame, character by character.
pub proof fn lemma_frame_literals()
    ensures
        ROOT_PREFIX@ == seq!['g', 'h', 'l'],
        ":"@ == seq![':'],
        INVITE_FRAME_KIND@ == seq!['i', 'n', 'v'],
        MESSAGE_FRAME_KIND@ == seq!['m', 's', 'g'],
        ROOT_PREFIX.spec_bytes() == seq![103u8, 104u8, 108u8],
        encode_utf8(":"@) == seq![58u8],
        INVITE_FRAME_KIND.spec_bytes() == seq![105u8, 110u8, 118u8],
        MESSAGE_FRAME_KIND.spec_bytes() == seq![109u8, 115u8, 103u8],
{
    reveal_strlit("ghl");
    reveal_strlit(":");
    reveal_strlit("inv");
    reveal_strlit("msg");
    assert(is_ascii_chars(ROOT_PREFIX@));
    assert(is_ascii_chars(":"@));
    assert(is_ascii_chars(INVITE_FRAME_KIND@));
    assert(is_ascii_chars(MESSAGE_FRAME_KIND@));
    assert(ROOT_PREFIX.spec_bytes() =~= seq![103u8, 104u8, 108u8]);
    assert(encode_utf8(":"@) =~= seq![58u8]);
    assert(INVITE_FRAME_KIND.spec_bytes() =~= seq![105u8, 110u8, 118u8]);
    assert(MESSAGE_FRAME_KIND.spec_bytes() =~= seq![109u8, 115u8, 103u8]);
}

/// Reading a frame gives back the kind, version and payload it was written
/// with, as long as the version holds no `:` (the payload may hold any text).
pub proof fn lemma_frame_roundtrip(kind: FrameKind, version: Seq<char>, payload: Seq<char>)
    requires
        forall|i: int| 0 <= i < version.len() ==> version[i] != ':',
    ensures
        spec_parse_frame(encode_utf8(frame_text(kind, version, payload))) == Ok::<_, Seq<char>>(
            (kind, encode_utf8(version), encode_utf8(payload)),
        ),
{
    lemma_frame_literals();
    lemma_encode_utf8_no_colon(version);
    let kb = encode_utf8(kind_text(kind));
    let ev = encode_utf8(version);
    let ep = encode_utf8(payload);
    let colon = ":"@;
    let t = frame_text(kind, version, payload);
    lemma_encode_utf8_concat(ROOT_PREFIX@, colon);
    lemma_encode_utf8_concat(ROOT_PREFIX@ + colon, kind_text(kind));
    lemma_encode_utf8_concat(ROOT_PREFIX@ + colon + kind_text(kind), colon);
    lemma_encode_utf8_concat(ROOT_PREFIX@ + colon + kind_text(kind) + colon, version);
    lemma_encode_utf8_concat(ROOT_PREFIX@ + colon + kind_text(kind) + colon + version, colon);
    lemma_encode_utf8_concat(ROOT_PREFIX@ + colon + kind_text(kind) + colon + version + colon, payload);
    let b = encode_utf8(t);
    assert(kb.len() == 3 && kb[0] != 58u8 && kb[1] != 58u8 && kb[2] != 58u8);
    assert(b =~= seq![103u8, 104u8, 108u8, 58u8] + kb + seq![58u8] + ev + seq![58u8] + ep);
    let n = b.len() as int;
    let lv = ev.len() as int;
    assert(is_first_colon(b, 0, 3));
    lemma_first_colon_unique(b, 0, 3);
    assert(b.subrange(0, 3) =~= ROOT_PREFIX.spec_bytes());
    assert(is_first_colon(b, 4, 7));
    lemma_first_colon_unique(b, 4, 7);
    assert(b.subrange(4, 7) =~= kb);
    assert(forall|k: int| 8 <= k < 8 + lv ==> b[k] == ev[k - 8]);
    assert(is_first_colon(b, 8, 8 + lv));
    lemma_first_colon_unique(b, 8, 8 + lv);
    assert(b.subrange(8, 8 + lv) =~= ev);
    assert(b.subrange(9 + lv, n) =~= ep);
}

} // verus!
