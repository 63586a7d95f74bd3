//! Facts about text: the UTF-8 bytes of strings, byte comparisons and the
//! decimal rendering of counts used in user facing messages.
use vstd::prelude::*;
use vstd::utf8::*;

verus! {

/// The UTF-8 encoding of a concatenation is the concatenation of the encodings.
pub proof fn lemma_encode_utf8_concat(a: Seq<char>, b: Seq<char>)
    ensures
        encode_utf8(a + b) == encode_utf8(a) + encode_utf8(b),
    decreases a.len(),
{
    if a.len() == 0 {
        assert(a + b =~= b);
        assert(encode_utf8(a) + encode_utf8(b) =~= encode_utf8(b));
    } else {
        assert((a + b).drop_first() =~= a.drop_first() + b);
        lemma_encode_utf8_concat(a.drop_first(), b);
        assert(encode_utf8(a + b) =~= encode_scalar(a[0] as u32) + encode_utf8(a.drop_first() + b));
        assert(encode_utf8(a) + encode_utf8(b) =~= encode_scalar(a[0] as u32) + (encode_utf8(a.drop_first()) + encode_utf8(b)));
    }
}

/// Two strings are equal exactly when their UTF-8 encodings are.
pub proof fn lemma_encode_utf8_injective(a: Seq<char>, b: Seq<char>)
    ensures
        encode_utf8(a) == encode_utf8(b) <==> a == b,
{
    broadcast use encode_utf8_decode_utf8;
    if encode_utf8(a) == encode_utf8(b) {
        assert(decode_utf8(encode_utf8(a)) == decode_utf8(encode_utf8(b)));
    }
}

/// Compares two byte slices.
pub fn bytes_equal(a: &[u8], b: &[u8]) -> (eq: bool)
    ensures
        eq == (a@ == b@),
{
    if a.len() != b.len() {
        return false;
    }
    let n = a.len();
    let mut i: usize = 0;
    while i < n
        invariant
            n == a@.len(),
            n == b@.len(),
            i <= n,
            forall|k: int| 0 <= k < i ==> a@[k] == b@[k],
        decreases n - i,
    {
        if a[i] != b[i] {
            return false;
        }
        i = i + 1;
    }
    assert(a@ =~= b@);
    true
}

/// Compares two strings.
pub fn str_equal(a: &str, b: &str) -> (eq: bool)
    ensures
        eq == (a@ == b@),
{
    let eq = bytes_equal(a.as_bytes(), b.as_bytes());
    proof {
        lemma_encode_utf8_injective(a@, b@);
    }
    eq
}

} // verus!

verus! {

/// The byte value of `:`, the field separator of frames.
pub open spec fn colon_byte() -> u8 {
    58u8
}

/// `i` is the first `:` byte at or after `from`.
pub open spec fn is_first_colon(bytes: Seq<u8>, from: int, i: int) -> bool {
    &&& from <= i < bytes.len()
    &&& bytes[i] == colon_byte()
    &&& forall|k: int| from <= k < i ==> bytes[k] != colon_byte()
}

/// The position of the first `:` byte at or after `from`, if there is one.
pub open spec fn colon_after(bytes: Seq<u8>, from: int) -> Option<int> {
    if exists|i: int| is_first_colon(bytes, from, i) {
        Some(choose|i: int| is_first_colon(bytes, from, i))
    } else {
        None
    }
}

/// Where the field that starts at `from` ends: at the next `:` or at the end.
pub open spec fn field_end(bytes: Seq<u8>, from: int) -> int {
    match colon_after(bytes, from) {
        Some(i) => i,
        None => bytes.len() as int,
    }
}

/// There is only one first `:` after a position.
pub proof fn lemma_first_colon_unique(bytes: Seq<u8>, from: int, i: int)
    requires
        is_first_colon(bytes, from, i),
    ensures
        colon_after(bytes, from) == Some(i),
{
    let j = choose|j: int| is_first_colon(bytes, from, j);
    assert(is_first_colon(bytes, from, j));
    if j < i {
        assert(bytes[j] != colon_byte());
    } else if i < j {
        assert(bytes[i] != colon_byte());
    }
}

/// When no `:` follows a position, there is no first one.
pub proof fn lemma_no_colon(bytes: Seq<u8>, from: int)
    requires
        forall|k: int| from <= k < bytes.len() ==> bytes[k] != colon_byte(),
    ensures
        colon_after(bytes, from) is None,
{
}

/// Finds the first `:` byte at or after `from`.
pub fn find_colon(bytes: &[u8], from: usize) -> (found: Option<usize>)
    ensures
        found matches Some(i) ==> colon_after(bytes@, from as int) == Some(i as int),
        found is None ==> colon_after(bytes@, from as int) is None,
{
    let n = bytes.len();
    let mut i = from;
    while i < n
        invariant
            n == bytes@.len(),
            from <= i,
            forall|k: int| from <= k < i && k < n ==> bytes@[k] != colon_byte(),
        decreases n - i,
    {
        if bytes[i] == 58u8 {
            proof {
                lemma_first_colon_unique(bytes@, from as int, i as int);
            }
            return Some(i);
        }
        i = i + 1;
    }
    proof {
        lemma_no_colon(bytes@, from as int);
    }
    None
}

/// No byte of the UTF-8 encoding of a text without `:` is the `:` byte.
pub proof fn lemma_encode_utf8_no_colon(s: Seq<char>)
    requires
        forall|i: int| 0 <= i < s.len() ==> s[i] != ':',
    ensures
        forall|i: int| 0 <= i < encode_utf8(s).len() ==> encode_utf8(s)[i] != colon_byte(),
    decreases s.len(),
{
    if s.len() > 0 {
        let rest = s.drop_first();
        lemma_encode_utf8_no_colon(rest);
        let c = s[0] as u32;
        let head = encode_scalar(c);
        assert(encode_utf8(s) == head + encode_utf8(rest));
        assert(c != 58u32) by {
            if c == 58u32 {
                assert((':' as u32) == 58u32);
                char_u32_cast(s[0], c);
                char_u32_cast(':', c);
                assert(s[0] == ':');
            }
        }
        assert forall|k: int| 0 <= k < head.len() implies head[k] != colon_byte() by {
            if has_width_1_encoding(c) {
                assert((c & 0x7F) as u8 != 58u8) by (bit_vector)
                    requires c <= 0x7F, c != 58u32;
            } else {
                assert(0xC0u8 | ((c >> 6) & 0x1F) as u8 != 58u8) by (bit_vector);
                assert(0xE0u8 | ((c >> 12) & 0x0F) as u8 != 58u8) by (bit_vector);
                assert(0xF0u8 | ((c >> 18) & 0x7) as u8 != 58u8) by (bit_vector);
                assert(0x80u8 | (c & 0x3F) as u8 != 58u8) by (bit_vector);
                assert(0x80u8 | ((c >> 6) & 0x3F) as u8 != 58u8) by (bit_vector);
                assert(0x80u8 | ((c >> 12) & 0x3F) as u8 != 58u8) by (bit_vector);
            }
        }
        assert forall|i: int| 0 <= i < encode_utf8(s).len() implies encode_utf8(s)[i] != colon_byte() by {
            if i < head.len() {
                assert(encode_utf8(s)[i] == head[i]);
            } else {
                assert(encode_utf8(s)[i] == encode_utf8(rest)[i - head.len()]);
            }
        }
    }
}

/// Every position in the bytes of an ASCII text is a character boundary.
pub proof fn lemma_ascii_boundary(s: Seq<char>, i: int)
    requires
        is_ascii_chars(s),
        0 <= i <= s.len(),
    ensures
        encode_utf8(s).len() == s.len(),
        is_char_boundary(encode_utf8(s), i),
{
    broadcast use is_ascii_chars_encode_utf8, encode_utf8_valid_utf8;
    let b = encode_utf8(s);
    if i == s.len() {
        is_char_boundary_start_end_of_seq(b);
    } else {
        is_char_boundary_iff_not_is_continuation_byte(b, i);
        assert(s[i] as u8 == b[i]);
        let x = b[i];
        assert((s[i] as u32) < 128);
        assert(x < 128);
        assert(!is_continuation_byte(x)) by (bit_vector)
            requires x < 128u8;
    }
}

/// A position holding an ASCII byte is a character boundary, and so is the
/// position right after it.
pub proof fn lemma_ascii_byte_boundary(bytes: Seq<u8>, i: int)
    requires
        valid_utf8(bytes),
        0 <= i < bytes.len(),
        bytes[i] < 128,
    ensures
        is_char_boundary(bytes, i),
        valid_utf8(bytes.subrange(i, bytes.len() as int)),
        is_char_boundary(bytes.subrange(i, bytes.len() as int), 1),
{
    let x = bytes[i];
    assert(!is_continuation_byte(x)) by (bit_vector)
        requires x < 128u8;
    is_char_boundary_iff_not_is_continuation_byte(bytes, i);
    valid_utf8_split(bytes, i);
    let rest = bytes.subrange(i, bytes.len() as int);
    assert(rest[0] == x);
    assert(is_leading_byte_width_1(x)) by (bit_vector)
        requires x < 128u8;
    reveal_with_fuel(is_char_boundary, 2);
}

} // verus!

verus! {

/// The decimal digit for `d`, for `d` below ten.
pub open spec fn digit_char(d: nat) -> char {
    seq!['0', '1', '2', '3', '4', '5', '6', '7', '8', '9'][d as int]
}

/// The decimal rendering of a count, without leading zeros.
pub open spec fn decimal(n: nat) -> Seq<char>
    decreases n,
{
    if n < 10 {
        seq![digit_char(n)]
    } else {
        decimal(n / 10) + seq![digit_char(n % 10)]
    }
}

fn digit_text(d: usize) -> (t: &'static str)
    requires
        d < 10,
    ensures
        t@ == seq![digit_char(d as nat)],
{
    match d {
        0 => {
            proof { reveal_strlit("0"); }
            "0"
        },
        1 => {
            proof { reveal_strlit("1"); }
            "1"
        },
        2 => {
            proof { reveal_strlit("2"); }
            "2"
        },
        3 => {
            proof { reveal_strlit("3"); }
            "3"
        },
        4 => {
            proof { reveal_strlit("4"); }
            "4"
        },
        5 => {
            proof { reveal_strlit("5"); }
            "5"
        },
        6 => {
            proof { reveal_strlit("6"); }
            "6"
        },
        7 => {
            proof { reveal_strlit("7"); }
            "7"
        },
        8 => {
            proof { reveal_strlit("8"); }
            "8"
        },
        _ => {
            proof { reveal_strlit("9"); }
            "9"
        },
    }
}

/// Writes a count in decimal, as `format!("{}", n)` does.
pub fn decimal_text(n: usize) -> (text: String)
    ensures
        text@ == decimal(n as nat),
    decreases n,
{
    if n < 10 {
        digit_text(n).to_owned()
    } else {
        let mut text = decimal_text(n / 10);
        text.append(digit_text(n % 10));
        text
    }
}

/// Joins three pieces of text into a new string.
pub fn join3(a: &str, b: &str, c: &str) -> (text: String)
    ensures
        text@ == a@ + b@ + c@,
{
    let mut text = a.to_owned();
    text.append(b);
    text.append(c);
    text
}

} // verus!

verus! {

/// A character with the Unicode property `White_Space`, which is what
/// `char::is_whitespace` tests.
pub open spec fn is_white_space(c: char) -> bool {
    let u = c as u32;
    ||| 0x9 <= u <= 0xD
    ||| u == 0x20
    ||| u == 0x85
    ||| u == 0xA0
    ||| u == 0x1680
    ||| 0x2000 <= u <= 0x200A
    ||| u == 0x2028
    ||| u == 0x2029
    ||| u == 0x202F
    ||| u == 0x205F
    ||| u == 0x3000
}

/// A text without its leading white space.
pub open spec fn trim_start_chars(text: Seq<char>) -> Seq<char>
    decreases text.len(),
{
    if text.len() > 0 && is_white_space(text[0]) {
        trim_start_chars(text.drop_first())
    } else {
        text
    }
}

/// A text without its trailing white space.
pub open spec fn trim_end_chars(text: Seq<char>) -> Seq<char>
    decreases text.len(),
{
    if text.len() > 0 && is_white_space(text.last()) {
        trim_end_chars(text.drop_last())
    } else {
        text
    }
}

/// What `str::trim` returns for a text: the text without leading and
/// trailing white space.
pub open spec fn trimmed(text: Seq<char>) -> Seq<char> {
    trim_end_chars(trim_start_chars(text))
}

/// Calls `str::trim`.
///
/// Trusted: as its documentation says, the result is the text with leading
/// and trailing white space (the Unicode property `White_Space`) removed.
#[verifier::external_body]
pub(crate) fn trim_str<'a>(text: &'a str) -> (t: &'a str)
    ensures
        t@ == trimmed(text@),
{
    text.trim()
}

/// A text that is empty or only white space.
pub open spec fn is_blank(text: Seq<char>) -> bool {
    text.len() == 0 || trimmed(text).len() == 0
}

/// Leading white space is all of a text exactly when the text is all white
/// space; otherwise what is left starts with a character that is not.
proof fn lemma_trim_start(text: Seq<char>)
    ensures
        trim_start_chars(text).len() == 0 <==> forall|i: int| 0 <= i < text.len() ==> is_white_space(#[trigger] text[i]),
        trim_start_chars(text).len() > 0 ==> !is_white_space(trim_start_chars(text)[0]),
    decreases text.len(),
{
    if text.len() > 0 && is_white_space(text[0]) {
        let rest = text.drop_first();
        lemma_trim_start(rest);
        assert forall|i: int| 0 <= i < rest.len() implies rest[i] == text[i + 1] by {}
        if forall|i: int| 0 <= i < rest.len() ==> is_white_space(#[trigger] rest[i]) {
            assert forall|i: int| 0 <= i < text.len() implies is_white_space(#[trigger] text[i]) by {
                if i > 0 {
                    assert(text[i] == rest[i - 1]);
                }
            }
        }
    }
}

/// Trailing white space never takes a first character that is not white
/// space.
proof fn lemma_trim_end_keeps_start(text: Seq<char>)
    requires
        text.len() > 0,
        !is_white_space(text[0]),
    ensures
        trim_end_chars(text).len() > 0,
    decreases text.len(),
{
    if is_white_space(text.last()) {
        let rest = text.drop_last();
        assert(rest[0] == text[0]);
        lemma_trim_end_keeps_start(rest);
    }
}

/// A text is blank exactly when every character of it is white space.
pub proof fn lemma_blank_is_white_space(text: Seq<char>)
    ensures
        is_blank(text) <==> forall|i: int| 0 <= i < text.len() ==> is_white_space(#[trigger] text[i]),
{
    lemma_trim_start(text);
    let start = trim_start_chars(text);
    if start.len() > 0 {
        lemma_trim_end_keeps_start(start);
    }
}

/// Whether a text is empty or only white space (`text.trim().is_empty()`;
/// an empty text trims to itself).
pub fn blank(text: &str) -> (b: bool)
    ensures
        b == is_blank(text@),
{
    text.is_empty() || trim_str(text).is_empty()
}

/// The text of an optional borrowed string.
pub open spec fn opt_str(o: Option<&str>) -> Option<Seq<char>> {
    match o {
        Some(s) => Some(s@),
        None => None,
    }
}

/// The text of an optional owned string.
pub open spec fn opt_string(o: Option<String>) -> Option<Seq<char>> {
    match o {
        Some(s) => Some(s@),
        None => None,
    }
}

} // verus!

verus! {

/// The bytes of an optional byte vector.
pub open spec fn opt_bytes(o: Option<Vec<u8>>) -> Option<Seq<u8>> {
    match o {
        Some(v) => Some(v@),
        None => None,
    }
}

} // verus!

verus! {

/// In the bytes of a concatenation, the place where the first text ends is a
/// character boundary.
pub proof fn lemma_encode_boundary(a: Seq<char>, b: Seq<char>)
    ensures
        is_char_boundary(encode_utf8(a + b), encode_utf8(a).len() as int),
    decreases a.len(),
{
    broadcast use encode_utf8_valid_utf8;
    lemma_encode_utf8_concat(a, b);
    if a.len() > 0 {
        let s = a + b;
        let bytes = encode_utf8(s);
        encode_utf8_first_scalar(s);
        assert(pop_first_scalar(bytes) =~= encode_utf8(s.drop_first()));
        assert(s.drop_first() =~= a.drop_first() + b);
        assert(s[0] == a[0]);
        assert(encode_utf8(a).len() == encode_scalar(a[0] as u32).len() + encode_utf8(a.drop_first()).len());
        lemma_encode_boundary(a.drop_first(), b);
    }
}

} // verus!

verus! {

/// Calls `String::from_utf8` and keeps the string, dropping the error.
///
/// Trusted: as its documentation says, it succeeds exactly on valid UTF-8,
/// and the string then holds those bytes.
#[verifier::external_body]
pub(crate) fn string_from_utf8(bytes: Vec<u8>) -> (text: Option<String>)
    ensures
        text is Some <==> valid_utf8(bytes@),
        text matches Some(t) ==> encode_utf8(t@) == bytes@,
{
    String::from_utf8(bytes).ok()
}

} // verus!

verus! {

/// What `str::to_lowercase` returns for a text.
pub uninterp spec fn lowercased(text: Seq<char>) -> Seq<char>;

/// Calls `str::to_lowercase`.
///
/// Trusted: the result is the named lowercase form of the text; nothing else
/// is stated of it.
#[verifier::external_body]
pub(crate) fn to_lowercase(text: &str) -> (lower: String)
    ensures
        lower@ == lowercased(text@),
{
    text.to_lowercase()
}

/// The first `n` characters of a text, or all of it when it is shorter.
pub fn first_chars(text: &str, n: usize) -> (prefix: String)
    ensures
        prefix@ == text@.subrange(0, if text@.len() < n { text@.len() as int } else { n as int }),
{
    let len = text.unicode_len();
    let end = if len < n { len } else { n };
    text.substring_char(0, end).to_owned()
}

} // verus!
