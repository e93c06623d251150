//! Preparing query text: the fallback for a missing query, trimming, and the
//! hex digest that names a rendering in a cache.
use vstd::prelude::*;
use vstd::string::StringSliceAdditionalSpecFns;
use sha2::Digest;

verus! {

/// A character with the Unicode `White_Space` property, the set that
/// `char::is_whitespace` tests.
pub open spec fn is_white_space(c: char) -> bool {
    let u = c as u32;
    (0x9 <= u && u <= 0xd) || u == 0x20 || u == 0x85 || u == 0xa0 || u == 0x1680 || (0x2000 <= u
        && u <= 0x200a) || u == 0x2028 || u == 0x2029 || u == 0x202f || u == 0x205f || u == 0x3000
}

/// Text made of whitespace alone, the empty text included.
pub open spec fn is_blank(s: Seq<char>) -> bool {
    forall|k: int| 0 <= k < s.len() ==> is_white_space(#[trigger] s[k])
}

/// `r` is `s` with its leading and trailing whitespace cut off: a contiguous
/// part of `s`, all that is cut off is whitespace, and `r` neither starts
/// nor ends with whitespace.
pub open spec fn is_trim_of(s: Seq<char>, r: Seq<char>) -> bool {
    &&& exists|i: int, j: int|
        0 <= i <= j <= s.len() && r == s.subrange(i, j) && (forall|k: int|
            0 <= k < i ==> is_white_space(#[trigger] s[k])) && (forall|k: int|
            j <= k < s.len() ==> is_white_space(#[trigger] s[k]))
    &&& r.len() == 0 || (!is_white_space(r[0]) && !is_white_space(r.last()))
}

/// Tells whether `c` is whitespace.
pub fn is_space(c: char) -> (r: bool)
    ensures
        r == is_white_space(c),
{
    let u = c as u32;
    (0x9 <= u && u <= 0xd) || u == 0x20 || u == 0x85 || u == 0xa0 || u == 0x1680 || (0x2000 <= u
        && u <= 0x200a) || u == 0x2028 || u == 0x2029 || u == 0x202f || u == 0x205f || u == 0x3000
}

/// Relies on `str::chars`: the characters of the text, in order.
#[verifier::external_body]
pub(crate) fn chars_of(s: &str) -> (r: Vec<char>)
    ensures
        r@ == s@,
{
    s.chars().collect()
}

/// Relies on `str::trim`: the text without leading and trailing whitespace
/// as `char::is_whitespace` defines it.
#[verifier::external_body]
fn trim(s: &str) -> (r: &str)
    ensures
        is_trim_of(s@, r@),
{
    s.trim()
}

/// Text with surrounding whitespace removed.
pub fn normalize_text(text: &str) -> (r: &str)
    ensures
        is_trim_of(text@, r@),
{
    trim(text)
}

/// The query value when it is present and not empty, else `"pigeon"`.
pub open spec fn query_or_default(q: Option<&str>) -> Seq<char> {
    match q {
        Some(s) => if s@.len() > 0 {
            s@
        } else {
            "pigeon"@
        },
        None => "pigeon"@,
    }
}

/// The text to render for an optional query value: the value when it is
/// present and not empty, else `"pigeon"`; trimmed either way.
pub fn query_text<'a>(q: Option<&'a str>) -> (r: &'a str)
    ensures
        is_trim_of(query_or_default(q), r@),
{
    match q {
        Some(s) => if !s.is_empty() {
            normalize_text(s)
        } else {
            normalize_text("pigeon")
        },
        None => normalize_text("pigeon"),
    }
}

/// The SHA-256 digest of `data`.
pub uninterp spec fn sha256_of(data: Seq<u8>) -> Seq<u8>;

/// Relies on `sha2::Sha256::digest`: the digest of the bytes, 32 bytes long.
#[verifier::external_body]
fn sha256(data: &[u8]) -> (r: Vec<u8>)
    ensures
        r@ == sha256_of(data@),
        r@.len() == 32,
{
    sha2::Sha256::digest(data).to_vec()
}

/// Lower-case hexadecimal digit for a value below 16.
pub open spec fn hex_digit(v: int) -> char {
    if v < 10 {
        (v + 48) as char
    } else {
        (v + 87) as char
    }
}

/// Two lower-case hexadecimal digits for each byte, high nibble first.
pub open spec fn hex_of(b: Seq<u8>) -> Seq<char> {
    Seq::new(
        2 * b.len(),
        |k: int|
            if k % 2 == 0 {
                hex_digit(b[k / 2] as int / 16)
            } else {
                hex_digit(b[k / 2] as int % 16)
            },
    )
}

/// Relies on `String: FromIterator<char>`: the characters in order.
#[verifier::external_body]
fn chars_to_string(v: Vec<char>) -> (r: String)
    ensures
        r@ == v@,
{
    v.into_iter().collect()
}

fn hex_char(v: u8) -> (r: char)
    requires
        v < 16,
    ensures
        r == hex_digit(v as int),
{
    if v < 10 {
        (v + 48) as char
    } else {
        (v + 87) as char
    }
}

/// The cache key of a text: the lower-case hex form of the SHA-256 digest
/// of its UTF-8 bytes.
pub fn cache_key(text: &str) -> (r: String)
    ensures
        r@ == hex_of(sha256_of(text.spec_bytes())),
        r@.len() == 64,
{
    let digest = sha256(text.as_bytes());
    let mut out: Vec<char> = Vec::new();
    let mut k: usize = 0;
    while k < digest.len()
        invariant
            k <= digest@.len(),
            digest@.len() == 32,
            out@ == hex_of(digest@.take(k as int)),
        decreases digest@.len() - k,
    {
        let b = digest[k];
        out.push(hex_char(b / 16));
        out.push(hex_char(b % 16));
        k = k + 1;
        assert(out@ =~= hex_of(digest@.take(k as int)));
    }
    assert(digest@.take(k as int) =~= digest@);
    chars_to_string(out)
}

} // verus!
