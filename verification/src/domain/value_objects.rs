//! Value objects of the domain.

pub mod timestamp;

use vstd::prelude::*;
use crate::domain::errors::DomainError;
use crate::text::push_char;
use sha2::Digest;

verus! {

/// SHA-256 of a byte sequence, as `sha2::Sha256` computes it.
pub uninterp spec fn sha256(data: Seq<u8>) -> Seq<u8>;

/// `sha2::Sha256::new()`, `update(data)`, `finalize()`: the digest of `data`.
/// The digest is named, not stated; that it has 32 bytes is the output size
/// of the algorithm (`U32` in the crate's types).
#[verifier::external_body]
fn sha256_digest(data: &[u8]) -> (d: Vec<u8>)
    ensures
        d@ == sha256(data@),
        d@.len() == 32,
{
    let mut hasher = sha2::Sha256::new();
    hasher.update(data);
    hasher.finalize().to_vec()
}

/// The lowercase hexadecimal digit for a value below 16.
pub open spec fn hex_char(v: int) -> char {
    if v < 10 {
        (('0' as int) + v) as char
    } else {
        (('a' as int) + v - 10) as char
    }
}

/// Lowercase hexadecimal text of a byte sequence: two digits per byte, the
/// high nibble first.
pub open spec fn hex_lower(bytes: Seq<u8>) -> Seq<char>
    decreases bytes.len(),
{
    if bytes.len() == 0 {
        Seq::empty()
    } else {
        seq![hex_char((bytes[0] / 16) as int), hex_char((bytes[0] % 16) as int)] + hex_lower(bytes.drop_first())
    }
}

/// `hex::encode`: for each byte, the lowercase digit of its high nibble and
/// then that of its low nibble (the table `0123456789abcdef`).
#[verifier::external_body]
fn hex_encode(data: &[u8]) -> (s: String)
    ensures
        s@ == hex_lower(data@),
{
    hex::encode(data)
}

/// Is `c` an ASCII hexadecimal digit (`char::is_ascii_hexdigit`)?
pub open spec fn is_hex_digit(c: char) -> bool {
    ||| '0' <= c <= '9'
    ||| 'a' <= c <= 'f'
    ||| 'A' <= c <= 'F'
}

/// Every character of `s` is an ASCII hexadecimal digit.
pub open spec fn all_hex_digits(s: Seq<char>) -> bool {
    forall|i: int| 0 <= i < s.len() ==> is_hex_digit(#[trigger] s[i])
}

/// The ASCII lowercase of a character (`'A'..='Z'` shifted, others kept).
pub open spec fn ascii_lower(c: char) -> char {
    if 'A' <= c <= 'Z' {
        ((c as int) + 32) as char
    } else {
        c
    }
}

/// The ASCII lowercase of a text.
pub open spec fn ascii_lowercase(s: Seq<char>) -> Seq<char> {
    Seq::new(s.len(), |i: int| ascii_lower(s[i]))
}

/// The content hash of a text: the lowercase hexadecimal SHA-256 of its
/// UTF-8 bytes.
pub open spec fn content_hash_of(content: Seq<char>) -> Seq<char> {
    hex_lower(sha256(vstd::utf8::encode_utf8(content)))
}

/// The content hash (SHA-256, lowercase hexadecimal) by which duplicates are
/// found.
#[derive(Debug, Clone, PartialEq, Eq, Hash)]
pub struct ContentHash(String);

impl View for ContentHash {
    type V = Seq<char>;

    closed spec fn view(&self) -> Seq<char> {
        self.0@
    }
}

fn hex_digit_check(c: char) -> (b: bool)
    ensures
        b == is_hex_digit(c),
{
    ('0' <= c && c <= '9') || ('a' <= c && c <= 'f') || ('A' <= c && c <= 'F')
}

fn lower_char(c: char) -> (r: char)
    ensures
        r == ascii_lower(c),
{
    if 'A' <= c && c <= 'Z' {
        let u: u32 = c as u32;
        let b: u8 = (u + 32) as u8;
        b as char
    } else {
        c
    }
}

impl ContentHash {
    /// The SHA-256 hash of the text content (of its UTF-8 bytes).
    pub fn compute(content: &str) -> (h: ContentHash)
        ensures
            h@ == content_hash_of(content@),
            h@.len() == 64,
    {
        let digest = sha256_digest(content.as_bytes());
        let text = hex_encode(digest.as_slice());
        proof {
            lemma_hex_lower_len(digest@);
        }
        ContentHash(text)
    }

    /// A hash from validated hexadecimal text: exactly 64 characters, all
    /// ASCII hexadecimal digits; the hash keeps them in lowercase.
    pub fn from_hex(hex_str: &str) -> (r: Result<ContentHash, DomainError>)
        ensures
            r is Ok <==> (hex_str@.len() == 64 && all_hex_digits(hex_str@)),
            r matches Ok(h) ==> h@ == ascii_lowercase(hex_str@),
            r matches Err(e) ==> e matches DomainError::InvalidHash(s) && s@ == hex_str@,
    {
        let chars = crate::text::chars_of(hex_str);
        let mut all_hex = true;
        let mut i: usize = 0;
        while i < chars.len()
            invariant
                chars@ == hex_str@,
                i <= chars.len(),
                all_hex <==> forall|j: int| 0 <= j < i ==> is_hex_digit(#[trigger] chars@[j]),
            decreases chars.len() - i,
        {
            if !hex_digit_check(chars[i]) {
                all_hex = false;
            }
            i = i + 1;
        }
        proof {
            if all_hex {
                assert(vstd::utf8::is_ascii_chars(hex_str@));
                vstd::utf8::is_ascii_chars_encode_utf8(hex_str@);
            }
        }
        if hex_str.len() != 64 || !all_hex {
            return Err(DomainError::InvalidHash(String::from_str(hex_str)));
        }
        let mut lower = String::new();
        let mut k: usize = 0;
        while k < chars.len()
            invariant
                chars@ == hex_str@,
                k <= chars.len(),
                lower@ == ascii_lowercase(hex_str@).take(k as int),
            decreases chars.len() - k,
        {
            push_char(&mut lower, lower_char(chars[k]));
            proof {
                assert(lower@ =~= ascii_lowercase(hex_str@).take(k + 1));
            }
            k = k + 1;
        }
        proof {
            assert(lower@ =~= ascii_lowercase(hex_str@));
        }
        Ok(ContentHash(lower))
    }

    /// The hash as text.
    pub fn as_str(&self) -> (s: &str)
        ensures
            s@ == self@,
    {
        self.0.as_str()
    }

    /// The hash as an owned text (what `Display` writes).
    pub fn to_string(&self) -> (s: String)
        ensures
            s@ == self@,
    {
        self.0.clone()
    }

    /// The hash's text, consuming the hash (`From<ContentHash> for String`).
    pub fn into_string(self) -> (s: String)
        ensures
            s@ == self@,
    {
        self.0
    }
}

impl From<ContentHash> for String {
    fn from(hash: ContentHash) -> (s: String) {
        hash.0
    }
}

impl vstd::std_specs::convert::FromSpecImpl<ContentHash> for String {
    open spec fn obeys_from_spec() -> bool {
        true
    }

    closed spec fn from_spec(hash: ContentHash) -> String {
        hash.0
    }
}

/// A hash is a function of the content alone: equal contents always give
/// equal hashes (`compute` is stable across calls).
pub proof fn law_hash_depends_on_content_only(a: ContentHash, b: ContentHash, ca: Seq<char>, cb: Seq<char>)
    requires
        a@ == content_hash_of(ca),
        b@ == content_hash_of(cb),
        ca == cb,
    ensures
        a@ == b@,
{
}

/// What `from_hex` accepted, read back through `from_hex`, is accepted
/// again and kept as it is: its hashes are already in canonical form.
pub proof fn law_from_hex_is_canonical(hash: ContentHash, text: Seq<char>)
    requires
        text.len() == 64,
        all_hex_digits(text),
        hash@ == ascii_lowercase(text),
    ensures
        hash@.len() == 64,
        all_hex_digits(hash@),
        ascii_lowercase(hash@) == hash@,
{
    assert forall|i: int| 0 <= i < hash@.len() implies is_hex_digit(#[trigger] hash@[i]) by {
        assert(hash@[i] == ascii_lower(text[i]));
        assert(is_hex_digit(text[i]));
    }
    assert(ascii_lowercase(hash@) =~= hash@);
}

/// Two hex digits per byte.
pub proof fn lemma_hex_lower_len(bytes: Seq<u8>)
    ensures
        hex_lower(bytes).len() == 2 * bytes.len(),
    decreases bytes.len(),
{
    if bytes.len() > 0 {
        lemma_hex_lower_len(bytes.drop_first());
    }
}

/// Hexadecimal text is made of lowercase hexadecimal digits.
pub proof fn lemma_hex_lower_digits(bytes: Seq<u8>)
    ensures
        all_hex_digits(hex_lower(bytes)),
        ascii_lowercase(hex_lower(bytes)) == hex_lower(bytes),
    decreases bytes.len(),
{
    if bytes.len() > 0 {
        lemma_hex_lower_digits(bytes.drop_first());
        let h = hex_lower(bytes);
        let head = seq![hex_char((bytes[0] / 16) as int), hex_char((bytes[0] % 16) as int)];
        let tail = hex_lower(bytes.drop_first());
        assert(h == head + tail);
        assert forall|i: int| 0 <= i < h.len() implies is_hex_digit(#[trigger] h[i]) by {
            if i >= 2 {
                assert(h[i] == tail[i - 2]);
            }
        }
        assert forall|i: int| 0 <= i < h.len() implies ascii_lower(#[trigger] h[i]) == h[i] by {
            if i >= 2 {
                assert(h[i] == tail[i - 2]);
                assert(ascii_lowercase(tail)[i - 2] == tail[i - 2]);
            }
        }
        assert(ascii_lowercase(h) =~= h);
    }
}

/// A computed hash is valid hexadecimal text that `from_hex` accepts and
/// gives back unchanged: `from_hex(compute(c).as_str()) == Ok(compute(c))`.
pub proof fn law_from_hex_accepts_computed_hash(hash: ContentHash, content: Seq<char>)
    requires
        hash@ == content_hash_of(content),
        hash@.len() == 64,
    ensures
        all_hex_digits(hash@),
        ascii_lowercase(hash@) == hash@,
{
    lemma_hex_lower_digits(sha256(vstd::utf8::encode_utf8(content)));
}

} // verus!
