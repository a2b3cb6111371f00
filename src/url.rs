//! Percent-encoding and decoding of text.
use crate::text::is_ascii_char;
use vstd::prelude::*;

verus! {

/// Which way the text is converted.
#[derive(Clone, Copy, Debug, PartialEq, Eq, Structural)]
pub enum Direction {
    Encode,
    Decode,
}

/// Why a decode fails.
#[derive(Clone, Copy, Debug, PartialEq, Eq, Structural)]
pub enum UrlError {
    /// A `%` not followed by two hexadecimal digits.
    MalformedEscape,
    /// The decoded bytes are not UTF-8.
    InvalidUtf8,
}

/// What `urlencoding::encode` makes of a text.
pub uninterp spec fn url_encoded(s: Seq<char>) -> Seq<char>;

/// What `urlencoding::decode` makes of a text: `None` where the decoded
/// bytes are not UTF-8.
pub uninterp spec fn url_decoded(s: Seq<char>) -> Option<Seq<char>>;

/// A character that encoding leaves as it is: an ASCII letter or digit, or
/// one of `-_.~`.
pub open spec fn is_unreserved(c: char) -> bool {
    ('0' <= c && c <= '9') || ('a' <= c && c <= 'z') || ('A' <= c && c <= 'Z') || c == '-' || c
        == '_' || c == '.' || c == '~'
}

/// The upper-case hexadecimal digit of `d`, below 16.
pub open spec fn hex_upper(d: int) -> char {
    "0123456789ABCDEF"@[d]
}

/// The encoding of one ASCII character.
pub open spec fn ascii_char_encoded(c: char) -> Seq<char> {
    if is_unreserved(c) {
        seq![c]
    } else {
        seq!['%', hex_upper((c as u32) as int / 16), hex_upper((c as u32) as int % 16)]
    }
}

/// The encoding of an ASCII text, character by character.
pub open spec fn ascii_encoded(s: Seq<char>) -> Seq<char>
    decreases s.len(),
{
    if s.len() == 0 {
        Seq::empty()
    } else {
        ascii_char_encoded(s[0]) + ascii_encoded(s.drop_first())
    }
}

pub open spec fn is_hex_digit(c: char) -> bool {
    ('0' <= c && c <= '9') || ('a' <= c && c <= 'f') || ('A' <= c && c <= 'F')
}

/// Every `%` of `s` starts an escape `%XY` with two hexadecimal digits.
pub open spec fn escapes_well_formed(s: Seq<char>) -> bool {
    forall|i: int|
        0 <= i < s.len() && #[trigger] s[i] == '%' ==> i + 2 < s.len() && is_hex_digit(s[i + 1])
            && is_hex_digit(s[i + 2])
}

/// The result of converting `text` in direction `d`.
pub open spec fn converted(text: Seq<char>, d: Direction) -> Result<Seq<char>, UrlError> {
    match d {
        Direction::Encode => Ok(url_encoded(text)),
        Direction::Decode => if !escapes_well_formed(text) {
            Err(UrlError::MalformedEscape)
        } else {
            match url_decoded(text) {
                Some(t) => Ok(t),
                None => Err(UrlError::InvalidUtf8),
            }
        },
    }
}

/// Relies on `urlencoding::encode`: every byte but ASCII letters, digits
/// and `-_.~` is written as `%XX` with upper-case digits; the result
/// depends on the text alone.
#[verifier::external_body]
fn encode_text(s: &str) -> (r: String)
    ensures
        r@ == url_encoded(s@),
        (forall|i: int| 0 <= i < s@.len() ==> is_ascii_char(#[trigger] s@[i])) ==> r@
            == ascii_encoded(s@),
{
    urlencoding::encode(s).into_owned()
}

/// Relies on `urlencoding::decode`: it fails only where the decoded bytes
/// are not UTF-8; the result depends on the text alone.
#[verifier::external_body]
fn decode_text(s: &str) -> (r: Option<String>)
    ensures
        r is Some <==> url_decoded(s@) is Some,
        r is Some ==> url_decoded(s@) == Some(r->Some_0@),
{
    match urlencoding::decode(s) {
        Ok(t) => Some(t.into_owned()),
        Err(_) => None,
    }
}

fn is_hex_char(c: char) -> (r: bool)
    ensures
        r == is_hex_digit(c),
{
    ('0' <= c && c <= '9') || ('a' <= c && c <= 'f') || ('A' <= c && c <= 'F')
}

/// Tells whether every `%` in `s` is followed by two hexadecimal digits.
pub fn check_escapes(s: &str) -> (r: bool)
    ensures
        r == escapes_well_formed(s@),
{
    let n = s.unicode_len();
    let mut i: usize = 0;
    while i < n
        invariant
            n == s@.len(),
            i <= n,
            forall|j: int|
                0 <= j < i && #[trigger] s@[j] == '%' ==> j + 2 < s@.len() && is_hex_digit(
                    s@[j + 1],
                ) && is_hex_digit(s@[j + 2]),
        decreases n - i,
    {
        if s.get_char(i) == '%' {
            if n - i <= 2 || !is_hex_char(s.get_char(i + 1)) || !is_hex_char(s.get_char(i + 2)) {
                assert(s@[i as int] == '%');
                return false;
            }
        }
        i = i + 1;
    }
    true
}

/// A text and the direction in which to convert it.
pub struct UrlCommand {
    pub text: String,
    pub direction: Direction,
}

impl UrlCommand {
    pub fn new(text: &str, direction: Direction) -> (r: UrlCommand)
        ensures
            r.text@ == text@,
            r.direction == direction,
    {
        UrlCommand { text: String::from_str(text), direction }
    }

    /// Encodes or decodes the text. A decode fails on a malformed escape
    /// before anything is decoded, and on bytes that are not UTF-8.
    pub fn run(&self) -> (r: Result<String, UrlError>)
        ensures
            match (r, converted(self.text@, self.direction)) {
                (Ok(t), Ok(u)) => t@ == u,
                (Err(e), Err(f)) => e == f,
                _ => false,
            },
            self.direction == Direction::Encode && (forall|i: int|
                0 <= i < self.text@.len() ==> is_ascii_char(#[trigger] self.text@[i])) ==> r is Ok
                && r->Ok_0@ == ascii_encoded(self.text@),
    {
        match self.direction {
            Direction::Encode => Ok(encode_text(self.text.as_str())),
            Direction::Decode => {
                if !check_escapes(self.text.as_str()) {
                    return Err(UrlError::MalformedEscape);
                }
                match decode_text(self.text.as_str()) {
                    Some(t) => Ok(t),
                    None => Err(UrlError::InvalidUtf8),
                }
            },
        }
    }
}

} // verus!
