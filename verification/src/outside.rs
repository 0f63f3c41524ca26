//! Calls into outside crates, each behind a contract that the crate's
//! source or documentation gives.
use vstd::prelude::*;
use vstd::utf8::encode_utf8;
use base64::Engine;
use crate::auth::UtcTime;

verus! {

// ---------------------------------------------------------------------------
// Percent-encoding (`urlencoding::encode`)
// ---------------------------------------------------------------------------

/// Bytes that `urlencoding` leaves as they are: ASCII letters, digits, `-`, `.`, `_`, `~`.
pub open spec fn is_unreserved_byte(b: u8) -> bool {
    ||| (48 <= b && b <= 57)
    ||| (65 <= b && b <= 90)
    ||| (97 <= b && b <= 122)
    ||| b == 45 || b == 46 || b == 95 || b == 126
}

/// Upper-case hexadecimal digit for `d < 16`.
pub open spec fn hex_upper(d: int) -> char {
    if d < 10 {
        (48 + d) as char
    } else {
        (55 + d) as char
    }
}

/// Percent-encoding of a byte string: unreserved bytes stay, every other byte
/// becomes `%` and two upper-case hex digits.
pub open spec fn percent_encode(bytes: Seq<u8>) -> Seq<char>
    decreases bytes.len(),
{
    if bytes.len() == 0 {
        seq![]
    } else {
        let b: u8 = bytes[0];
        let head = if is_unreserved_byte(b) {
            seq![b as char]
        } else {
            seq!['%', hex_upper(b as int / 16), hex_upper(b as int % 16)]
        };
        head + percent_encode(bytes.drop_first())
    }
}

/// The percent-encoding of the UTF-8 bytes of a text.
pub open spec fn url_encoded(s: Seq<char>) -> Seq<char> {
    percent_encode(encode_utf8(s))
}

/// `urlencoding::encode`: percent-encodes every byte of the UTF-8 encoding of
/// `s` except ASCII alphanumerics and `-`, `_`, `.`, `~` (its documentation and
/// `encode_into`, which writes `%` and two upper-case hex digits per byte).
#[verifier::external_body]
pub(crate) fn url_encode(s: &str) -> (r: String)
    ensures
        r@ == url_encoded(s@),
{
    urlencoding::encode(s).into_owned()
}

// ---------------------------------------------------------------------------
// Base64, URL-safe alphabet, no padding (`base64::engine::general_purpose::URL_SAFE_NO_PAD`)
// ---------------------------------------------------------------------------

/// The URL-safe base64 alphabet: `A-Z`, `a-z`, `0-9`, `-`, `_`.
pub open spec fn b64_char(v: int) -> char {
    if v < 26 {
        (65 + v) as char
    } else if v < 52 {
        (97 + v - 26) as char
    } else if v < 62 {
        (48 + v - 52) as char
    } else if v == 62 {
        '-'
    } else {
        '_'
    }
}

/// Base64 with the URL-safe alphabet and no `=` padding: each group of three
/// bytes gives four characters, a final group of one or two bytes gives two or
/// three characters whose unused low bits are zero.
pub open spec fn base64_url_nopad(b: Seq<u8>) -> Seq<char>
    decreases b.len(),
{
    if b.len() == 0 {
        seq![]
    } else if b.len() == 1 {
        seq![b64_char(b[0] as int / 4), b64_char((b[0] as int % 4) * 16)]
    } else if b.len() == 2 {
        seq![
            b64_char(b[0] as int / 4),
            b64_char((b[0] as int % 4) * 16 + b[1] as int / 16),
            b64_char((b[1] as int % 16) * 4),
        ]
    } else {
        seq![
            b64_char(b[0] as int / 4),
            b64_char((b[0] as int % 4) * 16 + b[1] as int / 16),
            b64_char((b[1] as int % 16) * 4 + b[2] as int / 64),
            b64_char(b[2] as int % 64),
        ] + base64_url_nopad(b.skip(3))
    }
}

/// `URL_SAFE_NO_PAD.encode`: URL-safe base64 without padding.
#[verifier::external_body]
pub(crate) fn base64_url_encode(bytes: &[u8]) -> (r: String)
    ensures
        r@ == base64_url_nopad(bytes@),
{
    base64::engine::general_purpose::URL_SAFE_NO_PAD.encode(bytes)
}

/// `URL_SAFE_NO_PAD.decode`. That engine's configuration (`NO_PAD`) refuses
/// padding (`DecodePaddingMode::RequireNone`) and non-zero trailing bits
/// (`decode_allow_trailing_bits` is `false`), so it accepts exactly the texts
/// that are the encoding of some byte string, and gives that byte string.
#[verifier::external_body]
pub(crate) fn base64_url_decode(text: &str) -> (r: Option<Vec<u8>>)
    ensures
        match r {
            Some(b) => base64_url_nopad(b@) == text@,
            None => forall|b: Seq<u8>| base64_url_nopad(b) != text@,
        },
{
    base64::engine::general_purpose::URL_SAFE_NO_PAD.decode(text).ok()
}

// ---------------------------------------------------------------------------
// URL query (`url::Url::parse`, then `Url::query_pairs`)
// ---------------------------------------------------------------------------

/// The decoded name/value pairs of the query of the URL written `text`, or
/// `None` where `url::Url::parse` refuses `text`.
pub uninterp spec fn url_query_pairs(text: Seq<char>) -> Option<Seq<(Seq<char>, Seq<char>)>>;

pub open spec fn pairs_view(v: Seq<(String, String)>) -> Seq<(Seq<char>, Seq<char>)> {
    Seq::new(v.len(), |i: int| (v[i].0@, v[i].1@))
}

/// Parses `text` with `url::Url::parse` and lists `query_pairs()` of the
/// result (form-urlencoded decoding of the query). The contract only names the
/// result: it is a function of `text` alone.
#[verifier::external_body]
pub(crate) fn query_pairs(text: &str) -> (r: Option<Vec<(String, String)>>)
    ensures
        match r {
            Some(v) => url_query_pairs(text@) == Some(pairs_view(v@)),
            None => url_query_pairs(text@) is None,
        },
{
    let parsed = url::Url::parse(text).ok()?;
    let mut pairs = Vec::new();
    for (k, v) in parsed.query_pairs() {
        pairs.push((k.into_owned(), v.into_owned()));
    }
    Some(pairs)
}

// ---------------------------------------------------------------------------
// Chance and time
// ---------------------------------------------------------------------------

/// A lower-case hexadecimal digit.
pub open spec fn is_lower_hex(c: char) -> bool {
    ('0' <= c && c <= '9') || ('a' <= c && c <= 'f')
}

/// The RFC 4122 variant digit: `8`, `9`, `a` or `b`.
pub open spec fn is_variant_digit(c: char) -> bool {
    c == '8' || c == '9' || c == 'a' || c == 'b'
}

/// A version-4 UUID written as 32 lower-case hex digits: the version digit
/// `4` at position 12, the variant digit at position 16.
pub open spec fn is_uuid_v4_simple(s: Seq<char>) -> bool {
    &&& s.len() == 32
    &&& forall|i: int| 0 <= i < 32 ==> is_lower_hex(#[trigger] s[i])
    &&& s[12] == '4'
    &&& is_variant_digit(s[16])
}

/// A version-4 UUID in the hyphenated form: lower-case hex digits in groups
/// of 8, 4, 4, 4 and 12 separated by `-` (at 8, 13, 18 and 23), the version
/// digit `4` at position 14, the variant digit at position 19.
pub open spec fn is_uuid_v4_text(s: Seq<char>) -> bool {
    &&& s.len() == 36
    &&& forall|i: int| 0 <= i < 36 ==> (if i == 8 || i == 13 || i == 18 || i == 23 {
        #[trigger] s[i] == '-'
    } else {
        is_lower_hex(s[i])
    })
    &&& s[14] == '4'
    &&& is_variant_digit(s[19])
}

/// `uuid::Uuid::new_v4().to_string()`: a random version-4 UUID (`new_v4`
/// sets the version and the RFC 4122 variant bits), written by `Display` in
/// the lower-case hyphenated form. Which UUID is left to chance.
#[verifier::external_body]
pub(crate) fn new_uuid() -> (r: String)
    ensures
        is_uuid_v4_text(r@),
{
    uuid::Uuid::new_v4().to_string()
}

/// `uuid::Uuid::new_v4().simple().to_string()`: a random version-4 UUID as 32
/// lower-case hex digits. Which UUID is left to chance.
#[verifier::external_body]
pub(crate) fn new_uuid_simple() -> (r: String)
    ensures
        is_uuid_v4_simple(r@),
{
    uuid::Uuid::new_v4().simple().to_string()
}

/// `rand::random::<u32>()`: any `u32`; nothing is promised of it.
#[verifier::external_body]
pub(crate) fn random_u32() -> u32 {
    rand::random::<u32>()
}

/// `chrono::Utc::now()`, read as its `timestamp()` and
/// `timestamp_subsec_nanos()`: the current time. It is built from the
/// system clock's `Duration` since the epoch (`as_secs`, `subsec_nanos`), so
/// the seconds are not negative and the nanoseconds are below one second;
/// nothing else is promised of its value.
#[verifier::external_body]
pub(crate) fn now_utc() -> (r: UtcTime)
    ensures
        r.secs >= 0,
        r.nanos < 1_000_000_000,
{
    let now = chrono::Utc::now();
    UtcTime { secs: now.timestamp(), nanos: now.timestamp_subsec_nanos() }
}

} // verus!
