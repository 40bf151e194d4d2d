//! Trusted items: the calls into std and outside crates whose behaviour Verus
//! takes from the contracts written here.

use vstd::prelude::*;

verus! {

/// `FromIterator<&char> for String` (`iter().collect()`): the string holds
/// exactly the given characters, in order.
#[verifier::external_body]
pub(crate) fn string_from_chars(v: &[char]) -> (s: String)
    ensures
        s@ == v@,
{
    v.iter().collect()
}


/// Bytes that `urlencoding::encode` leaves as they are: ASCII letters,
/// digits and `-`, `.`, `_`, `~`.
pub open spec fn is_unreserved_byte(b: u8) -> bool {
    ||| (48 <= b && b <= 57)
    ||| (65 <= b && b <= 90)
    ||| (97 <= b && b <= 122)
    ||| b == 45
    ||| b == 46
    ||| b == 95
    ||| b == 126
}

/// The upper-case hexadecimal digit for `d < 16`.
pub open spec fn hex_upper(d: u8) -> char {
    if d < 10 {
        ((48 + d) as u8) as char
    } else {
        ((55 + d) as u8) as char
    }
}

/// Percent-encoding of a byte string: unreserved bytes stay, every other
/// byte becomes `%` and two upper-case hexadecimal digits.
pub open spec fn percent_encoded(bytes: Seq<u8>) -> Seq<char>
    decreases bytes.len(),
{
    if bytes.len() == 0 {
        Seq::empty()
    } else {
        let b = bytes.last();
        percent_encoded(bytes.drop_last()) + if is_unreserved_byte(b) {
            seq![b as char]
        } else {
            seq!['%', hex_upper(b / 16), hex_upper(b % 16)]
        }
    }
}

/// `urlencoding::encode`: percent-encodes every byte of the UTF-8 encoding of
/// `s` except alphanumerics and `-`, `_`, `.`, `~`.
#[verifier::external_body]
pub(crate) fn url_encode(s: &str) -> (r: String)
    ensures
        r@ == percent_encoded(vstd::utf8::encode_utf8(s@)),
{
    urlencoding::encode(s).into_owned()
}

/// The instant an RFC 3339 text denotes, as chrono's `DateTime` counts it:
/// whole seconds since the Unix epoch and the nanoseconds past that second;
/// `None` when the text is not valid RFC 3339.
pub uninterp spec fn rfc3339_instant(s: Seq<char>) -> Option<(i64, u32)>;

/// `chrono::DateTime::parse_from_rfc3339`, read as `timestamp` and
/// `timestamp_subsec_nanos`.
#[verifier::external_body]
pub(crate) fn parse_rfc3339(s: &str) -> (r: Option<(i64, u32)>)
    ensures
        r == rfc3339_instant(s@),
{
    chrono::DateTime::parse_from_rfc3339(s).ok().map(|dt| (dt.timestamp(), dt.timestamp_subsec_nanos()))
}

/// The first second of year 0, in seconds since the Unix epoch.
pub const FIRST_FOUR_DIGIT_SECOND: i64 = -62_167_219_200;

/// The last second of year 9999, in seconds since the Unix epoch.
pub const LAST_FOUR_DIGIT_SECOND: i64 = 253_402_300_799;

/// An instant whose year RFC 3339 writes with four digits, with a
/// nanosecond part below one second.
pub open spec fn four_digit_instant(seconds: i64, nanos: u32) -> bool {
    FIRST_FOUR_DIGIT_SECOND <= seconds <= LAST_FOUR_DIGIT_SECOND && nanos < 1_000_000_000
}

/// The RFC 3339 text of the UTC instant `seconds` (since the Unix epoch) and
/// `nanos`, or `None` when chrono holds no such instant.
pub uninterp spec fn rfc3339_text(seconds: i64, nanos: u32) -> Option<Seq<char>>;

/// `chrono::DateTime::from_timestamp(seconds, nanos)` (`None` out of
/// chrono's range or for an invalid nanosecond part), then `to_rfc3339`.
/// For an instant of a four-digit year, `from_timestamp` succeeds and the
/// text has the year in four digits, the fraction to the nanosecond as
/// needed and the offset `+00:00`, which `parse_from_rfc3339` reads back to
/// the same seconds and nanoseconds.
#[verifier::external_body]
pub(crate) fn format_rfc3339(seconds: i64, nanos: u32) -> (r: Option<String>)
    ensures
        match r {
            Some(text) => rfc3339_text(seconds, nanos) == Some(text@),
            None => rfc3339_text(seconds, nanos) is None,
        },
        four_digit_instant(seconds, nanos) ==> r is Some,
        r matches Some(text) ==> (four_digit_instant(seconds, nanos) ==> rfc3339_instant(text@) == Some(
            (seconds, nanos),
        )),
{
    chrono::DateTime::from_timestamp(seconds, nanos).map(|dt| dt.to_rfc3339())
}

/// The lower-case hexadecimal digit for `d < 16`.
pub open spec fn hex_lower(d: nat) -> char {
    if d < 10 {
        (48 + d) as char
    } else {
        (87 + d) as char
    }
}

/// The `i`-th hexadecimal digit of `v`, counted from the most significant.
pub open spec fn nibble(v: u128, i: int) -> nat {
    ((v as int / vstd::arithmetic::power::pow(16, (31 - i) as nat)) % 16) as nat
}

/// The 32 lower-case hexadecimal digits of `v`.
pub open spec fn hex32(v: u128) -> Seq<char> {
    Seq::new(32, |i: int| hex_lower(nibble(v, i)))
}

/// The hyphenated form of a UUID with bits `v`: its 32 hexadecimal digits in
/// groups of 8, 4, 4, 4 and 12.
pub open spec fn uuid_hyphenated(v: u128) -> Seq<char> {
    let h = hex32(v);
    h.subrange(0, 8) + seq!['-'] + h.subrange(8, 12) + seq!['-'] + h.subrange(12, 16) + seq!['-']
        + h.subrange(16, 20) + seq!['-'] + h.subrange(20, 32)
}

/// The bits of the UUID a text denotes, or `None` when it is not a UUID.
pub uninterp spec fn uuid_parse(s: Seq<char>) -> Option<u128>;

/// `uuid::Uuid::parse_str`, read as the UUID's 128 bits (`as_u128`).
#[verifier::external_body]
pub(crate) fn parse_uuid(s: &str) -> (r: Option<u128>)
    ensures
        r == uuid_parse(s@),
{
    uuid::Uuid::parse_str(s).ok().map(|u| u.as_u128())
}

/// `Display` of `uuid::Uuid::from_u128(v)`: the hyphenated lower-case form,
/// which `Uuid::parse_str` reads back to the same UUID.
#[verifier::external_body]
pub(crate) fn uuid_string(v: u128) -> (r: String)
    ensures
        r@ == uuid_hyphenated(v),
        uuid_parse(r@) == Some(v),
{
    uuid::Uuid::from_u128(v).to_string()
}

/// The list of strings a JSON text holds, or `None` when it is not a JSON
/// array of strings.
pub uninterp spec fn json_string_list(s: Seq<char>) -> Option<Seq<Seq<char>>>;

/// The JSON text of a list of strings.
pub uninterp spec fn json_list_text(v: Seq<Seq<char>>) -> Seq<char>;

/// `serde_json::from_str::<Vec<String>>`.
#[verifier::external_body]
pub(crate) fn parse_string_list(s: &str) -> (r: Option<Vec<String>>)
    ensures
        match r {
            Some(v) => json_string_list(s@) == Some(v.deep_view()),
            None => json_string_list(s@) is None,
        },
{
    serde_json::from_str::<Vec<String>>(s).ok()
}

/// `serde_json::to_string` of a list of strings. It does not fail for such a
/// list (it has no map keys and no fallible `Serialize` impl), and
/// `serde_json::from_str` reads the text back to the same list.
#[verifier::external_body]
pub(crate) fn encode_string_list(v: &Vec<String>) -> (r: Option<String>)
    ensures
        r is Some,
        r matches Some(s) ==> s@ == json_list_text(v.deep_view()),
        r matches Some(s) ==> json_string_list(s@) == Some(v.deep_view()),
{
    serde_json::to_string(v).ok()
}


/// `String::from_utf8`: the text the bytes encode when they are valid
/// UTF-8, `None` otherwise.
#[verifier::external_body]
pub(crate) fn utf8_string(bytes: Vec<u8>) -> (r: Option<String>)
    ensures
        match r {
            Some(s) => vstd::utf8::valid_utf8(bytes@) && s@ == vstd::utf8::decode_utf8(bytes@),
            None => !vstd::utf8::valid_utf8(bytes@),
        },
{
    String::from_utf8(bytes).ok()
}

} // verus!
