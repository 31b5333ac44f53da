//! Trusted bindings to `sylvia-iot-corelib`, `url`, `chrono` and a few `std` string functions,
//! with the spec functions that state what they compute.

use vstd::prelude::*;

verus! {

/// Appends one character to a string (`String::push`).
///
/// Trusted: the contract says what the documentation of `String::push` says, that the
/// character is appended at the end.
#[verifier::external_body]
pub(crate) fn push_char(s: &mut String, c: char)
    ensures
        final(s)@ == old(s)@.push(c),
{
    s.push(c);
}

/// A character of a code: a lower-case ASCII letter or a digit, and after the first position
/// also `_` or `-`.
pub open spec fn is_code_char(c: char, first: bool) -> bool {
    ||| ('a' <= c && c <= 'z')
    ||| ('0' <= c && c <= '9')
    ||| (!first && (c == '_' || c == '-'))
}

/// A valid (unit, application, network or profile) code: `^[a-z0-9]{1}[a-z0-9_-]*$`.
pub open spec fn code_spec(s: Seq<char>) -> bool {
    &&& s.len() >= 1
    &&& is_code_char(s[0], true)
    &&& forall|i: int| 1 <= i < s.len() ==> is_code_char(#[trigger] s[i], false)
}

/// Checks a code with `sylvia_iot_corelib::strings::is_code`.
///
/// Trusted: that function matches the code against the regular expression
/// `^[a-z0-9]{1}[a-z0-9_-]*$`, which `code_spec` states character by character.
#[verifier::external_body]
pub(crate) fn is_code(s: &str) -> (r: bool)
    ensures
        r == code_spec(s@),
{
    sylvia_iot_corelib::strings::is_code(s)
}

/// The value of a hexadecimal digit, or -1 for another character.
pub open spec fn hex_digit_value(c: char) -> int {
    if '0' <= c && c <= '9' {
        c as int - '0' as int
    } else if 'a' <= c && c <= 'f' {
        c as int - 'a' as int + 10
    } else if 'A' <= c && c <= 'F' {
        c as int - 'A' as int + 10
    } else {
        -1
    }
}

/// All characters are hexadecimal digits.
pub open spec fn all_hex(s: Seq<char>) -> bool {
    forall|i: int| 0 <= i < s.len() ==> hex_digit_value(#[trigger] s[i]) >= 0
}

/// The value of a string of hexadecimal digits, most significant first.
pub open spec fn hex_value(s: Seq<char>) -> nat
    decreases s.len(),
{
    if s.len() == 0 {
        0
    } else {
        hex_value(s.drop_last()) * 16 + hex_digit_value(s.last()) as nat
    }
}

/// An address that `hex_addr_to_u128` accepts: an even length from 2 to 32 and hexadecimal
/// digits, optionally after one leading `+` (which `u128::from_str_radix` takes).
pub open spec fn hex_addr_ok(s: Seq<char>) -> bool {
    &&& 2 <= s.len() <= 32
    &&& s.len() % 2 == 0
    &&& (all_hex(s) || (s[0] == '+' && all_hex(s.drop_first())))
}

/// The value of an accepted address.
pub open spec fn hex_addr_value(s: Seq<char>) -> nat {
    if s.len() > 0 && s[0] == '+' {
        hex_value(s.drop_first())
    } else {
        hex_value(s)
    }
}

/// The error text of `hex_addr_to_u128`.
pub open spec fn addr_format_error() -> Seq<char> {
    "invalid address format"@
}

/// Parses a hexadecimal address with `sylvia_iot_corelib::strings::hex_addr_to_u128`.
///
/// Trusted: that function refuses a byte length of zero, over 32 or odd, and otherwise returns
/// what `u128::from_str_radix(addr, 16)` gives; every refusal is the one text
/// `invalid address format`. A string with a character outside ASCII is refused either way,
/// so the lengths may be counted in characters here.
#[verifier::external_body]
pub(crate) fn hex_addr_to_u128(addr: &str) -> (r: Result<u128, String>)
    ensures
        match r {
            Ok(v) => hex_addr_ok(addr@) && v as nat == hex_addr_value(addr@),
            Err(e) => !hex_addr_ok(addr@) && e@ == addr_format_error(),
        },
{
    match sylvia_iot_corelib::strings::hex_addr_to_u128(addr) {
        Ok(v) => Ok(v),
        Err(e) => Err(e.to_string()),
    }
}

/// The lower-case hexadecimal digit of a value below 16.
pub open spec fn hex_char(d: nat) -> char {
    if d < 10 {
        ('0' as nat + d) as char
    } else {
        ('a' as nat + d - 10) as char
    }
}

/// The `w` lowest hexadecimal digits of `v`, lower case, most significant first.
pub open spec fn hex_digits(v: nat, w: nat) -> Seq<char>
    decreases w,
{
    if w == 0 {
        Seq::empty()
    } else {
        hex_digits(v / 16, (w - 1) as nat).push(hex_char(v % 16))
    }
}

/// The number of digits that `u128_to_addr` writes for a requested length: at least 2, at
/// most 32, and otherwise the length rounded up to an even number.
pub open spec fn addr_width(len: nat) -> nat {
    if len <= 2 {
        2
    } else if len >= 32 {
        32
    } else {
        len + len % 2
    }
}

/// Formats an address with `sylvia_iot_corelib::strings::u128_to_addr`.
///
/// Trusted: that function masks the value to the lowest `4 * addr_width(len)` bits and writes
/// it in lower-case hexadecimal, zero-padded to `addr_width(len)` digits (for 32 digits there
/// is no mask, and the whole `u128` fits).
#[verifier::external_body]
pub(crate) fn u128_to_addr(value: u128, len: usize) -> (r: String)
    ensures
        r@ == hex_digits(value as nat, addr_width(len as nat)),
{
    sylvia_iot_corelib::strings::u128_to_addr(value, len)
}

/// The smallest instant, in milliseconds since the UNIX epoch, that `chrono` can represent:
/// January 1 of the year -262143, 00:00:00 UTC.
pub const TIME_MIN_MS: i64 = -8_334_601_315_200_000;

/// The largest instant, in milliseconds since the UNIX epoch, that `chrono` can represent:
/// December 31 of the year 262142, 23:59:59.999 UTC.
pub const TIME_MAX_MS: i64 = 8_210_266_876_799_999;

/// A time that the data model can hold: within the range of `chrono::DateTime<Utc>`.
pub open spec fn time_ok(ms: i64) -> bool {
    TIME_MIN_MS <= ms <= TIME_MAX_MS
}

/// The RFC 3339 text with milliseconds and a `Z` suffix of an instant given in milliseconds
/// since the UNIX epoch.
pub uninterp spec fn time_text(ms: i64) -> Seq<char>;

/// Formats an instant with `sylvia_iot_corelib::strings::time_str`.
///
/// Trusted: `chrono::DateTime::from_timestamp_millis` gives `Some` exactly inside
/// `time_ok`, whose bounds follow from `chrono`'s year range -262143 to 262142; `time_str`
/// writes `to_rfc3339_opts(SecondsFormat::Millis, true)`, a function of the instant alone.
#[verifier::external_body]
pub(crate) fn time_str(ms: i64) -> (r: String)
    requires
        time_ok(ms),
    ensures
        r@ == time_text(ms),
{
    let t = chrono::DateTime::from_timestamp_millis(ms).unwrap();
    sylvia_iot_corelib::strings::time_str(&t)
}

/// What `url::Url::parse` gives for a text: `None` where it refuses it, else the scheme and
/// the serialization of the parsed URL.
pub uninterp spec fn uri_parse(s: Seq<char>) -> Option<(Seq<char>, Seq<char>)>;

/// Parses a URI with `url::Url::parse`, and returns its scheme and its serialization.
///
/// Trusted: the result is a function of the text alone, named `uri_parse`; nothing more is
/// stated of it (the WHATWG URL parser takes pages to state).
#[verifier::external_body]
pub(crate) fn parse_uri(s: &str) -> (r: Option<(String, String)>)
    ensures
        match r {
            None => uri_parse(s@) is None,
            Some(p) => uri_parse(s@) == Some((p.0@, p.1@)),
        },
{
    match url::Url::parse(s) {
        Err(_) => None,
        Ok(u) => Some((u.scheme().to_string(), u.as_str().to_string())),
    }
}

/// What `str::to_lowercase` gives for a text.
pub uninterp spec fn lowercase(s: Seq<char>) -> Seq<char>;

/// Lower-cases a text with `str::to_lowercase`.
///
/// Trusted: the result is a function of the text alone, named `lowercase` (Unicode case
/// mapping takes pages to state).
#[verifier::external_body]
pub(crate) fn to_lowercase(s: &str) -> (r: String)
    ensures
        r@ == lowercase(s@),
{
    s.to_lowercase()
}

} // verus!
