//! The library's trusted boundary to the outside crates it calls.

use vstd::prelude::*;

verus! {

/// A JSON document of serde_json, carried through the library as it is.
#[verifier::external_type_specification]
#[verifier::external_body]
pub struct ExJsonValue(serde_json::Value);

/// serde_json derives `Clone` for `Value`: the clone is the same document.
pub assume_specification[ <serde_json::Value as Clone>::clone ](v: &serde_json::Value) -> (r:
    serde_json::Value)
    ensures
        r == *v,
;

/// A lower-case hexadecimal digit.
pub open spec fn is_lower_hex(c: char) -> bool {
    ('0' <= c <= '9') || ('a' <= c <= 'f')
}

/// The text form of a UUID: 36 characters, lower-case hexadecimal digits in
/// groups of 8, 4, 4, 4 and 12, separated by hyphens.
pub open spec fn is_hyphenated_uuid(s: Seq<char>) -> bool {
    &&& s.len() == 36
    &&& forall|i: int|
        0 <= i < 36 ==> if i == 8 || i == 13 || i == 18 || i == 23 {
            s[i] == '-'
        } else {
            is_lower_hex(#[trigger] s[i])
        }
}

/// `uuid::Uuid::new_v4` rendered by its `Display` impl, which writes the
/// hyphenated lower-case form. The value is random: only its form is stated.
#[verifier::external_body]
pub fn new_uuid_string() -> (s: String)
    ensures
        is_hyphenated_uuid(s@),
{
    uuid::Uuid::new_v4().to_string()
}

/// A text of decimal digits only.
pub open spec fn all_digits(s: Seq<char>) -> bool {
    forall|i: int| 0 <= i < s.len() ==> '0' <= #[trigger] s[i] <= '9'
}

/// Two decimal digits.
pub open spec fn two_digits(s: Seq<char>) -> bool {
    s.len() == 2 && all_digits(s)
}

/// A year as RFC 3339 writes it: four digits, or a sign and at least four
/// digits outside the years 0 to 9999.
pub open spec fn year_text(y: Seq<char>) -> bool {
    (y.len() == 4 && all_digits(y)) || (y.len() >= 5 && (y[0] == '+' || y[0] == '-') && all_digits(
        y.drop_first(),
    ))
}

/// A fraction of a second: none, or a point and three, six or nine digits.
pub open spec fn fraction_text(f: Seq<char>) -> bool {
    f.len() == 0 || ((f.len() == 4 || f.len() == 7 || f.len() == 10) && f[0] == '.' && all_digits(
        f.drop_first(),
    ))
}

/// The text of a UTC time from its parts.
pub open spec fn utc_time_text(
    y: Seq<char>,
    mo: Seq<char>,
    d: Seq<char>,
    h: Seq<char>,
    mi: Seq<char>,
    se: Seq<char>,
    f: Seq<char>,
) -> Seq<char> {
    y + "-"@ + mo + "-"@ + d + "T"@ + h + ":"@ + mi + ":"@ + se + f + "+00:00"@
}

/// An RFC 3339 time in UTC as chrono writes it:
/// `YYYY-MM-DDTHH:MM:SS[.fff|.ffffff|.fffffffff]+00:00`.
pub open spec fn is_rfc3339_utc(s: Seq<char>) -> bool {
    exists|y: Seq<char>, mo: Seq<char>, d: Seq<char>, h: Seq<char>, mi: Seq<char>, se: Seq<char>, f: Seq<char>|
        {
            &&& #[trigger] utc_time_text(y, mo, d, h, mi, se, f) == s
            &&& year_text(y)
            &&& two_digits(mo)
            &&& two_digits(d)
            &&& two_digits(h)
            &&& two_digits(mi)
            &&& two_digits(se)
            &&& fraction_text(f)
        }
}

/// `chrono::Utc::now` rendered by `DateTime::to_rfc3339`: the year, the
/// two-digit month, day, hour, minute and second, the fraction of a second
/// when it is not zero, and the offset `+00:00`. Which time it is depends on
/// the clock and is not stated.
#[verifier::external_body]
pub fn now_rfc3339() -> (s: String)
    ensures
        is_rfc3339_utc(s@),
{
    chrono::Utc::now().to_rfc3339()
}

/// What chrono makes of an RFC 3339 text: `DateTime::parse_from_rfc3339`,
/// then the same instant in UTC written by `to_rfc3339`; none when the text
/// does not parse.
pub uninterp spec fn rfc3339_in_utc(text: Seq<char>) -> Option<Seq<char>>;

/// `chrono::DateTime::parse_from_rfc3339`, its error dropped, the instant
/// moved to UTC (`with_timezone(&Utc)`) and written back by `to_rfc3339`,
/// which gives the UTC form `is_rfc3339_utc` describes. The outcome is named
/// `rfc3339_in_utc`.
#[verifier::external_body]
pub fn normalized_time(text: &str) -> (r: Option<String>)
    ensures
        r matches Some(t) ==> rfc3339_in_utc(text@) == Some(t@) && is_rfc3339_utc(t@),
        r is None ==> rfc3339_in_utc(text@) is None,
{
    chrono::DateTime::parse_from_rfc3339(text).ok().map(|d| d.with_timezone(&chrono::Utc).to_rfc3339())
}

/// What `serde_json::to_string` makes of a JSON document: its compact text.
pub uninterp spec fn json_text(v: serde_json::Value) -> Seq<char>;

/// `serde_json::to_string` of a document, or the empty text should it fail
/// (`unwrap_or_default`). Serializing a `Value` does not fail; its text is
/// named `json_text`.
#[verifier::external_body]
pub fn json_to_string(v: &serde_json::Value) -> (s: String)
    ensures
        s@ == json_text(*v),
{
    serde_json::to_string(v).unwrap_or_default()
}

/// What `value[key].as_str()` gives for a JSON document: the text of field
/// `key` when the document is an object whose field `key` is a string.
pub uninterp spec fn json_field_str(v: serde_json::Value, key: Seq<char>) -> Option<Seq<char>>;

/// What `value[key].as_u64()` gives for a JSON document: the number in field
/// `key` when it is an unsigned integer that fits in `u64`.
pub uninterp spec fn json_field_u64(v: serde_json::Value, key: Seq<char>) -> Option<u64>;

/// What `value[key].as_bool()` gives for a JSON document: the boolean in
/// field `key` when the document is an object whose field `key` is one.
pub uninterp spec fn json_field_bool(v: serde_json::Value, key: Seq<char>) -> Option<bool>;

/// What `serde_json::from_str::<Value>` makes of a text: the document it
/// holds, or none when the text is not one JSON document.
pub uninterp spec fn json_parse(text: Seq<char>) -> Option<serde_json::Value>;

/// `v` is the empty JSON object `{}`: what parsing `{}` gives, written back
/// as `{}`, without any field.
pub open spec fn is_empty_object(v: serde_json::Value) -> bool {
    &&& json_parse("{}"@) == Some(v)
    &&& json_text(v) == "{}"@
    &&& forall|k: Seq<char>| #[trigger] json_field_str(v, k) is None
    &&& forall|k: Seq<char>| #[trigger] json_field_u64(v, k) is None
    &&& forall|k: Seq<char>| #[trigger] json_field_bool(v, k) is None
}

/// `v` is the JSON `null`: what parsing `null` gives, written back as
/// `null`, without any field.
pub open spec fn is_json_null(v: serde_json::Value) -> bool {
    &&& json_parse("null"@) == Some(v)
    &&& json_text(v) == "null"@
    &&& forall|k: Seq<char>| #[trigger] json_field_str(v, k) is None
    &&& forall|k: Seq<char>| #[trigger] json_field_u64(v, k) is None
    &&& forall|k: Seq<char>| #[trigger] json_field_bool(v, k) is None
}

/// `serde_json::Value::Null`: the value `from_str("null")` gives, which
/// `to_string` writes as `null`; indexing it by any key gives `Null` again,
/// which is neither text, nor a number, nor a boolean.
#[verifier::external_body]
pub fn json_null() -> (v: serde_json::Value)
    ensures
        is_json_null(v),
{
    serde_json::Value::Null
}

/// `serde_json::Value::Object` of an empty `serde_json::Map`: the JSON
/// document `{}`, the same value `from_str("{}")` gives, which
/// `to_string` writes as `{}`. It has no field, so indexing it by any key
/// gives `Null`, which is neither text, nor a number, nor a boolean.
#[verifier::external_body]
pub fn empty_json_object() -> (v: serde_json::Value)
    ensures
        is_empty_object(v),
{
    serde_json::Value::Object(serde_json::Map::new())
}

/// `serde_json::from_str::<Value>`, its error dropped (`Result::ok`). The
/// outcome is named `json_parse`.
#[verifier::external_body]
pub fn parse_json(text: &str) -> (r: Option<serde_json::Value>)
    ensures
        r == json_parse(text@),
{
    serde_json::from_str::<serde_json::Value>(text).ok()
}

/// serde_json's `Index<&str>` then `Value::as_str`: the text of field `key`,
/// if the document is an object whose field `key` is a string. The outcome
/// is named `json_field_str`.
#[verifier::external_body]
pub fn json_get_str(v: &serde_json::Value, key: &str) -> (r: Option<String>)
    ensures
        match r {
            Some(s) => json_field_str(*v, key@) == Some(s@),
            None => json_field_str(*v, key@) is None,
        },
{
    match v[key].as_str() {
        Some(s) => Some(s.to_string()),
        None => None,
    }
}

/// serde_json's `Index<&str>` then `Value::as_u64`: the number in field `key`,
/// if it is an unsigned integer that fits in `u64`. The outcome is named
/// `json_field_u64`.
#[verifier::external_body]
pub fn json_get_u64(v: &serde_json::Value, key: &str) -> (r: Option<u64>)
    ensures
        r == json_field_u64(*v, key@),
{
    v[key].as_u64()
}

/// serde_json's `Index<&str>` then `Value::as_bool`: the boolean in field
/// `key`, if it is one. The outcome is named `json_field_bool`.
#[verifier::external_body]
pub fn json_get_bool(v: &serde_json::Value, key: &str) -> (r: Option<bool>)
    ensures
        r == json_field_bool(*v, key@),
{
    v[key].as_bool()
}

} // verus!
