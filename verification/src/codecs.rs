//! The encodings that outside crates read and write for the library: URL query
//! strings (`url`), JSON documents (`serde_json`, `json`), base64 (`base64`) and UTF-8
//! (std). Each item here is trusted: its contract is believed, not proved.
use vstd::prelude::*;
use vstd::utf8::{decode_utf8, valid_utf8};

verus! {

#[verifier::external_type_specification]
#[verifier::external_body]
pub struct ExUrlParseError(url::ParseError);

#[verifier::external_type_specification]
#[verifier::external_body]
pub struct ExJsonError(serde_json::Error);

#[verifier::external_type_specification]
#[verifier::external_body]
pub struct ExJsonCrateError(json::Error);

#[verifier::external_type_specification]
#[verifier::external_body]
pub struct ExBase64DecodeError(base64::DecodeError);

#[verifier::external_type_specification]
#[verifier::external_body]
pub struct ExFromUtf8Error(std::string::FromUtf8Error);

/// The decoded `name=value` pairs of the query of the absolute URL `url`, in
/// order, or `None` where `url` is not an absolute URL.
pub uninterp spec fn url_query_pairs(url: Seq<char>) -> Option<Seq<(Seq<char>, Seq<char>)>>;

/// Calls `url::Url::parse` and, on success, `Url::query_pairs` (made owned).
/// Claimed: the call fails exactly where `url_query_pairs` is `None`, and
/// otherwise gives the pairs that `url_query_pairs` names, in order. Nothing is
/// claimed about which URLs parse or how pairs are decoded.
#[verifier::external_body]
pub(crate) fn query_pairs_of(url: &str) -> (res: Result<Vec<(String, String)>, url::ParseError>)
    ensures
        match res {
            Ok(pairs) => url_query_pairs(url@) == Some(pairs.deep_view()),
            Err(_) => url_query_pairs(url@) is None,
        },
{
    match url::Url::parse(url) {
        Ok(parsed) => Ok(parsed.query_pairs().into_owned().collect()),
        Err(e) => Err(e),
    }
}

/// What one member of a JSON object holds, as far as the library reads it.
#[derive(Debug, Clone, PartialEq, Eq)]
pub enum JsonMember {
    /// A JSON string.
    Text(String),
    /// A JSON number: its value where it is written as a plain integer
    /// literal (no fraction, no exponent) that is non-negative and fits in 64
    /// bits, `None` for any other number (`1.0` and `1e2` among them).
    Number(Option<u64>),
    /// Anything else, or no such member (or the document is not an object).
    Other,
}

/// The value of a [`JsonMember`].
pub enum JsonMemberView {
    Text(Seq<char>),
    Number(Option<u64>),
    Other,
}

impl View for JsonMember {
    type V = JsonMemberView;

    open spec fn view(&self) -> JsonMemberView {
        match self {
            JsonMember::Text(s) => JsonMemberView::Text(s@),
            JsonMember::Number(n) => JsonMemberView::Number(*n),
            JsonMember::Other => JsonMemberView::Other,
        }
    }
}

/// The member `key` of the JSON document `text`, or `None` where `text` is not
/// valid JSON.
pub uninterp spec fn json_member_of(text: Seq<char>, key: Seq<char>) -> Option<JsonMemberView>;

/// Calls `serde_json::from_str::<serde_json::Value>` on `text`, indexes the
/// value with `key` (`Value::index`, which gives `Null` for a missing member or
/// a non-object) and reads a string or a number (`Number::as_u64`).
/// Claimed: the call fails exactly where `json_member_of` is `None`, and
/// otherwise gives what `json_member_of` names.
#[verifier::external_body]
pub(crate) fn json_member(text: &str, key: &str) -> (res: Result<JsonMember, serde_json::Error>)
    ensures
        match res {
            Ok(m) => json_member_of(text@, key@) == Some(m@),
            Err(_) => json_member_of(text@, key@) is None,
        },
{
    match serde_json::from_str::<serde_json::Value>(text) {
        Ok(value) => Ok(
            match &value[key] {
                serde_json::Value::String(s) => JsonMember::Text(s.clone()),
                serde_json::Value::Number(n) => JsonMember::Number(n.as_u64()),
                _ => JsonMember::Other,
            },
        ),
        Err(e) => Err(e),
    }
}

/// The member `key` of the first element of the JSON array `text`: `None`
/// where `text` is not a JSON array, `Some(None)` where the array is empty.
pub uninterp spec fn json_array_first_member_of(text: Seq<char>, key: Seq<char>) -> Option<Option<JsonMemberView>>;

/// Calls `serde_json::from_str::<Vec<serde_json::Value>>` on `text`, takes the
/// first element (`slice::first`), indexes it with `key` (`Value::index`) and
/// reads a string or a number (`Number::as_u64`). Claimed: the call fails
/// exactly where `json_array_first_member_of` is `None`, and otherwise gives
/// what it names.
#[verifier::external_body]
pub(crate) fn json_array_first_member(text: &str, key: &str) -> (res: Result<Option<JsonMember>, serde_json::Error>)
    ensures
        match res {
            Ok(m) => json_array_first_member_of(text@, key@) == Some(
                match m {
                    Some(v) => Some(v@),
                    None => None::<JsonMemberView>,
                },
            ),
            Err(_) => json_array_first_member_of(text@, key@) is None,
        },
{
    match serde_json::from_str::<Vec<serde_json::Value>>(text) {
        Ok(values) => match values.first() {
            Some(value) => Ok(Some(match &value[key] {
                serde_json::Value::String(s) => JsonMember::Text(s.clone()),
                serde_json::Value::Number(n) => JsonMember::Number(n.as_u64()),
                _ => JsonMember::Other,
            })),
            None => Ok(None),
        },
        Err(e) => Err(e),
    }
}

/// The text that the `json` crate writes for the member `key` of the JSON
/// document `text` (a string's own characters, `null` for a missing member),
/// or `None` where `text` is not valid JSON.
pub uninterp spec fn json_member_display_of(text: Seq<char>, key: Seq<char>) -> Option<Seq<char>>;

/// Calls `json::parse` on `text`, indexes the value with `key`
/// (`JsonValue::index`, which gives `Null` for a missing member or a
/// non-object) and writes it with `to_string` (its `Display`). Claimed: the
/// call fails exactly where `json_member_display_of` is `None`, and otherwise
/// gives the text it names.
#[verifier::external_body]
pub(crate) fn json_member_display(text: &str, key: &str) -> (res: Result<String, json::Error>)
    ensures
        match res {
            Ok(s) => json_member_display_of(text@, key@) == Some(s@),
            Err(_) => json_member_display_of(text@, key@) is None,
        },
{
    match json::parse(text) {
        Ok(value) => Ok(value[key].to_string()),
        Err(e) => Err(e),
    }
}

/// The character of the standard base64 alphabet for the six-bit value `v`:
/// `A`-`Z`, `a`-`z`, `0`-`9`, `+`, `/`.
pub open spec fn base64_digit(v: int) -> char {
    if v < 26 {
        (65 + v) as char
    } else if v < 52 {
        (97 + (v - 26)) as char
    } else if v < 62 {
        (48 + (v - 52)) as char
    } else if v == 62 {
        '+'
    } else {
        '/'
    }
}

/// The standard base64 writing of `data`, padded with `=`: each three bytes
/// become four characters of six bits each, and a last group of one or two
/// bytes is padded to four characters.
pub open spec fn base64_encoding(data: Seq<u8>) -> Seq<char>
    decreases data.len(),
{
    if data.len() == 0 {
        Seq::empty()
    } else if data.len() == 1 {
        let a = data[0] as int;
        seq![base64_digit(a / 4), base64_digit((a % 4) * 16), '=', '=']
    } else if data.len() == 2 {
        let a = data[0] as int;
        let b = data[1] as int;
        seq![base64_digit(a / 4), base64_digit((a % 4) * 16 + b / 16), base64_digit((b % 16) * 4), '=']
    } else {
        let a = data[0] as int;
        let b = data[1] as int;
        let c = data[2] as int;
        seq![
            base64_digit(a / 4),
            base64_digit((a % 4) * 16 + b / 16),
            base64_digit((b % 16) * 4 + c / 64),
            base64_digit(c % 64),
        ] + base64_encoding(data.subrange(3, data.len() as int))
    }
}

/// Calls `base64::encode` (standard alphabet, padded). Claimed: the result is
/// the standard base64 writing of the bytes given.
#[verifier::external_body]
pub(crate) fn base64_encode(data: &[u8]) -> (res: String)
    ensures
        res@ == base64_encoding(data@),
{
    base64::encode(data)
}

/// The bytes that the standard base64 text `text` stands for, or `None` where
/// it is not valid standard base64.
pub uninterp spec fn base64_decoded(text: Seq<char>) -> Option<Seq<u8>>;

/// Calls `base64::decode` (standard alphabet). Claimed: the call fails
/// exactly where `base64_decoded` is `None`, and otherwise gives those bytes;
/// the standard writing of any bytes decodes to those bytes. Which other texts
/// are accepted (missing padding, for one) is left to the name.
#[verifier::external_body]
pub(crate) fn base64_decode(text: &str) -> (res: Result<Vec<u8>, base64::DecodeError>)
    ensures
        match res {
            Ok(bytes) => base64_decoded(text@) == Some(bytes@) && forall|data: Seq<u8>|
                #[trigger] base64_encoding(data) == text@ ==> bytes@ == data,
            Err(_) => base64_decoded(text@) is None && forall|data: Seq<u8>|
                #[trigger] base64_encoding(data) != text@,
        },
{
    base64::decode(text)
}

/// Calls `String::from_utf8`. Claimed, as std documents it: the call succeeds
/// exactly when the bytes are valid UTF-8, and then the text is what they encode.
#[verifier::external_body]
pub(crate) fn string_from_utf8(bytes: Vec<u8>) -> (res: Result<String, std::string::FromUtf8Error>)
    ensures
        match res {
            Ok(s) => valid_utf8(bytes@) && s@ == decode_utf8(bytes@),
            Err(_) => !valid_utf8(bytes@),
        },
{
    String::from_utf8(bytes)
}

} // verus!
