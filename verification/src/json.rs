//! Trusted access to the envelope text through serde_json.
//!
//! The envelope body arrives as JSON text, and JSON parsing is a function of
//! that text alone. What each handler reads out of the envelope is therefore
//! given a name — the command under `pattern.cmd`, and each member of the
//! `data` value the handlers look at — and every trusted reader here answers
//! exactly with the named result, as the library's own plain types. The
//! contracts downstream speak of the envelope through these names.

use vstd::prelude::*;
use vstd::utf8::{valid_utf8, encode_utf8};
use crate::payload::{Field, FieldV};

verus! {

/// The command the envelope text carries: the text of `pattern.cmd` when
/// the text parses as JSON and that member is a string, empty otherwise.
pub uninterp spec fn cmd_of(s: Seq<char>) -> Seq<char>;

/// How the member `key` of the envelope's `data` object appears.
pub uninterp spec fn data_field_of(s: Seq<char>, key: Seq<char>) -> FieldV;

/// How the member `key` of `data.updateCountryDto` appears.
pub uninterp spec fn dto_field_of(s: Seq<char>, key: Seq<char>) -> FieldV;

/// Whether the envelope's `data` value is a JSON object.
pub uninterp spec fn data_is_object_of(s: Seq<char>) -> bool;

/// Whether `data.updateCountryDto` exists at all.
pub uninterp spec fn dto_present_of(s: Seq<char>) -> bool;

/// Whether `data.updateCountryDto` is a JSON object.
pub uninterp spec fn dto_is_object_of(s: Seq<char>) -> bool;

/// The text of the `data` value when it is a bare JSON string.
pub uninterp spec fn data_text_of(s: Seq<char>) -> Option<Seq<char>>;

/// Relies on str::from_utf8: succeeds exactly on valid UTF-8, and the
/// resulting text encodes back to the given bytes.
#[verifier::external_body]
pub(crate) fn utf8_decode(b: &[u8]) -> (r: Option<String>)
    ensures
        match r {
            Option::Some(s) => valid_utf8(b@) && encode_utf8(s@) == b@,
            Option::None => !valid_utf8(b@),
        },
{
    match std::str::from_utf8(b) {
        Ok(s) => Some(s.to_owned()),
        Err(_) => None,
    }
}

/// Relies on serde_json::from_str and Value::get/as_str: parsing is a
/// function of the text alone; `pattern.cmd` is read as a string, or empty
/// where the text is not JSON or the member is missing or not a string.
#[verifier::external_body]
pub(crate) fn extract_cmd(s: &str) -> (r: String)
    ensures
        r@ == cmd_of(s@),
{
    serde_json::from_str::<serde_json::Value>(s)
        .ok()
        .and_then(|v| {
            v.get("pattern")
                .and_then(|p| p.get("cmd"))
                .and_then(|c| c.as_str())
                .map(|t| t.to_owned())
        })
        .unwrap_or_else(String::new)
}

/// Relies on serde_json::from_str, Value::get and the Value variants: how
/// the member `key` of the `data` object appears, missing where the text is
/// not JSON or `data` is absent or has no such member.
#[verifier::external_body]
pub(crate) fn extract_data_field(s: &str, key: &str) -> (r: Field)
    ensures
        r@ == data_field_of(s@, key@),
{
    let v = serde_json::from_str::<serde_json::Value>(s).ok();
    match v.as_ref().and_then(|v| v.get("data")).and_then(|d| d.get(key)) {
        None => Field::Absent,
        Some(serde_json::Value::Null) => Field::Null,
        Some(serde_json::Value::String(t)) => Field::Str(t.clone()),
        Some(_) => Field::Other,
    }
}

/// Relies on serde_json::from_str, Value::get and the Value variants: how
/// the member `key` of `data.updateCountryDto` appears.
#[verifier::external_body]
pub(crate) fn extract_dto_field(s: &str, key: &str) -> (r: Field)
    ensures
        r@ == dto_field_of(s@, key@),
{
    let v = serde_json::from_str::<serde_json::Value>(s).ok();
    let dto = v.as_ref().and_then(|v| v.get("data")).and_then(|d| d.get("updateCountryDto"));
    match dto.and_then(|d| d.get(key)) {
        None => Field::Absent,
        Some(serde_json::Value::Null) => Field::Null,
        Some(serde_json::Value::String(t)) => Field::Str(t.clone()),
        Some(_) => Field::Other,
    }
}

/// Relies on serde_json::from_str and Value::is_object.
#[verifier::external_body]
pub(crate) fn extract_data_is_object(s: &str) -> (r: bool)
    ensures
        r == data_is_object_of(s@),
{
    let v = serde_json::from_str::<serde_json::Value>(s).ok();
    v.as_ref().and_then(|v| v.get("data")).map(|d| d.is_object()).unwrap_or(false)
}

/// Relies on serde_json::from_str and Value::get.
#[verifier::external_body]
pub(crate) fn extract_dto_present(s: &str) -> (r: bool)
    ensures
        r == dto_present_of(s@),
{
    let v = serde_json::from_str::<serde_json::Value>(s).ok();
    v.as_ref().and_then(|v| v.get("data")).and_then(|d| d.get("updateCountryDto")).is_some()
}

/// Relies on serde_json::from_str, Value::get and Value::is_object.
#[verifier::external_body]
pub(crate) fn extract_dto_is_object(s: &str) -> (r: bool)
    ensures
        r == dto_is_object_of(s@),
{
    let v = serde_json::from_str::<serde_json::Value>(s).ok();
    let dto = v.as_ref().and_then(|v| v.get("data")).and_then(|d| d.get("updateCountryDto"));
    dto.map(|d| d.is_object()).unwrap_or(false)
}

/// Relies on serde_json::from_str and Value::as_str: the `data` value's own
/// text when it is a bare JSON string.
#[verifier::external_body]
pub(crate) fn extract_data_text(s: &str) -> (r: Option<String>)
    ensures
        match r {
            Option::Some(t) => data_text_of(s@) == Option::Some(t@),
            Option::None => data_text_of(s@) is None,
        },
{
    let v = serde_json::from_str::<serde_json::Value>(s).ok();
    v.as_ref().and_then(|v| v.get("data")).and_then(|d| d.as_str()).map(|t| t.to_owned())
}

} // verus!
