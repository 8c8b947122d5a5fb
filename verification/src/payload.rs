//! The shape of a command payload as the handlers read it.
//!
//! Each command expects its own shape inside the envelope's `data` value, so
//! the payload is kept as the fields the handlers look at, each recorded as
//! it appeared: absent, null, a string, or something else. The validation
//! rules per command live here as well.

use vstd::prelude::*;
use crate::store::{Criteria, CriteriaV, UpdateFields, UpdateFieldsV};
use crate::text::{is_i32_string, parsed_i32, parse_i32, to_chars};

verus! {

/// One JSON field of the payload, as far as the handlers care.
pub enum Field {
    /// The key is missing.
    Absent,
    /// The key holds JSON `null`.
    Null,
    /// The key holds a JSON string.
    Str(String),
    /// The key holds some other JSON value.
    Other,
}

pub ghost enum FieldV {
    Absent,
    Null,
    Str(Seq<char>),
    Other,
}

impl View for Field {
    type V = FieldV;

    open spec fn view(&self) -> FieldV {
        match self {
            Field::Absent => FieldV::Absent,
            Field::Null => FieldV::Null,
            Field::Str(s) => FieldV::Str(s@),
            Field::Other => FieldV::Other,
        }
    }
}

/// The nested partial-update object, as read from `updateCountryDto`.
pub struct DtoView {
    /// The key `updateCountryDto` exists at all.
    pub present: bool,
    /// Its value is a JSON object.
    pub is_object: bool,
    pub name: Field,
    pub code: Field,
    pub dial_code: Field,
}

pub ghost struct DtoViewV {
    pub present: bool,
    pub is_object: bool,
    pub name: FieldV,
    pub code: FieldV,
    pub dial_code: FieldV,
}

impl View for DtoView {
    type V = DtoViewV;

    open spec fn view(&self) -> DtoViewV {
        DtoViewV {
            present: self.present,
            is_object: self.is_object,
            name: self.name@,
            code: self.code@,
            dial_code: self.dial_code@,
        }
    }
}

/// Everything any handler reads from the envelope's `data` value.
pub struct PayloadView {
    /// The payload is a JSON object.
    pub is_object: bool,
    pub name: Field,
    pub code: Field,
    pub dial_code: Field,
    pub id: Field,
    pub dto: DtoView,
    /// The payload itself, when it is a bare JSON string.
    pub as_text: Option<String>,
}

pub ghost struct PayloadViewV {
    pub is_object: bool,
    pub name: FieldV,
    pub code: FieldV,
    pub dial_code: FieldV,
    pub id: FieldV,
    pub dto: DtoViewV,
    pub as_text: Option<Seq<char>>,
}

impl View for PayloadView {
    type V = PayloadViewV;

    open spec fn view(&self) -> PayloadViewV {
        PayloadViewV {
            is_object: self.is_object,
            name: self.name@,
            code: self.code@,
            dial_code: self.dial_code@,
            id: self.id@,
            dto: self.dto@,
            as_text: match self.as_text {
                Option::Some(s) => Option::Some(s@),
                Option::None => Option::None,
            },
        }
    }
}

/// A field that an optional-string slot tolerates: anything but a
/// wrongly-typed value.
pub open spec fn field_ok(f: FieldV) -> bool {
    !(f is Other)
}

/// The string carried by a field, when there is one.
pub open spec fn field_opt(f: FieldV) -> Option<Seq<char>> {
    match f {
        FieldV::Str(s) => Option::Some(s),
        _ => Option::None,
    }
}

/// The filter criteria a payload yields: optional string fields of an
/// object; any malformed payload degrades to "no filter".
pub open spec fn criteria_of(p: PayloadViewV) -> CriteriaV {
    if p.is_object && field_ok(p.name) && field_ok(p.code) && field_ok(p.dial_code) {
        CriteriaV {
            name: field_opt(p.name),
            code: field_opt(p.code),
            dial_code: field_opt(p.dial_code),
        }
    } else {
        CriteriaV { name: Option::None, code: Option::None, dial_code: Option::None }
    }
}

/// A creation request demands an object with all three attributes present
/// as strings; anything else is invalid.
pub open spec fn create_of(p: PayloadViewV) -> Option<(Seq<char>, Seq<char>, Seq<char>)> {
    if p.is_object && p.name is Str && p.code is Str && p.dial_code is Str {
        Option::Some((p.name->Str_0, p.code->Str_0, p.dial_code->Str_0))
    } else {
        Option::None
    }
}

/// The target id of an update: the `id` field must be a string-encoded
/// decimal `i32`.
pub open spec fn update_id_of(p: PayloadViewV) -> Option<int> {
    match p.id {
        FieldV::Str(s) => if is_i32_string(s) {
            Option::Some(parsed_i32(s))
        } else {
            Option::None
        },
        _ => Option::None,
    }
}

/// The partial-update fields: `updateCountryDto` must be present and an
/// object whose attribute fields are absent, null or strings.
pub open spec fn dto_of(d: DtoViewV) -> Option<UpdateFieldsV> {
    if d.present && d.is_object && field_ok(d.name) && field_ok(d.code) && field_ok(d.dial_code) {
        Option::Some(
            UpdateFieldsV {
                name: field_opt(d.name),
                code: field_opt(d.code),
                dial_code: field_opt(d.dial_code),
            },
        )
    } else {
        Option::None
    }
}

/// The target id of a removal: the payload itself must be a string-encoded
/// decimal `i32`.
pub open spec fn remove_id_of(p: PayloadViewV) -> Option<int> {
    match p.as_text {
        Option::Some(s) => if is_i32_string(s) {
            Option::Some(parsed_i32(s))
        } else {
            Option::None
        },
        Option::None => Option::None,
    }
}

fn field_to_opt(f: &Field) -> (r: Option<String>)
    ensures
        (match r {
            Option::Some(s) => Option::Some(s@),
            Option::None => Option::None,
        }) == field_opt(f@),
{
    match f {
        Field::Str(s) => Some(s.clone()),
        _ => None,
    }
}

/// Read the filter criteria out of a payload.
pub fn criteria_of_payload(p: &PayloadView) -> (r: Criteria)
    ensures
        r@ == criteria_of(p@),
{
    let ok = p.is_object && !matches!(p.name, Field::Other) && !matches!(p.code, Field::Other)
        && !matches!(p.dial_code, Field::Other);
    if ok {
        Criteria {
            name: field_to_opt(&p.name),
            code: field_to_opt(&p.code),
            dial_code: field_to_opt(&p.dial_code),
        }
    } else {
        Criteria::none()
    }
}

/// Read a creation request out of a payload, if it is well-formed.
pub fn create_of_payload(p: &PayloadView) -> (r: Option<(String, String, String)>)
    ensures
        match r {
            Option::Some(t) => create_of(p@) == Option::Some((t.0@, t.1@, t.2@)),
            Option::None => create_of(p@) is None,
        },
{
    if !p.is_object {
        return None;
    }
    let name = match &p.name {
        Field::Str(s) => s.clone(),
        _ => {
            return None;
        },
    };
    let code = match &p.code {
        Field::Str(s) => s.clone(),
        _ => {
            return None;
        },
    };
    let dial_code = match &p.dial_code {
        Field::Str(s) => s.clone(),
        _ => {
            return None;
        },
    };
    Some((name, code, dial_code))
}

/// Read the update target id out of a payload, if it is well-formed.
pub fn update_id_of_payload(p: &PayloadView) -> (r: Option<i32>)
    ensures
        match r {
            Option::Some(v) => update_id_of(p@) == Option::Some(v as int),
            Option::None => update_id_of(p@) is None,
        },
{
    match &p.id {
        Field::Str(s) => parse_i32(&to_chars(s.as_str())),
        _ => None,
    }
}

/// Read the partial-update fields out of a payload, if they are well-formed.
pub fn dto_of_payload(p: &PayloadView) -> (r: Option<UpdateFields>)
    ensures
        match r {
            Option::Some(u) => dto_of(p@.dto) == Option::Some(u@),
            Option::None => dto_of(p@.dto) is None,
        },
{
    let d = &p.dto;
    let ok = d.present && d.is_object && !matches!(d.name, Field::Other) && !matches!(
        d.code,
        Field::Other,
    ) && !matches!(d.dial_code, Field::Other);
    if ok {
        Some(
            UpdateFields {
                name: field_to_opt(&d.name),
                code: field_to_opt(&d.code),
                dial_code: field_to_opt(&d.dial_code),
            },
        )
    } else {
        None
    }
}

/// Read the removal target id out of a payload, if it is well-formed.
pub fn remove_id_of_payload(p: &PayloadView) -> (r: Option<i32>)
    ensures
        match r {
            Option::Some(v) => remove_id_of(p@) == Option::Some(v as int),
            Option::None => remove_id_of(p@) is None,
        },
{
    match &p.as_text {
        Some(s) => parse_i32(&to_chars(s.as_str())),
        None => None,
    }
}

} // verus!
