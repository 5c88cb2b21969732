//! Reading the submitted options document (a JSON object) into
//! `ConvertParams`, with a default for each member that is left out.
use crate::errors::{ApiError, ValidationKind};
use crate::options::{
    default_compression_level, default_lossless, default_method, default_near_lossless,
    default_quality, default_response_type, ConvertParams,
};
use vstd::prelude::*;

verus! {

/// One top-level member of a JSON object, as far as the options need it.
#[derive(Clone, Debug)]
pub enum JsonField {
    /// The object has no member of that name.
    Absent,
    Null,
    Bool(bool),
    /// A number; its value when it is a non-negative integer that fits `u64`.
    Number(Option<u64>),
    Text(String),
    /// An array or an object.
    Other,
}

/// The member `key` of the JSON document `doc`, or `None` where `doc` is
/// not a well-formed JSON object.
pub uninterp spec fn json_member(doc: Seq<u8>, key: Seq<char>) -> Option<JsonField>;

/// Relies on `serde_json::from_slice` (into `serde_json::Value`) and on
/// `serde_json::Map::get`: the document is parsed, and the member is looked
/// up among the top-level object's members.
#[verifier::external_body]
fn document_member(doc: &[u8], key: &str) -> (r: Option<JsonField>)
    ensures
        r == json_member(doc@, key@),
{
    let value: serde_json::Value = serde_json::from_slice(doc).ok()?;
    let member = match &value {
        serde_json::Value::Object(members) => members.get(key),
        _ => return None,
    };
    Some(match member {
        None => JsonField::Absent,
        Some(serde_json::Value::Null) => JsonField::Null,
        Some(serde_json::Value::Bool(b)) => JsonField::Bool(*b),
        Some(serde_json::Value::Number(n)) => JsonField::Number(n.as_u64()),
        Some(serde_json::Value::String(s)) => JsonField::Text(s.clone()),
        Some(_) => JsonField::Other,
    })
}

/// A flag member: its value, the default when absent, else unreadable.
pub open spec fn bool_member(f: Option<JsonField>, default: bool) -> Option<bool> {
    match f {
        Some(JsonField::Absent) => Some(default),
        Some(JsonField::Bool(b)) => Some(b),
        _ => None,
    }
}

/// A small-integer member: its value when it fits a byte, the default when
/// absent, else unreadable.
pub open spec fn u8_member(f: Option<JsonField>, default: u8) -> Option<u8> {
    match f {
        Some(JsonField::Absent) => Some(default),
        Some(JsonField::Number(Some(n))) => if n <= 255 {
            Some(n as u8)
        } else {
            None
        },
        _ => None,
    }
}

/// An optional text member: absent and null both mean none.
pub open spec fn optional_text_member(f: Option<JsonField>) -> Option<Option<Seq<char>>> {
    match f {
        Some(JsonField::Absent) | Some(JsonField::Null) => Some(None),
        Some(JsonField::Text(s)) => Some(Some(s@)),
        _ => None,
    }
}

/// A text member with a default.
pub open spec fn text_member(f: Option<JsonField>, default: Seq<char>) -> Option<Seq<char>> {
    match f {
        Some(JsonField::Absent) => Some(default),
        Some(JsonField::Text(s)) => Some(s@),
        _ => None,
    }
}

/// `doc` is an options document whose every member can be read.
pub open spec fn document_readable(doc: Seq<u8>) -> bool {
    &&& bool_member(json_member(doc, "lossless"@), false).is_some()
    &&& u8_member(json_member(doc, "quality"@), 80).is_some()
    &&& u8_member(json_member(doc, "near_lossless"@), 100).is_some()
    &&& u8_member(json_member(doc, "compression_level"@), 6).is_some()
    &&& optional_text_member(json_member(doc, "preset"@)).is_some()
    &&& u8_member(json_member(doc, "method"@), 4).is_some()
    &&& text_member(json_member(doc, "response_type"@), "webp"@).is_some()
}

/// `p` holds what the readable document `doc` says, with the defaults.
pub open spec fn params_from_document(p: ConvertParams, doc: Seq<u8>) -> bool {
    &&& Some(p.lossless) == bool_member(json_member(doc, "lossless"@), false)
    &&& Some(p.quality) == u8_member(json_member(doc, "quality"@), 80)
    &&& Some(p.near_lossless) == u8_member(json_member(doc, "near_lossless"@), 100)
    &&& Some(p.compression_level) == u8_member(json_member(doc, "compression_level"@), 6)
    &&& Some(
        match p.preset {
            Some(s) => Some(s@),
            None => None,
        },
    ) == optional_text_member(json_member(doc, "preset"@))
    &&& Some(p.method) == u8_member(json_member(doc, "method"@), 4)
    &&& Some(p.response_type@) == text_member(json_member(doc, "response_type"@), "webp"@)
}

fn read_bool(f: Option<JsonField>, default: bool) -> (r: Option<bool>)
    ensures
        r == bool_member(f, default),
{
    match f {
        Some(JsonField::Absent) => Some(default),
        Some(JsonField::Bool(b)) => Some(b),
        _ => None,
    }
}

fn read_u8(f: Option<JsonField>, default: u8) -> (r: Option<u8>)
    ensures
        r == u8_member(f, default),
{
    match f {
        Some(JsonField::Absent) => Some(default),
        Some(JsonField::Number(Some(n))) => if n <= 255 {
            Some(n as u8)
        } else {
            None
        },
        _ => None,
    }
}

fn read_optional_text(f: Option<JsonField>) -> (r: Option<Option<String>>)
    ensures
        r.is_some() == optional_text_member(f).is_some(),
        r.is_some() ==> Some(
            match r.unwrap() {
                Some(s) => Some(s@),
                None => None,
            },
        ) == optional_text_member(f),
{
    match f {
        Some(JsonField::Absent) | Some(JsonField::Null) => Some(None),
        Some(JsonField::Text(s)) => Some(Some(s)),
        _ => None,
    }
}

fn read_text(f: Option<JsonField>, default: String) -> (r: Option<String>)
    ensures
        r.is_some() == text_member(f, default@).is_some(),
        r.is_some() ==> Some(r.unwrap()@) == text_member(f, default@),
{
    match f {
        Some(JsonField::Absent) => Some(default),
        Some(JsonField::Text(s)) => Some(s),
        _ => None,
    }
}

/// Reads an options document. Each member that is left out takes its
/// default (quality 80, near-lossless 100, compression level 6, method 4,
/// lossy, no preset, response type `"webp"`); members of other names are
/// ignored. A document that is not a JSON object, or whose member has the
/// wrong type or is out of a byte's range, is malformed.
pub fn parse_params(doc: &[u8]) -> (r: Result<ConvertParams, ApiError>)
    ensures
        r.is_ok() == document_readable(doc@),
        r.is_ok() ==> params_from_document(r.unwrap(), doc@),
        r.is_err() ==> r == Err::<ConvertParams, ApiError>(
            ApiError::Validation(ValidationKind::MalformedOptions),
        ),
{
    let malformed = Err(ApiError::Validation(ValidationKind::MalformedOptions));
    let lossless = match read_bool(document_member(doc, "lossless"), default_lossless()) {
        Some(v) => v,
        None => return malformed,
    };
    let quality = match read_u8(document_member(doc, "quality"), default_quality()) {
        Some(v) => v,
        None => return malformed,
    };
    let near_lossless = match read_u8(
        document_member(doc, "near_lossless"),
        default_near_lossless(),
    ) {
        Some(v) => v,
        None => return malformed,
    };
    let compression_level = match read_u8(
        document_member(doc, "compression_level"),
        default_compression_level(),
    ) {
        Some(v) => v,
        None => return malformed,
    };
    let preset = match read_optional_text(document_member(doc, "preset")) {
        Some(v) => v,
        None => return malformed,
    };
    let method = match read_u8(document_member(doc, "method"), default_method()) {
        Some(v) => v,
        None => return malformed,
    };
    let response_type = match read_text(
        document_member(doc, "response_type"),
        default_response_type(),
    ) {
        Some(v) => v,
        None => return malformed,
    };
    Ok(
        ConvertParams {
            lossless,
            quality,
            near_lossless,
            compression_level,
            preset,
            method,
            response_type,
        },
    )
}

} // verus!
