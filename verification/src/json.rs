//! A plain model of JSON documents, and the two points at which the
//! library leans on `rustc_serialize`: encoding a string as a JSON string
//! literal, and parsing a document.

use vstd::prelude::*;

verus! {

/// A JSON value as this library sees it.
///
/// `rustc_serialize` parses the response text; its document type is opaque
/// here, so what comes back is recast into this type, whose contents the
/// contracts can speak about. An object is a list of members in the order
/// the parser hands them out (the parser keeps keys unique and sorted).
/// A floating-point number keeps only its presence: no field the analyze
/// response carries is one, and the library stores no floats.
#[derive(Debug)]
pub enum JsonValue {
    Null,
    Bool(bool),
    /// A number that fits in `u64` (never negative, no fraction).
    UInt(u64),
    /// A negative integer.
    Int(i64),
    /// A number with a fractional part; its value is not kept.
    Float,
    Str(String),
    Array(Vec<JsonValue>),
    Object(Vec<(String, JsonValue)>),
}

/// The value of the first member named `key`, if any.
pub open spec fn field_of(fields: Seq<(String, JsonValue)>, key: Seq<char>) -> Option<JsonValue>
    decreases fields.len(),
{
    if fields.len() == 0 {
        None
    } else if fields[0].0@ == key {
        Some(fields[0].1)
    } else {
        field_of(fields.drop_first(), key)
    }
}

/// The value of member `key` of an object; `None` for a non-object or a
/// missing key.
pub open spec fn member_of(v: JsonValue, key: Seq<char>) -> Option<JsonValue> {
    match v {
        JsonValue::Object(fields) => field_of(fields@, key),
        _ => None,
    }
}

/// Looks a member up in a value, as `member_of` reads it: `None` for a
/// non-object or a missing key.
pub fn json_member<'a>(v: &'a JsonValue, key: &String) -> (r: Option<&'a JsonValue>)
    ensures
        match r {
            Some(m) => member_of(*v, key@) == Some(*m),
            None => member_of(*v, key@) is None,
        },
{
    match v {
        JsonValue::Object(fields) => {
            let n = fields.len();
            let mut i: usize = 0;
            proof {
                assert(fields@.skip(0) =~= fields@);
            }
            while i < n
                invariant
                    i <= n,
                    n == fields@.len(),
                    *v == JsonValue::Object(*fields),
                    field_of(fields@, key@) == field_of(fields@.skip(i as int), key@),
                decreases n - i,
            {
                proof {
                    assert(fields@.skip(i as int)[0] == fields@[i as int]);
                }
                if fields[i].0 == *key {
                    proof {
                        assert(field_of(fields@.skip(i as int), key@) == Some(
                            fields@[i as int].1,
                        ));
                    }
                    return Some(&fields[i].1);
                }
                proof {
                    assert(fields@.skip(i as int).drop_first() =~= fields@.skip(i as int + 1));
                }
                i += 1;
            }
            None
        },
        _ => None,
    }
}

/// What `rustc_serialize`'s JSON parser makes of a document, recast as a
/// `JsonValue`: `None` where the text is not valid JSON. The parse depends
/// on the characters alone.
pub uninterp spec fn json_doc_of(text: Seq<char>) -> Option<JsonValue>;

/// What `rustc_serialize`'s compact JSON encoder writes for a string:
/// a quoted, escaped literal. The output depends on the characters alone.
pub uninterp spec fn json_string_lit(s: Seq<char>) -> Seq<char>;

/// A character the JSON encoder writes as itself: not the quote or the
/// backslash, not a control character below space, and not delete.
pub open spec fn json_plain_char(c: char) -> bool {
    c != '"' && c != '\\' && (c as u32) >= 0x20 && (c as u32) != 0x7f
}

/// A string the JSON encoder quotes verbatim, with nothing escaped.
pub open spec fn json_plain_chars(s: Seq<char>) -> bool {
    forall|i: int| 0 <= i < s.len() ==> json_plain_char(s[i])
}

/// A string between two quotes.
pub open spec fn quoted(s: Seq<char>) -> Seq<char> {
    "\""@ + s + "\""@
}

/// Relies on `rustc_serialize::json`'s compact encoder (`escape_str`): the
/// output is the input quoted, with `"`, `\`, the control characters below
/// space and delete escaped, and every other character written as itself.
#[verifier::external_body]
pub(crate) fn json_quote(s: &str) -> (r: String)
    ensures
        r@ == json_string_lit(s@),
        json_plain_chars(s@) ==> r@ == quoted(s@),
{
    rustc_serialize::json::Json::String(s.to_owned()).to_string()
}

/// The parser's document type, opaque to this library.
#[verifier::external_type_specification]
#[verifier::external_body]
pub struct ExJson(rustc_serialize::json::Json);

/// Recasts a parsed document into the library's value type: one arm per
/// variant, moving the payload. A number that fits in `u64` becomes
/// `UInt`, a negative integer `Int`, and a fractional number `Float`,
/// whose value the library does not keep.
#[verifier::external_body]
fn recast(j: &rustc_serialize::json::Json) -> JsonValue {
    match j {
        rustc_serialize::json::Json::Null => JsonValue::Null,
        rustc_serialize::json::Json::Boolean(b) => JsonValue::Bool(*b),
        rustc_serialize::json::Json::U64(n) => JsonValue::UInt(*n),
        rustc_serialize::json::Json::I64(n) => JsonValue::Int(*n),
        rustc_serialize::json::Json::F64(_) => JsonValue::Float,
        rustc_serialize::json::Json::String(s) => JsonValue::Str(s.clone()),
        rustc_serialize::json::Json::Array(a) => JsonValue::Array(a.iter().map(recast).collect()),
        rustc_serialize::json::Json::Object(o) => JsonValue::Object(
            o.iter().map(|(k, v)| (k.clone(), recast(v))).collect(),
        ),
    }
}

/// Relies on `rustc_serialize::json::Json::from_str`: the parse of a JSON
/// document depends on its characters alone, and fails exactly where the
/// text is not valid JSON. The parsed document is recast member for member
/// into the library's value type.
#[verifier::external_body]
pub(crate) fn parse_json(text: &str) -> (r: Option<JsonValue>)
    ensures
        r == json_doc_of(text@),
{
    match rustc_serialize::json::Json::from_str(text) {
        Ok(j) => Some(recast(&j)),
        Err(_) => None,
    }
}

} // verus!
