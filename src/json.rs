//! What the decoder reads of a JSON text, through serde_json.
use vstd::prelude::*;

verus! {

/// Makes `serde_json::Value`, a parsed JSON value, usable in the library's
/// signatures; what it holds is read only through `shape_of`.
#[verifier::external_type_specification]
#[verifier::external_body]
pub struct ExValue(serde_json::Value);

/// What the decoder can see of a parsed JSON value.
pub enum JsonShape {
    Null,
    Bool(bool),
    Number,
    Text(Seq<char>),
    Array,
    /// The members of an object, by key.
    Object(Map<Seq<char>, serde_json::Value>),
}

/// The contents of a `serde_json::Value`.
pub uninterp spec fn shape_of(v: serde_json::Value) -> JsonShape;

/// What `serde_json::from_str` makes of a text when asked for an object:
/// its members, or the parser's diagnostic.
pub uninterp spec fn object_from_text(s: Seq<char>) -> Result<
    Map<Seq<char>, serde_json::Value>,
    Seq<char>,
>;

/// The diagnostic that `serde_json::from_value` gives for a value that is
/// not a string.
pub uninterp spec fn not_a_string_message(v: serde_json::Value) -> Seq<char>;

/// Relies on `serde_json::from_str::<serde_json::Map<String, Value>>`, which
/// succeeds exactly on the texts that hold one JSON object, and on the
/// `Display` text of its error.
#[verifier::external_body]
pub(crate) fn parse_object(text: &str) -> (r: Result<serde_json::Value, String>)
    ensures
        match r {
            Ok(v) => object_from_text(text@) is Ok && shape_of(v) == JsonShape::Object(
                object_from_text(text@)->Ok_0,
            ),
            Err(e) => object_from_text(text@) is Err && object_from_text(text@)->Err_0 == e@,
        },
{
    match serde_json::from_str::<serde_json::Map<String, serde_json::Value>>(text) {
        Ok(members) => Ok(serde_json::Value::Object(members)),
        Err(e) => Err(e.to_string()),
    }
}

/// Relies on `serde_json::Value::pointer`: on an object, the pointer `/key`
/// for a key without `/` or `~` finds the member under that key, if any.
pub assume_specification<'a>[ serde_json::Value::pointer ](
    v: &'a serde_json::Value,
    pointer: &str,
) -> (r: Option<&'a serde_json::Value>)
    ensures
        forall|key: Seq<char>|
            #![trigger seq!['/'] + key]
            pointer@ == seq!['/'] + key && !key.contains('/') && !key.contains('~')
                && shape_of(*v) is Object ==> match r {
                Some(m) => shape_of(*v)->Object_0.contains_key(key) && *m
                    == shape_of(*v)->Object_0[key],
                None => !shape_of(*v)->Object_0.contains_key(key),
            },
;

/// Relies on `serde_json::from_value::<String>`: it gives the text of a JSON
/// string and fails on every other value, with the `Display` text of its
/// error.
#[verifier::external_body]
pub(crate) fn string_of(v: &serde_json::Value) -> (r: Result<String, String>)
    ensures
        match r {
            Ok(s) => shape_of(*v) == JsonShape::Text(s@),
            Err(e) => !(shape_of(*v) is Text) && e@ == not_a_string_message(*v),
        },
{
    match serde_json::from_value::<String>(v.clone()) {
        Ok(s) => Ok(s),
        Err(e) => Err(e.to_string()),
    }
}

} // verus!
