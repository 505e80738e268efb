//! Reading a text out of a JSON body. The body is a `serde_json::Value`; a
//! member of it becomes a BSON value the way the database driver converts
//! it, and counts as a text where that BSON value is a string.

use vstd::prelude::*;
use mongodb::bson::Bson;
use serde_json::Value;

verus! {

/// `serde_json::Value`, carried through as it is.
#[verifier::external_type_specification]
#[verifier::external_body]
pub struct ExJsonValue(serde_json::Value);

/// `mongodb::bson::Bson`, carried through as it is.
#[verifier::external_type_specification]
#[verifier::external_body]
pub struct ExBson(mongodb::bson::Bson);

/// `mongodb::bson::ser::Error`, carried through as it is.
#[verifier::external_type_specification]
#[verifier::external_body]
pub struct ExBsonError(mongodb::bson::ser::Error);

/// What `serde_json::Value::get` returns for a JSON value and a string key.
pub uninterp spec fn json_member(form: Value, key: Seq<char>) -> Option<Value>;

/// What `mongodb::bson::to_bson` returns for a JSON value, `None` standing
/// for its error.
pub uninterp spec fn json_bson(value: Value) -> Option<Bson>;

/// What `mongodb::bson::Bson::as_str` returns for a BSON value.
pub uninterp spec fn bson_text(value: Bson) -> Option<Seq<char>>;

/// `serde_json::Value::get` with a string key: the member under the key
/// where the value is an object that has one. Assumed of it: it returns,
/// and what it returns is fixed by the value and the key.
#[verifier::external_body]
fn member<'a>(form: &'a Value, key: &str) -> (found: Option<&'a Value>)
    ensures
        found is Some <==> json_member(*form, key@) is Some,
        found is Some ==> *found->0 == json_member(*form, key@)->0,
{
    form.get(key)
}

/// `mongodb::bson::to_bson` on a JSON value: the value as the driver's
/// serializer writes it, or the serializer's error. Assumed of it: it
/// returns, and whether it succeeds, and the BSON value it then gives, are
/// fixed by the JSON value.
#[verifier::external_body]
fn to_bson(value: &Value) -> (converted: Result<Bson, mongodb::bson::ser::Error>)
    ensures
        converted is Ok <==> json_bson(*value) is Some,
        converted is Ok ==> converted->Ok_0 == json_bson(*value)->0,
{
    mongodb::bson::to_bson(value)
}

/// `mongodb::bson::Bson::as_str`: the text of a BSON string, nothing for
/// any other BSON value. Assumed of it: whether it gives a text, and which,
/// is fixed by the BSON value.
pub assume_specification<'a>[ mongodb::bson::Bson::as_str ](value: &'a Bson) -> (text: Option<&'a str>)
    ensures
        text is Some <==> bson_text(*value) is Some,
        text is Some ==> text->0@ == bson_text(*value)->0,
;

/// The text that `form` holds under `key`: the member is there, converts to
/// BSON, and the BSON value is a string. `None` in every other case.
pub open spec fn coerced_text(form: Value, key: Seq<char>) -> Option<Seq<char>> {
    match json_member(form, key) {
        Some(value) => match json_bson(value) {
            Some(converted) => bson_text(converted),
            None => None,
        },
        None => None,
    }
}

/// The view of an optional text.
pub open spec fn text_view(text: Option<String>) -> Option<Seq<char>> {
    match text {
        Some(t) => Some(t@),
        None => None,
    }
}

/// The text of a converted member: the text of the BSON value where the
/// conversion succeeded and gave a string, nothing where it failed or gave
/// anything else.
pub fn coerce(converted: Result<Bson, mongodb::bson::ser::Error>) -> (text: Option<String>)
    ensures
        text_view(text) == match converted {
            Ok(value) => bson_text(value),
            Err(_) => None,
        },
{
    match converted {
        Ok(value) => match value.as_str() {
            Some(text) => Some(text.to_owned()),
            None => None,
        },
        Err(_) => None,
    }
}

/// The text under `key` in a JSON body, if it holds one there. A member
/// that is missing, that does not convert, or that converts to something
/// other than a string gives nothing, and so does a body that is no
/// object.
pub fn text_member(form: &Value, key: &str) -> (text: Option<String>)
    ensures
        text_view(text) == coerced_text(*form, key@),
{
    match member(form, key) {
        Some(value) => coerce(to_bson(value)),
        None => None,
    }
}

} // verus!
