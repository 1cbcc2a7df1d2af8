//! The generic JSON layer: serde_json's value type, declared so that
//! verified code can carry it, and a mathematical model of what a value
//! holds, reflected through trusted accessors.

use vstd::prelude::*;

verus! {

/// serde_json's generic JSON value; its contents are reflected through
/// [`json_model`].
#[verifier::external_type_specification]
#[verifier::external_body]
pub struct ExValue(serde_json::Value);

/// serde_json's JSON object map; its contents are reflected through
/// [`obj_model`].
#[verifier::external_type_specification]
#[verifier::external_body]
#[verifier::reject_recursive_types(K)]
#[verifier::reject_recursive_types(V)]
pub struct ExJsonMap<K, V>(serde_json::Map<K, V>);

/// The mathematical shape of a JSON document, as far as this layer reads
/// one.  Numbers carry no payload because no operation here reads one.
pub enum JsonData {
    Null,
    Bool(bool),
    Num,
    Str(Seq<char>),
    Arr(Seq<JsonData>),
    Obj(Map<Seq<char>, JsonData>),
}

/// What a serde_json value holds, as a [`JsonData`] tree.
pub uninterp spec fn json_model(v: serde_json::Value) -> JsonData;

/// What a serde_json object map holds: its entries, keyed by field name.
pub uninterp spec fn obj_model(m: serde_json::Map<String, serde_json::Value>) -> Map<
    Seq<char>,
    JsonData,
>;

/// What serde_json::from_str returns on the given text: the decoded value
/// when the text is valid JSON, and nothing otherwise.
pub uninterp spec fn json_of_text(s: Seq<char>) -> Option<JsonData>;

/// Relies on serde_json::from_str::<Value>: decodes JSON text, and the result
/// is a function of the text alone; the error text names the defect.
#[verifier::external_body]
pub(crate) fn json_from_str(s: &str) -> (r: Result<serde_json::Value, String>)
    ensures
        r matches Ok(v) ==> json_of_text(s@) == Some(json_model(v)),
        r is Err <==> json_of_text(s@) is None,
{
    match serde_json::from_str::<serde_json::Value>(s) {
        Ok(v) => Ok(v),
        Err(e) => Err(format!("{}", e)),
    }
}

/// Relies on serde_json::Value::as_object: Some exactly on an object,
/// returning the map it holds.
#[verifier::external_body]
pub(crate) fn value_as_object(v: &serde_json::Value) -> (r: Option<
    &serde_json::Map<String, serde_json::Value>,
>)
    ensures
        r is Some <==> json_model(*v) is Obj,
        r matches Some(m) ==> obj_model(*m) == json_model(*v)->Obj_0,
{
    v.as_object()
}

/// Relies on serde_json::Value::as_array: Some exactly on an array,
/// returning the elements it holds.
#[verifier::external_body]
pub(crate) fn value_as_array(v: &serde_json::Value) -> (r: Option<&Vec<serde_json::Value>>)
    ensures
        r is Some <==> json_model(*v) is Arr,
        r matches Some(a) ==> a@.len() == json_model(*v)->Arr_0.len() && (forall|i: int|
            0 <= i < a@.len() ==> #[trigger] json_model(a@[i]) == json_model(*v)->Arr_0[i]),
{
    v.as_array()
}

/// Relies on serde_json::Value::as_str: Some exactly on a string,
/// returning it.
#[verifier::external_body]
pub(crate) fn value_as_str(v: &serde_json::Value) -> (r: Option<&str>)
    ensures
        r is Some <==> json_model(*v) is Str,
        r matches Some(s) ==> s@ == json_model(*v)->Str_0,
{
    v.as_str()
}

/// Relies on serde_json::Value::as_bool: Some exactly on a boolean,
/// returning it.
#[verifier::external_body]
pub(crate) fn value_as_bool(v: &serde_json::Value) -> (r: Option<bool>)
    ensures
        r is Some <==> json_model(*v) is Bool,
        r matches Some(b) ==> json_model(*v) == JsonData::Bool(b),
{
    v.as_bool()
}

/// Relies on serde_json::Map::get: Some exactly when the key is present,
/// returning the value stored under it.
#[verifier::external_body]
pub(crate) fn obj_get<'a>(
    m: &'a serde_json::Map<String, serde_json::Value>,
    key: &str,
) -> (r: Option<&'a serde_json::Value>)
    ensures
        r is Some <==> obj_model(*m).dom().contains(key@),
        r matches Some(v) ==> obj_model(*m).dom().contains(key@) && json_model(*v) == obj_model(
            *m,
        )[key@],
{
    m.get(key)
}

} // verus!
