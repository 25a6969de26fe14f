//! JSON values of serde_json, as the exports build them, and what they hold.
use vstd::prelude::*;

verus! {

#[verifier::external_type_specification]
#[verifier::external_body]
pub struct ExValue(serde_json::Value);

#[verifier::external_type_specification]
#[verifier::external_body]
#[verifier::reject_recursive_types(K)]
#[verifier::reject_recursive_types(V)]
pub struct ExMap<K, V>(serde_json::Map<K, V>);

/// What a JSON value holds.
pub enum JsonModel {
    Null,
    Bool(bool),
    Number(nat),
    Text(Seq<char>),
    List(Seq<JsonModel>),
    /// Members in their order.
    Object(Seq<(Seq<char>, JsonModel)>),
}

/// What a serde_json value holds.
pub uninterp spec fn model_of(v: serde_json::Value) -> JsonModel;

/// The members of a serde_json map, in their order.
pub uninterp spec fn members_of(m: serde_json::Map<String, serde_json::Value>) -> Seq<(Seq<char>, JsonModel)>;

/// The pretty-printed text that serde_json writes for a value holding `m`.
pub uninterp spec fn pretty_json_of(m: JsonModel) -> Seq<char>;

/// The members after inserting `k`: a key already there keeps its place and
/// takes the new value; a new key goes last.
pub open spec fn upsert(m: Seq<(Seq<char>, JsonModel)>, k: Seq<char>, v: JsonModel) -> Seq<(Seq<char>, JsonModel)> {
    if exists|i: int| 0 <= i < m.len() && #[trigger] m[i].0 == k {
        let i = choose|i: int| 0 <= i < m.len() && #[trigger] m[i].0 == k;
        m.update(i, (k, v))
    } else {
        m.push((k, v))
    }
}

/// Relies on serde_json::Value::Null.
#[verifier::external_body]
pub(crate) fn json_null() -> (r: serde_json::Value)
    ensures
        model_of(r) == JsonModel::Null,
{
    serde_json::Value::Null
}

/// Relies on serde_json::Value::Bool.
#[verifier::external_body]
pub(crate) fn json_bool(b: bool) -> (r: serde_json::Value)
    ensures
        model_of(r) == JsonModel::Bool(b),
{
    serde_json::Value::Bool(b)
}

/// Relies on serde_json's `From<u64>` for `Value`: the number itself.
#[verifier::external_body]
pub(crate) fn json_number(n: u64) -> (r: serde_json::Value)
    ensures
        model_of(r) == JsonModel::Number(n as nat),
{
    serde_json::Value::from(n)
}

/// Relies on serde_json::Value::String.
#[verifier::external_body]
pub(crate) fn json_text(s: &str) -> (r: serde_json::Value)
    ensures
        model_of(r) == JsonModel::Text(s@),
{
    serde_json::Value::String(s.to_string())
}

/// Relies on serde_json::Value::Array: the values in their order.
#[verifier::external_body]
pub(crate) fn json_list(items: Vec<serde_json::Value>) -> (r: serde_json::Value)
    ensures
        model_of(r) == JsonModel::List(items@.map_values(|v: serde_json::Value| model_of(v))),
{
    serde_json::Value::Array(items)
}

/// Relies on serde_json::Map::new: no members.
#[verifier::external_body]
pub(crate) fn json_map() -> (r: serde_json::Map<String, serde_json::Value>)
    ensures
        members_of(r) == Seq::<(Seq<char>, JsonModel)>::empty(),
{
    serde_json::Map::new()
}

/// Relies on serde_json::Map::insert, which with the `preserve_order` feature
/// is IndexMap's insert: an existing key keeps its place and takes the new
/// value, a new key goes last.
#[verifier::external_body]
pub(crate) fn json_insert(m: &mut serde_json::Map<String, serde_json::Value>, k: String, v: serde_json::Value)
    ensures
        members_of(*final(m)) == upsert(members_of(*old(m)), k@, model_of(v)),
{
    m.insert(k, v);
}

/// Relies on serde_json::Value::Object.
#[verifier::external_body]
pub(crate) fn json_object(m: serde_json::Map<String, serde_json::Value>) -> (r: serde_json::Value)
    ensures
        model_of(r) == JsonModel::Object(members_of(m)),
{
    serde_json::Value::Object(m)
}

/// Relies on serde_json::to_string_pretty, which cannot fail for a value
/// whose keys are strings.
#[verifier::external_body]
pub(crate) fn pretty_text(v: &serde_json::Value) -> (r: String)
    ensures
        r@ == pretty_json_of(model_of(*v)),
{
    serde_json::to_string_pretty(v).unwrap_or_default()
}

/// The compact text that serde_json writes for a value holding `m`.
pub uninterp spec fn compact_json_of(m: JsonModel) -> Seq<char>;

/// Relies on serde_json::to_string, which cannot fail for a value whose keys
/// are strings.
#[verifier::external_body]
pub(crate) fn compact_text(v: &serde_json::Value) -> (r: String)
    ensures
        r@ == compact_json_of(model_of(*v)),
{
    serde_json::to_string(v).unwrap_or_default()
}

} // verus!
