//! JSON documents, built and printed by `serde_json`.
//!
//! The library describes a document by its [`JsonModel`]. The calls into
//! `serde_json` are the small functions at the end of this file. Their
//! contracts are not proved: they state what `serde_json` does, and everything
//! that the library proves of a document rests on them.

use vstd::prelude::*;

verus! {

/// The structure of a JSON document, as far as this library builds one.
pub enum JsonModel {
    /// `true` or `false`.
    Flag(bool),
    /// A non-negative whole number.
    Number(nat),
    /// A string.
    Text(Seq<char>),
    /// An array, in order.
    Array(Seq<JsonModel>),
    /// An object: its members in the order in which they are written.
    Object(Seq<(Seq<char>, JsonModel)>),
}

/// `serde_json::Value`, a JSON document. Nothing inside it is visible to the
/// proofs; what it holds is spoken of through [`json_model`].
#[verifier::external_type_specification]
#[verifier::external_body]
pub struct ExJsonValue(serde_json::Value);

/// `serde_json::Error`, the reason for which printing failed. It is carried,
/// not read.
#[verifier::external_type_specification]
#[verifier::external_body]
pub struct ExJsonError(serde_json::Error);

/// The structure of the document that a `serde_json::Value` holds. The
/// functions below that make a value say what structure they give it.
pub uninterp spec fn json_model(value: serde_json::Value) -> JsonModel;

/// The text that `serde_json::to_string_pretty` prints for a document of this
/// structure: the document over several lines, nested members indented by two
/// spaces. It is named and not written out here.
pub uninterp spec fn pretty_json(document: JsonModel) -> Seq<char>;

/// The models of a sequence of values, in order.
pub open spec fn item_models(items: Seq<serde_json::Value>) -> Seq<JsonModel> {
    Seq::new(items.len(), |i: int| json_model(items[i]))
}

/// The members that a sequence of named values stands for, in order.
pub open spec fn member_models(members: Seq<(String, serde_json::Value)>) -> Seq<
    (Seq<char>, JsonModel),
> {
    Seq::new(members.len(), |i: int| (members[i].0@, json_model(members[i].1)))
}

/// No two of the named values carry the same name.
pub open spec fn distinct_names(members: Seq<(String, serde_json::Value)>) -> bool {
    forall|i: int, j: int|
        0 <= i < j < members.len() ==> (#[trigger] members[i]).0@ != (#[trigger] members[j]).0@
}

/// `serde_json::Value::Bool`: the value holds the given boolean.
#[verifier::external_body]
pub(crate) fn json_flag(flag: bool) -> (value: serde_json::Value)
    ensures
        json_model(value) == JsonModel::Flag(flag),
{
    serde_json::Value::Bool(flag)
}

/// `From<u32> for serde_json::Value`: the value holds the given number.
#[verifier::external_body]
pub(crate) fn json_number(number: u32) -> (value: serde_json::Value)
    ensures
        json_model(value) == JsonModel::Number(number as nat),
{
    serde_json::Value::from(number)
}

/// `serde_json::Value::String`: the value holds the given text.
#[verifier::external_body]
pub(crate) fn json_text(text: String) -> (value: serde_json::Value)
    ensures
        json_model(value) == JsonModel::Text(text@),
{
    serde_json::Value::String(text)
}

/// `serde_json::Value::Array`: the value holds the given items in their order.
#[verifier::external_body]
pub(crate) fn json_array(items: Vec<serde_json::Value>) -> (value: serde_json::Value)
    ensures
        json_model(value) == JsonModel::Array(item_models(items@)),
{
    serde_json::Value::Array(items)
}

/// `FromIterator<(String, Value)> for serde_json::Map`, wrapped in
/// `serde_json::Value::Object`. `serde_json` is built with its feature
/// `preserve_order`, under which the map keeps its members in the order in which
/// they were put in: members with distinct names come out as they were given.
#[verifier::external_body]
pub(crate) fn json_object(members: Vec<(String, serde_json::Value)>) -> (value: serde_json::Value)
    requires
        distinct_names(members@),
    ensures
        json_model(value) == JsonModel::Object(member_models(members@)),
{
    serde_json::Value::Object(members.into_iter().collect())
}

/// `serde_json::to_string_pretty` on a `serde_json::Value`: it gives a text, and
/// the text depends on the structure of the document alone. It cannot fail on
/// such a value: the serializer hands on no error but its writer's, it writes
/// into a byte vector, and the names of a value's members are strings.
#[verifier::external_body]
pub(crate) fn json_pretty(value: &serde_json::Value) -> (out: Result<String, serde_json::Error>)
    ensures
        out is Ok,
        out matches Ok(text) ==> text@ == pretty_json(json_model(*value)),
{
    serde_json::to_string_pretty(value)
}

/// `Display for serde_json::Error`: the error's message. Nothing is claimed of it.
#[verifier::external_body]
pub(crate) fn json_error_text(error: &serde_json::Error) -> String {
    error.to_string()
}

} // verus!
