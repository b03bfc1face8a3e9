//! JSON documents as trees of plain values.

use crate::models::{opt_view, seq_view};
use serde_json::Value;
use vstd::prelude::*;

verus! {

/// What a JSON number is to this crate: an unsigned integer of at most 64
/// bits, or any other number (negative, fractional, or too large).
#[derive(Clone, Copy, Debug, PartialEq, Eq)]
pub enum Number {
    Unsigned(u64),
    Other,
}

/// A JSON value.
#[derive(Debug, PartialEq, Eq)]
pub enum Json {
    Null,
    Bool(bool),
    Number(Number),
    Text(String),
    Array(Vec<Json>),
    /// The members of an object, each a name and a value.
    Object(Vec<(String, Json)>),
}

/// The mathematical model of a [`Json`] value.
pub enum JsonModel {
    Null,
    Bool(bool),
    Number(Number),
    Text(Seq<char>),
    Array(Seq<JsonModel>),
    Object(Seq<(Seq<char>, JsonModel)>),
}

/// The model of a JSON value.
pub open spec fn model_of(j: Json) -> JsonModel
    decreases j,
{
    match j {
        Json::Null => JsonModel::Null,
        Json::Bool(b) => JsonModel::Bool(b),
        Json::Number(n) => JsonModel::Number(n),
        Json::Text(s) => JsonModel::Text(s@),
        Json::Array(items) => JsonModel::Array(models_of(items@)),
        Json::Object(members) => JsonModel::Object(member_models_of(members@)),
    }
}

/// The models of the elements of an array, in order.
pub open spec fn models_of(items: Seq<Json>) -> Seq<JsonModel>
    decreases items,
{
    if items.len() == 0 {
        Seq::empty()
    } else {
        models_of(items.drop_last()).push(model_of(items.last()))
    }
}

/// The models of the members of an object, in order.
pub open spec fn member_models_of(members: Seq<(String, Json)>) -> Seq<(Seq<char>, JsonModel)>
    decreases members,
{
    if members.len() == 0 {
        Seq::empty()
    } else {
        member_models_of(members.drop_last()).push(
            (members.last().0@, model_of(members.last().1)),
        )
    }
}

impl View for Json {
    type V = JsonModel;

    open spec fn view(&self) -> JsonModel {
        model_of(*self)
    }
}

/// The model of an array has one element for each element, its model.
pub proof fn lemma_models_of(items: Seq<Json>)
    ensures
        models_of(items).len() == items.len(),
        forall|i: int| 0 <= i < items.len() ==> #[trigger] models_of(items)[i] == items[i]@,
    decreases items.len(),
{
    if items.len() > 0 {
        lemma_models_of(items.drop_last());
    }
}

/// The model of an object has one member for each member: its name's
/// characters and its value's model.
pub proof fn lemma_member_models_of(members: Seq<(String, Json)>)
    ensures
        member_models_of(members).len() == members.len(),
        forall|i: int|
            0 <= i < members.len() ==> #[trigger] member_models_of(members)[i] == (
                members[i].0@,
                members[i].1@,
            ),
    decreases members.len(),
{
    if members.len() > 0 {
        lemma_member_models_of(members.drop_last());
    }
}

/// The value of the last member named `name` among `members`, if there is
/// one. As in a JSON text, a later member replaces an earlier one of the same
/// name.
pub open spec fn member_named(members: Seq<(Seq<char>, JsonModel)>, name: Seq<char>) -> Option<
    JsonModel,
>
    decreases members.len(),
{
    if members.len() == 0 {
        None
    } else if members.last().0 == name {
        Some(members.last().1)
    } else {
        member_named(members.drop_last(), name)
    }
}

/// A member whose name no later member bears is the one that its name finds.
pub proof fn lemma_member_found(members: Seq<(Seq<char>, JsonModel)>, i: int)
    requires
        0 <= i < members.len(),
        forall|k: int| i < k < members.len() ==> (#[trigger] members[k]).0 != members[i].0,
    ensures
        member_named(members, members[i].0) == Some(members[i].1),
    decreases members.len(),
{
    if i < members.len() - 1 {
        assert(members.last() == members[members.len() - 1]);
        lemma_member_found(members.drop_last(), i);
    }
}

impl JsonModel {
    /// The member `name` of an object; `None` for a value that is no object
    /// or has no such member.
    pub open spec fn member(self, name: Seq<char>) -> Option<JsonModel> {
        match self {
            JsonModel::Object(members) => member_named(members, name),
            _ => None,
        }
    }

    /// The integer that an unsigned number holds.
    pub open spec fn as_unsigned(self) -> Option<u64> {
        match self {
            JsonModel::Number(Number::Unsigned(n)) => Some(n),
            _ => None,
        }
    }

    /// The characters of a string.
    pub open spec fn as_text(self) -> Option<Seq<char>> {
        match self {
            JsonModel::Text(s) => Some(s),
            _ => None,
        }
    }

    /// The truth value of a boolean.
    pub open spec fn as_bool(self) -> Option<bool> {
        match self {
            JsonModel::Bool(b) => Some(b),
            _ => None,
        }
    }

    /// The elements of an array.
    pub open spec fn as_array(self) -> Option<Seq<JsonModel>> {
        match self {
            JsonModel::Array(items) => Some(items),
            _ => None,
        }
    }

    /// The integer of the member `name`, where that is an unsigned number.
    pub open spec fn unsigned_member(self, name: Seq<char>) -> Option<u64> {
        match self.member(name) {
            Some(v) => v.as_unsigned(),
            None => None,
        }
    }

    /// The characters of the member `name`, where that is a string.
    pub open spec fn text_member(self, name: Seq<char>) -> Option<Seq<char>> {
        match self.member(name) {
            Some(v) => v.as_text(),
            None => None,
        }
    }

    /// The truth value of the member `name`, where that is a boolean.
    pub open spec fn bool_member(self, name: Seq<char>) -> Option<bool> {
        match self.member(name) {
            Some(v) => v.as_bool(),
            None => None,
        }
    }
}

/// `serde_json::Value`, the tree that `serde_json` reads a document into.
/// Nothing is claimed of what it holds but through [`value_model`].
#[verifier::external_type_specification]
#[verifier::external_body]
pub struct ExValue(serde_json::Value);

/// `serde_json::Error`, carried from the parser to the place that drops it.
/// Nothing is claimed of it.
#[verifier::external_type_specification]
#[verifier::external_body]
pub struct ExError(serde_json::Error);

/// The document that `serde_json::from_slice` reads from `bytes` as a
/// `serde_json::Value`, or `None` where it reports an error.
pub uninterp spec fn document(bytes: Seq<u8>) -> Option<JsonModel>;

/// The JSON value that a `serde_json::Value` holds.
pub uninterp spec fn value_model(value: Value) -> JsonModel;

/// Calls `serde_json::from_slice` for a `serde_json::Value`. The contract
/// claims that the outcome is a function of the bytes alone: it succeeds
/// exactly where [`document`] is defined, with a value that holds that
/// document.
#[verifier::external_body]
fn value_from_slice(bytes: &[u8]) -> (r: Result<Value, serde_json::Error>)
    ensures
        r is Ok <==> document(bytes@) is Some,
        r matches Ok(value) ==> document(bytes@) == Some(value_model(value)),
{
    serde_json::from_slice::<Value>(bytes)
}

/// Copies a `serde_json::Value` into a [`Json`], variant by variant; a
/// number becomes `Unsigned` where `serde_json::Number::as_u64` gives an
/// integer, and the members of an object come in the order in which
/// `serde_json::Map::iter` yields them. The contract claims that the copy
/// holds what the value holds.
#[verifier::external_body]
fn json_of_value(value: &Value) -> (j: Json)
    ensures
        j@ == value_model(*value),
{
    match value {
        Value::Null => Json::Null,
        Value::Bool(b) => Json::Bool(*b),
        Value::Number(n) => match n.as_u64() {
            Some(u) => Json::Number(Number::Unsigned(u)),
            None => Json::Number(Number::Other),
        },
        Value::String(s) => Json::Text(s.clone()),
        Value::Array(items) => Json::Array(items.iter().map(json_of_value).collect()),
        Value::Object(members) => Json::Object(
            members.iter().map(|(name, v)| (name.clone(), json_of_value(v))).collect(),
        ),
    }
}

/// Reads a JSON document.
pub fn parse(bytes: &[u8]) -> (r: Option<Json>)
    ensures
        opt_view(r) == document(bytes@),
{
    match value_from_slice(bytes) {
        Ok(value) => Some(json_of_value(&value)),
        Err(_) => None,
    }
}

impl Json {
    /// Looks up the member `name` of an object.
    pub fn member(&self, name: &str) -> (r: Option<&Json>)
        ensures
            opt_view(r) == self@.member(name@),
    {
        match self {
            Json::Object(members) => {
                let key = String::from_str(name);
                let ghost model = self@->Object_0;
                proof {
                    lemma_member_models_of(members@);
                }
                let mut found: Option<&Json> = None;
                let mut i: usize = 0;
                while i < members.len()
                    invariant
                        i <= members.len(),
                        key@ == name@,
                        model.len() == members.len(),
                        forall|k: int|
                            0 <= k < members.len() ==> model[k] == (
                                #[trigger] members@[k].0@,
                                members@[k].1@,
                            ),
                        opt_view(found) == member_named(model.take(i as int), name@),
                    decreases members.len() - i,
                {
                    proof {
                        assert(model.take(i + 1).drop_last() =~= model.take(i as int));
                    }
                    if members[i].0 == key {
                        found = Some(&members[i].1);
                    }
                    i = i + 1;
                }
                proof {
                    assert(model.take(i as int) =~= model);
                }
                found
            },
            _ => None,
        }
    }

    /// The integer of an unsigned number.
    pub fn as_unsigned(&self) -> (r: Option<u64>)
        ensures
            r == self@.as_unsigned(),
    {
        match self {
            Json::Number(Number::Unsigned(n)) => Some(*n),
            _ => None,
        }
    }

    /// The characters of a string.
    pub fn as_text(&self) -> (r: Option<&String>)
        ensures
            opt_view(r) == self@.as_text(),
    {
        match self {
            Json::Text(s) => Some(s),
            _ => None,
        }
    }

    /// The truth value of a boolean.
    pub fn as_bool(&self) -> (r: Option<bool>)
        ensures
            r == self@.as_bool(),
    {
        match self {
            Json::Bool(b) => Some(*b),
            _ => None,
        }
    }

    /// The elements of an array.
    pub fn as_array(&self) -> (r: Option<&Vec<Json>>)
        ensures
            r is Some <==> self@.as_array() is Some,
            r matches Some(items) ==> seq_view(items@) == self@.as_array()->0,
    {
        match self {
            Json::Array(items) => {
                proof {
                    lemma_models_of(items@);
                    assert(seq_view(items@) =~= models_of(items@));
                }
                Some(items)
            },
            _ => None,
        }
    }

    /// The integer of the member `name`, where that is an unsigned number.
    pub fn unsigned_member(&self, name: &str) -> (r: Option<u64>)
        ensures
            r == self@.unsigned_member(name@),
    {
        match self.member(name) {
            Some(v) => v.as_unsigned(),
            None => None,
        }
    }

    /// A copy of the member `name`, where that is a string.
    pub fn text_member(&self, name: &str) -> (r: Option<String>)
        ensures
            opt_view(r) == self@.text_member(name@),
    {
        match self.member(name) {
            Some(v) => match v.as_text() {
                Some(s) => Some(s.clone()),
                None => None,
            },
            None => None,
        }
    }

    /// The truth value of the member `name`, where that is a boolean.
    pub fn bool_member(&self, name: &str) -> (r: Option<bool>)
        ensures
            r == self@.bool_member(name@),
    {
        match self.member(name) {
            Some(v) => v.as_bool(),
            None => None,
        }
    }
}

} // verus!
