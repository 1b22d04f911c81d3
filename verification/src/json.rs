//! JSON documents as plain values.
//!
//! The wire protocol is JSON. Reading and writing JSON text is the work of
//! `serde_json`; what a document holds is modelled here, so that the codec
//! built on top of it can be stated and proved over [`JsonValue`].

use serde_json::Value;
use vstd::prelude::*;

verus! {

/// A JSON number. A number with a fraction or an exponent is held as its
/// decimal text, as `serde_json` prints it.
#[derive(Debug, PartialEq, Eq)]
pub enum JsonNumber {
    Unsigned(u64),
    Signed(i64),
    Real(String),
}

/// The mathematical value of a [`JsonNumber`].
pub enum NumberValue {
    Integer(int),
    Real(Seq<char>),
}

impl DeepView for JsonNumber {
    type V = NumberValue;

    open spec fn deep_view(&self) -> NumberValue {
        match self {
            JsonNumber::Unsigned(n) => NumberValue::Integer(*n as int),
            JsonNumber::Signed(n) => NumberValue::Integer(*n as int),
            JsonNumber::Real(t) => NumberValue::Real(t@),
        }
    }
}

impl Clone for JsonNumber {
    fn clone(&self) -> (r: Self)
        ensures
            r.deep_view() == self.deep_view(),
    {
        match self {
            JsonNumber::Unsigned(n) => JsonNumber::Unsigned(*n),
            JsonNumber::Signed(n) => JsonNumber::Signed(*n),
            JsonNumber::Real(t) => JsonNumber::Real(t.clone()),
        }
    }
}

/// A JSON document. The members of an object keep the order in which they
/// were written.
#[derive(Debug, PartialEq, Eq)]
pub enum Json {
    Null,
    Bool(bool),
    Number(JsonNumber),
    Text(String),
    Array(Vec<Json>),
    Object(Vec<(String, Json)>),
}

/// The mathematical value of a [`Json`] document.
pub enum JsonValue {
    Null,
    Bool(bool),
    Number(NumberValue),
    Text(Seq<char>),
    Array(Seq<JsonValue>),
    Object(Seq<(Seq<char>, JsonValue)>),
}

/// The value of each document of a sequence.
pub open spec fn values_of(items: Seq<Json>) -> Seq<JsonValue>
    decreases items, 0int,
{
    Seq::new(
        items.len(),
        |i: int|
            if 0 <= i < items.len() {
                value_of(items[i])
            } else {
                JsonValue::Null
            },
    )
}

/// The key and value of each member of a sequence.
pub open spec fn members_of(members: Seq<(String, Json)>) -> Seq<(Seq<char>, JsonValue)>
    decreases members, 0int,
{
    Seq::new(
        members.len(),
        |i: int|
            if 0 <= i < members.len() {
                (members[i].0@, value_of(members[i].1))
            } else {
                (Seq::empty(), JsonValue::Null)
            },
    )
}

/// The value that a document stands for.
pub open spec fn value_of(json: Json) -> JsonValue
    decreases json, 1int,
{
    match json {
        Json::Null => JsonValue::Null,
        Json::Bool(b) => JsonValue::Bool(b),
        Json::Number(n) => JsonValue::Number(n.deep_view()),
        Json::Text(t) => JsonValue::Text(t@),
        Json::Array(items) => JsonValue::Array(values_of(items@)),
        Json::Object(members) => JsonValue::Object(members_of(members@)),
    }
}

impl View for Json {
    type V = JsonValue;

    open spec fn view(&self) -> JsonValue {
        value_of(*self)
    }
}

impl DeepView for Json {
    type V = JsonValue;

    open spec fn deep_view(&self) -> JsonValue {
        value_of(*self)
    }
}

/// The value of the first member named `key`, if there is one.
pub open spec fn member(members: Seq<(Seq<char>, JsonValue)>, key: Seq<char>) -> Option<JsonValue>
    decreases members.len(),
{
    if members.len() == 0 {
        None
    } else if members[0].0 == key {
        Some(members[0].1)
    } else {
        member(members.drop_first(), key)
    }
}

/// The member `key` of an object; nothing for any other value.
pub open spec fn field(value: JsonValue, key: Seq<char>) -> Option<JsonValue> {
    match value {
        JsonValue::Object(members) => member(members, key),
        _ => None,
    }
}

/// The integer that a value holds, if it is an integer.
pub open spec fn integer_of(value: JsonValue) -> Option<int> {
    match value {
        JsonValue::Number(NumberValue::Integer(n)) => Some(n),
        _ => None,
    }
}

/// Appending a document to a sequence appends its value.
pub proof fn lemma_values_push(items: Seq<Json>, last: Json)
    ensures
        values_of(items.push(last)) == values_of(items).push(value_of(last)),
{
    assert(values_of(items.push(last)) =~= values_of(items).push(value_of(last)));
}

/// Appending a member to a sequence appends its key and value.
pub proof fn lemma_members_push(members: Seq<(String, Json)>, key: String, value: Json)
    ensures
        members_of(members.push((key, value))) == members_of(members).push((key@, value_of(value))),
{
    assert(members_of(members.push((key, value))) =~= members_of(members).push(
        (key@, value_of(value)),
    ));
}

/// What `serde_json` reads from the bytes of a JSON text: the document that
/// they spell, or nothing where they spell none.
pub uninterp spec fn parsed_json(bytes: Seq<u8>) -> Option<JsonValue>;

/// The compact JSON text that `serde_json` writes for a value, or nothing
/// where it refuses the value (a `Real` whose text is not a number).
pub uninterp spec fn rendered_json(value: JsonValue) -> Option<Seq<char>>;

/// `serde_json::Value`, which the conversions below take and give. Nothing of
/// what it holds is visible to the verifier.
#[verifier::external_type_specification]
#[verifier::external_body]
pub struct ExValue(Value);

/// `serde_json::Number`, which the conversions below take and give. Nothing of
/// what it holds is visible to the verifier.
#[verifier::external_type_specification]
#[verifier::external_body]
pub struct ExNumber(serde_json::Number);

/// Converts a `serde_json::Number`, read through its methods `as_u64`,
/// `as_i64` and `to_string`. Nothing is claimed of the result: the number is
/// opaque here.
#[verifier::external_body]
fn number_from_serde(number: &serde_json::Number) -> JsonNumber {
    match (number.as_u64(), number.as_i64()) {
        (Some(u), _) => JsonNumber::Unsigned(u),
        (None, Some(i)) => JsonNumber::Signed(i),
        (None, None) => JsonNumber::Real(number.to_string()),
    }
}

/// Converts to a `serde_json::Number`, by `From` for the integers and by
/// `str::parse` for a number held as text. Nothing is claimed of the result.
#[verifier::external_body]
fn number_to_serde(number: &JsonNumber) -> Option<serde_json::Number> {
    match number {
        JsonNumber::Unsigned(u) => Some(serde_json::Number::from(*u)),
        JsonNumber::Signed(i) => Some(serde_json::Number::from(*i)),
        JsonNumber::Real(t) => t.parse().ok(),
    }
}

/// Converts a `serde_json::Value`, variant by variant. Nothing is claimed of
/// the result: the value is opaque here.
#[verifier::external_body]
fn json_from_serde(value: Value) -> Json {
    match value {
        Value::Null => Json::Null,
        Value::Bool(b) => Json::Bool(b),
        Value::Number(n) => Json::Number(number_from_serde(&n)),
        Value::String(s) => Json::Text(s),
        Value::Array(a) => Json::Array(a.into_iter().map(json_from_serde).collect()),
        Value::Object(o) => Json::Object(
            o.into_iter().map(|(k, v)| (k, json_from_serde(v))).collect(),
        ),
    }
}

/// Converts to a `serde_json::Value`, variant by variant; nothing where a
/// number cannot be converted. Nothing is claimed of the result.
#[verifier::external_body]
fn json_to_serde(json: &Json) -> Option<Value> {
    Some(match json {
        Json::Null => Value::Null,
        Json::Bool(b) => Value::Bool(*b),
        Json::Number(n) => Value::Number(number_to_serde(n)?),
        Json::Text(s) => Value::String(s.clone()),
        Json::Array(a) => Value::Array(a.iter().map(json_to_serde).collect::<Option<_>>()?),
        Json::Object(o) => Value::Object(
            o.iter().map(|(k, v)| Some((k.clone(), json_to_serde(v)?))).collect::<Option<_>>()?,
        ),
    })
}

/// `serde_json::from_slice`, at `serde_json::Value`. The document read is
/// named by [`parsed_json`]: it depends on the bytes alone.
#[verifier::external_body]
fn parse_bytes(bytes: &[u8]) -> (r: Option<Json>)
    ensures
        r.deep_view() == parsed_json(bytes@),
{
    serde_json::from_slice::<Value>(bytes).ok().map(json_from_serde)
}

/// `serde_json::to_string`, at `serde_json::Value`. The text written is named
/// by [`rendered_json`]: it depends on the value alone.
#[verifier::external_body]
fn render_text(json: &Json) -> (r: Option<String>)
    ensures
        r.deep_view() == rendered_json(json@),
{
    serde_json::to_string(&json_to_serde(json)?).ok()
}

impl Json {
    /// Reads a JSON text.
    pub fn parse(bytes: &[u8]) -> (r: Option<Json>)
        ensures
            r.deep_view() == parsed_json(bytes@),
    {
        parse_bytes(bytes)
    }

    /// Writes the document as compact JSON text.
    pub fn render(&self) -> (r: Option<String>)
        ensures
            r.deep_view() == rendered_json(self@),
    {
        render_text(self)
    }

    /// Whether the document is `null`.
    pub fn is_null(&self) -> (r: bool)
        ensures
            r == (self@ is Null),
    {
        match self {
            Json::Null => true,
            _ => false,
        }
    }

    /// Whether the document is an object.
    pub fn is_object(&self) -> (r: bool)
        ensures
            r == (self@ is Object),
    {
        match self {
            Json::Object(_) => true,
            _ => false,
        }
    }

    /// The integer that the document holds, if it is an integer.
    pub fn integer(&self) -> (r: Option<i128>)
        ensures
            match r {
                Some(n) => integer_of(self@) == Some(n as int),
                None => integer_of(self@) is None,
            },
    {
        match self {
            Json::Number(JsonNumber::Unsigned(n)) => Some(*n as i128),
            Json::Number(JsonNumber::Signed(n)) => Some(*n as i128),
            _ => None,
        }
    }

    /// The member `key` of an object: the first of that name.
    pub fn get(&self, key: &str) -> (r: Option<&Json>)
        ensures
            r.deep_view() == field(self@, key@),
    {
        match self {
            Json::Object(members) => {
                let ghost all = members_of(members@);
                assert(all.skip(0) =~= all);
                let name = key.to_owned();
                let mut i: usize = 0;
                while i < members.len()
                    invariant
                        i <= members.len(),
                        all == members_of(members@),
                        name@ == key@,
                        self@ == JsonValue::Object(all),
                        member(all, key@) == member(all.skip(i as int), key@),
                    decreases members.len() - i,
                {
                    proof {
                        let rest = all.skip(i as int);
                        assert(rest[0] == all[i as int]);
                        assert(all[i as int] == (
                            members@[i as int].0@,
                            value_of(members@[i as int].1),
                        ));
                        assert(rest.drop_first() =~= all.skip(i as int + 1));
                    }
                    if members[i].0 == name {
                        return Some(&members[i].1);
                    }
                    i += 1;
                }
                None
            },
            _ => None,
        }
    }
}

} // verus!
