//! Decoding from and encoding to JSON, type by type.
//!
//! Every type of the protocol says in a spec function which JSON value it is
//! written as, or read from; the executable functions are proved against
//! these. A decoder returns `None` for a value that it does not accept.

use crate::json::{
    field, integer_of, lemma_members_push, lemma_values_push, members_of, values_of, Json,
    JsonNumber, JsonValue, NumberValue,
};
use vstd::prelude::*;

verus! {

/// A type that is read from a JSON value.
pub trait FromJson: DeepView + Sized {
    /// What a JSON value is read as, or `None` where it is not accepted.
    spec fn decoded(value: JsonValue) -> Option<Self::V>;

    fn from_json(json: &Json) -> (r: Option<Self>)
        ensures
            r.deep_view() == Self::decoded(json@),
    ;
}

/// A type that is written as a JSON value.
pub trait ToJson: DeepView {
    /// The JSON value that a value is written as.
    spec fn encoded(value: Self::V) -> JsonValue;

    fn to_json(&self) -> (r: Json)
        ensures
            r@ == Self::encoded(self.deep_view()),
    ;
}

/// The integer that a value holds, if it lies between `low` and `high`.
pub open spec fn integer_between(value: JsonValue, low: int, high: int) -> Option<int> {
    match integer_of(value) {
        Some(n) => if low <= n <= high {
            Some(n)
        } else {
            None
        },
        None => None,
    }
}

/// The JSON value of an integer.
pub open spec fn integer_value(n: int) -> JsonValue {
    JsonValue::Number(NumberValue::Integer(n))
}

/// Reads the integer that a document holds, if it lies between `low` and
/// `high`.
pub fn read_integer(json: &Json, low: i128, high: i128) -> (r: Option<i128>)
    ensures
        match r {
            Some(n) => integer_between(json@, low as int, high as int) == Some(n as int),
            None => integer_between(json@, low as int, high as int) is None,
        },
{
    match json.integer() {
        Some(n) => if low <= n && n <= high {
            Some(n)
        } else {
            None
        },
        None => None,
    }
}

impl FromJson for bool {
    open spec fn decoded(value: JsonValue) -> Option<bool> {
        match value {
            JsonValue::Bool(b) => Some(b),
            _ => None,
        }
    }

    fn from_json(json: &Json) -> (r: Option<bool>) {
        match json {
            Json::Bool(b) => Some(*b),
            _ => None,
        }
    }
}

impl FromJson for u16 {
    open spec fn decoded(value: JsonValue) -> Option<u16> {
        match integer_between(value, 0, u16::MAX as int) {
            Some(n) => Some(n as u16),
            None => None,
        }
    }

    fn from_json(json: &Json) -> (r: Option<u16>) {
        match read_integer(json, 0, u16::MAX as i128) {
            Some(n) => Some(n as u16),
            None => None,
        }
    }
}

impl FromJson for u32 {
    open spec fn decoded(value: JsonValue) -> Option<u32> {
        match integer_between(value, 0, u32::MAX as int) {
            Some(n) => Some(n as u32),
            None => None,
        }
    }

    fn from_json(json: &Json) -> (r: Option<u32>) {
        match read_integer(json, 0, u32::MAX as i128) {
            Some(n) => Some(n as u32),
            None => None,
        }
    }
}

impl FromJson for u64 {
    open spec fn decoded(value: JsonValue) -> Option<u64> {
        match integer_between(value, 0, u64::MAX as int) {
            Some(n) => Some(n as u64),
            None => None,
        }
    }

    fn from_json(json: &Json) -> (r: Option<u64>) {
        match read_integer(json, 0, u64::MAX as i128) {
            Some(n) => Some(n as u64),
            None => None,
        }
    }
}

impl FromJson for usize {
    open spec fn decoded(value: JsonValue) -> Option<usize> {
        match integer_between(value, 0, usize::MAX as int) {
            Some(n) => Some(n as usize),
            None => None,
        }
    }

    fn from_json(json: &Json) -> (r: Option<usize>) {
        match read_integer(json, 0, usize::MAX as i128) {
            Some(n) => Some(n as usize),
            None => None,
        }
    }
}

impl FromJson for i64 {
    open spec fn decoded(value: JsonValue) -> Option<i64> {
        match integer_between(value, i64::MIN as int, i64::MAX as int) {
            Some(n) => Some(n as i64),
            None => None,
        }
    }

    fn from_json(json: &Json) -> (r: Option<i64>) {
        match read_integer(json, i64::MIN as i128, i64::MAX as i128) {
            Some(n) => Some(n as i64),
            None => None,
        }
    }
}

impl FromJson for String {
    open spec fn decoded(value: JsonValue) -> Option<Seq<char>> {
        match value {
            JsonValue::Text(t) => Some(t),
            _ => None,
        }
    }

    fn from_json(json: &Json) -> (r: Option<String>) {
        match json {
            Json::Text(t) => Some(t.clone()),
            _ => None,
        }
    }
}

/// Any number is accepted where the protocol has a fraction.
impl FromJson for JsonNumber {
    open spec fn decoded(value: JsonValue) -> Option<NumberValue> {
        match value {
            JsonValue::Number(n) => Some(n),
            _ => None,
        }
    }

    fn from_json(json: &Json) -> (r: Option<JsonNumber>) {
        match json {
            Json::Number(n) => Some(n.clone()),
            _ => None,
        }
    }
}

/// An array is accepted where each of its items is.
impl<T: FromJson> FromJson for Vec<T> {
    open spec fn decoded(value: JsonValue) -> Option<Seq<T::V>> {
        match value {
            JsonValue::Array(items) => if forall|i: int|
                0 <= i < items.len() ==> (#[trigger] T::decoded(items[i])) is Some {
                Some(Seq::new(items.len(), |i: int| T::decoded(items[i]).unwrap()))
            } else {
                None
            },
            _ => None,
        }
    }

    fn from_json(json: &Json) -> (r: Option<Vec<T>>) {
        match json {
            Json::Array(items) => {
                let ghost values = values_of(items@);
                let mut out: Vec<T> = Vec::new();
                let mut i: usize = 0;
                while i < items.len()
                    invariant
                        i <= items.len(),
                        out.len() == i,
                        values == values_of(items@),
                        json@ == JsonValue::Array(values),
                        forall|k: int|
                            0 <= k < i ==> (#[trigger] T::decoded(values[k])) == Some(
                                out@[k].deep_view(),
                            ),
                    decreases items.len() - i,
                {
                    assert(values[i as int] == items@[i as int]@);
                    match T::from_json(&items[i]) {
                        Some(t) => {
                            out.push(t);
                        },
                        None => {
                            return None;
                        },
                    }
                    i += 1;
                }
                proof {
                    let wanted = Self::decoded(json@).unwrap();
                    assert(out.deep_view().len() == wanted.len());
                    assert forall|k: int| 0 <= k < wanted.len() implies out.deep_view()[k]
                        == wanted[k] by {
                        assert(T::decoded(values[k]) == Some(out@[k].deep_view()));
                    }
                    assert(out.deep_view() =~= wanted);
                }
                Some(out)
            },
            _ => None,
        }
    }
}

impl ToJson for bool {
    open spec fn encoded(value: bool) -> JsonValue {
        JsonValue::Bool(value)
    }

    fn to_json(&self) -> (r: Json) {
        Json::Bool(*self)
    }
}

impl ToJson for u32 {
    open spec fn encoded(value: u32) -> JsonValue {
        integer_value(value as int)
    }

    fn to_json(&self) -> (r: Json) {
        Json::Number(JsonNumber::Unsigned(*self as u64))
    }
}

impl ToJson for u64 {
    open spec fn encoded(value: u64) -> JsonValue {
        integer_value(value as int)
    }

    fn to_json(&self) -> (r: Json) {
        Json::Number(JsonNumber::Unsigned(*self))
    }
}

impl ToJson for usize {
    open spec fn encoded(value: usize) -> JsonValue {
        integer_value(value as int)
    }

    fn to_json(&self) -> (r: Json) {
        Json::Number(JsonNumber::Unsigned(*self as u64))
    }
}

impl ToJson for i64 {
    open spec fn encoded(value: i64) -> JsonValue {
        integer_value(value as int)
    }

    fn to_json(&self) -> (r: Json) {
        Json::Number(JsonNumber::Signed(*self))
    }
}

impl ToJson for String {
    open spec fn encoded(value: Seq<char>) -> JsonValue {
        JsonValue::Text(value)
    }

    fn to_json(&self) -> (r: Json) {
        Json::Text(self.clone())
    }
}

impl ToJson for JsonNumber {
    open spec fn encoded(value: NumberValue) -> JsonValue {
        JsonValue::Number(value)
    }

    fn to_json(&self) -> (r: Json) {
        Json::Number(self.clone())
    }
}

/// A sequence is written as the array of its items, in their order.
impl<T: ToJson> ToJson for Vec<T> {
    open spec fn encoded(value: Seq<T::V>) -> JsonValue {
        JsonValue::Array(Seq::new(value.len(), |i: int| T::encoded(value[i])))
    }

    fn to_json(&self) -> (r: Json) {
        let mut items: Vec<Json> = Vec::new();
        let mut i: usize = 0;
        while i < self.len()
            invariant
                i <= self.len(),
                items.len() == i,
                forall|k: int|
                    0 <= k < i ==> (#[trigger] values_of(items@)[k]) == T::encoded(
                        self@[k].deep_view(),
                    ),
            decreases self.len() - i,
        {
            let item = self[i].to_json();
            proof {
                lemma_values_push(items@, item);
            }
            items.push(item);
            i += 1;
        }
        assert(values_of(items@) =~= Self::encoded(self.deep_view())->Array_0);
        Json::Array(items)
    }
}

impl<T: ToJson> ToJson for Box<T> {
    open spec fn encoded(value: T::V) -> JsonValue {
        T::encoded(value)
    }

    fn to_json(&self) -> (r: Json) {
        (**self).to_json()
    }
}

/// The member `key` of an object, which must be there and be accepted.
#[verifier::opaque]
pub open spec fn required<T: FromJson>(object: JsonValue, key: Seq<char>) -> Option<T::V> {
    match field(object, key) {
        Some(v) => T::decoded(v),
        None => None,
    }
}

/// The member `key` of an object, which may be missing or `null`; where it is
/// there, it must be accepted.
#[verifier::opaque]
pub open spec fn optional<T: FromJson>(object: JsonValue, key: Seq<char>) -> Option<Option<T::V>> {
    match field(object, key) {
        None => Some(None),
        Some(JsonValue::Null) => Some(None),
        Some(v) => match T::decoded(v) {
            Some(t) => Some(Some(t)),
            None => None,
        },
    }
}

/// The member `key` of an object, `false` where it is missing; where it is
/// there, it must be a boolean.
#[verifier::opaque]
pub open spec fn flag(object: JsonValue, key: Seq<char>) -> Option<bool> {
    match field(object, key) {
        None => Some(false),
        Some(v) => bool::decoded(v),
    }
}

/// The member `key` of an object, empty where it is missing; where it is
/// there, it must be an array of accepted items.
#[verifier::opaque]
pub open spec fn listed<T: FromJson>(object: JsonValue, key: Seq<char>) -> Option<Seq<T::V>> {
    match field(object, key) {
        None => Some(Seq::empty()),
        Some(v) => Vec::<T>::decoded(v),
    }
}

/// Reads the member `key` of an object, which must be there.
pub fn read_required<T: FromJson>(object: &Json, key: &str) -> (r: Option<T>)
    ensures
        r.deep_view() == required::<T>(object@, key@),
{
    reveal(required);
    match object.get(key) {
        Some(v) => T::from_json(v),
        None => None,
    }
}

/// Reads the member `key` of an object, which may be missing or `null`.
pub fn read_optional<T: FromJson>(object: &Json, key: &str) -> (r: Option<Option<T>>)
    ensures
        r.deep_view() == optional::<T>(object@, key@),
{
    reveal(optional);
    match object.get(key) {
        None => Some(None),
        Some(v) => if v.is_null() {
            Some(None)
        } else {
            match T::from_json(v) {
                Some(t) => Some(Some(t)),
                None => None,
            }
        },
    }
}

/// Reads the member `key` of an object, `false` where it is missing.
pub fn read_flag(object: &Json, key: &str) -> (r: Option<bool>)
    ensures
        r == flag(object@, key@),
{
    reveal(flag);
    match object.get(key) {
        None => Some(false),
        Some(v) => bool::from_json(v),
    }
}

/// Reads the member `key` of an object, empty where it is missing.
pub fn read_listed<T: FromJson>(object: &Json, key: &str) -> (r: Option<Vec<T>>)
    ensures
        r.deep_view() == listed::<T>(object@, key@),
{
    reveal(listed);
    match object.get(key) {
        None => {
            let empty: Vec<T> = Vec::new();
            assert(empty.deep_view() =~= Seq::<T::V>::empty());
            Some(empty)
        },
        Some(v) => Vec::<T>::from_json(v),
    }
}

/// The member that an optional value is written as: none where there is no
/// value.
pub open spec fn entry(key: Seq<char>, value: Option<JsonValue>) -> Seq<(Seq<char>, JsonValue)> {
    match value {
        Some(v) => seq![(key, v)],
        None => Seq::empty(),
    }
}

/// The JSON value of an optional value, where there is one.
pub open spec fn encoded_option<T: ToJson>(value: Option<T::V>) -> Option<JsonValue> {
    match value {
        Some(v) => Some(T::encoded(v)),
        None => None,
    }
}

/// Appends the member `key` with a value.
pub fn put(members: &mut Vec<(String, Json)>, key: &str, value: Json)
    ensures
        members_of(final(members)@) == members_of(old(members)@).push((key@, value@)),
{
    let name = key.to_owned();
    proof {
        lemma_members_push(members@, name, value);
    }
    members.push((name, value));
}

/// Appends the member `key` where there is a value for it.
pub fn put_optional<T: ToJson>(members: &mut Vec<(String, Json)>, key: &str, value: &Option<T>)
    ensures
        members_of(final(members)@) == members_of(old(members)@) + entry(
            key@,
            encoded_option::<T>(value.deep_view()),
        ),
{
    match value {
        Some(v) => {
            let json = v.to_json();
            put(members, key, json);
            assert(members_of(members@) =~= members_of(old(members)@) + entry(
                key@,
                encoded_option::<T>(value.deep_view()),
            ));
        },
        None => {
            assert(members_of(members@) =~= members_of(old(members)@) + entry(
                key@,
                encoded_option::<T>(value.deep_view()),
            ));
        },
    }
}

} // verus!
