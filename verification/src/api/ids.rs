//! What names a torrent in a call: a number, a hash, a list of these, or the
//! set of the recently active torrents.

use crate::json::{Json, JsonNumber, JsonValue};
use crate::wire::{integer_between, integer_value, read_integer, FromJson, ToJson};
use vstd::prelude::*;
use vstd::std_specs::convert::FromSpecImpl;

verus! {

/// Torrent id number or SHA1 hash string.
#[derive(Debug, PartialEq, Eq, PartialOrd, Ord, Hash)]
pub enum Id {
    Id(i64),
    Hash(String),
}

/// The mathematical value of an [`Id`].
pub enum IdView {
    Id(i64),
    Hash(Seq<char>),
}

impl DeepView for Id {
    type V = IdView;

    open spec fn deep_view(&self) -> IdView {
        match self {
            Id::Id(n) => IdView::Id(*n),
            Id::Hash(h) => IdView::Hash(h@),
        }
    }
}

impl Clone for Id {
    fn clone(&self) -> (r: Self)
        ensures
            r.deep_view() == self.deep_view(),
    {
        match self {
            Id::Id(n) => Id::Id(*n),
            Id::Hash(h) => Id::Hash(h.clone()),
        }
    }
}

impl From<i64> for Id {
    fn from(id: i64) -> (r: Id) {
        Id::Id(id)
    }
}

impl FromSpecImpl<i64> for Id {
    open spec fn obeys_from_spec() -> bool {
        true
    }

    open spec fn from_spec(id: i64) -> Id {
        Id::Id(id)
    }
}

impl From<String> for Id {
    fn from(hash: String) -> (r: Id) {
        Id::Hash(hash)
    }
}

impl FromSpecImpl<String> for Id {
    open spec fn obeys_from_spec() -> bool {
        true
    }

    open spec fn from_spec(hash: String) -> Id {
        Id::Hash(hash)
    }
}

/// An id is written bare: a number as a number, a hash as a text.
impl ToJson for Id {
    open spec fn encoded(value: IdView) -> JsonValue {
        match value {
            IdView::Id(n) => integer_value(n as int),
            IdView::Hash(h) => JsonValue::Text(h),
        }
    }

    fn to_json(&self) -> (r: Json) {
        match self {
            Id::Id(n) => Json::Number(JsonNumber::Signed(*n)),
            Id::Hash(h) => Json::Text(h.clone()),
        }
    }
}

/// An id is read by its shape: an integer that fits 64 bits is a number, a
/// text is a hash.
impl FromJson for Id {
    open spec fn decoded(value: JsonValue) -> Option<IdView> {
        match value {
            JsonValue::Text(h) => Some(IdView::Hash(h)),
            _ => match integer_between(value, i64::MIN as int, i64::MAX as int) {
                Some(n) => Some(IdView::Id(n as i64)),
                None => None,
            },
        }
    }

    fn from_json(json: &Json) -> (r: Option<Id>) {
        match json {
            Json::Text(h) => Some(Id::Hash(h.clone())),
            _ => match read_integer(json, i64::MIN as i128, i64::MAX as i128) {
                Some(n) => Some(Id::Id(n as i64)),
                None => None,
            },
        }
    }
}

/// Torrent ids should be one of the following:
/// - an integer referring to a torrent id
/// - a list of torrent id numbers, SHA1 hash strings, or both
/// - a string, recently-active, for recently-active torrents
#[derive(Debug, PartialEq, Eq, PartialOrd, Ord, Hash)]
pub enum TorrentId {
    RecentlyActive,
    Id(Id),
    List(Vec<Id>),
}

/// The mathematical value of a [`TorrentId`].
pub enum TorrentIdView {
    RecentlyActive,
    Id(IdView),
    List(Seq<IdView>),
}

impl DeepView for TorrentId {
    type V = TorrentIdView;

    open spec fn deep_view(&self) -> TorrentIdView {
        match self {
            TorrentId::RecentlyActive => TorrentIdView::RecentlyActive,
            TorrentId::Id(id) => TorrentIdView::Id(id.deep_view()),
            TorrentId::List(ids) => TorrentIdView::List(ids.deep_view()),
        }
    }
}

impl Clone for TorrentId {
    fn clone(&self) -> (r: Self)
        ensures
            r.deep_view() == self.deep_view(),
    {
        match self {
            TorrentId::RecentlyActive => TorrentId::RecentlyActive,
            TorrentId::Id(id) => TorrentId::Id(id.clone()),
            TorrentId::List(ids) => {
                let copy = ids.clone();
                assert(copy.deep_view() =~= ids.deep_view());
                TorrentId::List(copy)
            },
        }
    }
}

impl From<i64> for TorrentId {
    fn from(id: i64) -> (r: TorrentId) {
        TorrentId::Id(Id::Id(id))
    }
}

impl FromSpecImpl<i64> for TorrentId {
    open spec fn obeys_from_spec() -> bool {
        true
    }

    open spec fn from_spec(id: i64) -> TorrentId {
        TorrentId::Id(Id::Id(id))
    }
}

impl From<String> for TorrentId {
    fn from(hash: String) -> (r: TorrentId) {
        TorrentId::Id(Id::Hash(hash))
    }
}

impl FromSpecImpl<String> for TorrentId {
    open spec fn obeys_from_spec() -> bool {
        true
    }

    open spec fn from_spec(hash: String) -> TorrentId {
        TorrentId::Id(Id::Hash(hash))
    }
}

impl From<Id> for TorrentId {
    fn from(id: Id) -> (r: TorrentId) {
        TorrentId::Id(id)
    }
}

impl FromSpecImpl<Id> for TorrentId {
    open spec fn obeys_from_spec() -> bool {
        true
    }

    open spec fn from_spec(id: Id) -> TorrentId {
        TorrentId::Id(id)
    }
}

impl From<Vec<Id>> for TorrentId {
    fn from(ids: Vec<Id>) -> (r: TorrentId) {
        TorrentId::List(ids)
    }
}

impl FromSpecImpl<Vec<Id>> for TorrentId {
    open spec fn obeys_from_spec() -> bool {
        true
    }

    open spec fn from_spec(ids: Vec<Id>) -> TorrentId {
        TorrentId::List(ids)
    }
}

/// The text that stands for the recently active torrents.
pub open spec fn recently_active() -> Seq<char> {
    "recently-active"@
}

/// Whether a value names the recently active torrents: as the text itself,
/// or as an object whose one member has that name and the value `null`.
pub open spec fn names_recently_active(value: JsonValue) -> bool {
    match value {
        JsonValue::Text(t) => t == recently_active(),
        JsonValue::Object(members) => members.len() == 1 && members[0].0 == recently_active()
            && members[0].1 is Null,
        _ => false,
    }
}

/// A selector is written by its shape: a single id bare, a list as an array
/// of bare ids, the recently active torrents as their text.
impl ToJson for TorrentId {
    open spec fn encoded(value: TorrentIdView) -> JsonValue {
        match value {
            TorrentIdView::RecentlyActive => JsonValue::Text(recently_active()),
            TorrentIdView::Id(id) => Id::encoded(id),
            TorrentIdView::List(ids) => Vec::<Id>::encoded(ids),
        }
    }

    fn to_json(&self) -> (r: Json) {
        match self {
            TorrentId::RecentlyActive => Json::Text("recently-active".to_owned()),
            TorrentId::Id(id) => id.to_json(),
            TorrentId::List(ids) => ids.to_json(),
        }
    }
}

/// A selector is read by its shape: first as the name of the recently active
/// torrents, then as a single id, then as an array of ids.
impl FromJson for TorrentId {
    open spec fn decoded(value: JsonValue) -> Option<TorrentIdView> {
        if names_recently_active(value) {
            Some(TorrentIdView::RecentlyActive)
        } else {
            match Id::decoded(value) {
                Some(id) => Some(TorrentIdView::Id(id)),
                None => match Vec::<Id>::decoded(value) {
                    Some(ids) => Some(TorrentIdView::List(ids)),
                    None => None,
                },
            }
        }
    }

    fn from_json(json: &Json) -> (r: Option<TorrentId>) {
        let name = "recently-active".to_owned();
        let named = match json {
            Json::Text(t) => *t == name,
            Json::Object(members) => {
                assert(json@ == JsonValue::Object(crate::json::members_of(members@)));
                members.len() == 1 && members[0].0 == name
                    && members[0].1.is_null()
            },
            _ => false,
        };
        if named {
            return Some(TorrentId::RecentlyActive);
        }
        match Id::from_json(json) {
            Some(id) => Some(TorrentId::Id(id)),
            None => match Vec::<Id>::from_json(json) {
                Some(ids) => Some(TorrentId::List(ids)),
                None => None,
            },
        }
    }
}

/// What is written for an id is read as that id.
pub proof fn id_round_trip(id: IdView)
    ensures
        Id::decoded(Id::encoded(id)) == Some(id),
{
}

/// What is written for a selector is read as that selector, a list of one
/// id as a list and a single id as a single id. The one exception is the hash
/// that spells the name of the recently active torrents: it is read as that
/// name.
pub proof fn selector_round_trip(selector: TorrentIdView)
    requires
        selector != TorrentIdView::Id(IdView::Hash(recently_active())),
    ensures
        TorrentId::decoded(TorrentId::encoded(selector)) == Some(selector),
{
    match selector {
        TorrentIdView::List(ids) => {
            let written = Vec::<Id>::encoded(ids)->Array_0;
            assert forall|i: int| 0 <= i < written.len() implies (#[trigger] Id::decoded(
                written[i],
            )) == Some(ids[i]) by {
                id_round_trip(ids[i]);
            }
            assert(Vec::<Id>::decoded(Vec::<Id>::encoded(ids))->0 =~= ids);
        },
        _ => {},
    }
}

} // verus!
