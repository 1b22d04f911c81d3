//! The calls of the protocol and their form on the wire.
//!
//! A call is written as a JSON object: the member `method` holds the name of
//! the call, the member `arguments` its arguments. A call that carries no
//! argument has no member `arguments` at all.

use crate::api::fields::TorrentField;
use crate::api::ids::{TorrentId, TorrentIdView};
use crate::api::params::{TorrentSetParams, TorrentSetParamsView};
use crate::json::{members_of, rendered_json, Json, JsonValue};
use crate::wire::{encoded_option, entry, put, put_optional, ToJson};
use vstd::prelude::*;

verus! {

/// A call to the daemon.
#[derive(Debug)]
pub enum Method {
    /// start torrent
    TorrentStart(Option<TorrentId>),
    /// start torrent disregarding queue position
    TorrentStartNow(Option<TorrentId>),
    /// stop torrent
    TorrentStop(Option<TorrentId>),
    /// verify torrent
    TorrentVerify(Option<TorrentId>),
    /// re-announce to trackers now
    TorrentReannounce(Option<TorrentId>),
    /// torrent mutator
    TorrentSet(Box<TorrentSetParams>),
    /// torrent getter
    TorrentGet(Vec<TorrentField>, Option<Vec<TorrentId>>),
    /// remove torrent, delete local data if bool is true
    TorrentRemove(Vec<TorrentId>, bool),
    /// Session statistics for all torrents
    SessionStats,
}

/// The mathematical value of a [`Method`].
pub enum MethodView {
    TorrentStart(Option<TorrentIdView>),
    TorrentStartNow(Option<TorrentIdView>),
    TorrentStop(Option<TorrentIdView>),
    TorrentVerify(Option<TorrentIdView>),
    TorrentReannounce(Option<TorrentIdView>),
    TorrentSet(TorrentSetParamsView),
    TorrentGet(Seq<TorrentField>, Option<Seq<TorrentIdView>>),
    TorrentRemove(Seq<TorrentIdView>, bool),
    SessionStats,
}

impl DeepView for Method {
    type V = MethodView;

    open spec fn deep_view(&self) -> MethodView {
        match self {
            Method::TorrentStart(ids) => MethodView::TorrentStart(ids.deep_view()),
            Method::TorrentStartNow(ids) => MethodView::TorrentStartNow(ids.deep_view()),
            Method::TorrentStop(ids) => MethodView::TorrentStop(ids.deep_view()),
            Method::TorrentVerify(ids) => MethodView::TorrentVerify(ids.deep_view()),
            Method::TorrentReannounce(ids) => MethodView::TorrentReannounce(ids.deep_view()),
            Method::TorrentSet(params) => MethodView::TorrentSet(params.deep_view()),
            Method::TorrentGet(fields, ids) => MethodView::TorrentGet(
                fields.deep_view(),
                ids.deep_view(),
            ),
            Method::TorrentRemove(ids, delete_local_data) => MethodView::TorrentRemove(
                ids.deep_view(),
                *delete_local_data,
            ),
            Method::SessionStats => MethodView::SessionStats,
        }
    }
}

fn copy_selector(ids: &Option<TorrentId>) -> (r: Option<TorrentId>)
    ensures
        r.deep_view() == ids.deep_view(),
{
    ids.clone()
}

fn copy_ids(ids: &Vec<TorrentId>) -> (r: Vec<TorrentId>)
    ensures
        r.deep_view() == ids.deep_view(),
{
    let r = ids.clone();
    assert(r.deep_view() =~= ids.deep_view());
    r
}

fn copy_listed_ids(ids: &Option<Vec<TorrentId>>) -> (r: Option<Vec<TorrentId>>)
    ensures
        r.deep_view() == ids.deep_view(),
{
    match ids {
        Some(list) => Some(copy_ids(list)),
        None => None,
    }
}

fn copy_fields(fields: &Vec<TorrentField>) -> (r: Vec<TorrentField>)
    ensures
        r.deep_view() == fields.deep_view(),
{
    let r = fields.clone();
    assert(r.deep_view() =~= fields.deep_view());
    r
}

impl Clone for Method {
    fn clone(&self) -> (r: Self)
        ensures
            r.deep_view() == self.deep_view(),
    {
        match self {
            Method::TorrentStart(ids) => Method::TorrentStart(copy_selector(ids)),
            Method::TorrentStartNow(ids) => Method::TorrentStartNow(copy_selector(ids)),
            Method::TorrentStop(ids) => Method::TorrentStop(copy_selector(ids)),
            Method::TorrentVerify(ids) => Method::TorrentVerify(copy_selector(ids)),
            Method::TorrentReannounce(ids) => Method::TorrentReannounce(copy_selector(ids)),
            Method::TorrentSet(params) => {
                let copy: TorrentSetParams = (**params).clone();
                Method::TorrentSet(Box::new(copy))
            },
            Method::TorrentGet(fields, ids) => Method::TorrentGet(
                copy_fields(fields),
                copy_listed_ids(ids),
            ),
            Method::TorrentRemove(ids, delete_local_data) => Method::TorrentRemove(
                copy_ids(ids),
                *delete_local_data,
            ),
            Method::SessionStats => Method::SessionStats,
        }
    }
}

/// The arguments of a call that selects torrents and says no more.
pub open spec fn selection(ids: Option<TorrentIdView>) -> Option<JsonValue> {
    match ids {
        Some(ids) => Some(JsonValue::Object(seq![("ids"@, TorrentId::encoded(ids))])),
        None => None,
    }
}

impl MethodView {
    /// The name of a call on the wire.
    pub open spec fn name(self) -> Seq<char> {
        match self {
            MethodView::TorrentStart(_) => "torrent-start"@,
            MethodView::TorrentStartNow(_) => "torrent-start-now"@,
            MethodView::TorrentStop(_) => "torrent-stop"@,
            MethodView::TorrentVerify(_) => "torrent-verify"@,
            MethodView::TorrentReannounce(_) => "torrent-reannounce"@,
            MethodView::TorrentSet(_) => "torrent-set"@,
            MethodView::TorrentGet(_, _) => "torrent-get"@,
            MethodView::TorrentRemove(_, _) => "torrent-remove"@,
            MethodView::SessionStats => "session-stats"@,
        }
    }

    /// The arguments of a call on the wire, where it carries any.
    pub open spec fn arguments(self) -> Option<JsonValue> {
        match self {
            MethodView::TorrentStart(ids) => selection(ids),
            MethodView::TorrentStartNow(ids) => selection(ids),
            MethodView::TorrentStop(ids) => selection(ids),
            MethodView::TorrentVerify(ids) => selection(ids),
            MethodView::TorrentReannounce(ids) => selection(ids),
            MethodView::TorrentSet(params) => Some(TorrentSetParams::encoded(params)),
            MethodView::TorrentGet(fields, ids) => Some(
                JsonValue::Object(
                    seq![("fields"@, Vec::<TorrentField>::encoded(fields))] + entry(
                        "ids"@,
                        encoded_option::<Vec<TorrentId>>(ids),
                    ),
                ),
            ),
            MethodView::TorrentRemove(ids, delete_local_data) => Some(
                JsonValue::Object(
                    seq![
                        ("ids"@, Vec::<TorrentId>::encoded(ids)),
                        ("deleteLocalData"@, JsonValue::Bool(delete_local_data)),
                    ],
                ),
            ),
            MethodView::SessionStats => None,
        }
    }
}

/// A call is written as its name and, where it carries any, its arguments.
impl ToJson for Method {
    open spec fn encoded(value: MethodView) -> JsonValue {
        JsonValue::Object(
            seq![("method"@, JsonValue::Text(value.name()))] + entry(
                "arguments"@,
                value.arguments(),
            ),
        )
    }

    fn to_json(&self) -> (r: Json) {
        let arguments = self.arguments();
        let mut members: Vec<(String, Json)> = Vec::new();
        assert(members_of(members@) =~= Seq::empty());
        put(&mut members, "method", Json::Text(self.name().to_owned()));
        match arguments {
            Some(a) => {
                put(&mut members, "arguments", a);
            },
            None => {},
        }
        assert(members_of(members@) =~= Self::encoded(self.deep_view())->Object_0);
        Json::Object(members)
    }
}

/// The object `{"ids": ..}` of a selector, where there is one.
fn selection_json(ids: &Option<TorrentId>) -> (r: Option<Json>)
    ensures
        r.deep_view() == selection(ids.deep_view()),
{
    match ids {
        Some(ids) => {
            let mut members: Vec<(String, Json)> = Vec::new();
            assert(members_of(members@) =~= Seq::empty());
            put(&mut members, "ids", ids.to_json());
            assert(members_of(members@) =~= seq![("ids"@, TorrentId::encoded(ids.deep_view()))]);
            Some(Json::Object(members))
        },
        None => None,
    }
}

impl Method {
    /// The name of the call on the wire.
    pub fn name(&self) -> (r: &'static str)
        ensures
            r@ == self.deep_view().name(),
    {
        match self {
            Method::TorrentStart(_) => "torrent-start",
            Method::TorrentStartNow(_) => "torrent-start-now",
            Method::TorrentStop(_) => "torrent-stop",
            Method::TorrentVerify(_) => "torrent-verify",
            Method::TorrentReannounce(_) => "torrent-reannounce",
            Method::TorrentSet(_) => "torrent-set",
            Method::TorrentGet(_, _) => "torrent-get",
            Method::TorrentRemove(_, _) => "torrent-remove",
            Method::SessionStats => "session-stats",
        }
    }

    /// The arguments of the call on the wire, where it carries any.
    pub fn arguments(&self) -> (r: Option<Json>)
        ensures
            r.deep_view() == self.deep_view().arguments(),
    {
        match self {
            Method::TorrentStart(ids) => selection_json(ids),
            Method::TorrentStartNow(ids) => selection_json(ids),
            Method::TorrentStop(ids) => selection_json(ids),
            Method::TorrentVerify(ids) => selection_json(ids),
            Method::TorrentReannounce(ids) => selection_json(ids),
            Method::TorrentSet(params) => Some(params.to_json()),
            Method::TorrentGet(fields, ids) => {
                let mut members: Vec<(String, Json)> = Vec::new();
                assert(members_of(members@) =~= Seq::empty());
                put(&mut members, "fields", fields.to_json());
                put_optional(&mut members, "ids", ids);
                assert(members_of(members@) =~= seq![
                    ("fields"@, Vec::<TorrentField>::encoded(fields.deep_view())),
                ] + entry("ids"@, encoded_option::<Vec<TorrentId>>(ids.deep_view())));
                Some(Json::Object(members))
            },
            Method::TorrentRemove(ids, delete_local_data) => {
                let mut members: Vec<(String, Json)> = Vec::new();
                assert(members_of(members@) =~= Seq::empty());
                put(&mut members, "ids", ids.to_json());
                put(&mut members, "deleteLocalData", Json::Bool(*delete_local_data));
                assert(members_of(members@) =~= seq![
                    ("ids"@, Vec::<TorrentId>::encoded(ids.deep_view())),
                    ("deleteLocalData"@, JsonValue::Bool(*delete_local_data)),
                ]);
                Some(Json::Object(members))
            },
            Method::SessionStats => None,
        }
    }

    /// The JSON text of the call, as it is sent; nothing where the text
    /// cannot be written.
    pub fn encode(&self) -> (r: Option<String>)
        ensures
            r.deep_view() == rendered_json(Self::encoded(self.deep_view())),
    {
        self.to_json().render()
    }
}

} // verus!
