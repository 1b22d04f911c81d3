use transmission_fetcher::api::{
    Id, IdleLimit, Method, Priority, RatioLimit, Response, StatErrType, Status, TorrentField,
    TorrentId, TorrentSetParams, TrackerState,
};
use transmission_fetcher::json::{Json, JsonNumber};
use transmission_fetcher::wire::{FromJson, ToJson};

fn text_of(json: &Json) -> Option<String> {
    json.render()
}

fn parsed(text: &str) -> Json {
    Json::parse(text.as_bytes()).unwrap()
}

#[test]
fn torrent_id() {
    let id = TorrentId::from(7);
    assert_eq!(Some("7"), text_of(&id.to_json()).as_deref());

    let id_hash = TorrentId::from("00F453355B28E4158D4E5E6A2D3EDA96B3450406".to_string());
    assert_eq!(
        Some("\"00F453355B28E4158D4E5E6A2D3EDA96B3450406\""),
        text_of(&id_hash.to_json()).as_deref()
    );

    let ids = TorrentId::from(vec![
        Id::from(7),
        Id::from("00F453355B28E4158D4E5E6A2D3EDA96B3450406".to_string()),
    ]);
    assert_eq!(
        Some("[7,\"00F453355B28E4158D4E5E6A2D3EDA96B3450406\"]"),
        text_of(&ids.to_json()).as_deref()
    );

    assert_eq!(
        Some("\"recently-active\""),
        text_of(&TorrentId::RecentlyActive.to_json()).as_deref()
    );
}

#[test]
fn torrent() {
    let torrent_start = Method::TorrentStart(None);
    assert_eq!(
        Some("{\"method\":\"torrent-start\"}"),
        torrent_start.encode().as_deref()
    );

    let torrent_stop = Method::TorrentStop(Some(1.into()));
    assert_eq!(
        Some("{\"method\":\"torrent-stop\",\"arguments\":{\"ids\":1}}"),
        torrent_stop.encode().as_deref()
    );
}

#[test]
fn torrent_test() {
    let request = Method::TorrentGet(
        vec![
            TorrentField::Id,
            TorrentField::Name,
            TorrentField::TotalSize,
        ],
        Some(vec![7.into(), 10.into()]),
    );
    assert_eq!(
        Some(
            "{\"method\":\"torrent-get\",\"arguments\":{\"fields\":[\"id\",\"name\",\"totalSize\"],\"ids\":[7,10]}}"
        ),
        request.encode().as_deref()
    );

    let response = r#"
            {
                "arguments": {
                    "torrents": [
                        {
                            "id": 10,
                            "name": "Fedora x86_64 DVD",
                            "totalSize": 34983493932
                        },
                        {
                            "id": 7,
                            "name": "Ubuntu x86_64 DVD",
                            "totalSize": 9923890123
                        }
                    ]
                },
                "result": "success",
                "tag": 39693
            }"#;
    let v: Response = Response::decode(response.as_bytes()).unwrap();
    assert_eq!(Some(39693), v.tag);
    assert_eq!("success", v.result);
    assert!(v.is_success());
    assert_eq!(2, v.arguments.torrents.len());
    for torrent in v.arguments.torrents {
        match torrent.id {
            Some(TorrentId::Id(Id::Id(7))) => {
                assert_eq!(Some("Ubuntu x86_64 DVD"), torrent.name.as_deref());
                assert_eq!(Some(9923890123), torrent.total_size);
            }
            Some(TorrentId::Id(Id::Id(10))) => {
                assert_eq!(Some("Fedora x86_64 DVD"), torrent.name.as_deref());
                assert_eq!(Some(34983493932), torrent.total_size);
            }
            id => panic!("Unknown torrent id: {id:?}"),
        }
    }
}

#[test]
fn every_call_has_its_name() {
    let selector = || Some(TorrentId::from(3));
    assert_eq!(
        Some("{\"method\":\"torrent-start\",\"arguments\":{\"ids\":3}}"),
        Method::TorrentStart(selector()).encode().as_deref()
    );
    assert_eq!(
        Some("{\"method\":\"torrent-start-now\",\"arguments\":{\"ids\":3}}"),
        Method::TorrentStartNow(selector()).encode().as_deref()
    );
    assert_eq!(
        Some("{\"method\":\"torrent-verify\",\"arguments\":{\"ids\":3}}"),
        Method::TorrentVerify(selector()).encode().as_deref()
    );
    assert_eq!(
        Some("{\"method\":\"torrent-reannounce\",\"arguments\":{\"ids\":\"recently-active\"}}"),
        Method::TorrentReannounce(Some(TorrentId::RecentlyActive))
            .encode()
            .as_deref()
    );
    assert_eq!(
        Some("{\"method\":\"torrent-stop\"}"),
        Method::TorrentStop(None).encode().as_deref()
    );
    assert_eq!(
        Some("{\"method\":\"session-stats\"}"),
        Method::SessionStats.encode().as_deref()
    );
    assert_eq!("torrent-set", Method::TorrentSet(Box::default()).name());
}

#[test]
fn torrent_get_without_ids_has_fields_only() {
    let request = Method::TorrentGet(vec![TorrentField::Id, TorrentField::FileCount], None);
    assert_eq!(
        Some("{\"method\":\"torrent-get\",\"arguments\":{\"fields\":[\"id\",\"file-count\"]}}"),
        request.encode().as_deref()
    );
}

#[test]
fn torrent_remove_names_its_flag() {
    let request = Method::TorrentRemove(vec![3.into(), "ABC".to_string().into()], false);
    assert_eq!(
        Some("{\"method\":\"torrent-remove\",\"arguments\":{\"ids\":[3,\"ABC\"],\"deleteLocalData\":false}}"),
        request.encode().as_deref()
    );
    let request = Method::TorrentRemove(Vec::new(), true);
    assert_eq!(
        Some("{\"method\":\"torrent-remove\",\"arguments\":{\"ids\":[],\"deleteLocalData\":true}}"),
        request.encode().as_deref()
    );
}

#[test]
fn torrent_set_leaves_unset_parameters_out() {
    let request = Method::TorrentSet(Box::default());
    assert_eq!(
        Some("{\"method\":\"torrent-set\",\"arguments\":{}}"),
        request.encode().as_deref()
    );
    let params = TorrentSetParams {
        ids: Some(vec![1.into(), 2.into()]),
        peer_limit: Some(0),
        upload_limit: Some(0),
        upload_limited: Some(true),
        ..Default::default()
    };
    assert_eq!(
        Some("{\"method\":\"torrent-set\",\"arguments\":{\"ids\":[1,2],\"peer-limit\":0,\"uploadLimit\":0,\"uploadLimited\":true}}"),
        Method::TorrentSet(Box::new(params)).encode().as_deref()
    );
}

#[test]
fn torrent_set_writes_every_kind_of_parameter() {
    let params = TorrentSetParams {
        bandwidth_priority: Some(Priority::Low),
        files_unwanted: Some(vec![0, 2]),
        group: Some("a \"group\"".to_string()),
        labels: Some(vec!["x".to_string()]),
        priority_high: Some(vec![4]),
        seed_idle_mode: Some(IdleLimit::Single),
        seed_ratio_limit: Some(JsonNumber::Real("1.5".to_string())),
        seed_ratio_mode: Some(RatioLimit::Unlimited),
        sequential_download_from_piece: Some(9),
        ..Default::default()
    };
    assert_eq!(
        Some("{\"method\":\"torrent-set\",\"arguments\":{\"bandwidthPriority\":-1,\"files-unwanted\":[0,2],\"group\":\"a \\\"group\\\"\",\"labels\":[\"x\"],\"priority-high\":[4],\"seedIdleMode\":1,\"seedRatioLimit\":1.5,\"seedRatioMode\":2,\"sequentialDownloadFromPiece\":9}}"),
        Method::TorrentSet(Box::new(params)).encode().as_deref()
    );
}

#[test]
fn a_number_that_is_none_cannot_be_written() {
    let params = TorrentSetParams {
        seed_ratio_limit: Some(JsonNumber::Real("much".to_string())),
        ..Default::default()
    };
    assert_eq!(None, Method::TorrentSet(Box::new(params)).encode());
}

#[test]
fn cloning_a_call_keeps_its_text() {
    let params = TorrentSetParams {
        ids: Some(vec![TorrentId::List(vec![Id::Id(1), Id::Hash("h".to_string())])]),
        location: Some("/data".to_string()),
        tracker_add: Some(vec!["t".to_string()]),
        ..Default::default()
    };
    let call = Method::TorrentSet(Box::new(params));
    assert_eq!(call.encode(), call.clone().encode());
    assert_eq!(
        Some("{\"method\":\"torrent-set\",\"arguments\":{\"ids\":[[1,\"h\"]],\"location\":\"/data\",\"trackerAdd\":[\"t\"]}}"),
        call.clone().encode().as_deref()
    );
}

#[test]
fn field_names_follow_the_wire() {
    assert_eq!("id", TorrentField::Id.name());
    assert_eq!("trackerList", TorrentField::TrackerList.name());
    assert_eq!("addedDate", TorrentField::AddedDate.name());
    assert_eq!("uploadLimited", TorrentField::UploadLimited.name());
    assert_eq!("file-count", TorrentField::FileCount.name());
    assert_eq!("peer-limit", TorrentField::PeerLimit.name());
    assert_eq!("primaryMimeType", TorrentField::PrimaryMimeType.name());
    assert_eq!("webseedsSendingToUs", TorrentField::WebseedsSendingToUs.name());
}

#[test]
fn json_is_read_into_plain_values() {
    let json = parsed(r#"{"b":[1,-2,1.5,"x\n",true,null],"a":{}}"#);
    assert_eq!(
        Json::Object(vec![
            (
                "b".to_string(),
                Json::Array(vec![
                    Json::Number(JsonNumber::Unsigned(1)),
                    Json::Number(JsonNumber::Signed(-2)),
                    Json::Number(JsonNumber::Real("1.5".to_string())),
                    Json::Text("x\n".to_string()),
                    Json::Bool(true),
                    Json::Null,
                ]),
            ),
            ("a".to_string(), Json::Object(Vec::new())),
        ]),
        json
    );
    assert_eq!(
        Some(r#"{"b":[1,-2,1.5,"x\n",true,null],"a":{}}"#),
        json.render().as_deref()
    );
    assert_eq!(None, Json::parse(b"{\"a\":"));
    assert_eq!(None, Json::parse(b""));
}

#[test]
fn get_finds_the_member_of_that_name() {
    let json = parsed(r#"{"one":1,"two":2}"#);
    assert_eq!(Some(&Json::Number(JsonNumber::Unsigned(2))), json.get("two"));
    assert_eq!(Some(&Json::Number(JsonNumber::Unsigned(1))), json.get("one"));
    assert_eq!(None, json.get("three"));
    assert_eq!(None, Json::Null.get("one"));
    assert_eq!(Some(18446744073709551615), parsed("18446744073709551615").integer());
    assert_eq!(Some(-9223372036854775808), parsed("-9223372036854775808").integer());
    assert_eq!(None, parsed("1.0").integer());
}

#[test]
fn a_selector_is_read_by_its_shape() {
    assert_eq!(Some(TorrentId::Id(Id::Id(7))), TorrentId::from_json(&parsed("7")));
    assert_eq!(
        Some(TorrentId::Id(Id::Hash("ABC".to_string()))),
        TorrentId::from_json(&parsed("\"ABC\""))
    );
    assert_eq!(
        Some(TorrentId::List(vec![Id::Id(7), Id::Hash("ABC".to_string())])),
        TorrentId::from_json(&parsed("[7,\"ABC\"]"))
    );
    assert_eq!(
        Some(TorrentId::List(vec![Id::Id(7)])),
        TorrentId::from_json(&parsed("[7]"))
    );
    assert_eq!(
        Some(TorrentId::RecentlyActive),
        TorrentId::from_json(&parsed("\"recently-active\""))
    );
    assert_eq!(
        Some(TorrentId::RecentlyActive),
        TorrentId::from_json(&parsed("{\"recently-active\":null}"))
    );
    assert_eq!(
        Some(TorrentId::List(vec![Id::Hash("recently-active".to_string())])),
        TorrentId::from_json(&parsed("[\"recently-active\"]"))
    );
    assert_eq!(None, TorrentId::from_json(&parsed("1.5")));
    assert_eq!(None, TorrentId::from_json(&parsed("18446744073709551615")));
    assert_eq!(None, TorrentId::from_json(&parsed("[[7]]")));
    assert_eq!(None, TorrentId::from_json(&parsed("{\"recently-active\":1}")));
    assert_eq!(None, TorrentId::from_json(&parsed("null")));
}

#[test]
fn enumerations_are_read_from_their_numbers() {
    assert_eq!(Some(Status::Stopped), Status::from_json(&parsed("0")));
    assert_eq!(Some(Status::Seed), Status::from_json(&parsed("6")));
    assert_eq!(None, Status::from_json(&parsed("7")));
    assert_eq!(None, Status::from_json(&parsed("-1")));
    assert_eq!(None, Status::from_json(&parsed("\"seed\"")));
    assert_eq!(Some(Priority::Low), Priority::from_json(&parsed("-1")));
    assert_eq!(Some(Priority::High), Priority::from_json(&parsed("1")));
    assert_eq!(None, Priority::from_json(&parsed("2")));
    assert_eq!(Some(IdleLimit::Unlimited), IdleLimit::from_json(&parsed("2")));
    assert_eq!(Some(RatioLimit::Global), RatioLimit::from_json(&parsed("0")));
    assert_eq!(Some(TrackerState::Active), TrackerState::from_json(&parsed("3")));
    assert_eq!(None, TrackerState::from_json(&parsed("4")));
    assert_eq!(Some(StatErrType::NoError), StatErrType::from_json(&parsed("0")));
    assert_eq!(Some(StatErrType::LocalError), StatErrType::from_json(&parsed("3")));
    assert_eq!(Some(StatErrType::Unknown), StatErrType::from_json(&parsed("4")));
    assert_eq!(Some(StatErrType::Unknown), StatErrType::from_json(&parsed("-128")));
    assert_eq!(None, StatErrType::from_json(&parsed("128")));
    assert_eq!(StatErrType::Unknown, StatErrType::default());
    assert_eq!(Some("-1"), text_of(&Priority::Low.to_json()).as_deref());
    assert_eq!(Some("2"), text_of(&IdleLimit::Unlimited.to_json()).as_deref());
    assert_eq!(Some("1"), text_of(&RatioLimit::Single.to_json()).as_deref());
    assert_eq!(3, Status::DownloadWait.code());
    assert_eq!(Some(Status::Download), Status::from_code(4));
}

#[test]
fn integers_are_held_to_their_range() {
    assert_eq!(Some(65535), u16::from_json(&parsed("65535")));
    assert_eq!(None, u16::from_json(&parsed("65536")));
    assert_eq!(Some(4294967295), u32::from_json(&parsed("4294967295")));
    assert_eq!(None, u32::from_json(&parsed("4294967296")));
    assert_eq!(None, u32::from_json(&parsed("-1")));
    assert_eq!(Some(18446744073709551615), u64::from_json(&parsed("18446744073709551615")));
    assert_eq!(None, u64::from_json(&parsed("1.0")));
    assert_eq!(Some(-9223372036854775808), i64::from_json(&parsed("-9223372036854775808")));
    assert_eq!(None, i64::from_json(&parsed("9223372036854775808")));
    assert_eq!(Some(vec![true, false]), Vec::<bool>::from_json(&parsed("[true,false]")));
    assert_eq!(None, Vec::<bool>::from_json(&parsed("[true,0]")));
    assert_eq!(
        Some(JsonNumber::Unsigned(2)),
        JsonNumber::from_json(&parsed("2"))
    );
    assert_eq!(
        Some(JsonNumber::Real("0.25".to_string())),
        JsonNumber::from_json(&parsed("0.25"))
    );
    assert_eq!(None, JsonNumber::from_json(&parsed("\"0.25\"")));
}

#[test]
fn hash_that_spells_recently_active_is_read_as_the_name() {
    let hash = TorrentId::Id(Id::Hash("recently-active".to_string()));
    let written = hash.to_json();
    assert_eq!(Json::Text("recently-active".to_string()), written);
    assert_eq!(Some(TorrentId::RecentlyActive), TorrentId::from_json(&written));
    let other = TorrentId::Id(Id::Hash("recently-activ".to_string()));
    assert_eq!(Some(other.clone()), TorrentId::from_json(&other.to_json()));
    let list = TorrentId::List(vec![Id::Id(-3)]);
    assert_eq!(Some(list.clone()), TorrentId::from_json(&list.to_json()));
    let empty = TorrentId::List(Vec::new());
    assert_eq!(Some(empty.clone()), TorrentId::from_json(&empty.to_json()));
}

#[test]
fn call_is_written_as_name_and_arguments() {
    let call = Method::TorrentVerify(Some(TorrentId::from(5)));
    assert_eq!("torrent-verify", call.name());
    assert_eq!(
        Some(Json::Object(vec![(
            "ids".to_string(),
            Json::Number(JsonNumber::Signed(5))
        )])),
        call.arguments()
    );
    assert_eq!(
        Json::Object(vec![
            ("method".to_string(), Json::Text("torrent-verify".to_string())),
            (
                "arguments".to_string(),
                Json::Object(vec![("ids".to_string(), Json::Number(JsonNumber::Signed(5)))])
            ),
        ]),
        call.to_json()
    );
    assert_eq!(None, Method::SessionStats.arguments());
    assert_eq!(
        Json::Object(vec![("method".to_string(), Json::Text("session-stats".to_string()))]),
        Method::SessionStats.to_json()
    );
}

#[test]
fn ids_are_made_from_numbers_and_hashes() {
    assert_eq!(Id::Id(7), Id::from(7));
    assert_eq!(Id::Hash("h".to_string()), Id::from("h".to_string()));
    assert_eq!(TorrentId::Id(Id::Id(7)), TorrentId::from(7));
    assert_eq!(TorrentId::Id(Id::Hash("h".to_string())), TorrentId::from("h".to_string()));
    assert_eq!(TorrentId::Id(Id::Id(1)), TorrentId::from(Id::Id(1)));
    assert_eq!(TorrentId::List(vec![Id::Id(1)]), TorrentId::from(vec![Id::Id(1)]));
    assert_eq!(Id::Hash("h".to_string()), Id::Hash("h".to_string()).clone());
}
