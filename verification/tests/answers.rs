use transmission_fetcher::api::{
    Id, Priority, Response, StatErrType, Status, TorrentId, TrackerState,
};
use transmission_fetcher::json::{Json, JsonNumber};
use transmission_fetcher::scalar::{
    deserialize_bitfield, deserialize_time, deserialize_timestamp, TimePoint, TimeSpan,
    LAST_SECOND, LONGEST_SPAN,
};

fn number(n: i64) -> Json {
    Json::Number(JsonNumber::Signed(n))
}

#[test]
fn timestamp_that_says_nothing_is_absent() {
    assert_eq!(Some(None), deserialize_timestamp(&number(0)));
    assert_eq!(Some(None), deserialize_timestamp(&number(-5)));
    assert_eq!(Some(None), deserialize_timestamp(&Json::Null));
    assert_eq!(
        Some(Some(TimePoint { secs: 1700000000, nanos: 0 })),
        deserialize_timestamp(&number(1700000000))
    );
    assert_eq!(
        Some(Some(TimePoint { secs: 1, nanos: 0 })),
        deserialize_timestamp(&Json::Number(JsonNumber::Unsigned(1)))
    );
}

#[test]
fn timestamp_ends_with_the_last_second() {
    assert_eq!(
        Some(Some(TimePoint { secs: LAST_SECOND, nanos: 0 })),
        deserialize_timestamp(&number(LAST_SECOND))
    );
    assert_eq!(Some(None), deserialize_timestamp(&number(LAST_SECOND + 1)));
    assert_eq!(Some(None), deserialize_timestamp(&number(i64::MAX)));
}

#[test]
fn timestamp_must_be_an_integer() {
    assert_eq!(None, deserialize_timestamp(&Json::Text("1700000000".to_string())));
    assert_eq!(
        None,
        deserialize_timestamp(&Json::Number(JsonNumber::Real("1.5".to_string())))
    );
    assert_eq!(
        None,
        deserialize_timestamp(&Json::Number(JsonNumber::Unsigned(u64::MAX)))
    );
    assert_eq!(None, deserialize_timestamp(&Json::Bool(true)));
}

#[test]
fn duration_that_says_nothing_is_absent() {
    assert_eq!(Some(None), deserialize_time(&number(0)));
    assert_eq!(Some(None), deserialize_time(&number(-1)));
    assert_eq!(Some(None), deserialize_time(&Json::Null));
    assert_eq!(Some(Some(TimeSpan { secs: 90 })), deserialize_time(&number(90)));
    assert_eq!(
        Some(Some(TimeSpan { secs: LONGEST_SPAN })),
        deserialize_time(&number(LONGEST_SPAN))
    );
    assert_eq!(Some(None), deserialize_time(&number(LONGEST_SPAN + 1)));
    assert_eq!(None, deserialize_time(&Json::Text("90".to_string())));
}

#[test]
fn bitfield_is_decoded_from_base64() {
    assert_eq!(
        Some(Some(vec![1, 2, 3])),
        deserialize_bitfield(&Json::Text("AQID".to_string()))
    );
    assert_eq!(
        Some(Some(vec![255])),
        deserialize_bitfield(&Json::Text("/w==".to_string()))
    );
    assert_eq!(
        Some(Some(Vec::new())),
        deserialize_bitfield(&Json::Text(String::new()))
    );
    assert_eq!(Some(None), deserialize_bitfield(&Json::Text("!!!".to_string())));
    assert_eq!(Some(None), deserialize_bitfield(&Json::Text("/w".to_string())));
    assert_eq!(None, deserialize_bitfield(&number(1)));
    assert_eq!(None, deserialize_bitfield(&Json::Null));
}

#[test]
fn bad_bitfield_does_not_fail_the_answer() {
    let body = r#"{"arguments":{"torrents":[{"id":1,"pieces":"not base64!"},{"id":2,"pieces":"AQID"}]},"result":"success"}"#;
    let answer = Response::decode(body.as_bytes()).unwrap();
    assert_eq!(2, answer.arguments.torrents.len());
    assert_eq!(None, answer.arguments.torrents[0].pieces);
    assert_eq!(Some(vec![1, 2, 3]), answer.arguments.torrents[1].pieces);
    assert_eq!(None, answer.tag);
}

#[test]
fn answer_needs_arguments_and_result() {
    assert!(Response::decode(br#"{"arguments":{},"result":"success"}"#).is_some());
    assert!(Response::decode(br#"{"result":"success"}"#).is_none());
    assert!(Response::decode(br#"{"arguments":{}}"#).is_none());
    assert!(Response::decode(br#"{"arguments":[],"result":"success"}"#).is_none());
    assert!(Response::decode(br#"{"arguments":{},"result":1}"#).is_none());
    assert!(Response::decode(br#"{"arguments":{},"result":"success","tag":-1}"#).is_none());
    assert!(Response::decode(br#"{"arguments":{},"result":"success","tag":null}"#).is_some());
    assert!(Response::decode(b"<html>409</html>").is_none());
    assert!(Response::decode(b"[]").is_none());
}

#[test]
fn answer_with_another_result_is_read() {
    let answer = Response::decode(br#"{"arguments":{},"result":"no such torrent"}"#).unwrap();
    assert_eq!("no such torrent", answer.result);
    assert!(!answer.is_success());
    assert!(answer.arguments.torrents.is_empty());
    assert!(answer.arguments.cumulative_stats.is_none());
}

#[test]
fn every_optional_field_may_be_missing() {
    let answer = Response::decode(br#"{"arguments":{"torrents":[{}]},"result":"success"}"#).unwrap();
    let torrent = &answer.arguments.torrents[0];
    assert_eq!(None, torrent.id);
    assert_eq!(None, torrent.name);
    assert_eq!(None, torrent.status);
    assert_eq!(None, torrent.added_date);
    assert_eq!(None, torrent.tracker_list);
    assert_eq!(None, torrent.eta);
    assert!(!torrent.upload_limited);
    assert!(!torrent.is_finished);
    assert!(torrent.files.is_none());
}

#[test]
fn requested_fields_are_read() {
    let body = r#"{"arguments":{"torrents":[{"id":"ABCDEF","name":"n","status":4,
        "trackerList":"http://a.example/announce\n\nhttp://b.example/announce",
        "addedDate":1700000000,"uploadLimited":true,"eta":-1,"etaIdle":120,
        "error":2,"bandwidthPriority":1,"percentDone":0.5,"uploadRatio":2,
        "peer-limit":50,"file-count":2,"activityDate":0,"labels":["a","b"],
        "wanted":[true,false],"queuePosition":3,"unknownField":{"x":1}}]},"result":"success"}"#;
    let answer = Response::decode(body.as_bytes()).unwrap();
    let torrent = &answer.arguments.torrents[0];
    assert_eq!(Some(TorrentId::Id(Id::Hash("ABCDEF".to_string()))), torrent.id);
    assert_eq!(Some(Status::Download), torrent.status);
    assert_eq!(
        Some("http://a.example/announce\n\nhttp://b.example/announce"),
        torrent.tracker_list.as_deref()
    );
    assert_eq!(Some(TimePoint { secs: 1700000000, nanos: 0 }), torrent.added_date);
    assert!(torrent.upload_limited);
    assert_eq!(None, torrent.eta);
    assert_eq!(Some(TimeSpan { secs: 120 }), torrent.eta_idle);
    assert_eq!(Some(StatErrType::TrackerError), torrent.error);
    assert_eq!(Some(Priority::High), torrent.bandwidth_priority);
    assert_eq!(Some(JsonNumber::Real("0.5".to_string())), torrent.percent_done);
    assert_eq!(Some(JsonNumber::Unsigned(2)), torrent.upload_ratio);
    assert_eq!(Some(50), torrent.peer_limit);
    assert_eq!(Some(2), torrent.file_count);
    assert_eq!(None, torrent.activity_date);
    assert_eq!(Some(vec!["a".to_string(), "b".to_string()]), torrent.labels);
    assert_eq!(Some(vec![true, false]), torrent.wanted);
    assert_eq!(Some(3), torrent.queue_position);
}

#[test]
fn field_of_the_wrong_kind_fails_the_answer() {
    assert!(Response::decode(br#"{"arguments":{"torrents":[{"name":7}]},"result":"success"}"#).is_none());
    assert!(Response::decode(br#"{"arguments":{"torrents":[{"status":9}]},"result":"success"}"#).is_none());
    assert!(Response::decode(br#"{"arguments":{"torrents":[{"uploadLimited":null}]},"result":"success"}"#).is_none());
    assert!(Response::decode(br#"{"arguments":{"torrents":[{"addedDate":"now"}]},"result":"success"}"#).is_none());
    assert!(Response::decode(br#"{"arguments":{"torrents":[{"pieces":7}]},"result":"success"}"#).is_none());
    assert!(Response::decode(br#"{"arguments":{"torrents":[7]},"result":"success"}"#).is_none());
    assert!(Response::decode(br#"{"arguments":{"torrents":null},"result":"success"}"#).is_none());
    assert!(Response::decode(br#"{"arguments":{"torrents":[{"name":null,"id":null}]},"result":"success"}"#).is_some());
}

#[test]
fn nested_records_are_read() {
    let body = r#"{"arguments":{"torrents":[{
        "files":[{"bytesCompleted":5,"length":10,"name":"f","begin_piece":0,"end_piece":3}],
        "fileStats":[{"bytesCompleted":5,"wanted":true,"priority":-1}],
        "peersFrom":{"fromCache":1,"fromDht":2,"fromIncoming":3,"fromLpd":4,"fromLtpep":5,"fromPex":6,"fromTracker":7},
        "trackers":[{"announce":"http://t/a","id":0,"scrape":"http://t/s","sitename":"t","tier":0}],
        "trackerStats":[{"announce":"http://t/a","announceState":1,"downloadCount":-1,
            "downloader_count":-1,"host":"t","id":0,"lastAnnounceTime":1700000001,
            "leecherCount":4,"scrape":"http://t/s","scrapeState":3,"seederCount":9,
            "sitename":"t","tier":0,"hasAnnounced":true}],
        "peers":[{"address":"10.0.0.1","bytes_to_client":1,"bytes_to_peer":2,"clientName":"c",
            "clientIsChoked":false,"clientIsInterested":true,"flagStr":"D","isDownloadingFrom":true,
            "isEncrypted":false,"isIncoming":false,"isUploadingTo":false,"isUtp":true,
            "peerIsChoked":true,"peerIsInterested":false,"peer_id":"p","port":51413,
            "progress":0.75,"rateToClient":100,"rateToPeer":0}]
    }],"torrent-added":{"hashString":"h","id":4,"name":"added"},
    "cumulative_stats":{"uploadedBytes":11,"downloadedBytes":22,"filesAdded":3,"secondsActive":60,"sessionCount":2}},
    "result":"success"}"#;
    let answer = Response::decode(body.as_bytes()).unwrap();
    let torrent = &answer.arguments.torrents[0];
    let files = torrent.files.as_ref().unwrap();
    assert_eq!(10, files[0].length);
    assert_eq!(3, files[0].end_piece);
    let stats = torrent.file_stats.as_ref().unwrap();
    assert_eq!(JsonNumber::Unsigned(5), stats[0].bytes_completed);
    assert_eq!(Priority::Low, stats[0].priority);
    assert_eq!(7, torrent.peers_from.as_ref().unwrap().from_tracker);
    assert_eq!("t", torrent.trackers.as_ref().unwrap()[0].sitename);
    let tracker = &torrent.tracker_stats.as_ref().unwrap()[0];
    assert_eq!(TrackerState::Waiting, tracker.announce_state);
    assert_eq!(TrackerState::Active, tracker.scrape_state);
    assert_eq!(-1, tracker.download_count);
    assert!(tracker.has_announced);
    assert!(!tracker.has_scraped);
    assert_eq!(Some(TimePoint { secs: 1700000001, nanos: 0 }), tracker.last_announce_time);
    assert_eq!(None, tracker.last_scrape_time);
    let peer = &torrent.peers.as_ref().unwrap()[0];
    assert_eq!(51413, peer.port);
    assert!(peer.is_utp);
    assert_eq!(JsonNumber::Real("0.75".to_string()), peer.progress);
    let added = answer.arguments.torrent_added.as_ref().unwrap();
    assert_eq!(Some(TorrentId::Id(Id::Id(4))), added.id);
    let session = answer.arguments.cumulative_stats.as_ref().unwrap();
    assert_eq!(11, session.uploaded_bytes);
    assert_eq!(22, session.downloaded_bytes);
    assert_eq!(Some(TimeSpan { secs: 60 }), session.seconds_active);
}

#[test]
fn record_with_a_missing_member_fails_the_answer() {
    let body = r#"{"arguments":{"torrents":[{"files":[{"bytesCompleted":5,"length":10,"name":"f","begin_piece":0}]}]},"result":"success"}"#;
    assert!(Response::decode(body.as_bytes()).is_none());
    let body = r#"{"arguments":{"cumulative_stats":{"uploadedBytes":11}},"result":"success"}"#;
    assert!(Response::decode(body.as_bytes()).is_none());
}
