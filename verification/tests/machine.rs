use transmission_fetcher::adaptor::{
    FetchAction, FetchError, FetchStep, HttpEvent, HttpMethod, HttpRequest, ProtocolError, Report,
    TorrentAdaptor, TorrentFetchState, STATUS_CONFLICT, STATUS_OK,
};
use transmission_fetcher::api::{Method, Response, Status, TorrentField, TorrentId, TorrentSetParams};
use transmission_fetcher::json::JsonNumber;
use transmission_fetcher::scalar::TimePoint;
use transmission_fetcher::settings::TorrentSettings;

type Event = HttpEvent<String>;

fn now() -> TimePoint {
    TimePoint { secs: 1_700_000_000, nanos: 0 }
}

fn settings() -> Option<TorrentSettings> {
    Some(TorrentSettings {
        tracker_allowlist: vec!["good-tracker".to_string()],
        remove_after: Some(30),
    })
}

fn answer(status: u16, body: &str) -> Event {
    HttpEvent::Response { status, session_id: None, body: body.as_bytes().to_vec() }
}

fn login(status: u16, token: &str) -> Event {
    HttpEvent::Response { status, session_id: Some(token.to_string()), body: Vec::new() }
}

fn header<'a>(request: &'a HttpRequest, name: &str) -> Option<&'a str> {
    request.headers.iter().find(|(n, _)| n == name).map(|(_, v)| v.as_str())
}

fn logged_in(settings: Option<TorrentSettings>) -> TorrentAdaptor {
    let mut machine = TorrentAdaptor::new(settings);
    assert_eq!(FetchAction::Http, machine.fetch());
    assert_eq!(Ok(FetchAction::Http), machine.process_http_response(login(409, "token-1"), now()));
    machine
}

const STATS: &str = r#"{"arguments":{"cumulative_stats":{"uploadedBytes":11,"downloadedBytes":22,"filesAdded":3,"secondsActive":60,"sessionCount":2}},"result":"success"}"#;

#[test]
fn login_request_is_a_bare_get() {
    let machine = TorrentAdaptor::new(None);
    let request = machine.create_http_request().unwrap();
    assert_eq!(
        HttpRequest {
            method: HttpMethod::Get,
            path: "/transmission/rpc".to_string(),
            headers: vec![
                ("connection".to_string(), "keep-alive".to_string()),
                ("accept".to_string(), "application/json".to_string()),
            ],
            body: None,
        },
        request
    );
}

#[test]
fn call_request_carries_token_and_call() {
    let machine = logged_in(None);
    let request = machine.create_http_request().unwrap();
    assert_eq!(
        HttpRequest {
            method: HttpMethod::Post,
            path: "/transmission/rpc".to_string(),
            headers: vec![
                ("connection".to_string(), "keep-alive".to_string()),
                ("content-type".to_string(), "application/json".to_string()),
                ("accept".to_string(), "application/json".to_string()),
                ("x-transmission-session-id".to_string(), "token-1".to_string()),
            ],
            body: Some("{\"method\":\"session-stats\"}".to_string()),
        },
        request
    );
}

#[test]
fn cycle_without_changes_makes_one_login_and_two_calls() {
    let mut machine = TorrentAdaptor::new(settings());
    assert_eq!(FetchAction::Http, machine.fetch());
    let mut requests = Vec::new();

    requests.push(machine.create_http_request().unwrap());
    assert_eq!(Ok(FetchAction::Http), machine.process_http_response(login(409, "token-1"), now()));
    assert!(matches!(machine.state, TorrentFetchState::SessionStats));

    requests.push(machine.create_http_request().unwrap());
    assert_eq!(Ok(FetchAction::Http), machine.process_http_response(answer(200, STATS), now()));
    assert!(matches!(machine.state, TorrentFetchState::TorrentGet));

    requests.push(machine.create_http_request().unwrap());
    let list = r#"{"arguments":{"torrents":[{"id":1,"name":"a","status":6,"trackerList":"https://good-tracker.example/announce","addedDate":1699990000,"uploadLimited":false},{"id":2,"status":4,"uploadLimited":true}]},"result":"success"}"#;
    assert_eq!(Ok(FetchAction::Stop), machine.process_http_response(answer(200, list), now()));
    assert!(matches!(machine.state, TorrentFetchState::End));

    assert_eq!(3, requests.len());
    assert_eq!(HttpMethod::Get, requests[0].method);
    assert_eq!(None, requests[0].body);
    assert_eq!(None, header(&requests[0], "x-transmission-session-id"));
    assert_eq!(HttpMethod::Post, requests[1].method);
    assert_eq!(Some("{\"method\":\"session-stats\"}"), requests[1].body.as_deref());
    assert_eq!(Some("token-1"), header(&requests[1], "x-transmission-session-id"));
    assert_eq!(HttpMethod::Post, requests[2].method);
    assert_eq!(
        Some("{\"method\":\"torrent-get\",\"arguments\":{\"fields\":[\"id\",\"name\",\"status\",\"trackerList\",\"addedDate\",\"uploadLimited\"]}}"),
        requests[2].body.as_deref()
    );
    assert_eq!(Some("token-1"), header(&requests[2], "x-transmission-session-id"));

    assert!(machine.state.get_method().is_none());
    assert_eq!(Err(ProtocolError::NoCall), machine.create_http_request());
    assert_eq!(vec![Status::Seed, Status::Download], machine.torrent_count);
    assert_eq!(11, machine.torrent_stats.uploaded_bytes);
    assert_eq!(22, machine.torrent_stats.downloaded_bytes);
    assert_eq!(Ok(FetchAction::Stop), machine.process_http_response(answer(200, STATS), now()));
    assert!(matches!(machine.state, TorrentFetchState::End));
}

#[test]
fn conflict_is_followed_by_one_login_and_the_same_call() {
    let mut machine = logged_in(settings());
    assert_eq!(Ok(FetchAction::Http), machine.process_http_response(answer(200, STATS), now()));
    let refused = machine.create_http_request().unwrap();

    assert_eq!(Ok(FetchAction::Http), machine.process_http_response(answer(STATUS_CONFLICT, ""), now()));
    assert_eq!(None, machine.session_id);
    assert!(matches!(machine.state, TorrentFetchState::TorrentGet));

    let probe = machine.create_http_request().unwrap();
    assert_eq!(HttpMethod::Get, probe.method);
    assert_eq!(None, probe.body);

    assert_eq!(Ok(FetchAction::Http), machine.process_http_response(login(STATUS_CONFLICT, "token-2"), now()));
    assert_eq!(Some("token-2"), machine.session_id.as_deref());
    assert!(matches!(machine.state, TorrentFetchState::TorrentGet));

    let repeated = machine.create_http_request().unwrap();
    assert_eq!(refused.method, repeated.method);
    assert_eq!(refused.body, repeated.body);
    assert_eq!(Some("token-1"), header(&refused, "x-transmission-session-id"));
    assert_eq!(Some("token-2"), header(&repeated, "x-transmission-session-id"));

    let list = r#"{"arguments":{"torrents":[]},"result":"success"}"#;
    assert_eq!(Ok(FetchAction::Stop), machine.process_http_response(answer(STATUS_OK, list), now()));
    assert!(matches!(machine.state, TorrentFetchState::End));
}

#[test]
fn conflict_keeps_the_pending_changes() {
    let mut machine = logged_in(None);
    machine.state = TorrentFetchState::TorrentMut(vec![
        Method::TorrentStop(Some(1.into())),
        Method::TorrentStart(Some(2.into())),
    ]);
    let before = machine.create_http_request().unwrap();
    assert_eq!(Ok(FetchAction::Http), machine.process_http_response(answer(409, ""), now()));
    assert_eq!(Ok(FetchAction::Http), machine.process_http_response(login(200, "token-2"), now()));
    let after = machine.create_http_request().unwrap();
    assert_eq!(before.body, after.body);
    assert_eq!(
        Some("{\"method\":\"torrent-stop\",\"arguments\":{\"ids\":1}}"),
        after.body.as_deref()
    );
    match &machine.state {
        TorrentFetchState::TorrentMut(pending) => assert_eq!(2, pending.len()),
        state => panic!("unexpected state {state:?}"),
    }
}

#[test]
fn changes_are_made_one_after_the_other() {
    let mut machine = logged_in(settings());
    assert_eq!(Ok(FetchAction::Http), machine.process_http_response(answer(200, STATS), now()));
    let list = r#"{"arguments":{"torrents":[
        {"id":1,"status":6,"trackerList":"http://unlisted.example/announce","addedDate":1600000000},
        {"id":2,"status":0,"addedDate":1600000000},
        {"id":3,"status":6,"trackerList":"http://other.example/announce"},
        {"status":2,"trackerList":"http://other.example/announce","addedDate":1600000000},
        {"id":"OLD","trackerList":"http://good-tracker.example/announce","addedDate":1600000000}
    ]},"result":"success"}"#;
    assert_eq!(Ok(FetchAction::Http), machine.process_http_response(answer(200, list), now()));
    assert_eq!(
        vec![Status::Seed, Status::Stopped, Status::Seed, Status::Check],
        machine.torrent_count
    );
    match &machine.state {
        TorrentFetchState::TorrentMut(pending) => assert_eq!(2, pending.len()),
        state => panic!("unexpected state {state:?}"),
    }

    let first = machine.create_http_request().unwrap();
    assert_eq!(
        Some("{\"method\":\"torrent-set\",\"arguments\":{\"ids\":[1,3],\"peer-limit\":0,\"uploadLimit\":0,\"uploadLimited\":true}}"),
        first.body.as_deref()
    );
    assert_eq!(
        Ok(FetchAction::Http),
        machine.process_http_response(answer(200, r#"{"arguments":{},"result":"success"}"#), now())
    );
    let done = machine.completed.as_ref().unwrap();
    assert_eq!("torrent-set", done.method.name());
    assert_eq!("success", done.result);

    let second = machine.create_http_request().unwrap();
    assert_eq!(
        Some("{\"method\":\"torrent-remove\",\"arguments\":{\"ids\":[2,\"OLD\"],\"deleteLocalData\":false}}"),
        second.body.as_deref()
    );
    assert_eq!(
        Ok(FetchAction::Stop),
        machine.process_http_response(answer(200, r#"{"arguments":{},"result":"not allowed"}"#), now())
    );
    let done = machine.completed.as_ref().unwrap();
    assert_eq!("torrent-remove", done.method.name());
    assert_eq!("not allowed", done.result);
    match &machine.state {
        TorrentFetchState::TorrentMut(pending) => assert!(pending.is_empty()),
        state => panic!("unexpected state {state:?}"),
    }
    assert_eq!(Err(ProtocolError::NoCall), machine.create_http_request());
    assert_eq!(
        Ok(FetchAction::Stop),
        machine.process_http_response(answer(200, r#"{"arguments":{},"result":"success"}"#), now())
    );
}

#[test]
fn only_removal_gives_a_single_change() {
    let mut machine = logged_in(settings());
    machine.state = TorrentFetchState::TorrentGet;
    let list = r#"{"arguments":{"torrents":[{"id":2,"addedDate":1600000000}]},"result":"success"}"#;
    assert_eq!(Ok(FetchAction::Http), machine.process_http_response(answer(200, list), now()));
    assert_eq!(
        Some("{\"method\":\"torrent-remove\",\"arguments\":{\"ids\":[2],\"deleteLocalData\":false}}"),
        machine.create_http_request().unwrap().body.as_deref()
    );
    assert!(machine.torrent_count.is_empty());
}

#[test]
fn new_cycle_starts_over_and_keeps_the_token() {
    let mut machine = logged_in(None);
    machine.state = TorrentFetchState::TorrentMut(vec![Method::TorrentStop(None)]);
    machine.torrent_count = vec![Status::Seed];
    assert_eq!(FetchAction::Http, machine.fetch());
    assert!(matches!(machine.state, TorrentFetchState::SessionStats));
    assert!(machine.completed.is_none());
    assert_eq!(Some("token-1"), machine.session_id.as_deref());
    assert_eq!(vec![Status::Seed], machine.torrent_count);
    assert_eq!(
        Some("{\"method\":\"session-stats\"}"),
        machine.create_http_request().unwrap().body.as_deref()
    );
}

#[test]
fn login_without_token_is_a_protocol_error() {
    let mut machine = TorrentAdaptor::new(None);
    assert_eq!(
        Err(FetchError::Protocol(ProtocolError::MissingSessionHeader)),
        machine.process_http_response(answer(200, STATS), now())
    );
    assert_eq!(None, machine.session_id);
    assert!(matches!(machine.state, TorrentFetchState::SessionStats));
}

#[test]
fn login_takes_the_token_whatever_the_status() {
    for status in [200, 409, 401, 500] {
        let mut machine = TorrentAdaptor::new(None);
        assert_eq!(
            Ok(FetchAction::Http),
            machine.process_http_response(login(status, "t"), now())
        );
        assert_eq!(Some("t"), machine.session_id.as_deref());
        assert!(matches!(machine.state, TorrentFetchState::SessionStats));
    }
}

#[test]
fn unreadable_body_is_a_protocol_error() {
    let mut machine = logged_in(None);
    machine.torrent_count = vec![Status::Seed];
    assert_eq!(
        Err(FetchError::Protocol(ProtocolError::UnparsableBody)),
        machine.process_http_response(answer(200, "{\"arguments\":"), now())
    );
    assert_eq!(
        Err(FetchError::Protocol(ProtocolError::UnparsableBody)),
        machine.process_http_response(answer(200, "{\"result\":\"success\"}"), now())
    );
    assert!(matches!(machine.state, TorrentFetchState::SessionStats));
    assert_eq!(vec![Status::Seed], machine.torrent_count);
    assert_eq!(Some("token-1"), machine.session_id.as_deref());
}

#[test]
fn other_status_is_an_error_with_step_and_status() {
    let mut machine = logged_in(None);
    assert_eq!(
        Err(FetchError::UnexpectedStatus { status: 500, step: FetchStep::SessionStats }),
        machine.process_http_response(answer(500, ""), now())
    );
    machine.state = TorrentFetchState::TorrentGet;
    assert_eq!(
        Err(FetchError::UnexpectedStatus { status: 204, step: FetchStep::TorrentGet }),
        machine.process_http_response(answer(204, STATS), now())
    );
    machine.state = TorrentFetchState::TorrentMut(Vec::new());
    assert_eq!(
        Err(FetchError::UnexpectedStatus { status: 404, step: FetchStep::TorrentMut }),
        machine.process_http_response(answer(404, ""), now())
    );
    machine.state = TorrentFetchState::End;
    assert_eq!(
        Err(FetchError::UnexpectedStatus { status: 301, step: FetchStep::End }),
        machine.process_http_response(answer(301, ""), now())
    );
    assert_eq!(Some("token-1"), machine.session_id.as_deref());
    assert_eq!(FetchStep::End, machine.state.step());
}

#[test]
fn canceled_request_ends_the_cycle_quietly() {
    let mut machine = logged_in(None);
    machine.state = TorrentFetchState::TorrentGet;
    assert_eq!(Ok(FetchAction::Stop), machine.process_http_response(Event::Canceled, now()));
    assert!(matches!(machine.state, TorrentFetchState::TorrentGet));
    assert_eq!(Some("token-1"), machine.session_id.as_deref());
}

#[test]
fn transport_error_is_handed_on() {
    let mut machine = logged_in(None);
    assert_eq!(
        Err(FetchError::Transport("connection reset".to_string())),
        machine.process_http_response(Event::Failed("connection reset".to_string()), now())
    );
    assert!(matches!(machine.state, TorrentFetchState::SessionStats));
    let mut machine = TorrentAdaptor::new(None);
    assert_eq!(
        Err(FetchError::Transport("refused".to_string())),
        machine.process_http_response(Event::Failed("refused".to_string()), now())
    );
}

#[test]
fn call_that_cannot_be_written_is_a_protocol_error() {
    let mut machine = logged_in(None);
    let params = TorrentSetParams {
        seed_ratio_limit: Some(JsonNumber::Real("high".to_string())),
        ..Default::default()
    };
    machine.state = TorrentFetchState::TorrentMut(vec![Method::TorrentSet(Box::new(params))]);
    assert_eq!(Err(ProtocolError::Unserializable), machine.create_http_request());
}

#[test]
fn statistics_stay_where_the_answer_has_none() {
    let mut machine = logged_in(None);
    assert_eq!(Ok(FetchAction::Http), machine.process_http_response(answer(200, STATS), now()));
    assert_eq!(11, machine.torrent_stats.uploaded_bytes);
    machine.fetch();
    assert_eq!(
        Ok(FetchAction::Http),
        machine.process_http_response(answer(200, r#"{"arguments":{},"result":"success"}"#), now())
    );
    assert_eq!(11, machine.torrent_stats.uploaded_bytes);
    assert!(matches!(machine.state, TorrentFetchState::TorrentGet));
}

#[test]
fn consume_response_takes_a_decoded_answer() {
    let mut machine = logged_in(None);
    let stats = Response::decode(STATS.as_bytes()).unwrap();
    assert_eq!(FetchAction::Http, machine.consume_response(stats, now()));
    assert!(matches!(machine.state, TorrentFetchState::TorrentGet));
    assert_eq!(22, machine.torrent_stats.downloaded_bytes);
}

#[test]
fn body_is_wanted_for_a_successful_call_only() {
    let machine = TorrentAdaptor::new(None);
    assert!(!machine.wants_body(200));
    let machine = logged_in(None);
    assert!(machine.wants_body(200));
    assert!(!machine.wants_body(409));
    assert!(!machine.wants_body(500));
}

#[test]
fn get_method_follows_the_state() {
    assert!(matches!(
        TorrentFetchState::default().get_method(),
        Some(Method::SessionStats)
    ));
    match TorrentFetchState::TorrentGet.get_method() {
        Some(Method::TorrentGet(fields, None)) => assert_eq!(
            vec![
                TorrentField::Id,
                TorrentField::Name,
                TorrentField::Status,
                TorrentField::TrackerList,
                TorrentField::AddedDate,
                TorrentField::UploadLimited,
            ],
            fields
        ),
        call => panic!("unexpected call {call:?}"),
    }
    let pending = TorrentFetchState::TorrentMut(vec![
        Method::TorrentRemove(vec![TorrentId::from(4)], false),
        Method::TorrentStop(None),
    ]);
    match pending.get_method() {
        Some(Method::TorrentRemove(ids, false)) => assert_eq!(vec![TorrentId::from(4)], ids),
        call => panic!("unexpected call {call:?}"),
    }
    assert!(TorrentFetchState::TorrentMut(Vec::new()).get_method().is_none());
    assert!(TorrentFetchState::End.get_method().is_none());
}

#[test]
fn empty_tracker_list_queues_no_change() {
    let mut machine = logged_in(settings());
    machine.state = TorrentFetchState::TorrentGet;
    let list = r#"{"arguments":{"torrents":[{"id":1,"status":6,"trackerList":"","uploadLimited":false}]},"result":"success"}"#;
    assert_eq!(Ok(FetchAction::Stop), machine.process_http_response(answer(200, list), now()));
    assert!(matches!(machine.state, TorrentFetchState::End));
    assert_eq!(vec![Status::Seed], machine.torrent_count);
    assert_eq!(Err(ProtocolError::NoCall), machine.create_http_request());
}

#[test]
fn report_says_what_the_answer_has_renewed() {
    let mut machine = TorrentAdaptor::new(settings());
    assert_eq!(Report::Nothing, machine.report);
    machine.fetch();
    assert_eq!(Ok(FetchAction::Http), machine.process_http_response(login(409, "t"), now()));
    assert_eq!(Report::Nothing, machine.report);

    assert_eq!(Ok(FetchAction::Http), machine.process_http_response(answer(200, STATS), now()));
    assert_eq!(Report::SessionStats, machine.report);

    let list = r#"{"arguments":{"torrents":[{"id":1,"status":6,"trackerList":"http://unlisted.example/announce"}]},"result":"success"}"#;
    assert_eq!(Ok(FetchAction::Http), machine.process_http_response(answer(200, list), now()));
    assert_eq!(Report::TorrentCount, machine.report);

    let done = r#"{"arguments":{},"result":"success"}"#;
    assert_eq!(Ok(FetchAction::Stop), machine.process_http_response(answer(200, done), now()));
    assert_eq!(Report::Completed, machine.report);
    assert_eq!(Ok(FetchAction::Stop), machine.process_http_response(answer(200, done), now()));
    assert_eq!(Report::Nothing, machine.report);

    machine.fetch();
    assert_eq!(Report::Nothing, machine.report);
    assert_eq!(Ok(FetchAction::Http), machine.process_http_response(answer(200, done), now()));
    assert_eq!(Report::Nothing, machine.report);
    assert_eq!(11, machine.torrent_stats.uploaded_bytes);
    let empty = r#"{"arguments":{"torrents":[]},"result":"success"}"#;
    assert_eq!(Ok(FetchAction::Stop), machine.process_http_response(answer(200, empty), now()));
    assert_eq!(Report::TorrentCount, machine.report);
    assert!(machine.torrent_count.is_empty());
    assert_eq!(Ok(FetchAction::Stop), machine.process_http_response(answer(200, empty), now()));
    assert_eq!(Report::Nothing, machine.report);
}
