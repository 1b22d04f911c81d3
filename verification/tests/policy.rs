use transmission_fetcher::api::{Response, TorrentId, TorrentsArguments};
use transmission_fetcher::scalar::TimePoint;
use transmission_fetcher::settings::{
    collect_statuses, judge_with, select, TorrentSettings, Verdict,
};
use transmission_fetcher::api::Status;

const DAY: i64 = 86_400;

fn now() -> TimePoint {
    TimePoint { secs: 1_700_000_000, nanos: 0 }
}

fn days_ago(days: i64) -> i64 {
    now().secs - days * DAY
}

fn torrents(list: &str) -> Vec<TorrentsArguments> {
    let body = format!("{{\"arguments\":{{\"torrents\":{list}}},\"result\":\"success\"}}");
    Response::decode(body.as_bytes()).unwrap().arguments.torrents
}

fn settings() -> Option<TorrentSettings> {
    Some(TorrentSettings {
        tracker_allowlist: vec!["good-tracker".to_string()],
        remove_after: Some(30),
    })
}

#[test]
fn unlisted_tracker_is_throttled_and_not_removed() {
    let list = torrents(&format!(
        "[{{\"id\":1,\"uploadLimited\":false,\"trackerList\":\"http://unlisted.example/announce\",\"addedDate\":{}}}]",
        days_ago(400)
    ));
    let settings = settings();
    assert_eq!(Verdict::Throttle, judge_with(&settings, &list[0], now()));
    assert_eq!(
        vec![TorrentId::from(1)],
        select(&settings, &list, now(), Verdict::Throttle)
    );
    assert!(select(&settings, &list, now(), Verdict::Remove).is_empty());
}

#[test]
fn old_torrent_without_tracker_list_is_removed_only() {
    let list = torrents(&format!("[{{\"id\":2,\"addedDate\":{}}}]", days_ago(400)));
    let settings = settings();
    assert_eq!(Verdict::Remove, judge_with(&settings, &list[0], now()));
    assert!(select(&settings, &list, now(), Verdict::Throttle).is_empty());
    assert_eq!(
        vec![TorrentId::from(2)],
        select(&settings, &list, now(), Verdict::Remove)
    );
}

#[test]
fn torrent_without_id_is_on_neither_list() {
    let list = torrents(&format!(
        "[{{\"trackerList\":\"http://unlisted.example/announce\",\"addedDate\":{}}}]",
        days_ago(400)
    ));
    let settings = settings();
    assert_eq!(Verdict::Ignore, judge_with(&settings, &list[0], now()));
    assert!(select(&settings, &list, now(), Verdict::Throttle).is_empty());
    assert!(select(&settings, &list, now(), Verdict::Remove).is_empty());
}

#[test]
fn allowed_tracker_is_left_alone() {
    let list = torrents(
        "[{\"id\":3,\"trackerList\":\"http://a.example/announce\\n\\nhttps://good-tracker.example/announce\"}]",
    );
    assert_eq!(Verdict::Ignore, judge_with(&settings(), &list[0], now()));
}

#[test]
fn allowed_old_torrent_is_removed() {
    let list = torrents(&format!(
        "[{{\"id\":4,\"trackerList\":\"https://good-tracker.example/announce\",\"addedDate\":{}}}]",
        days_ago(31)
    ));
    assert_eq!(Verdict::Remove, judge_with(&settings(), &list[0], now()));
}

#[test]
fn limited_torrent_is_not_throttled_again() {
    let list = torrents(&format!(
        "[{{\"id\":5,\"uploadLimited\":true,\"trackerList\":\"http://unlisted.example/announce\",\"addedDate\":{}}},
          {{\"id\":6,\"uploadLimited\":true,\"trackerList\":\"http://unlisted.example/announce\",\"addedDate\":{}}}]",
        days_ago(400),
        days_ago(3)
    ));
    assert_eq!(Verdict::Remove, judge_with(&settings(), &list[0], now()));
    assert_eq!(Verdict::Ignore, judge_with(&settings(), &list[1], now()));
}

#[test]
fn empty_allowlist_throttles_every_tracker() {
    let settings = Some(TorrentSettings::default());
    let list = torrents("[{\"id\":7,\"trackerList\":\"https://good-tracker.example/announce\"},{\"id\":8,\"trackerList\":\"x\"},{\"id\":9}]");
    assert_eq!(Verdict::Throttle, judge_with(&settings, &list[0], now()));
    assert_eq!(Verdict::Throttle, judge_with(&settings, &list[1], now()));
    assert_eq!(Verdict::Ignore, judge_with(&settings, &list[2], now()));
}

#[test]
fn without_settings_nothing_is_done() {
    let list = torrents(&format!(
        "[{{\"id\":1,\"trackerList\":\"http://unlisted.example/announce\",\"addedDate\":{}}}]",
        days_ago(400)
    ));
    assert_eq!(Verdict::Ignore, judge_with(&None, &list[0], now()));
    assert!(select(&None, &list, now(), Verdict::Throttle).is_empty());
    assert!(select(&None, &list, now(), Verdict::Remove).is_empty());
}

#[test]
fn tracker_allowed_looks_for_an_entry_in_the_list() {
    let settings = TorrentSettings {
        tracker_allowlist: vec!["alpha".to_string(), "beta.example".to_string()],
        remove_after: None,
    };
    assert!(settings.tracker_allowed("http://beta.example/announce".to_string()));
    assert!(settings.tracker_allowed("alpha".to_string()));
    assert!(!settings.tracker_allowed("http://gamma.example/announce".to_string()));
    assert!(!settings.tracker_allowed("alph".to_string()));
    assert!(!settings.tracker_allowed(String::new()));
    assert!(!TorrentSettings::default().tracker_allowed("alpha".to_string()));
    let with_empty = TorrentSettings { tracker_allowlist: vec![String::new()], remove_after: None };
    assert!(with_empty.tracker_allowed("anything".to_string()));
}

#[test]
fn need_removal_counts_whole_days() {
    let settings = TorrentSettings { tracker_allowlist: Vec::new(), remove_after: Some(30) };
    let added = TimePoint { secs: days_ago(30), nanos: 0 };
    assert!(!settings.need_removal(added, now()));
    assert!(settings.need_removal(added, TimePoint { secs: now().secs, nanos: 1 }));
    assert!(settings.need_removal(TimePoint { secs: days_ago(30) - 1, nanos: 0 }, now()));
    assert!(!settings.need_removal(TimePoint { secs: days_ago(29), nanos: 0 }, now()));
    let never = TorrentSettings { tracker_allowlist: Vec::new(), remove_after: None };
    assert!(!never.need_removal(TimePoint { secs: 1, nanos: 0 }, now()));
    let at_once = TorrentSettings { tracker_allowlist: Vec::new(), remove_after: Some(0) };
    assert!(!at_once.need_removal(now(), now()));
    assert!(at_once.need_removal(TimePoint { secs: now().secs - 1, nanos: 0 }, now()));
    let far = TorrentSettings { tracker_allowlist: Vec::new(), remove_after: Some(u32::MAX) };
    assert!(!far.need_removal(TimePoint { secs: 1, nanos: 0 }, now()));
    assert!(far.need_removal(
        TimePoint { secs: i64::MIN, nanos: 0 },
        TimePoint { secs: i64::MAX, nanos: 999_999_999 }
    ));
}

#[test]
fn is_older_than_compares_to_the_nanosecond() {
    let then = TimePoint { secs: 100, nanos: 500 };
    assert!(!then.is_older_than(&TimePoint { secs: 100 + DAY, nanos: 500 }, 1));
    assert!(then.is_older_than(&TimePoint { secs: 100 + DAY, nanos: 501 }, 1));
    assert!(!then.is_older_than(&TimePoint { secs: 100 + DAY, nanos: 499 }, 1));
    assert!(!then.is_older_than(&TimePoint { secs: 0, nanos: 0 }, 0));
}

#[test]
fn lists_keep_the_order_of_the_torrents() {
    let list = torrents(&format!(
        "[{{\"id\":9,\"trackerList\":\"x\"}},
          {{\"id\":\"HASH\",\"addedDate\":{old}}},
          {{\"id\":3,\"trackerList\":\"y\",\"addedDate\":{old}}},
          {{\"id\":[1,2],\"addedDate\":{old}}},
          {{\"id\":5,\"trackerList\":\"good-tracker\"}},
          {{\"id\":\"recently-active\",\"trackerList\":\"z\"}}]",
        old = days_ago(100)
    ));
    let settings = settings();
    assert_eq!(
        vec![TorrentId::from(9), TorrentId::from(3), TorrentId::RecentlyActive],
        select(&settings, &list, now(), Verdict::Throttle)
    );
    assert_eq!(
        vec![
            TorrentId::from("HASH".to_string()),
            TorrentId::from(vec![1.into(), 2.into()])
        ],
        select(&settings, &list, now(), Verdict::Remove)
    );
    assert!(select(&settings, &list, now(), Verdict::Ignore).is_empty());
}

#[test]
fn statuses_of_the_torrents_that_have_one() {
    let list = torrents("[{\"status\":6},{\"id\":1},{\"status\":0},{\"status\":6}]");
    assert_eq!(
        vec![Status::Seed, Status::Stopped, Status::Seed],
        collect_statuses(&list)
    );
    assert!(collect_statuses(&Vec::new()).is_empty());
}

#[test]
fn empty_tracker_list_is_not_throttled() {
    let list = torrents(&format!(
        "[{{\"id\":1,\"uploadLimited\":false,\"trackerList\":\"\"}},
          {{\"id\":2,\"uploadLimited\":false,\"trackerList\":\"\",\"addedDate\":{}}},
          {{\"id\":3,\"uploadLimited\":false,\"trackerList\":\" \"}}]",
        days_ago(400)
    ));
    for settings in [settings(), Some(TorrentSettings::default())] {
        assert_eq!(Verdict::Ignore, judge_with(&settings, &list[0], now()));
        assert_eq!(Verdict::Throttle, judge_with(&settings, &list[2], now()));
        assert_eq!(
            vec![TorrentId::from(3)],
            select(&settings, &list, now(), Verdict::Throttle)
        );
    }
    assert_eq!(Verdict::Remove, judge_with(&settings(), &list[1], now()));
    assert_eq!(
        vec![TorrentId::from(2)],
        select(&settings(), &list, now(), Verdict::Remove)
    );
    assert_eq!(
        Verdict::Ignore,
        judge_with(&Some(TorrentSettings::default()), &list[1], now())
    );
}
