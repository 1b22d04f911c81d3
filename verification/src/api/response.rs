//! The answers of the daemon.
//!
//! An answer is a JSON object with the members `arguments`, `result` and,
//! where the call had one, `tag`. The result `success` says that the call was
//! carried out; any other result is the daemon's word on why it was not, and
//! the answer is read all the same.

use crate::api::ids::{TorrentId, TorrentIdView};
use crate::api::torrent::{TorrentsArguments, TorrentsArgumentsView};
use crate::json::{parsed_json, Json, JsonValue};
use crate::scalar::{read_time, time_at, TimeSpan};
use crate::wire::{listed, optional, read_listed, read_optional, read_required, required, FromJson};
use vstd::prelude::*;

verus! {

/// The torrent that a call has added.
#[derive(Debug, Clone)]
pub struct TorrentAdded {
    /// Hash value of the torrent
    pub hash_string: Option<String>,
    /// Torrent ID
    pub id: Option<TorrentId>,
    pub name: Option<String>,
}

/// The mathematical value of [`TorrentAdded`].
pub struct TorrentAddedView {
    pub hash_string: Option<Seq<char>>,
    pub id: Option<TorrentIdView>,
    pub name: Option<Seq<char>>,
}

impl DeepView for TorrentAdded {
    type V = TorrentAddedView;

    open spec fn deep_view(&self) -> TorrentAddedView {
        TorrentAddedView {
            hash_string: self.hash_string.deep_view(),
            id: self.id.deep_view(),
            name: self.name.deep_view(),
        }
    }
}

impl FromJson for TorrentAdded {
    open spec fn decoded(value: JsonValue) -> Option<TorrentAddedView> {
        let hash_string = optional::<String>(value, "hashString"@);
        let id = optional::<TorrentId>(value, "id"@);
        let name = optional::<String>(value, "name"@);
        if value is Object
            && hash_string is Some
            && id is Some
            && name is Some
        {
            Some(
                TorrentAddedView {
                    hash_string: hash_string->0,
                    id: id->0,
                    name: name->0,
                },
            )
        } else {
            None
        }
    }

    fn from_json(json: &Json) -> (r: Option<TorrentAdded>) {
        if !json.is_object() {
            return None;
        }
        let hash_string = read_optional::<String>(json, "hashString")?;
        let id = read_optional::<TorrentId>(json, "id")?;
        let name = read_optional::<String>(json, "name")?;
        Some(
            TorrentAdded {
                hash_string,
                id,
                name,
            },
        )
    }
}

/// The counters of a session.
#[derive(Debug, Clone)]
pub struct SessionStats {
    /// Uploaded bytes in this session
    pub uploaded_bytes: u64,
    /// Downloaded bytes in this session
    pub downloaded_bytes: u64,
    /// Number of files added in this session
    pub files_added: u32,
    /// Cumulative seconds the torrent's ever spent downloading
    pub seconds_active: Option<TimeSpan>,
    /// Number of sessions
    pub session_count: u64,
}

/// The mathematical value of [`SessionStats`].
pub struct SessionStatsView {
    pub uploaded_bytes: u64,
    pub downloaded_bytes: u64,
    pub files_added: u32,
    pub seconds_active: Option<TimeSpan>,
    pub session_count: u64,
}

impl DeepView for SessionStats {
    type V = SessionStatsView;

    open spec fn deep_view(&self) -> SessionStatsView {
        SessionStatsView {
            uploaded_bytes: self.uploaded_bytes.deep_view(),
            downloaded_bytes: self.downloaded_bytes.deep_view(),
            files_added: self.files_added.deep_view(),
            seconds_active: self.seconds_active.deep_view(),
            session_count: self.session_count.deep_view(),
        }
    }
}

impl FromJson for SessionStats {
    open spec fn decoded(value: JsonValue) -> Option<SessionStatsView> {
        let uploaded_bytes = required::<u64>(value, "uploadedBytes"@);
        let downloaded_bytes = required::<u64>(value, "downloadedBytes"@);
        let files_added = required::<u32>(value, "filesAdded"@);
        let seconds_active = time_at(value, "secondsActive"@);
        let session_count = required::<u64>(value, "sessionCount"@);
        if value is Object
            && uploaded_bytes is Some
            && downloaded_bytes is Some
            && files_added is Some
            && seconds_active is Some
            && session_count is Some
        {
            Some(
                SessionStatsView {
                    uploaded_bytes: uploaded_bytes->0,
                    downloaded_bytes: downloaded_bytes->0,
                    files_added: files_added->0,
                    seconds_active: seconds_active->0,
                    session_count: session_count->0,
                },
            )
        } else {
            None
        }
    }

    fn from_json(json: &Json) -> (r: Option<SessionStats>) {
        if !json.is_object() {
            return None;
        }
        let uploaded_bytes = read_required::<u64>(json, "uploadedBytes")?;
        let downloaded_bytes = read_required::<u64>(json, "downloadedBytes")?;
        let files_added = read_required::<u32>(json, "filesAdded")?;
        let seconds_active = read_time(json, "secondsActive")?;
        let session_count = read_required::<u64>(json, "sessionCount")?;
        Some(
            SessionStats {
                uploaded_bytes,
                downloaded_bytes,
                files_added,
                seconds_active,
                session_count,
            },
        )
    }
}

impl Default for SessionStats {
    fn default() -> (r: Self)
        ensures
            r.deep_view() == SessionStatsView::zero(),
    {
        SessionStats {
            uploaded_bytes: 0,
            downloaded_bytes: 0,
            files_added: 0,
            seconds_active: None,
            session_count: 0,
        }
    }
}

impl SessionStatsView {
    /// The counters of a session in which nothing has happened.
    pub open spec fn zero() -> SessionStatsView {
        SessionStatsView {
            uploaded_bytes: 0,
            downloaded_bytes: 0,
            files_added: 0,
            seconds_active: None,
            session_count: 0,
        }
    }
}

/// The arguments of an answer. Which of them are there depends on the call.
#[derive(Debug, Clone)]
pub struct ResponseArguments {
    pub version: Option<String>,
    pub torrents: Vec<TorrentsArguments>,
    pub torrent_added: Option<TorrentAdded>,
    pub active_torrent_count: Option<u32>,
    pub download_speed: Option<u64>,
    pub paused_torrent_count: Option<u32>,
    pub torrent_count: Option<u32>,
    pub upload_speed: Option<u64>,
    pub cumulative_stats: Option<SessionStats>,
    pub current_stats: Option<SessionStats>,
}

/// The mathematical value of [`ResponseArguments`].
pub struct ResponseArgumentsView {
    pub version: Option<Seq<char>>,
    pub torrents: Seq<TorrentsArgumentsView>,
    pub torrent_added: Option<TorrentAddedView>,
    pub active_torrent_count: Option<u32>,
    pub download_speed: Option<u64>,
    pub paused_torrent_count: Option<u32>,
    pub torrent_count: Option<u32>,
    pub upload_speed: Option<u64>,
    pub cumulative_stats: Option<SessionStatsView>,
    pub current_stats: Option<SessionStatsView>,
}

impl DeepView for ResponseArguments {
    type V = ResponseArgumentsView;

    open spec fn deep_view(&self) -> ResponseArgumentsView {
        ResponseArgumentsView {
            version: self.version.deep_view(),
            torrents: self.torrents.deep_view(),
            torrent_added: self.torrent_added.deep_view(),
            active_torrent_count: self.active_torrent_count.deep_view(),
            download_speed: self.download_speed.deep_view(),
            paused_torrent_count: self.paused_torrent_count.deep_view(),
            torrent_count: self.torrent_count.deep_view(),
            upload_speed: self.upload_speed.deep_view(),
            cumulative_stats: self.cumulative_stats.deep_view(),
            current_stats: self.current_stats.deep_view(),
        }
    }
}

impl FromJson for ResponseArguments {
    open spec fn decoded(value: JsonValue) -> Option<ResponseArgumentsView> {
        let version = optional::<String>(value, "version"@);
        let torrents = listed::<TorrentsArguments>(value, "torrents"@);
        let torrent_added = optional::<TorrentAdded>(value, "torrent-added"@);
        let active_torrent_count = optional::<u32>(value, "active_torrent_count"@);
        let download_speed = optional::<u64>(value, "download_speed"@);
        let paused_torrent_count = optional::<u32>(value, "paused_torrent_count"@);
        let torrent_count = optional::<u32>(value, "torrent_count"@);
        let upload_speed = optional::<u64>(value, "upload_speed"@);
        let cumulative_stats = optional::<SessionStats>(value, "cumulative_stats"@);
        let current_stats = optional::<SessionStats>(value, "current_stats"@);
        if value is Object
            && version is Some
            && torrents is Some
            && torrent_added is Some
            && active_torrent_count is Some
            && download_speed is Some
            && paused_torrent_count is Some
            && torrent_count is Some
            && upload_speed is Some
            && cumulative_stats is Some
            && current_stats is Some
        {
            Some(
                ResponseArgumentsView {
                    version: version->0,
                    torrents: torrents->0,
                    torrent_added: torrent_added->0,
                    active_torrent_count: active_torrent_count->0,
                    download_speed: download_speed->0,
                    paused_torrent_count: paused_torrent_count->0,
                    torrent_count: torrent_count->0,
                    upload_speed: upload_speed->0,
                    cumulative_stats: cumulative_stats->0,
                    current_stats: current_stats->0,
                },
            )
        } else {
            None
        }
    }

    fn from_json(json: &Json) -> (r: Option<ResponseArguments>) {
        if !json.is_object() {
            return None;
        }
        let version = read_optional::<String>(json, "version")?;
        let torrents = read_listed::<TorrentsArguments>(json, "torrents")?;
        let torrent_added = read_optional::<TorrentAdded>(json, "torrent-added")?;
        let active_torrent_count = read_optional::<u32>(json, "active_torrent_count")?;
        let download_speed = read_optional::<u64>(json, "download_speed")?;
        let paused_torrent_count = read_optional::<u32>(json, "paused_torrent_count")?;
        let torrent_count = read_optional::<u32>(json, "torrent_count")?;
        let upload_speed = read_optional::<u64>(json, "upload_speed")?;
        let cumulative_stats = read_optional::<SessionStats>(json, "cumulative_stats")?;
        let current_stats = read_optional::<SessionStats>(json, "current_stats")?;
        Some(
            ResponseArguments {
                version,
                torrents,
                torrent_added,
                active_torrent_count,
                download_speed,
                paused_torrent_count,
                torrent_count,
                upload_speed,
                cumulative_stats,
                current_stats,
            },
        )
    }
}

/// An answer of the daemon.
#[derive(Debug, Clone)]
pub struct Response {
    pub arguments: ResponseArguments,
    pub result: String,
    pub tag: Option<u64>,
}

/// The mathematical value of [`Response`].
pub struct ResponseView {
    pub arguments: ResponseArgumentsView,
    pub result: Seq<char>,
    pub tag: Option<u64>,
}

impl DeepView for Response {
    type V = ResponseView;

    open spec fn deep_view(&self) -> ResponseView {
        ResponseView {
            arguments: self.arguments.deep_view(),
            result: self.result.deep_view(),
            tag: self.tag.deep_view(),
        }
    }
}

impl FromJson for Response {
    open spec fn decoded(value: JsonValue) -> Option<ResponseView> {
        let arguments = required::<ResponseArguments>(value, "arguments"@);
        let result = required::<String>(value, "result"@);
        let tag = optional::<u64>(value, "tag"@);
        if value is Object
            && arguments is Some
            && result is Some
            && tag is Some
        {
            Some(
                ResponseView {
                    arguments: arguments->0,
                    result: result->0,
                    tag: tag->0,
                },
            )
        } else {
            None
        }
    }

    fn from_json(json: &Json) -> (r: Option<Response>) {
        if !json.is_object() {
            return None;
        }
        let arguments = read_required::<ResponseArguments>(json, "arguments")?;
        let result = read_required::<String>(json, "result")?;
        let tag = read_optional::<u64>(json, "tag")?;
        Some(
            Response {
                arguments,
                result,
                tag,
            },
        )
    }
}

/// What the bytes of an answer are read as, or nothing where they are no
/// answer: no JSON text, or one that is not of the answer's form.
pub open spec fn decoded_response(bytes: Seq<u8>) -> Option<ResponseView> {
    match parsed_json(bytes) {
        Some(value) => Response::decoded(value),
        None => None,
    }
}

impl Response {
    /// Reads the answer from the bytes of its JSON text.
    pub fn decode(bytes: &[u8]) -> (r: Option<Response>)
        ensures
            r.deep_view() == decoded_response(bytes@),
    {
        match Json::parse(bytes) {
            Some(json) => Response::from_json(&json),
            None => None,
        }
    }

    /// Whether the daemon says that it has carried out the call.
    pub fn is_success(&self) -> (r: bool)
        ensures
            r == (self.result@ == "success"@),
    {
        self.result == "success".to_owned()
    }
}

} // verus!
