//! The snapshot of a torrent.

use crate::api::enums::{IdleLimit, Priority, RatioLimit, StatErrType, Status};
use crate::api::ids::{TorrentId, TorrentIdView};
use crate::api::records::{
    File, FileStat, FileStatView, FileView, Peer, PeerFrom, PeerFromView, PeerView, Tracker,
    TrackerStat, TrackerStatView, TrackerView,
};
use crate::json::{Json, JsonNumber, JsonValue, NumberValue};
use crate::scalar::{
    bitfield_at, read_bitfield, read_time, read_timestamp, time_at, timestamp_at, TimePoint,
    TimeSpan,
};
use crate::wire::{flag, optional, read_flag, read_optional, FromJson};
use vstd::prelude::*;

verus! {

/// What an answer says of one torrent. A field that the call did not ask for
/// is absent: no field is there in every answer.
#[derive(Debug, Clone)]
pub struct TorrentsArguments {
    /// The last time we uploaded or downloaded piece data on this torrent
    pub activity_date: Option<TimePoint>,
    /// When the torrent was first added
    pub added_date: Option<TimePoint>,
    /// An array of pieceCount numbers representing the number of connected peers that have each piece, or -1 if we already have the piece ourselves
    pub availability: Option<Vec<u32>>,
    /// Bandwidth priority of the torrent
    pub bandwidth_priority: Option<Priority>,
    /// An array of `tr_info.filecount` numbers. Each is the completed bytes for the corresponding file
    pub bytes_completed: Option<Vec<i64>>,
    /// Comment of the torrent
    pub comment: Option<String>,
    /// Byte count of all the corrupt data you've ever downloaded for this torrent.
    /// If you're on a poisoned torrent, this number can grow very large
    pub corrupt_ever: Option<u64>,
    /// Creator name of the torrent
    pub creator: Option<String>,
    /// Creation date of the torrent
    pub date_created: Option<TimePoint>,
    /// Byte count of all the piece data we want and don't have yet, but that a connected peer does have. [0...leftUntilDone]
    pub desired_available: Option<u64>,
    /// When the torrent finished downloading
    pub done_date: Option<TimePoint>,
    /// Torrent download folder
    pub download_dir: Option<String>,
    /// Byte count of all the non-corrupt data you've ever downloaded for this torrent.
    /// If you deleted the files and downloaded a second time, this will be `2*totalSize`..
    pub downloaded_ever: Option<u64>,
    /// Limit of the download in kBps
    pub download_limit: Option<u64>,
    /// Indicate if the download is limited
    pub download_limited: bool,
    /// The last time during this session that a rarely-changing field changed
    /// e.g. any `tr_torrent_metainfo` field (trackers, filenames, name) or download directory.
    /// RPC clients can monitor this to know when to reload fields that rarely change
    pub edit_date: Option<TimePoint>,
    /// Defines what kind of text is in errorString
    pub error: Option<StatErrType>,
    /// A warning or error message regarding the torrent
    pub error_string: Option<String>,
    /// If downloading, estimated number of seconds left until the torrent is done.
    /// If seeding, estimated number of seconds left until seed ratio is reached
    pub eta: Option<TimeSpan>,
    /// If seeding, number of seconds left until the idle time limit is reached
    pub eta_idle: Option<TimeSpan>,
    /// Number of file in the torrent
    pub file_count: Option<u64>,
    /// Files are returned in the order they are laid out in the torrent.
    /// References to "file indices" throughout this specification should be interpreted as the position of the file within this ordering, with the first file bearing index 0
    pub files: Option<Vec<File>>,
    /// File's non-constant properties.
    /// An array of tr_info.filecount objects, in the same order as `files`
    pub file_stats: Option<Vec<FileStat>>,
    /// Group name
    pub group: Option<String>,
    /// Hash value of the torrent
    pub hash_string: Option<String>,
    /// Byte count of all the partial piece data we have for this torrent.
    /// As pieces become complete, this value may decrease as portions of it are moved to `corrupt` or `haveValid`
    pub have_unchecked: Option<u64>,
    /// Byte count of all the checksum-verified data we have for this torrent
    pub have_valid: Option<u64>,
    /// Indicate if session upload limits are honored
    pub honors_session_limits: bool,
    /// Torrent ID
    pub id: Option<TorrentId>,
    pub is_finished: bool,
    pub is_private: bool,
    pub is_stalled: bool,
    pub labels: Option<Vec<String>>,
    /// Byte count of how much data is left to be downloaded until we've got all the pieces that we want. [0...tr_stat.sizeWhenDone]
    pub left_until_done: Option<u64>,
    pub magnet_link: Option<String>,
    /// DEPRECATED don't use it, it never worked
    pub manual_announce_time: Option<u64>,
    pub max_connected_peers: Option<u64>,
    pub metadata_percent_complete: Option<JsonNumber>,
    pub name: Option<String>,
    pub peer_limit: Option<u64>,
    pub peers: Option<Vec<Peer>>,
    /// Number of peers that we're connected to
    pub peers_connected: Option<u16>,
    pub peers_from: Option<PeerFrom>,
    /// Number of peers that we're sending data to
    pub peers_getting_from_us: Option<u16>,
    /// Number of peers that are sending data to us
    pub peers_sending_to_us: Option<u16>,
    /// How much has been downloaded of the entire torrent. Range is [0..1]
    pub percent_complete: Option<JsonNumber>,
    /// How much has been downloaded of the files the user wants.
    /// This differs from percentComplete if the user wants only some of the torrent's files. Range is [0..1]
    pub percent_done: Option<JsonNumber>,
    pub pieces: Option<Vec<u8>>,
    pub piece_count: Option<u32>,
    pub piece_size: Option<u64>,
    pub priorities: Option<Vec<Priority>>,
    pub primary_mime_type: Option<String>,
    /// This torrent's queue position.
    /// All torrents have a queue position, even if it's not queued
    pub queue_position: Option<usize>,
    /// Download rate in B/s
    pub rate_download: Option<i64>,
    /// Upload rate in B/s
    pub rate_upload: Option<i64>,
    /// When `tr_stat.activity` is `TR_STATUS_CHECK` or `TR_STATUS_CHECK_WAIT`, this is the percentage of how much of the files has been verified.
    /// When it gets to 1, the verify process is done. Range is [0..1]
    pub recheck_progress: Option<JsonNumber>,
    /// Cumulative seconds the torrent's ever spent downloading
    pub seconds_downloading: Option<TimeSpan>,
    /// Cumulative seconds the torrent's ever spent seeding
    pub seconds_seeding: Option<TimeSpan>,
    pub seed_idle_limit: Option<i64>,
    pub seed_idle_mode: Option<IdleLimit>,
    pub seed_ratio_limit: Option<JsonNumber>,
    pub seed_ratio_mode: Option<RatioLimit>,
    /// Enable sequential download
    pub sequential_download: bool,
    /// Enable sequential download from piece
    pub sequential_download_from_piece: Option<i64>,
    /// Byte count of all the piece data we'll have downloaded when we're done, whether or not we have it yet.
    /// If we only want some of the files, this may be less than `tr_torrent_view.total_size`. [0...tr_torrent_view.total_size]
    pub size_when_done: Option<u64>,
    pub start_date: Option<TimePoint>,
    pub status: Option<Status>,
    pub trackers: Option<Vec<Tracker>>,
    /// string of announce URLs, one per line, with a blank line between tiers
    pub tracker_list: Option<String>,
    pub tracker_stats: Option<Vec<TrackerStat>>,
    pub total_size: Option<u64>,
    pub torrent_file: Option<String>,
    /// Byte count of all data you've ever uploaded for this torrent
    pub uploaded_ever: Option<u64>,
    pub upload_limit: Option<i64>,
    pub upload_limited: bool,
    pub upload_ratio: Option<JsonNumber>,
    /// An array of tr_torrentFileCount() 0/1, 1 (true) if the corresponding file is to be downloaded. (Source: tr_file_view)
    pub wanted: Option<Vec<bool>>,
    pub webseeds: Option<Vec<String>>,
    /// Number of webseeds that are sending data to us
    pub webseeds_sending_to_us: Option<u16>,
}

/// The mathematical value of [`TorrentsArguments`].
pub struct TorrentsArgumentsView {
    pub activity_date: Option<TimePoint>,
    pub added_date: Option<TimePoint>,
    pub availability: Option<Seq<u32>>,
    pub bandwidth_priority: Option<Priority>,
    pub bytes_completed: Option<Seq<i64>>,
    pub comment: Option<Seq<char>>,
    pub corrupt_ever: Option<u64>,
    pub creator: Option<Seq<char>>,
    pub date_created: Option<TimePoint>,
    pub desired_available: Option<u64>,
    pub done_date: Option<TimePoint>,
    pub download_dir: Option<Seq<char>>,
    pub downloaded_ever: Option<u64>,
    pub download_limit: Option<u64>,
    pub download_limited: bool,
    pub edit_date: Option<TimePoint>,
    pub error: Option<StatErrType>,
    pub error_string: Option<Seq<char>>,
    pub eta: Option<TimeSpan>,
    pub eta_idle: Option<TimeSpan>,
    pub file_count: Option<u64>,
    pub files: Option<Seq<FileView>>,
    pub file_stats: Option<Seq<FileStatView>>,
    pub group: Option<Seq<char>>,
    pub hash_string: Option<Seq<char>>,
    pub have_unchecked: Option<u64>,
    pub have_valid: Option<u64>,
    pub honors_session_limits: bool,
    pub id: Option<TorrentIdView>,
    pub is_finished: bool,
    pub is_private: bool,
    pub is_stalled: bool,
    pub labels: Option<Seq<Seq<char>>>,
    pub left_until_done: Option<u64>,
    pub magnet_link: Option<Seq<char>>,
    pub manual_announce_time: Option<u64>,
    pub max_connected_peers: Option<u64>,
    pub metadata_percent_complete: Option<NumberValue>,
    pub name: Option<Seq<char>>,
    pub peer_limit: Option<u64>,
    pub peers: Option<Seq<PeerView>>,
    pub peers_connected: Option<u16>,
    pub peers_from: Option<PeerFromView>,
    pub peers_getting_from_us: Option<u16>,
    pub peers_sending_to_us: Option<u16>,
    pub percent_complete: Option<NumberValue>,
    pub percent_done: Option<NumberValue>,
    pub pieces: Option<Seq<u8>>,
    pub piece_count: Option<u32>,
    pub piece_size: Option<u64>,
    pub priorities: Option<Seq<Priority>>,
    pub primary_mime_type: Option<Seq<char>>,
    pub queue_position: Option<usize>,
    pub rate_download: Option<i64>,
    pub rate_upload: Option<i64>,
    pub recheck_progress: Option<NumberValue>,
    pub seconds_downloading: Option<TimeSpan>,
    pub seconds_seeding: Option<TimeSpan>,
    pub seed_idle_limit: Option<i64>,
    pub seed_idle_mode: Option<IdleLimit>,
    pub seed_ratio_limit: Option<NumberValue>,
    pub seed_ratio_mode: Option<RatioLimit>,
    pub sequential_download: bool,
    pub sequential_download_from_piece: Option<i64>,
    pub size_when_done: Option<u64>,
    pub start_date: Option<TimePoint>,
    pub status: Option<Status>,
    pub trackers: Option<Seq<TrackerView>>,
    pub tracker_list: Option<Seq<char>>,
    pub tracker_stats: Option<Seq<TrackerStatView>>,
    pub total_size: Option<u64>,
    pub torrent_file: Option<Seq<char>>,
    pub uploaded_ever: Option<u64>,
    pub upload_limit: Option<i64>,
    pub upload_limited: bool,
    pub upload_ratio: Option<NumberValue>,
    pub wanted: Option<Seq<bool>>,
    pub webseeds: Option<Seq<Seq<char>>>,
    pub webseeds_sending_to_us: Option<u16>,
}

impl DeepView for TorrentsArguments {
    type V = TorrentsArgumentsView;

    open spec fn deep_view(&self) -> TorrentsArgumentsView {
        TorrentsArgumentsView {
            activity_date: self.activity_date.deep_view(),
            added_date: self.added_date.deep_view(),
            availability: self.availability.deep_view(),
            bandwidth_priority: self.bandwidth_priority.deep_view(),
            bytes_completed: self.bytes_completed.deep_view(),
            comment: self.comment.deep_view(),
            corrupt_ever: self.corrupt_ever.deep_view(),
            creator: self.creator.deep_view(),
            date_created: self.date_created.deep_view(),
            desired_available: self.desired_available.deep_view(),
            done_date: self.done_date.deep_view(),
            download_dir: self.download_dir.deep_view(),
            downloaded_ever: self.downloaded_ever.deep_view(),
            download_limit: self.download_limit.deep_view(),
            download_limited: self.download_limited.deep_view(),
            edit_date: self.edit_date.deep_view(),
            error: self.error.deep_view(),
            error_string: self.error_string.deep_view(),
            eta: self.eta.deep_view(),
            eta_idle: self.eta_idle.deep_view(),
            file_count: self.file_count.deep_view(),
            files: self.files.deep_view(),
            file_stats: self.file_stats.deep_view(),
            group: self.group.deep_view(),
            hash_string: self.hash_string.deep_view(),
            have_unchecked: self.have_unchecked.deep_view(),
            have_valid: self.have_valid.deep_view(),
            honors_session_limits: self.honors_session_limits.deep_view(),
            id: self.id.deep_view(),
            is_finished: self.is_finished.deep_view(),
            is_private: self.is_private.deep_view(),
            is_stalled: self.is_stalled.deep_view(),
            labels: self.labels.deep_view(),
            left_until_done: self.left_until_done.deep_view(),
            magnet_link: self.magnet_link.deep_view(),
            manual_announce_time: self.manual_announce_time.deep_view(),
            max_connected_peers: self.max_connected_peers.deep_view(),
            metadata_percent_complete: self.metadata_percent_complete.deep_view(),
            name: self.name.deep_view(),
            peer_limit: self.peer_limit.deep_view(),
            peers: self.peers.deep_view(),
            peers_connected: self.peers_connected.deep_view(),
            peers_from: self.peers_from.deep_view(),
            peers_getting_from_us: self.peers_getting_from_us.deep_view(),
            peers_sending_to_us: self.peers_sending_to_us.deep_view(),
            percent_complete: self.percent_complete.deep_view(),
            percent_done: self.percent_done.deep_view(),
            pieces: self.pieces.deep_view(),
            piece_count: self.piece_count.deep_view(),
            piece_size: self.piece_size.deep_view(),
            priorities: self.priorities.deep_view(),
            primary_mime_type: self.primary_mime_type.deep_view(),
            queue_position: self.queue_position.deep_view(),
            rate_download: self.rate_download.deep_view(),
            rate_upload: self.rate_upload.deep_view(),
            recheck_progress: self.recheck_progress.deep_view(),
            seconds_downloading: self.seconds_downloading.deep_view(),
            seconds_seeding: self.seconds_seeding.deep_view(),
            seed_idle_limit: self.seed_idle_limit.deep_view(),
            seed_idle_mode: self.seed_idle_mode.deep_view(),
            seed_ratio_limit: self.seed_ratio_limit.deep_view(),
            seed_ratio_mode: self.seed_ratio_mode.deep_view(),
            sequential_download: self.sequential_download.deep_view(),
            sequential_download_from_piece: self.sequential_download_from_piece.deep_view(),
            size_when_done: self.size_when_done.deep_view(),
            start_date: self.start_date.deep_view(),
            status: self.status.deep_view(),
            trackers: self.trackers.deep_view(),
            tracker_list: self.tracker_list.deep_view(),
            tracker_stats: self.tracker_stats.deep_view(),
            total_size: self.total_size.deep_view(),
            torrent_file: self.torrent_file.deep_view(),
            uploaded_ever: self.uploaded_ever.deep_view(),
            upload_limit: self.upload_limit.deep_view(),
            upload_limited: self.upload_limited.deep_view(),
            upload_ratio: self.upload_ratio.deep_view(),
            wanted: self.wanted.deep_view(),
            webseeds: self.webseeds.deep_view(),
            webseeds_sending_to_us: self.webseeds_sending_to_us.deep_view(),
        }
    }
}

impl FromJson for TorrentsArguments {
    open spec fn decoded(value: JsonValue) -> Option<TorrentsArgumentsView> {
        let activity_date = timestamp_at(value, "activityDate"@);
        let added_date = timestamp_at(value, "addedDate"@);
        let availability = optional::<Vec<u32>>(value, "availability"@);
        let bandwidth_priority = optional::<Priority>(value, "bandwidthPriority"@);
        let bytes_completed = optional::<Vec<i64>>(value, "bytesCompleted"@);
        let comment = optional::<String>(value, "comment"@);
        let corrupt_ever = optional::<u64>(value, "corruptEver"@);
        let creator = optional::<String>(value, "creator"@);
        let date_created = timestamp_at(value, "dateCreated"@);
        let desired_available = optional::<u64>(value, "desiredAvailable"@);
        let done_date = timestamp_at(value, "doneDate"@);
        let download_dir = optional::<String>(value, "downloadDir"@);
        let downloaded_ever = optional::<u64>(value, "downloadedEver"@);
        let download_limit = optional::<u64>(value, "downloadLimit"@);
        let download_limited = flag(value, "downloadLimited"@);
        let edit_date = timestamp_at(value, "editDate"@);
        let error = optional::<StatErrType>(value, "error"@);
        let error_string = optional::<String>(value, "errorString"@);
        let eta = time_at(value, "eta"@);
        let eta_idle = time_at(value, "etaIdle"@);
        let file_count = optional::<u64>(value, "file-count"@);
        let files = optional::<Vec<File>>(value, "files"@);
        let file_stats = optional::<Vec<FileStat>>(value, "fileStats"@);
        let group = optional::<String>(value, "group"@);
        let hash_string = optional::<String>(value, "hashString"@);
        let have_unchecked = optional::<u64>(value, "haveUnchecked"@);
        let have_valid = optional::<u64>(value, "haveValid"@);
        let honors_session_limits = flag(value, "honorsSessionLimits"@);
        let id = optional::<TorrentId>(value, "id"@);
        let is_finished = flag(value, "isFinished"@);
        let is_private = flag(value, "isPrivate"@);
        let is_stalled = flag(value, "isStalled"@);
        let labels = optional::<Vec<String>>(value, "labels"@);
        let left_until_done = optional::<u64>(value, "leftUntilDone"@);
        let magnet_link = optional::<String>(value, "magnetLink"@);
        let manual_announce_time = optional::<u64>(value, "manualAnnounceTime"@);
        let max_connected_peers = optional::<u64>(value, "maxConnectedPeers"@);
        let metadata_percent_complete = optional::<JsonNumber>(value, "metadataPercentComplete"@);
        let name = optional::<String>(value, "name"@);
        let peer_limit = optional::<u64>(value, "peer-limit"@);
        let peers = optional::<Vec<Peer>>(value, "peers"@);
        let peers_connected = optional::<u16>(value, "peersConnected"@);
        let peers_from = optional::<PeerFrom>(value, "peersFrom"@);
        let peers_getting_from_us = optional::<u16>(value, "peersGettingFromUs"@);
        let peers_sending_to_us = optional::<u16>(value, "peersSendingToUs"@);
        let percent_complete = optional::<JsonNumber>(value, "percentComplete"@);
        let percent_done = optional::<JsonNumber>(value, "percentDone"@);
        let pieces = bitfield_at(value, "pieces"@);
        let piece_count = optional::<u32>(value, "pieceCount"@);
        let piece_size = optional::<u64>(value, "pieceSize"@);
        let priorities = optional::<Vec<Priority>>(value, "priorities"@);
        let primary_mime_type = optional::<String>(value, "primary-mime-type"@);
        let queue_position = optional::<usize>(value, "queuePosition"@);
        let rate_download = optional::<i64>(value, "rateDownload"@);
        let rate_upload = optional::<i64>(value, "rateUpload"@);
        let recheck_progress = optional::<JsonNumber>(value, "recheckProgress"@);
        let seconds_downloading = time_at(value, "secondsDownloading"@);
        let seconds_seeding = time_at(value, "secondsSeeding"@);
        let seed_idle_limit = optional::<i64>(value, "seedIdleLimit"@);
        let seed_idle_mode = optional::<IdleLimit>(value, "seedIdleMode"@);
        let seed_ratio_limit = optional::<JsonNumber>(value, "seedRatioLimit"@);
        let seed_ratio_mode = optional::<RatioLimit>(value, "seedRatioMode"@);
        let sequential_download = flag(value, "sequential_download"@);
        let sequential_download_from_piece = optional::<i64>(
            value,
            "sequential_download_from_piece"@,
        );
        let size_when_done = optional::<u64>(value, "sizeWhenDone"@);
        let start_date = timestamp_at(value, "startDate"@);
        let status = optional::<Status>(value, "status"@);
        let trackers = optional::<Vec<Tracker>>(value, "trackers"@);
        let tracker_list = optional::<String>(value, "trackerList"@);
        let tracker_stats = optional::<Vec<TrackerStat>>(value, "trackerStats"@);
        let total_size = optional::<u64>(value, "totalSize"@);
        let torrent_file = optional::<String>(value, "torrentFile"@);
        let uploaded_ever = optional::<u64>(value, "uploadedEver"@);
        let upload_limit = optional::<i64>(value, "uploadLimit"@);
        let upload_limited = flag(value, "uploadLimited"@);
        let upload_ratio = optional::<JsonNumber>(value, "uploadRatio"@);
        let wanted = optional::<Vec<bool>>(value, "wanted"@);
        let webseeds = optional::<Vec<String>>(value, "webseeds"@);
        let webseeds_sending_to_us = optional::<u16>(value, "webseedsSendingToUs"@);
        if value is Object
            && activity_date is Some
            && added_date is Some
            && availability is Some
            && bandwidth_priority is Some
            && bytes_completed is Some
            && comment is Some
            && corrupt_ever is Some
            && creator is Some
            && date_created is Some
            && desired_available is Some
            && done_date is Some
            && download_dir is Some
            && downloaded_ever is Some
            && download_limit is Some
            && download_limited is Some
            && edit_date is Some
            && error is Some
            && error_string is Some
            && eta is Some
            && eta_idle is Some
            && file_count is Some
            && files is Some
            && file_stats is Some
            && group is Some
            && hash_string is Some
            && have_unchecked is Some
            && have_valid is Some
            && honors_session_limits is Some
            && id is Some
            && is_finished is Some
            && is_private is Some
            && is_stalled is Some
            && labels is Some
            && left_until_done is Some
            && magnet_link is Some
            && manual_announce_time is Some
            && max_connected_peers is Some
            && metadata_percent_complete is Some
            && name is Some
            && peer_limit is Some
            && peers is Some
            && peers_connected is Some
            && peers_from is Some
            && peers_getting_from_us is Some
            && peers_sending_to_us is Some
            && percent_complete is Some
            && percent_done is Some
            && pieces is Some
            && piece_count is Some
            && piece_size is Some
            && priorities is Some
            && primary_mime_type is Some
            && queue_position is Some
            && rate_download is Some
            && rate_upload is Some
            && recheck_progress is Some
            && seconds_downloading is Some
            && seconds_seeding is Some
            && seed_idle_limit is Some
            && seed_idle_mode is Some
            && seed_ratio_limit is Some
            && seed_ratio_mode is Some
            && sequential_download is Some
            && sequential_download_from_piece is Some
            && size_when_done is Some
            && start_date is Some
            && status is Some
            && trackers is Some
            && tracker_list is Some
            && tracker_stats is Some
            && total_size is Some
            && torrent_file is Some
            && uploaded_ever is Some
            && upload_limit is Some
            && upload_limited is Some
            && upload_ratio is Some
            && wanted is Some
            && webseeds is Some
            && webseeds_sending_to_us is Some
        {
            Some(
                TorrentsArgumentsView {
                    activity_date: activity_date->0,
                    added_date: added_date->0,
                    availability: availability->0,
                    bandwidth_priority: bandwidth_priority->0,
                    bytes_completed: bytes_completed->0,
                    comment: comment->0,
                    corrupt_ever: corrupt_ever->0,
                    creator: creator->0,
                    date_created: date_created->0,
                    desired_available: desired_available->0,
                    done_date: done_date->0,
                    download_dir: download_dir->0,
                    downloaded_ever: downloaded_ever->0,
                    download_limit: download_limit->0,
                    download_limited: download_limited->0,
                    edit_date: edit_date->0,
                    error: error->0,
                    error_string: error_string->0,
                    eta: eta->0,
                    eta_idle: eta_idle->0,
                    file_count: file_count->0,
                    files: files->0,
                    file_stats: file_stats->0,
                    group: group->0,
                    hash_string: hash_string->0,
                    have_unchecked: have_unchecked->0,
                    have_valid: have_valid->0,
                    honors_session_limits: honors_session_limits->0,
                    id: id->0,
                    is_finished: is_finished->0,
                    is_private: is_private->0,
                    is_stalled: is_stalled->0,
                    labels: labels->0,
                    left_until_done: left_until_done->0,
                    magnet_link: magnet_link->0,
                    manual_announce_time: manual_announce_time->0,
                    max_connected_peers: max_connected_peers->0,
                    metadata_percent_complete: metadata_percent_complete->0,
                    name: name->0,
                    peer_limit: peer_limit->0,
                    peers: peers->0,
                    peers_connected: peers_connected->0,
                    peers_from: peers_from->0,
                    peers_getting_from_us: peers_getting_from_us->0,
                    peers_sending_to_us: peers_sending_to_us->0,
                    percent_complete: percent_complete->0,
                    percent_done: percent_done->0,
                    pieces: pieces->0,
                    piece_count: piece_count->0,
                    piece_size: piece_size->0,
                    priorities: priorities->0,
                    primary_mime_type: primary_mime_type->0,
                    queue_position: queue_position->0,
                    rate_download: rate_download->0,
                    rate_upload: rate_upload->0,
                    recheck_progress: recheck_progress->0,
                    seconds_downloading: seconds_downloading->0,
                    seconds_seeding: seconds_seeding->0,
                    seed_idle_limit: seed_idle_limit->0,
                    seed_idle_mode: seed_idle_mode->0,
                    seed_ratio_limit: seed_ratio_limit->0,
                    seed_ratio_mode: seed_ratio_mode->0,
                    sequential_download: sequential_download->0,
                    sequential_download_from_piece: sequential_download_from_piece->0,
                    size_when_done: size_when_done->0,
                    start_date: start_date->0,
                    status: status->0,
                    trackers: trackers->0,
                    tracker_list: tracker_list->0,
                    tracker_stats: tracker_stats->0,
                    total_size: total_size->0,
                    torrent_file: torrent_file->0,
                    uploaded_ever: uploaded_ever->0,
                    upload_limit: upload_limit->0,
                    upload_limited: upload_limited->0,
                    upload_ratio: upload_ratio->0,
                    wanted: wanted->0,
                    webseeds: webseeds->0,
                    webseeds_sending_to_us: webseeds_sending_to_us->0,
                },
            )
        } else {
            None
        }
    }

    fn from_json(json: &Json) -> (r: Option<TorrentsArguments>) {
        if !json.is_object() {
            return None;
        }
        let activity_date = read_timestamp(json, "activityDate")?;
        let added_date = read_timestamp(json, "addedDate")?;
        let availability = read_optional::<Vec<u32>>(json, "availability")?;
        let bandwidth_priority = read_optional::<Priority>(json, "bandwidthPriority")?;
        let bytes_completed = read_optional::<Vec<i64>>(json, "bytesCompleted")?;
        let comment = read_optional::<String>(json, "comment")?;
        let corrupt_ever = read_optional::<u64>(json, "corruptEver")?;
        let creator = read_optional::<String>(json, "creator")?;
        let date_created = read_timestamp(json, "dateCreated")?;
        let desired_available = read_optional::<u64>(json, "desiredAvailable")?;
        let done_date = read_timestamp(json, "doneDate")?;
        let download_dir = read_optional::<String>(json, "downloadDir")?;
        let downloaded_ever = read_optional::<u64>(json, "downloadedEver")?;
        let download_limit = read_optional::<u64>(json, "downloadLimit")?;
        let download_limited = read_flag(json, "downloadLimited")?;
        let edit_date = read_timestamp(json, "editDate")?;
        let error = read_optional::<StatErrType>(json, "error")?;
        let error_string = read_optional::<String>(json, "errorString")?;
        let eta = read_time(json, "eta")?;
        let eta_idle = read_time(json, "etaIdle")?;
        let file_count = read_optional::<u64>(json, "file-count")?;
        let files = read_optional::<Vec<File>>(json, "files")?;
        let file_stats = read_optional::<Vec<FileStat>>(json, "fileStats")?;
        let group = read_optional::<String>(json, "group")?;
        let hash_string = read_optional::<String>(json, "hashString")?;
        let have_unchecked = read_optional::<u64>(json, "haveUnchecked")?;
        let have_valid = read_optional::<u64>(json, "haveValid")?;
        let honors_session_limits = read_flag(json, "honorsSessionLimits")?;
        let id = read_optional::<TorrentId>(json, "id")?;
        let is_finished = read_flag(json, "isFinished")?;
        let is_private = read_flag(json, "isPrivate")?;
        let is_stalled = read_flag(json, "isStalled")?;
        let labels = read_optional::<Vec<String>>(json, "labels")?;
        let left_until_done = read_optional::<u64>(json, "leftUntilDone")?;
        let magnet_link = read_optional::<String>(json, "magnetLink")?;
        let manual_announce_time = read_optional::<u64>(json, "manualAnnounceTime")?;
        let max_connected_peers = read_optional::<u64>(json, "maxConnectedPeers")?;
        let metadata_percent_complete = read_optional::<JsonNumber>(
            json,
            "metadataPercentComplete",
        )?;
        let name = read_optional::<String>(json, "name")?;
        let peer_limit = read_optional::<u64>(json, "peer-limit")?;
        let peers = read_optional::<Vec<Peer>>(json, "peers")?;
        let peers_connected = read_optional::<u16>(json, "peersConnected")?;
        let peers_from = read_optional::<PeerFrom>(json, "peersFrom")?;
        let peers_getting_from_us = read_optional::<u16>(json, "peersGettingFromUs")?;
        let peers_sending_to_us = read_optional::<u16>(json, "peersSendingToUs")?;
        let percent_complete = read_optional::<JsonNumber>(json, "percentComplete")?;
        let percent_done = read_optional::<JsonNumber>(json, "percentDone")?;
        let pieces = read_bitfield(json, "pieces")?;
        let piece_count = read_optional::<u32>(json, "pieceCount")?;
        let piece_size = read_optional::<u64>(json, "pieceSize")?;
        let priorities = read_optional::<Vec<Priority>>(json, "priorities")?;
        let primary_mime_type = read_optional::<String>(json, "primary-mime-type")?;
        let queue_position = read_optional::<usize>(json, "queuePosition")?;
        let rate_download = read_optional::<i64>(json, "rateDownload")?;
        let rate_upload = read_optional::<i64>(json, "rateUpload")?;
        let recheck_progress = read_optional::<JsonNumber>(json, "recheckProgress")?;
        let seconds_downloading = read_time(json, "secondsDownloading")?;
        let seconds_seeding = read_time(json, "secondsSeeding")?;
        let seed_idle_limit = read_optional::<i64>(json, "seedIdleLimit")?;
        let seed_idle_mode = read_optional::<IdleLimit>(json, "seedIdleMode")?;
        let seed_ratio_limit = read_optional::<JsonNumber>(json, "seedRatioLimit")?;
        let seed_ratio_mode = read_optional::<RatioLimit>(json, "seedRatioMode")?;
        let sequential_download = read_flag(json, "sequential_download")?;
        let sequential_download_from_piece = read_optional::<i64>(
            json,
            "sequential_download_from_piece",
        )?;
        let size_when_done = read_optional::<u64>(json, "sizeWhenDone")?;
        let start_date = read_timestamp(json, "startDate")?;
        let status = read_optional::<Status>(json, "status")?;
        let trackers = read_optional::<Vec<Tracker>>(json, "trackers")?;
        let tracker_list = read_optional::<String>(json, "trackerList")?;
        let tracker_stats = read_optional::<Vec<TrackerStat>>(json, "trackerStats")?;
        let total_size = read_optional::<u64>(json, "totalSize")?;
        let torrent_file = read_optional::<String>(json, "torrentFile")?;
        let uploaded_ever = read_optional::<u64>(json, "uploadedEver")?;
        let upload_limit = read_optional::<i64>(json, "uploadLimit")?;
        let upload_limited = read_flag(json, "uploadLimited")?;
        let upload_ratio = read_optional::<JsonNumber>(json, "uploadRatio")?;
        let wanted = read_optional::<Vec<bool>>(json, "wanted")?;
        let webseeds = read_optional::<Vec<String>>(json, "webseeds")?;
        let webseeds_sending_to_us = read_optional::<u16>(json, "webseedsSendingToUs")?;
        Some(
            TorrentsArguments {
                activity_date,
                added_date,
                availability,
                bandwidth_priority,
                bytes_completed,
                comment,
                corrupt_ever,
                creator,
                date_created,
                desired_available,
                done_date,
                download_dir,
                downloaded_ever,
                download_limit,
                download_limited,
                edit_date,
                error,
                error_string,
                eta,
                eta_idle,
                file_count,
                files,
                file_stats,
                group,
                hash_string,
                have_unchecked,
                have_valid,
                honors_session_limits,
                id,
                is_finished,
                is_private,
                is_stalled,
                labels,
                left_until_done,
                magnet_link,
                manual_announce_time,
                max_connected_peers,
                metadata_percent_complete,
                name,
                peer_limit,
                peers,
                peers_connected,
                peers_from,
                peers_getting_from_us,
                peers_sending_to_us,
                percent_complete,
                percent_done,
                pieces,
                piece_count,
                piece_size,
                priorities,
                primary_mime_type,
                queue_position,
                rate_download,
                rate_upload,
                recheck_progress,
                seconds_downloading,
                seconds_seeding,
                seed_idle_limit,
                seed_idle_mode,
                seed_ratio_limit,
                seed_ratio_mode,
                sequential_download,
                sequential_download_from_piece,
                size_when_done,
                start_date,
                status,
                trackers,
                tracker_list,
                tracker_stats,
                total_size,
                torrent_file,
                uploaded_ever,
                upload_limit,
                upload_limited,
                upload_ratio,
                wanted,
                webseeds,
                webseeds_sending_to_us,
            },
        )
    }
}
} // verus!
