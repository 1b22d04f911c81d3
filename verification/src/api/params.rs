//! The parameters of the call that changes torrents.

use crate::api::enums::{IdleLimit, Priority, RatioLimit};
use crate::api::ids::{TorrentId, TorrentIdView};
use crate::json::{members_of, Json, JsonNumber, JsonValue, NumberValue};
use crate::wire::{encoded_option, entry, put_optional, ToJson};
use vstd::prelude::*;

verus! {

/// What the call `torrent-set` changes. A parameter that is left out is not
/// written, and the daemon leaves the setting as it is.
#[derive(Debug)]
pub struct TorrentSetParams {
    /// this torrent's bandwidth priority
    pub bandwidth_priority: Option<Priority>,
    /// maximum download speed (kB/s)
    pub download_limit: Option<u64>,
    /// true if download_limit is honored
    pub download_limited: Option<bool>,
    /// indices of file(s) to not download
    pub files_unwanted: Option<Vec<usize>>,
    /// indices of file(s) to download
    pub files_wanted: Option<Vec<usize>>,
    /// The name of this torrent's bandwidth group
    pub group: Option<String>,
    /// true if session upload limits are honored
    pub honors_session_limits: Option<bool>,
    /// torrent list
    pub ids: Option<Vec<TorrentId>>,
    /// array of string labels
    pub labels: Option<Vec<String>>,
    /// new location of the torrent's content
    pub location: Option<String>,
    /// maximum number of peers
    pub peer_limit: Option<u64>,
    /// indices of high-priority file(s)
    pub priority_high: Option<Vec<u32>>,
    /// indices of low-priority file(s)
    pub priority_low: Option<Vec<u32>>,
    /// indices of normal-priority file(s)
    pub priority_normal: Option<Vec<u32>>,
    /// position of this torrent in its queue [0...n)
    pub queue_position: Option<u32>,
    /// torrent-level number of minutes of seeding inactivity
    pub seed_idle_limit: Option<u64>,
    /// which seeding inactivity to use
    pub seed_idle_mode: Option<IdleLimit>,
    /// torrent-level seeding ratio
    pub seed_ratio_limit: Option<JsonNumber>,
    /// which ratio to use
    pub seed_ratio_mode: Option<RatioLimit>,
    /// download torrent pieces sequentially
    pub sequential_download: Option<bool>,
    /// download from a specific piece when sequential download is enabled
    pub sequential_download_from_piece: Option<u32>,
    /// DEPRECATED use tracker_list instead
    pub tracker_add: Option<Vec<String>>,
    /// string of announce URLs, one per line, and a blank line between tiers.
    pub tracker_list: Option<String>,
    /// DEPRECATED use tracker_list instead
    pub tracker_remove: Option<Vec<String>>,
    /// DEPRECATED use tracker_list instead
    pub tracker_replace: Option<Vec<String>>,
    /// maximum upload speed (kB/s)
    pub upload_limit: Option<u64>,
    /// true if upload_limit is honored
    pub upload_limited: Option<bool>,
}

/// The mathematical value of [`TorrentSetParams`].
pub struct TorrentSetParamsView {
    pub bandwidth_priority: Option<Priority>,
    pub download_limit: Option<u64>,
    pub download_limited: Option<bool>,
    pub files_unwanted: Option<Seq<usize>>,
    pub files_wanted: Option<Seq<usize>>,
    pub group: Option<Seq<char>>,
    pub honors_session_limits: Option<bool>,
    pub ids: Option<Seq<TorrentIdView>>,
    pub labels: Option<Seq<Seq<char>>>,
    pub location: Option<Seq<char>>,
    pub peer_limit: Option<u64>,
    pub priority_high: Option<Seq<u32>>,
    pub priority_low: Option<Seq<u32>>,
    pub priority_normal: Option<Seq<u32>>,
    pub queue_position: Option<u32>,
    pub seed_idle_limit: Option<u64>,
    pub seed_idle_mode: Option<IdleLimit>,
    pub seed_ratio_limit: Option<NumberValue>,
    pub seed_ratio_mode: Option<RatioLimit>,
    pub sequential_download: Option<bool>,
    pub sequential_download_from_piece: Option<u32>,
    pub tracker_add: Option<Seq<Seq<char>>>,
    pub tracker_list: Option<Seq<char>>,
    pub tracker_remove: Option<Seq<Seq<char>>>,
    pub tracker_replace: Option<Seq<Seq<char>>>,
    pub upload_limit: Option<u64>,
    pub upload_limited: Option<bool>,
}

impl DeepView for TorrentSetParams {
    type V = TorrentSetParamsView;

    open spec fn deep_view(&self) -> TorrentSetParamsView {
        TorrentSetParamsView {
            bandwidth_priority: self.bandwidth_priority.deep_view(),
            download_limit: self.download_limit.deep_view(),
            download_limited: self.download_limited.deep_view(),
            files_unwanted: self.files_unwanted.deep_view(),
            files_wanted: self.files_wanted.deep_view(),
            group: self.group.deep_view(),
            honors_session_limits: self.honors_session_limits.deep_view(),
            ids: self.ids.deep_view(),
            labels: self.labels.deep_view(),
            location: self.location.deep_view(),
            peer_limit: self.peer_limit.deep_view(),
            priority_high: self.priority_high.deep_view(),
            priority_low: self.priority_low.deep_view(),
            priority_normal: self.priority_normal.deep_view(),
            queue_position: self.queue_position.deep_view(),
            seed_idle_limit: self.seed_idle_limit.deep_view(),
            seed_idle_mode: self.seed_idle_mode.deep_view(),
            seed_ratio_limit: self.seed_ratio_limit.deep_view(),
            seed_ratio_mode: self.seed_ratio_mode.deep_view(),
            sequential_download: self.sequential_download.deep_view(),
            sequential_download_from_piece: self.sequential_download_from_piece.deep_view(),
            tracker_add: self.tracker_add.deep_view(),
            tracker_list: self.tracker_list.deep_view(),
            tracker_remove: self.tracker_remove.deep_view(),
            tracker_replace: self.tracker_replace.deep_view(),
            upload_limit: self.upload_limit.deep_view(),
            upload_limited: self.upload_limited.deep_view(),
        }
    }
}

impl TorrentSetParamsView {
    /// The parameters that change nothing.
    pub open spec fn unset() -> TorrentSetParamsView {
        TorrentSetParamsView {
            bandwidth_priority: None,
            download_limit: None,
            download_limited: None,
            files_unwanted: None,
            files_wanted: None,
            group: None,
            honors_session_limits: None,
            ids: None,
            labels: None,
            location: None,
            peer_limit: None,
            priority_high: None,
            priority_low: None,
            priority_normal: None,
            queue_position: None,
            seed_idle_limit: None,
            seed_idle_mode: None,
            seed_ratio_limit: None,
            seed_ratio_mode: None,
            sequential_download: None,
            sequential_download_from_piece: None,
            tracker_add: None,
            tracker_list: None,
            tracker_remove: None,
            tracker_replace: None,
            upload_limit: None,
            upload_limited: None,
        }
    }

    /// The members that the parameters are written as: one for each
    /// parameter that is set, in the protocol's order.
    pub open spec fn members(self) -> Seq<(Seq<char>, JsonValue)> {
        Seq::empty()
            + entry("bandwidthPriority"@, encoded_option::<Priority>(self.bandwidth_priority))
            + entry("downloadLimit"@, encoded_option::<u64>(self.download_limit))
            + entry("downloadLimited"@, encoded_option::<bool>(self.download_limited))
            + entry("files-unwanted"@, encoded_option::<Vec<usize>>(self.files_unwanted))
            + entry("files-wanted"@, encoded_option::<Vec<usize>>(self.files_wanted))
            + entry("group"@, encoded_option::<String>(self.group))
            + entry("honorsSessionLimits"@, encoded_option::<bool>(self.honors_session_limits))
            + entry("ids"@, encoded_option::<Vec<TorrentId>>(self.ids))
            + entry("labels"@, encoded_option::<Vec<String>>(self.labels))
            + entry("location"@, encoded_option::<String>(self.location))
            + entry("peer-limit"@, encoded_option::<u64>(self.peer_limit))
            + entry("priority-high"@, encoded_option::<Vec<u32>>(self.priority_high))
            + entry("priority-low"@, encoded_option::<Vec<u32>>(self.priority_low))
            + entry("priority-normal"@, encoded_option::<Vec<u32>>(self.priority_normal))
            + entry("queuePosition"@, encoded_option::<u32>(self.queue_position))
            + entry("seedIdleLimit"@, encoded_option::<u64>(self.seed_idle_limit))
            + entry("seedIdleMode"@, encoded_option::<IdleLimit>(self.seed_idle_mode))
            + entry("seedRatioLimit"@, encoded_option::<JsonNumber>(self.seed_ratio_limit))
            + entry("seedRatioMode"@, encoded_option::<RatioLimit>(self.seed_ratio_mode))
            + entry("sequentialDownload"@, encoded_option::<bool>(self.sequential_download))
            + entry(
                "sequentialDownloadFromPiece"@,
                encoded_option::<u32>(self.sequential_download_from_piece),
            )
            + entry("trackerAdd"@, encoded_option::<Vec<String>>(self.tracker_add))
            + entry("trackerList"@, encoded_option::<String>(self.tracker_list))
            + entry("trackerRemove"@, encoded_option::<Vec<String>>(self.tracker_remove))
            + entry("trackerReplace"@, encoded_option::<Vec<String>>(self.tracker_replace))
            + entry("uploadLimit"@, encoded_option::<u64>(self.upload_limit))
            + entry("uploadLimited"@, encoded_option::<bool>(self.upload_limited))
    }
}

impl Default for TorrentSetParams {
    fn default() -> (r: Self)
        ensures
            r.deep_view() == TorrentSetParamsView::unset(),
    {
        TorrentSetParams {
            bandwidth_priority: None,
            download_limit: None,
            download_limited: None,
            files_unwanted: None,
            files_wanted: None,
            group: None,
            honors_session_limits: None,
            ids: None,
            labels: None,
            location: None,
            peer_limit: None,
            priority_high: None,
            priority_low: None,
            priority_normal: None,
            queue_position: None,
            seed_idle_limit: None,
            seed_idle_mode: None,
            seed_ratio_limit: None,
            seed_ratio_mode: None,
            sequential_download: None,
            sequential_download_from_piece: None,
            tracker_add: None,
            tracker_list: None,
            tracker_remove: None,
            tracker_replace: None,
            upload_limit: None,
            upload_limited: None,
        }
    }
}

fn copy_indices(value: &Option<Vec<usize>>) -> (r: Option<Vec<usize>>)
    ensures
        r.deep_view() == value.deep_view(),
{
    let r = value.clone();
    assert(r.deep_view() =~= value.deep_view());
    r
}

fn copy_text(value: &Option<String>) -> (r: Option<String>)
    ensures
        r.deep_view() == value.deep_view(),
{
    let r = value.clone();
    assert(r.deep_view() =~= value.deep_view());
    r
}

fn copy_ids(value: &Option<Vec<TorrentId>>) -> (r: Option<Vec<TorrentId>>)
    ensures
        r.deep_view() == value.deep_view(),
{
    let r = value.clone();
    assert(r.deep_view() =~= value.deep_view());
    r
}

fn copy_texts(value: &Option<Vec<String>>) -> (r: Option<Vec<String>>)
    ensures
        r.deep_view() == value.deep_view(),
{
    let r = value.clone();
    assert(r.deep_view() =~= value.deep_view());
    r
}

fn copy_numbers(value: &Option<Vec<u32>>) -> (r: Option<Vec<u32>>)
    ensures
        r.deep_view() == value.deep_view(),
{
    let r = value.clone();
    assert(r.deep_view() =~= value.deep_view());
    r
}

fn copy_number(value: &Option<JsonNumber>) -> (r: Option<JsonNumber>)
    ensures
        r.deep_view() == value.deep_view(),
{
    let r = value.clone();
    assert(r.deep_view() =~= value.deep_view());
    r
}

impl Clone for TorrentSetParams {
    fn clone(&self) -> (r: Self)
        ensures
            r.deep_view() == self.deep_view(),
    {
        TorrentSetParams {
            bandwidth_priority: self.bandwidth_priority,
            download_limit: self.download_limit,
            download_limited: self.download_limited,
            files_unwanted: copy_indices(&self.files_unwanted),
            files_wanted: copy_indices(&self.files_wanted),
            group: copy_text(&self.group),
            honors_session_limits: self.honors_session_limits,
            ids: copy_ids(&self.ids),
            labels: copy_texts(&self.labels),
            location: copy_text(&self.location),
            peer_limit: self.peer_limit,
            priority_high: copy_numbers(&self.priority_high),
            priority_low: copy_numbers(&self.priority_low),
            priority_normal: copy_numbers(&self.priority_normal),
            queue_position: self.queue_position,
            seed_idle_limit: self.seed_idle_limit,
            seed_idle_mode: self.seed_idle_mode,
            seed_ratio_limit: copy_number(&self.seed_ratio_limit),
            seed_ratio_mode: self.seed_ratio_mode,
            sequential_download: self.sequential_download,
            sequential_download_from_piece: self.sequential_download_from_piece,
            tracker_add: copy_texts(&self.tracker_add),
            tracker_list: copy_text(&self.tracker_list),
            tracker_remove: copy_texts(&self.tracker_remove),
            tracker_replace: copy_texts(&self.tracker_replace),
            upload_limit: self.upload_limit,
            upload_limited: self.upload_limited,
        }
    }
}

/// The parameters are written as an object of those that are set.
impl ToJson for TorrentSetParams {
    open spec fn encoded(value: TorrentSetParamsView) -> JsonValue {
        JsonValue::Object(value.members())
    }

    fn to_json(&self) -> (r: Json) {
        let mut members: Vec<(String, Json)> = Vec::new();
        assert(members_of(members@) =~= Seq::empty());
        put_optional(&mut members, "bandwidthPriority", &self.bandwidth_priority);
        put_optional(&mut members, "downloadLimit", &self.download_limit);
        put_optional(&mut members, "downloadLimited", &self.download_limited);
        put_optional(&mut members, "files-unwanted", &self.files_unwanted);
        put_optional(&mut members, "files-wanted", &self.files_wanted);
        put_optional(&mut members, "group", &self.group);
        put_optional(&mut members, "honorsSessionLimits", &self.honors_session_limits);
        put_optional(&mut members, "ids", &self.ids);
        put_optional(&mut members, "labels", &self.labels);
        put_optional(&mut members, "location", &self.location);
        put_optional(&mut members, "peer-limit", &self.peer_limit);
        put_optional(&mut members, "priority-high", &self.priority_high);
        put_optional(&mut members, "priority-low", &self.priority_low);
        put_optional(&mut members, "priority-normal", &self.priority_normal);
        put_optional(&mut members, "queuePosition", &self.queue_position);
        put_optional(&mut members, "seedIdleLimit", &self.seed_idle_limit);
        put_optional(&mut members, "seedIdleMode", &self.seed_idle_mode);
        put_optional(&mut members, "seedRatioLimit", &self.seed_ratio_limit);
        put_optional(&mut members, "seedRatioMode", &self.seed_ratio_mode);
        put_optional(&mut members, "sequentialDownload", &self.sequential_download);
        put_optional(
            &mut members,
            "sequentialDownloadFromPiece",
            &self.sequential_download_from_piece,
        );
        put_optional(&mut members, "trackerAdd", &self.tracker_add);
        put_optional(&mut members, "trackerList", &self.tracker_list);
        put_optional(&mut members, "trackerRemove", &self.tracker_remove);
        put_optional(&mut members, "trackerReplace", &self.tracker_replace);
        put_optional(&mut members, "uploadLimit", &self.upload_limit);
        put_optional(&mut members, "uploadLimited", &self.upload_limited);
        Json::Object(members)
    }
}

} // verus!
