//! The records that an answer holds about the files, peers and trackers of a
//! torrent.

use crate::api::enums::{Priority, TrackerState};
use crate::json::{Json, JsonNumber, JsonValue, NumberValue};
use crate::scalar::{read_timestamp, timestamp_at, TimePoint};
use crate::wire::{flag, optional, read_flag, read_optional, read_required, required, FromJson};
use vstd::prelude::*;

verus! {

/// A file of a torrent.
#[derive(Debug, Clone)]
pub struct File {
    pub bytes_completed: u64,
    pub length: u64,
    pub name: String,
    pub begin_piece: u32,
    pub end_piece: u32,
}

/// The mathematical value of [`File`].
pub struct FileView {
    pub bytes_completed: u64,
    pub length: u64,
    pub name: Seq<char>,
    pub begin_piece: u32,
    pub end_piece: u32,
}

impl DeepView for File {
    type V = FileView;

    open spec fn deep_view(&self) -> FileView {
        FileView {
            bytes_completed: self.bytes_completed.deep_view(),
            length: self.length.deep_view(),
            name: self.name.deep_view(),
            begin_piece: self.begin_piece.deep_view(),
            end_piece: self.end_piece.deep_view(),
        }
    }
}

impl FromJson for File {
    open spec fn decoded(value: JsonValue) -> Option<FileView> {
        let bytes_completed = required::<u64>(value, "bytesCompleted"@);
        let length = required::<u64>(value, "length"@);
        let name = required::<String>(value, "name"@);
        let begin_piece = required::<u32>(value, "begin_piece"@);
        let end_piece = required::<u32>(value, "end_piece"@);
        if value is Object
            && bytes_completed is Some
            && length is Some
            && name is Some
            && begin_piece is Some
            && end_piece is Some
        {
            Some(
                FileView {
                    bytes_completed: bytes_completed->0,
                    length: length->0,
                    name: name->0,
                    begin_piece: begin_piece->0,
                    end_piece: end_piece->0,
                },
            )
        } else {
            None
        }
    }

    fn from_json(json: &Json) -> (r: Option<File>) {
        if !json.is_object() {
            return None;
        }
        let bytes_completed = read_required::<u64>(json, "bytesCompleted")?;
        let length = read_required::<u64>(json, "length")?;
        let name = read_required::<String>(json, "name")?;
        let begin_piece = read_required::<u32>(json, "begin_piece")?;
        let end_piece = read_required::<u32>(json, "end_piece")?;
        Some(
            File {
                bytes_completed,
                length,
                name,
                begin_piece,
                end_piece,
            },
        )
    }
}

/// What changes of a file while its torrent runs.
#[derive(Debug, Clone)]
pub struct FileStat {
    pub bytes_completed: JsonNumber,
    pub wanted: bool,
    pub priority: Priority,
}

/// The mathematical value of [`FileStat`].
pub struct FileStatView {
    pub bytes_completed: NumberValue,
    pub wanted: bool,
    pub priority: Priority,
}

impl DeepView for FileStat {
    type V = FileStatView;

    open spec fn deep_view(&self) -> FileStatView {
        FileStatView {
            bytes_completed: self.bytes_completed.deep_view(),
            wanted: self.wanted.deep_view(),
            priority: self.priority.deep_view(),
        }
    }
}

impl FromJson for FileStat {
    open spec fn decoded(value: JsonValue) -> Option<FileStatView> {
        let bytes_completed = required::<JsonNumber>(value, "bytesCompleted"@);
        let wanted = required::<bool>(value, "wanted"@);
        let priority = required::<Priority>(value, "priority"@);
        if value is Object
            && bytes_completed is Some
            && wanted is Some
            && priority is Some
        {
            Some(
                FileStatView {
                    bytes_completed: bytes_completed->0,
                    wanted: wanted->0,
                    priority: priority->0,
                },
            )
        } else {
            None
        }
    }

    fn from_json(json: &Json) -> (r: Option<FileStat>) {
        if !json.is_object() {
            return None;
        }
        let bytes_completed = read_required::<JsonNumber>(json, "bytesCompleted")?;
        let wanted = read_required::<bool>(json, "wanted")?;
        let priority = read_required::<Priority>(json, "priority")?;
        Some(
            FileStat {
                bytes_completed,
                wanted,
                priority,
            },
        )
    }
}

/// A peer that a torrent is connected to.
#[derive(Debug, Clone)]
pub struct Peer {
    pub address: String,
    pub bytes_to_client: u64,
    pub bytes_to_peer: u64,
    pub client_name: String,
    pub client_is_choked: bool,
    pub client_is_interested: bool,
    pub flag_str: String,
    pub is_downloading_from: bool,
    pub is_encrypted: bool,
    pub is_incoming: bool,
    pub is_uploading_to: bool,
    pub is_utp: bool,
    pub peer_is_choked: bool,
    pub peer_is_interested: bool,
    pub peer_id: String,
    pub port: u16,
    pub progress: JsonNumber,
    pub rate_to_client: u32,
    pub rate_to_peer: u32,
}

/// The mathematical value of [`Peer`].
pub struct PeerView {
    pub address: Seq<char>,
    pub bytes_to_client: u64,
    pub bytes_to_peer: u64,
    pub client_name: Seq<char>,
    pub client_is_choked: bool,
    pub client_is_interested: bool,
    pub flag_str: Seq<char>,
    pub is_downloading_from: bool,
    pub is_encrypted: bool,
    pub is_incoming: bool,
    pub is_uploading_to: bool,
    pub is_utp: bool,
    pub peer_is_choked: bool,
    pub peer_is_interested: bool,
    pub peer_id: Seq<char>,
    pub port: u16,
    pub progress: NumberValue,
    pub rate_to_client: u32,
    pub rate_to_peer: u32,
}

impl DeepView for Peer {
    type V = PeerView;

    open spec fn deep_view(&self) -> PeerView {
        PeerView {
            address: self.address.deep_view(),
            bytes_to_client: self.bytes_to_client.deep_view(),
            bytes_to_peer: self.bytes_to_peer.deep_view(),
            client_name: self.client_name.deep_view(),
            client_is_choked: self.client_is_choked.deep_view(),
            client_is_interested: self.client_is_interested.deep_view(),
            flag_str: self.flag_str.deep_view(),
            is_downloading_from: self.is_downloading_from.deep_view(),
            is_encrypted: self.is_encrypted.deep_view(),
            is_incoming: self.is_incoming.deep_view(),
            is_uploading_to: self.is_uploading_to.deep_view(),
            is_utp: self.is_utp.deep_view(),
            peer_is_choked: self.peer_is_choked.deep_view(),
            peer_is_interested: self.peer_is_interested.deep_view(),
            peer_id: self.peer_id.deep_view(),
            port: self.port.deep_view(),
            progress: self.progress.deep_view(),
            rate_to_client: self.rate_to_client.deep_view(),
            rate_to_peer: self.rate_to_peer.deep_view(),
        }
    }
}

impl FromJson for Peer {
    open spec fn decoded(value: JsonValue) -> Option<PeerView> {
        let address = required::<String>(value, "address"@);
        let bytes_to_client = required::<u64>(value, "bytes_to_client"@);
        let bytes_to_peer = required::<u64>(value, "bytes_to_peer"@);
        let client_name = required::<String>(value, "clientName"@);
        let client_is_choked = required::<bool>(value, "clientIsChoked"@);
        let client_is_interested = required::<bool>(value, "clientIsInterested"@);
        let flag_str = required::<String>(value, "flagStr"@);
        let is_downloading_from = required::<bool>(value, "isDownloadingFrom"@);
        let is_encrypted = required::<bool>(value, "isEncrypted"@);
        let is_incoming = required::<bool>(value, "isIncoming"@);
        let is_uploading_to = required::<bool>(value, "isUploadingTo"@);
        let is_utp = required::<bool>(value, "isUtp"@);
        let peer_is_choked = required::<bool>(value, "peerIsChoked"@);
        let peer_is_interested = required::<bool>(value, "peerIsInterested"@);
        let peer_id = required::<String>(value, "peer_id"@);
        let port = required::<u16>(value, "port"@);
        let progress = required::<JsonNumber>(value, "progress"@);
        let rate_to_client = required::<u32>(value, "rateToClient"@);
        let rate_to_peer = required::<u32>(value, "rateToPeer"@);
        if value is Object
            && address is Some
            && bytes_to_client is Some
            && bytes_to_peer is Some
            && client_name is Some
            && client_is_choked is Some
            && client_is_interested is Some
            && flag_str is Some
            && is_downloading_from is Some
            && is_encrypted is Some
            && is_incoming is Some
            && is_uploading_to is Some
            && is_utp is Some
            && peer_is_choked is Some
            && peer_is_interested is Some
            && peer_id is Some
            && port is Some
            && progress is Some
            && rate_to_client is Some
            && rate_to_peer is Some
        {
            Some(
                PeerView {
                    address: address->0,
                    bytes_to_client: bytes_to_client->0,
                    bytes_to_peer: bytes_to_peer->0,
                    client_name: client_name->0,
                    client_is_choked: client_is_choked->0,
                    client_is_interested: client_is_interested->0,
                    flag_str: flag_str->0,
                    is_downloading_from: is_downloading_from->0,
                    is_encrypted: is_encrypted->0,
                    is_incoming: is_incoming->0,
                    is_uploading_to: is_uploading_to->0,
                    is_utp: is_utp->0,
                    peer_is_choked: peer_is_choked->0,
                    peer_is_interested: peer_is_interested->0,
                    peer_id: peer_id->0,
                    port: port->0,
                    progress: progress->0,
                    rate_to_client: rate_to_client->0,
                    rate_to_peer: rate_to_peer->0,
                },
            )
        } else {
            None
        }
    }

    fn from_json(json: &Json) -> (r: Option<Peer>) {
        if !json.is_object() {
            return None;
        }
        let address = read_required::<String>(json, "address")?;
        let bytes_to_client = read_required::<u64>(json, "bytes_to_client")?;
        let bytes_to_peer = read_required::<u64>(json, "bytes_to_peer")?;
        let client_name = read_required::<String>(json, "clientName")?;
        let client_is_choked = read_required::<bool>(json, "clientIsChoked")?;
        let client_is_interested = read_required::<bool>(json, "clientIsInterested")?;
        let flag_str = read_required::<String>(json, "flagStr")?;
        let is_downloading_from = read_required::<bool>(json, "isDownloadingFrom")?;
        let is_encrypted = read_required::<bool>(json, "isEncrypted")?;
        let is_incoming = read_required::<bool>(json, "isIncoming")?;
        let is_uploading_to = read_required::<bool>(json, "isUploadingTo")?;
        let is_utp = read_required::<bool>(json, "isUtp")?;
        let peer_is_choked = read_required::<bool>(json, "peerIsChoked")?;
        let peer_is_interested = read_required::<bool>(json, "peerIsInterested")?;
        let peer_id = read_required::<String>(json, "peer_id")?;
        let port = read_required::<u16>(json, "port")?;
        let progress = read_required::<JsonNumber>(json, "progress")?;
        let rate_to_client = read_required::<u32>(json, "rateToClient")?;
        let rate_to_peer = read_required::<u32>(json, "rateToPeer")?;
        Some(
            Peer {
                address,
                bytes_to_client,
                bytes_to_peer,
                client_name,
                client_is_choked,
                client_is_interested,
                flag_str,
                is_downloading_from,
                is_encrypted,
                is_incoming,
                is_uploading_to,
                is_utp,
                peer_is_choked,
                peer_is_interested,
                peer_id,
                port,
                progress,
                rate_to_client,
                rate_to_peer,
            },
        )
    }
}

/// How many peers each source has given.
#[derive(Debug, Clone)]
pub struct PeerFrom {
    pub from_cache: u64,
    pub from_dht: u64,
    pub from_incoming: u64,
    pub from_lpd: u64,
    pub from_ltpep: u64,
    pub from_pex: u64,
    pub from_tracker: u64,
}

/// The mathematical value of [`PeerFrom`].
pub struct PeerFromView {
    pub from_cache: u64,
    pub from_dht: u64,
    pub from_incoming: u64,
    pub from_lpd: u64,
    pub from_ltpep: u64,
    pub from_pex: u64,
    pub from_tracker: u64,
}

impl DeepView for PeerFrom {
    type V = PeerFromView;

    open spec fn deep_view(&self) -> PeerFromView {
        PeerFromView {
            from_cache: self.from_cache.deep_view(),
            from_dht: self.from_dht.deep_view(),
            from_incoming: self.from_incoming.deep_view(),
            from_lpd: self.from_lpd.deep_view(),
            from_ltpep: self.from_ltpep.deep_view(),
            from_pex: self.from_pex.deep_view(),
            from_tracker: self.from_tracker.deep_view(),
        }
    }
}

impl FromJson for PeerFrom {
    open spec fn decoded(value: JsonValue) -> Option<PeerFromView> {
        let from_cache = required::<u64>(value, "fromCache"@);
        let from_dht = required::<u64>(value, "fromDht"@);
        let from_incoming = required::<u64>(value, "fromIncoming"@);
        let from_lpd = required::<u64>(value, "fromLpd"@);
        let from_ltpep = required::<u64>(value, "fromLtpep"@);
        let from_pex = required::<u64>(value, "fromPex"@);
        let from_tracker = required::<u64>(value, "fromTracker"@);
        if value is Object
            && from_cache is Some
            && from_dht is Some
            && from_incoming is Some
            && from_lpd is Some
            && from_ltpep is Some
            && from_pex is Some
            && from_tracker is Some
        {
            Some(
                PeerFromView {
                    from_cache: from_cache->0,
                    from_dht: from_dht->0,
                    from_incoming: from_incoming->0,
                    from_lpd: from_lpd->0,
                    from_ltpep: from_ltpep->0,
                    from_pex: from_pex->0,
                    from_tracker: from_tracker->0,
                },
            )
        } else {
            None
        }
    }

    fn from_json(json: &Json) -> (r: Option<PeerFrom>) {
        if !json.is_object() {
            return None;
        }
        let from_cache = read_required::<u64>(json, "fromCache")?;
        let from_dht = read_required::<u64>(json, "fromDht")?;
        let from_incoming = read_required::<u64>(json, "fromIncoming")?;
        let from_lpd = read_required::<u64>(json, "fromLpd")?;
        let from_ltpep = read_required::<u64>(json, "fromLtpep")?;
        let from_pex = read_required::<u64>(json, "fromPex")?;
        let from_tracker = read_required::<u64>(json, "fromTracker")?;
        Some(
            PeerFrom {
                from_cache,
                from_dht,
                from_incoming,
                from_lpd,
                from_ltpep,
                from_pex,
                from_tracker,
            },
        )
    }
}

/// A tracker of a torrent.
#[derive(Debug, Clone)]
pub struct Tracker {
    /// full announce URL
    pub announce: String,
    /// unique ID that transmission assigns, for use in libtransmission API
    pub id: u32,
    /// full scrape URL
    pub scrape: String,
    /// The tracker site's name. Uses the first label before the public suffix
    /// (https://publicsuffix.org/) in the announce URL's host.
    /// e.g. "https://www.example.co.uk/announce/"'s sitename is "example"
    /// RFC 1034 says labels must be less than 64 chars
    pub sitename: String,
    /// which tier this tracker is in
    pub tier: i64,
}

/// The mathematical value of [`Tracker`].
pub struct TrackerView {
    pub announce: Seq<char>,
    pub id: u32,
    pub scrape: Seq<char>,
    pub sitename: Seq<char>,
    pub tier: i64,
}

impl DeepView for Tracker {
    type V = TrackerView;

    open spec fn deep_view(&self) -> TrackerView {
        TrackerView {
            announce: self.announce.deep_view(),
            id: self.id.deep_view(),
            scrape: self.scrape.deep_view(),
            sitename: self.sitename.deep_view(),
            tier: self.tier.deep_view(),
        }
    }
}

impl FromJson for Tracker {
    open spec fn decoded(value: JsonValue) -> Option<TrackerView> {
        let announce = required::<String>(value, "announce"@);
        let id = required::<u32>(value, "id"@);
        let scrape = required::<String>(value, "scrape"@);
        let sitename = required::<String>(value, "sitename"@);
        let tier = required::<i64>(value, "tier"@);
        if value is Object
            && announce is Some
            && id is Some
            && scrape is Some
            && sitename is Some
            && tier is Some
        {
            Some(
                TrackerView {
                    announce: announce->0,
                    id: id->0,
                    scrape: scrape->0,
                    sitename: sitename->0,
                    tier: tier->0,
                },
            )
        } else {
            None
        }
    }

    fn from_json(json: &Json) -> (r: Option<Tracker>) {
        if !json.is_object() {
            return None;
        }
        let announce = read_required::<String>(json, "announce")?;
        let id = read_required::<u32>(json, "id")?;
        let scrape = read_required::<String>(json, "scrape")?;
        let sitename = read_required::<String>(json, "sitename")?;
        let tier = read_required::<i64>(json, "tier")?;
        Some(
            Tracker {
                announce,
                id,
                scrape,
                sitename,
                tier,
            },
        )
    }
}

/// What a torrent knows of one of its trackers.
#[derive(Debug, Clone)]
pub struct TrackerStat {
    /// full announce URL
    pub announce: String,
    /// whether we're announcing, waiting to announce, etc
    pub announce_state: TrackerState,
    /// number of times this torrent's been downloaded, or -1 if unknown
    pub download_count: i64,
    /// number of downloaders (BEP-21) the tracker knows of, or -1 if unknown
    pub downloader_count: i64,
    /// true if we've announced to this tracker during this session
    pub has_announced: bool,
    /// true if we've scraped this tracker during this session
    pub has_scraped: bool,
    /// uniquely-identifying tracker name
    pub host: String,
    /// unique ID that transmission assigns, for use in libtransmission API
    pub id: u32,
    /// only one tracker per tier is used; the others are kept as backups
    pub is_backup: bool,
    /// if hasAnnounced, the number of peers the tracker gave us
    pub last_announce_peer_count: Option<i64>,
    /// if hasAnnounced, the human-readable result of latest announce
    pub last_announce_result: Option<String>,
    /// if hasAnnounced, when the latest announce request was sent
    pub last_announce_start_time: Option<TimePoint>,
    /// if hasAnnounced, whether or not the latest announce succeeded
    pub last_announce_succeeded: bool,
    /// if hasAnnounced, when the latest announce reply was received
    pub last_announce_time: Option<TimePoint>,
    /// true if the latest announce request timed out
    pub last_announce_timed_out: bool,
    /// if hasScraped, the human-readable result of the latest scrape
    pub last_scrape_result: Option<String>,
    /// if hasScraped, when the latest scrape request was sent
    pub last_scrape_start_time: Option<TimePoint>,
    /// if hasScraped, whether or not the latest scrape succeeded
    pub last_scrape_succeeded: bool,
    /// if hasScraped, when the latest scrape reply was received
    pub last_scrape_time: Option<TimePoint>,
    /// true if the latest scrape request timed out
    pub last_scrape_timed_out: bool,
    /// number of leechers the tracker knows of, or -1 if unknown
    pub leecher_count: i64,
    /// if announceState == TR_TRACKER_WAITING, time of next announce
    pub next_announce_time: Option<TimePoint>,
    /// if scrapeState == TR_TRACKER_WAITING, time of next scrape
    pub next_scrape_time: Option<TimePoint>,
    /// full scrape URL
    pub scrape: String,
    /// whether we're scraping, waiting to scrape, etc
    pub scrape_state: TrackerState,
    /// number of seeders the tracker knows of, or -1 if unknown
    pub seeder_count: i64,
    /// The tracker site's name. Uses the first label before the public suffix
    /// (https://publicsuffix.org/) in the announce URL's host.
    /// e.g. "https://www.example.co.uk/announce/"'s sitename is "example"
    /// RFC 1034 says labels must be less than 64 chars
    pub sitename: String,
    /// which tier this tracker is in
    pub tier: i64,
}

/// The mathematical value of [`TrackerStat`].
pub struct TrackerStatView {
    pub announce: Seq<char>,
    pub announce_state: TrackerState,
    pub download_count: i64,
    pub downloader_count: i64,
    pub has_announced: bool,
    pub has_scraped: bool,
    pub host: Seq<char>,
    pub id: u32,
    pub is_backup: bool,
    pub last_announce_peer_count: Option<i64>,
    pub last_announce_result: Option<Seq<char>>,
    pub last_announce_start_time: Option<TimePoint>,
    pub last_announce_succeeded: bool,
    pub last_announce_time: Option<TimePoint>,
    pub last_announce_timed_out: bool,
    pub last_scrape_result: Option<Seq<char>>,
    pub last_scrape_start_time: Option<TimePoint>,
    pub last_scrape_succeeded: bool,
    pub last_scrape_time: Option<TimePoint>,
    pub last_scrape_timed_out: bool,
    pub leecher_count: i64,
    pub next_announce_time: Option<TimePoint>,
    pub next_scrape_time: Option<TimePoint>,
    pub scrape: Seq<char>,
    pub scrape_state: TrackerState,
    pub seeder_count: i64,
    pub sitename: Seq<char>,
    pub tier: i64,
}

impl DeepView for TrackerStat {
    type V = TrackerStatView;

    open spec fn deep_view(&self) -> TrackerStatView {
        TrackerStatView {
            announce: self.announce.deep_view(),
            announce_state: self.announce_state.deep_view(),
            download_count: self.download_count.deep_view(),
            downloader_count: self.downloader_count.deep_view(),
            has_announced: self.has_announced.deep_view(),
            has_scraped: self.has_scraped.deep_view(),
            host: self.host.deep_view(),
            id: self.id.deep_view(),
            is_backup: self.is_backup.deep_view(),
            last_announce_peer_count: self.last_announce_peer_count.deep_view(),
            last_announce_result: self.last_announce_result.deep_view(),
            last_announce_start_time: self.last_announce_start_time.deep_view(),
            last_announce_succeeded: self.last_announce_succeeded.deep_view(),
            last_announce_time: self.last_announce_time.deep_view(),
            last_announce_timed_out: self.last_announce_timed_out.deep_view(),
            last_scrape_result: self.last_scrape_result.deep_view(),
            last_scrape_start_time: self.last_scrape_start_time.deep_view(),
            last_scrape_succeeded: self.last_scrape_succeeded.deep_view(),
            last_scrape_time: self.last_scrape_time.deep_view(),
            last_scrape_timed_out: self.last_scrape_timed_out.deep_view(),
            leecher_count: self.leecher_count.deep_view(),
            next_announce_time: self.next_announce_time.deep_view(),
            next_scrape_time: self.next_scrape_time.deep_view(),
            scrape: self.scrape.deep_view(),
            scrape_state: self.scrape_state.deep_view(),
            seeder_count: self.seeder_count.deep_view(),
            sitename: self.sitename.deep_view(),
            tier: self.tier.deep_view(),
        }
    }
}

impl FromJson for TrackerStat {
    open spec fn decoded(value: JsonValue) -> Option<TrackerStatView> {
        let announce = required::<String>(value, "announce"@);
        let announce_state = required::<TrackerState>(value, "announceState"@);
        let download_count = required::<i64>(value, "downloadCount"@);
        let downloader_count = required::<i64>(value, "downloader_count"@);
        let has_announced = flag(value, "hasAnnounced"@);
        let has_scraped = flag(value, "hasScraped"@);
        let host = required::<String>(value, "host"@);
        let id = required::<u32>(value, "id"@);
        let is_backup = flag(value, "isBackup"@);
        let last_announce_peer_count = optional::<i64>(value, "lastAnnouncePeerCount"@);
        let last_announce_result = optional::<String>(value, "lastAnnounceResult"@);
        let last_announce_start_time = timestamp_at(value, "lastAnnounceStartTime"@);
        let last_announce_succeeded = flag(value, "lastAnnounceSucceeded"@);
        let last_announce_time = timestamp_at(value, "lastAnnounceTime"@);
        let last_announce_timed_out = flag(value, "lastAnnounceTimedOut"@);
        let last_scrape_result = optional::<String>(value, "lastScrapeResult"@);
        let last_scrape_start_time = timestamp_at(value, "lastScrapeStartTime"@);
        let last_scrape_succeeded = flag(value, "lastScrapeSucceeded"@);
        let last_scrape_time = timestamp_at(value, "lastScrapeTime"@);
        let last_scrape_timed_out = flag(value, "lastScrapeTimedOut"@);
        let leecher_count = required::<i64>(value, "leecherCount"@);
        let next_announce_time = timestamp_at(value, "nextAnnounceTime"@);
        let next_scrape_time = timestamp_at(value, "nextScrapeTime"@);
        let scrape = required::<String>(value, "scrape"@);
        let scrape_state = required::<TrackerState>(value, "scrapeState"@);
        let seeder_count = required::<i64>(value, "seederCount"@);
        let sitename = required::<String>(value, "sitename"@);
        let tier = required::<i64>(value, "tier"@);
        if value is Object
            && announce is Some
            && announce_state is Some
            && download_count is Some
            && downloader_count is Some
            && has_announced is Some
            && has_scraped is Some
            && host is Some
            && id is Some
            && is_backup is Some
            && last_announce_peer_count is Some
            && last_announce_result is Some
            && last_announce_start_time is Some
            && last_announce_succeeded is Some
            && last_announce_time is Some
            && last_announce_timed_out is Some
            && last_scrape_result is Some
            && last_scrape_start_time is Some
            && last_scrape_succeeded is Some
            && last_scrape_time is Some
            && last_scrape_timed_out is Some
            && leecher_count is Some
            && next_announce_time is Some
            && next_scrape_time is Some
            && scrape is Some
            && scrape_state is Some
            && seeder_count is Some
            && sitename is Some
            && tier is Some
        {
            Some(
                TrackerStatView {
                    announce: announce->0,
                    announce_state: announce_state->0,
                    download_count: download_count->0,
                    downloader_count: downloader_count->0,
                    has_announced: has_announced->0,
                    has_scraped: has_scraped->0,
                    host: host->0,
                    id: id->0,
                    is_backup: is_backup->0,
                    last_announce_peer_count: last_announce_peer_count->0,
                    last_announce_result: last_announce_result->0,
                    last_announce_start_time: last_announce_start_time->0,
                    last_announce_succeeded: last_announce_succeeded->0,
                    last_announce_time: last_announce_time->0,
                    last_announce_timed_out: last_announce_timed_out->0,
                    last_scrape_result: last_scrape_result->0,
                    last_scrape_start_time: last_scrape_start_time->0,
                    last_scrape_succeeded: last_scrape_succeeded->0,
                    last_scrape_time: last_scrape_time->0,
                    last_scrape_timed_out: last_scrape_timed_out->0,
                    leecher_count: leecher_count->0,
                    next_announce_time: next_announce_time->0,
                    next_scrape_time: next_scrape_time->0,
                    scrape: scrape->0,
                    scrape_state: scrape_state->0,
                    seeder_count: seeder_count->0,
                    sitename: sitename->0,
                    tier: tier->0,
                },
            )
        } else {
            None
        }
    }

    fn from_json(json: &Json) -> (r: Option<TrackerStat>) {
        if !json.is_object() {
            return None;
        }
        let announce = read_required::<String>(json, "announce")?;
        let announce_state = read_required::<TrackerState>(json, "announceState")?;
        let download_count = read_required::<i64>(json, "downloadCount")?;
        let downloader_count = read_required::<i64>(json, "downloader_count")?;
        let has_announced = read_flag(json, "hasAnnounced")?;
        let has_scraped = read_flag(json, "hasScraped")?;
        let host = read_required::<String>(json, "host")?;
        let id = read_required::<u32>(json, "id")?;
        let is_backup = read_flag(json, "isBackup")?;
        let last_announce_peer_count = read_optional::<i64>(json, "lastAnnouncePeerCount")?;
        let last_announce_result = read_optional::<String>(json, "lastAnnounceResult")?;
        let last_announce_start_time = read_timestamp(json, "lastAnnounceStartTime")?;
        let last_announce_succeeded = read_flag(json, "lastAnnounceSucceeded")?;
        let last_announce_time = read_timestamp(json, "lastAnnounceTime")?;
        let last_announce_timed_out = read_flag(json, "lastAnnounceTimedOut")?;
        let last_scrape_result = read_optional::<String>(json, "lastScrapeResult")?;
        let last_scrape_start_time = read_timestamp(json, "lastScrapeStartTime")?;
        let last_scrape_succeeded = read_flag(json, "lastScrapeSucceeded")?;
        let last_scrape_time = read_timestamp(json, "lastScrapeTime")?;
        let last_scrape_timed_out = read_flag(json, "lastScrapeTimedOut")?;
        let leecher_count = read_required::<i64>(json, "leecherCount")?;
        let next_announce_time = read_timestamp(json, "nextAnnounceTime")?;
        let next_scrape_time = read_timestamp(json, "nextScrapeTime")?;
        let scrape = read_required::<String>(json, "scrape")?;
        let scrape_state = read_required::<TrackerState>(json, "scrapeState")?;
        let seeder_count = read_required::<i64>(json, "seederCount")?;
        let sitename = read_required::<String>(json, "sitename")?;
        let tier = read_required::<i64>(json, "tier")?;
        Some(
            TrackerStat {
                announce,
                announce_state,
                download_count,
                downloader_count,
                has_announced,
                has_scraped,
                host,
                id,
                is_backup,
                last_announce_peer_count,
                last_announce_result,
                last_announce_start_time,
                last_announce_succeeded,
                last_announce_time,
                last_announce_timed_out,
                last_scrape_result,
                last_scrape_start_time,
                last_scrape_succeeded,
                last_scrape_time,
                last_scrape_timed_out,
                leecher_count,
                next_announce_time,
                next_scrape_time,
                scrape,
                scrape_state,
                seeder_count,
                sitename,
                tier,
            },
        )
    }
}
} // verus!
