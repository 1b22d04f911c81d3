//! The fields of a torrent that a call can ask for.

use crate::json::{Json, JsonValue};
use crate::wire::ToJson;
use vstd::prelude::*;

verus! {

/// A field of a torrent, asked for by name.
#[derive(Debug, Clone, Copy, PartialEq, Eq, Hash, Structural)]
pub enum TorrentField {
    /// The last time we uploaded or downloaded piece data on this torrent
    ActivityDate,
    /// When the torrent was first added
    AddedDate,
    Availability,
    BandwidthPriority,
    BytesCompleted,
    Comment,
    CorruptEver,
    Creator,
    DateCreated,
    DesiredAvailable,
    DoneDate,
    DownloadDir,
    DownloadedEver,
    DownloadLimit,
    DownloadLimited,
    EditDate,
    Error,
    ErrorString,
    Eta,
    EtaIdle,
    FileCount,
    Files,
    FileStats,
    Group,
    HashString,
    HaveUnchecked,
    HaveValid,
    HonorsSessionLimits,
    Id,
    IsFinished,
    IsPrivate,
    IsStalled,
    Labels,
    LeftUntilDone,
    MagnetLink,
    MaxConnectedPeers,
    MetadataPercentComplete,
    Name,
    PeerLimit,
    Peers,
    PeersConnected,
    PeersFrom,
    PeersGettingFromUs,
    PeersSendingToUs,
    PercentComplete,
    PercentDone,
    Pieces,
    PieceCount,
    PieceSize,
    Priorities,
    PrimaryMimeType,
    QueuePosition,
    RateDownload,
    RateUpload,
    RecheckProgress,
    SecondsDownloading,
    SecondsSeeding,
    SeedIdleLimit,
    SeedIdleMode,
    SeedRatioLimit,
    SeedRatioMode,
    SequentialDownload,
    SequentialDownloadFromPiece,
    SizeWhenDone,
    StartDate,
    Status,
    Trackers,
    TrackerList,
    TrackerStats,
    TotalSize,
    TorrentFile,
    UploadedEver,
    UploadLimit,
    UploadLimited,
    UploadRatio,
    Wanted,
    Webseeds,
    WebseedsSendingToUs,
}

impl DeepView for TorrentField {
    type V = TorrentField;

    open spec fn deep_view(&self) -> TorrentField {
        *self
    }
}

impl TorrentField {
    /// The name of a field on the wire.
    pub open spec fn name_of(self) -> Seq<char> {
        match self {
            TorrentField::ActivityDate => "activityDate"@,
            TorrentField::AddedDate => "addedDate"@,
            TorrentField::Availability => "availability"@,
            TorrentField::BandwidthPriority => "bandwidthPriority"@,
            TorrentField::BytesCompleted => "bytesCompleted"@,
            TorrentField::Comment => "comment"@,
            TorrentField::CorruptEver => "corruptEver"@,
            TorrentField::Creator => "creator"@,
            TorrentField::DateCreated => "dateCreated"@,
            TorrentField::DesiredAvailable => "desiredAvailable"@,
            TorrentField::DoneDate => "doneDate"@,
            TorrentField::DownloadDir => "downloadDir"@,
            TorrentField::DownloadedEver => "downloadedEver"@,
            TorrentField::DownloadLimit => "downloadLimit"@,
            TorrentField::DownloadLimited => "downloadLimited"@,
            TorrentField::EditDate => "editDate"@,
            TorrentField::Error => "error"@,
            TorrentField::ErrorString => "errorString"@,
            TorrentField::Eta => "eta"@,
            TorrentField::EtaIdle => "etaIdle"@,
            TorrentField::FileCount => "file-count"@,
            TorrentField::Files => "files"@,
            TorrentField::FileStats => "fileStats"@,
            TorrentField::Group => "group"@,
            TorrentField::HashString => "hashString"@,
            TorrentField::HaveUnchecked => "haveUnchecked"@,
            TorrentField::HaveValid => "haveValid"@,
            TorrentField::HonorsSessionLimits => "honorsSessionLimits"@,
            TorrentField::Id => "id"@,
            TorrentField::IsFinished => "isFinished"@,
            TorrentField::IsPrivate => "isPrivate"@,
            TorrentField::IsStalled => "isStalled"@,
            TorrentField::Labels => "labels"@,
            TorrentField::LeftUntilDone => "leftUntilDone"@,
            TorrentField::MagnetLink => "magnetLink"@,
            TorrentField::MaxConnectedPeers => "maxConnectedPeers"@,
            TorrentField::MetadataPercentComplete => "metadataPercentComplete"@,
            TorrentField::Name => "name"@,
            TorrentField::PeerLimit => "peer-limit"@,
            TorrentField::Peers => "peers"@,
            TorrentField::PeersConnected => "peersConnected"@,
            TorrentField::PeersFrom => "peersFrom"@,
            TorrentField::PeersGettingFromUs => "peersGettingFromUs"@,
            TorrentField::PeersSendingToUs => "peersSendingToUs"@,
            TorrentField::PercentComplete => "percentComplete"@,
            TorrentField::PercentDone => "percentDone"@,
            TorrentField::Pieces => "pieces"@,
            TorrentField::PieceCount => "pieceCount"@,
            TorrentField::PieceSize => "pieceSize"@,
            TorrentField::Priorities => "priorities"@,
            TorrentField::PrimaryMimeType => "primaryMimeType"@,
            TorrentField::QueuePosition => "queuePosition"@,
            TorrentField::RateDownload => "rateDownload"@,
            TorrentField::RateUpload => "rateUpload"@,
            TorrentField::RecheckProgress => "recheckProgress"@,
            TorrentField::SecondsDownloading => "secondsDownloading"@,
            TorrentField::SecondsSeeding => "secondsSeeding"@,
            TorrentField::SeedIdleLimit => "seedIdleLimit"@,
            TorrentField::SeedIdleMode => "seedIdleMode"@,
            TorrentField::SeedRatioLimit => "seedRatioLimit"@,
            TorrentField::SeedRatioMode => "seedRatioMode"@,
            TorrentField::SequentialDownload => "sequentialDownload"@,
            TorrentField::SequentialDownloadFromPiece => "sequentialDownloadFromPiece"@,
            TorrentField::SizeWhenDone => "sizeWhenDone"@,
            TorrentField::StartDate => "startDate"@,
            TorrentField::Status => "status"@,
            TorrentField::Trackers => "trackers"@,
            TorrentField::TrackerList => "trackerList"@,
            TorrentField::TrackerStats => "trackerStats"@,
            TorrentField::TotalSize => "totalSize"@,
            TorrentField::TorrentFile => "torrentFile"@,
            TorrentField::UploadedEver => "uploadedEver"@,
            TorrentField::UploadLimit => "uploadLimit"@,
            TorrentField::UploadLimited => "uploadLimited"@,
            TorrentField::UploadRatio => "uploadRatio"@,
            TorrentField::Wanted => "wanted"@,
            TorrentField::Webseeds => "webseeds"@,
            TorrentField::WebseedsSendingToUs => "webseedsSendingToUs"@,
        }
    }

    /// The name of the field on the wire.
    pub fn name(&self) -> (r: &'static str)
        ensures
            r@ == self.name_of(),
    {
        match self {
            TorrentField::ActivityDate => "activityDate",
            TorrentField::AddedDate => "addedDate",
            TorrentField::Availability => "availability",
            TorrentField::BandwidthPriority => "bandwidthPriority",
            TorrentField::BytesCompleted => "bytesCompleted",
            TorrentField::Comment => "comment",
            TorrentField::CorruptEver => "corruptEver",
            TorrentField::Creator => "creator",
            TorrentField::DateCreated => "dateCreated",
            TorrentField::DesiredAvailable => "desiredAvailable",
            TorrentField::DoneDate => "doneDate",
            TorrentField::DownloadDir => "downloadDir",
            TorrentField::DownloadedEver => "downloadedEver",
            TorrentField::DownloadLimit => "downloadLimit",
            TorrentField::DownloadLimited => "downloadLimited",
            TorrentField::EditDate => "editDate",
            TorrentField::Error => "error",
            TorrentField::ErrorString => "errorString",
            TorrentField::Eta => "eta",
            TorrentField::EtaIdle => "etaIdle",
            TorrentField::FileCount => "file-count",
            TorrentField::Files => "files",
            TorrentField::FileStats => "fileStats",
            TorrentField::Group => "group",
            TorrentField::HashString => "hashString",
            TorrentField::HaveUnchecked => "haveUnchecked",
            TorrentField::HaveValid => "haveValid",
            TorrentField::HonorsSessionLimits => "honorsSessionLimits",
            TorrentField::Id => "id",
            TorrentField::IsFinished => "isFinished",
            TorrentField::IsPrivate => "isPrivate",
            TorrentField::IsStalled => "isStalled",
            TorrentField::Labels => "labels",
            TorrentField::LeftUntilDone => "leftUntilDone",
            TorrentField::MagnetLink => "magnetLink",
            TorrentField::MaxConnectedPeers => "maxConnectedPeers",
            TorrentField::MetadataPercentComplete => "metadataPercentComplete",
            TorrentField::Name => "name",
            TorrentField::PeerLimit => "peer-limit",
            TorrentField::Peers => "peers",
            TorrentField::PeersConnected => "peersConnected",
            TorrentField::PeersFrom => "peersFrom",
            TorrentField::PeersGettingFromUs => "peersGettingFromUs",
            TorrentField::PeersSendingToUs => "peersSendingToUs",
            TorrentField::PercentComplete => "percentComplete",
            TorrentField::PercentDone => "percentDone",
            TorrentField::Pieces => "pieces",
            TorrentField::PieceCount => "pieceCount",
            TorrentField::PieceSize => "pieceSize",
            TorrentField::Priorities => "priorities",
            TorrentField::PrimaryMimeType => "primaryMimeType",
            TorrentField::QueuePosition => "queuePosition",
            TorrentField::RateDownload => "rateDownload",
            TorrentField::RateUpload => "rateUpload",
            TorrentField::RecheckProgress => "recheckProgress",
            TorrentField::SecondsDownloading => "secondsDownloading",
            TorrentField::SecondsSeeding => "secondsSeeding",
            TorrentField::SeedIdleLimit => "seedIdleLimit",
            TorrentField::SeedIdleMode => "seedIdleMode",
            TorrentField::SeedRatioLimit => "seedRatioLimit",
            TorrentField::SeedRatioMode => "seedRatioMode",
            TorrentField::SequentialDownload => "sequentialDownload",
            TorrentField::SequentialDownloadFromPiece => "sequentialDownloadFromPiece",
            TorrentField::SizeWhenDone => "sizeWhenDone",
            TorrentField::StartDate => "startDate",
            TorrentField::Status => "status",
            TorrentField::Trackers => "trackers",
            TorrentField::TrackerList => "trackerList",
            TorrentField::TrackerStats => "trackerStats",
            TorrentField::TotalSize => "totalSize",
            TorrentField::TorrentFile => "torrentFile",
            TorrentField::UploadedEver => "uploadedEver",
            TorrentField::UploadLimit => "uploadLimit",
            TorrentField::UploadLimited => "uploadLimited",
            TorrentField::UploadRatio => "uploadRatio",
            TorrentField::Wanted => "wanted",
            TorrentField::Webseeds => "webseeds",
            TorrentField::WebseedsSendingToUs => "webseedsSendingToUs",
        }
    }
}

/// A field is written as its name.
impl ToJson for TorrentField {
    open spec fn encoded(value: TorrentField) -> JsonValue {
        JsonValue::Text(value.name_of())
    }

    fn to_json(&self) -> (r: Json) {
        Json::Text(self.name().to_owned())
    }
}

} // verus!
