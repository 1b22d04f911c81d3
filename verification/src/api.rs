//! The remote-control protocol of the daemon: its calls, its answers and
//! their JSON form.

pub mod enums;
pub mod fields;
pub mod ids;
pub mod method;
pub mod params;
pub mod records;
pub mod response;
pub mod torrent;

pub use enums::{IdleLimit, Priority, RatioLimit, StatErrType, Status, TrackerState};
pub use fields::TorrentField;
pub use ids::{Id, TorrentId};
pub use method::Method;
pub use params::TorrentSetParams;
pub use records::{File, FileStat, Peer, PeerFrom, Tracker, TrackerStat};
pub use response::{Response, ResponseArguments, SessionStats, TorrentAdded};
pub use torrent::TorrentsArguments;
