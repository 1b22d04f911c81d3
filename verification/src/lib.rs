//! A polling client for the remote-control protocol of the Transmission
//! BitTorrent daemon: the JSON codec of its calls and answers, the lifecycle
//! policy applied to each torrent, and the state machine that sequences the
//! requests of one cycle.

pub mod json;
pub mod text;
pub mod wire;
pub mod scalar;
pub mod api;
pub mod settings;
pub mod adaptor;
pub mod metrics;
