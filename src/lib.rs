//! Verified core of a downloader for episodes, seasons and standalone videos:
//! resolving page URLs, choosing streams from a playback manifest, naming
//! files, and the per-item and per-season download state machines that a
//! driver runs against the network, the disk and an external muxer.

pub mod auth;
pub mod batch;
pub mod item;
pub mod layout;
pub mod manifest;
pub mod naming;
pub mod progress;
pub mod resolve;
pub mod text;
