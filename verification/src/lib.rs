//! Reflects a media player's "now playing" status onto a rich-presence
//! display.
//!
//! The heart of the crate is the reconciliation engine in [`engine`]: it
//! consumes successive playback snapshots, decides whether the track changed
//! or the user seeked, keeps stable absolute start/end timestamps for the
//! current track, and suppresses redundant presence updates.  The catalog
//! lookups live in [`classifier`] and [`songs`]; the network and IPC
//! plumbing around the library is deliberately left outside of it.

pub mod classifier;
pub mod clock;
pub mod engine;
pub mod model;
pub mod songs;
pub mod text;

pub use songs::Dimension;
