//! Core of a live-stream downloader: HLS playlist watching, segment
//! deduplication, URL resolution and the event model shared by chunked and
//! HLS downloads.
pub mod drdk;
pub mod error;
pub mod forward;
pub mod guard;
pub mod named_watch;
pub mod names;
pub mod playlist;
pub mod seen;
pub mod sites;
pub mod status;
pub mod tiktok;
pub mod urls;
pub mod watch;

pub use crate::error::{Error, RsgetError};
pub use crate::forward::Event;
pub use crate::status::Status;
