//! Live-streaming ingest core: the per-session state machine that binds an
//! RTMP publisher to a packager process, FLV framing of the media it sends,
//! the batching and ordering of the packager's files for the object-store
//! mirror, bounded-concurrency upload bookkeeping with retries, the segment
//! index, and the metrics and latency accounting around them. Time, files,
//! processes and the network stay with the caller: every function here takes
//! plain values and says in its contract what it returns.
use vstd::prelude::*;

pub mod flv;
pub mod upload;
pub mod watcher;
pub mod table;
pub mod metrics;
pub mod latency;
pub mod index;
pub mod config;
pub mod pipeline;
pub mod auth;
pub mod session;
pub mod text;
pub mod playlist;
pub mod hints;
pub mod push;
pub mod ingest;

verus! {

} // verus!
