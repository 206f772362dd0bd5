//! An incremental alert-synchronisation engine for an OpsGenie-style alerting
//! service.
//!
//! The engine keeps a local store of known alerts, derives the query for the
//! next poll from the newest update it has seen, walks the paginated answer,
//! merges it into the store and decides which newly observed alerts deserve a
//! desktop notification and with which urgency. Everything here is a pure
//! decision over plain values; the caller reads the clock and performs the
//! network requests, the sleeps and the notifications that the engine asks
//! for.

pub mod alert;
pub mod config;
pub mod dispatch;
pub mod opsgenie;
pub mod paging;
pub mod query;
pub mod store;
pub mod sync;
pub mod time;
