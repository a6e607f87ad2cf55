//! Chain synchronisation for an Ergo node: a bounded cache of recent blocks,
//! a follower that classifies fetched blocks into forward and backward
//! upgrades, and adapters that turn upgrades into downstream events.
//!
//! Network and disk I/O stay outside this crate; the follower consumes
//! already-fetched data and its decisions are specified and verified here.

pub mod backlog;
pub mod block_event;
pub mod cache_laws;
pub mod cbor;
pub mod chain_cache;
pub mod client_model;
pub mod driver;
pub mod encoding;
pub mod mempool;
pub mod model;
pub mod node;
pub mod proxy;
pub mod sync;
pub mod sync_laws;
pub mod tx_event;
