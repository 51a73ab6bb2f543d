//! A write-proxy layer for an embedded SQL engine: reads are served from a
//! local read-only replica, while writes and transactional statements are
//! forwarded to a single authoritative primary and the replica catches up by
//! replaying the primary's write-ahead log.
//!
//! - [`state`]: the per-connection state machine and its transition table.
//! - [`router`]: the connection handle that routes each statement.
//! - [`session`]: session identities and their wire form.
//! - [`session_table`]: the primary's map from session to engine context.
//! - [`wal`]: the primary's write-ahead log and the streamer answer.
//! - [`replication`]: the replica's cursor and batch application.
//! - [`query`]: statements, results and the error taxonomy.
//! - [`postgres`]: the decode core of the compatibility-testing client.

pub mod postgres;
pub mod query;
pub mod replication;
pub mod router;
pub mod session;
pub mod session_table;
pub mod state;
pub mod wal;
