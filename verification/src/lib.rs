//! Message aggregation and classification for a mail-delivery queue
//! dashboard: queue type classification, message preview heuristics,
//! cross-batch deduplicating aggregation of peeked messages, bearer-token
//! extraction, trace identifier propagation, and the error taxonomy every
//! failure is mapped through. Calls into the HTTP layer and the queue
//! backend stay outside; the decisions they depend on are all here, each
//! under a proved contract.
pub mod aggregate;
pub mod auth;
pub mod classify;
pub mod constants;
pub mod error;
pub mod json;
pub mod preview;
pub mod queues;
pub mod strutil;
pub mod trace;
