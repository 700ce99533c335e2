//! Verified core of a media-throughput benchmark: a streaming XOR checksum,
//! the decision logic of a supervised transcoding process, both sides of the
//! checksum transfer protocol, and repeated-sample timing statistics.
//!
//! Everything here is free of I/O. A driver performs the reads, writes and
//! waits, and reports each completion to one of the state machines below,
//! which answers with the next thing to do.

pub mod checksum;
pub mod client;
pub mod echo;
pub mod error;
pub mod handler;
pub mod harness;
pub mod pipeline;
pub mod plan;
pub mod report;
pub mod statistics;
