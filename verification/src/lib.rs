//! Line-ending normalization: classify file content as likely text via a
//! NUL-byte heuristic on a bounded head sample, rewrite CRLF sequences to LF,
//! and tally per-file outcomes of a run.

pub mod classify;
pub mod convert;
pub mod pipeline;
pub mod tally;
