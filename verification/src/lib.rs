//! Diagnostic counters for long-running Capsense instances.
//!
//! The counters track spawned and completed worker threads, caught panics,
//! message-loop errors and shutdown signals. The tracking operations are
//! transitions on a `DebugCounters` value (`counters`); the snapshot and the
//! sanity warnings are rendered as text lines (`report`, with the decimal
//! notation in `text`).

pub mod counters;
pub mod report;
pub mod text;
