//! Concurrency-bounded address enrichment.
//!
//! The library takes partial address records, validates them as geocoding
//! queries, tracks a fan-out of at most K simultaneous provider lookups
//! through a verified dispatcher state machine, parses provider responses
//! into enriched records, and applies a strict-or-lenient failure policy to
//! the collected outcomes. All network and file I/O stays outside; the
//! library receives and returns plain values.

pub mod address;
pub mod dispatch;
pub mod geocoding;
pub mod pipeline;
