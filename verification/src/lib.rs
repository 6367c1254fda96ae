//! Telemetry for HTTP exchanges that pass through a proxy: timing, direction,
//! response classification and one structured log line per exchange.
//!
//! Every function here works on plain values. The caller reads the clock,
//! headers and ambient properties from its host, hands them in, and carries
//! out the recordings that come back.

pub mod backend;
pub mod direction;
pub mod logline;
pub mod metrics;
pub mod observer;
pub mod status;
