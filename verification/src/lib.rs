//! Rolling frame-rate and frame-time telemetry for a debug overlay.
//!
//! The crate keeps two bounded, newest-first sample histories and decides,
//! once per frame, what the overlay window shows. It is generic over the
//! sample type and never computes on a sample: reading the host's counters,
//! arithmetic on the samples and drawing belong to the caller.

pub mod history;
pub mod overlay;
