//! A background hang detector: tracks per-component liveness timestamps and
//! raises escalating alerts (transient, then permanent) when a component
//! stops reporting activity within its configured grace periods.
//!
//! The detection state machine, its registry, the per-iteration decision of
//! the event loop, and the alert-deduplication policy are all verified here.
//! The blocking wait on channels and the actual delivery of alerts are the
//! runtime shell's concern: this library works on plain timestamps and
//! returns the alerts each checkpoint pass produces.

pub mod laws;
pub mod monitor;
pub mod types;
