//! The data model: component identities, annotations, messages, alerts and
//! the per-component hang state.

use vstd::prelude::*;

verus! {

/// Identifies a monitored component. The identity scheme itself is the
/// caller's concern; the registry only needs an opaque, comparable key, so
/// it is carried as a numeric handle chosen by the caller.
#[derive(Clone, Copy, PartialEq, Eq, Structural, Debug, Hash)]
pub struct MonitoredComponentId(pub u64);

/// Opaque diagnostic payload attached to the most recent activity
/// notification and carried unchanged into alerts. Its meaning is the
/// caller's concern; the monitor never inspects it.
#[derive(Clone, Copy, PartialEq, Eq, Structural, Debug)]
pub struct HangAnnotation(pub u64);

/// What a monitored component reports about itself.
#[derive(Clone, Copy, PartialEq, Eq, Structural, Debug)]
pub enum MonitoredComponentMsg {
    /// The component made progress; the annotation describes it.
    NotifyActivity(HangAnnotation),
    /// The component is intentionally idle: suspend hang evaluation for it
    /// and re-arm its alerts.
    NotifyWait,
}

/// An escalation event. At most one of each kind is sent per
/// activity-to-wait cycle of a component.
#[derive(Clone, Copy, PartialEq, Eq, Structural, Debug)]
pub enum HangAlert {
    /// Inactivity exceeded the shorter grace period but not yet the longer.
    Transient(MonitoredComponentId, HangAnnotation),
    /// Inactivity exceeded the longer grace period; supersedes transient.
    Permanent(MonitoredComponentId, HangAnnotation),
}

/// Registry errors, surfaced to the caller rather than aborting the monitor.
#[derive(Clone, Copy, PartialEq, Eq, Structural, Debug)]
pub enum MonitorError {
    /// Registration named an identity that is already present.
    DuplicateComponent,
    /// A message named an identity that was never registered.
    UnknownComponent,
}

/// What one combined wait of the event loop produced: a message, the poll
/// interval elapsing with no message, or permanent closure of the inbound
/// source (no sender can ever deliver again).
#[derive(Clone, Copy, PartialEq, Eq, Structural, Debug)]
pub enum MonitorEvent {
    Message(MonitoredComponentId, MonitoredComponentMsg),
    Timeout,
    Closed,
}

/// Hang state of one registered component. Timestamps and timeouts are in
/// milliseconds; timestamps are relative to whatever clock origin the caller
/// uses consistently.
#[derive(Clone, Copy, PartialEq, Eq, Debug)]
pub struct MonitoredComponent {
    /// When progress was last observed (or the entry created / set waiting).
    pub last_activity: u64,
    /// The most recent annotation; absent until the first activity report.
    pub last_annotation: Option<HangAnnotation>,
    /// Grace period before a transient alert, fixed at registration.
    pub transient_hang_timeout: u64,
    /// Grace period before a permanent alert, fixed at registration.
    pub permanent_hang_timeout: u64,
    /// A transient alert has been sent in the current cycle.
    pub sent_transient_alert: bool,
    /// A permanent alert has been sent in the current cycle.
    pub sent_permanent_alert: bool,
    /// Intentionally idle: hang evaluation is suspended.
    pub is_waiting: bool,
}

impl MonitoredComponent {
    /// A component is well formed when an annotation is available whenever
    /// it is eligible for evaluation: leaving the waiting state requires an
    /// activity notification, which sets one.
    pub open spec fn wf(self) -> bool {
        !self.is_waiting ==> self.last_annotation is Some
    }
}

} // verus!
