//! The monitor itself: the registry of components, message handling, the
//! checkpoint evaluator, and the decision taken on each event-loop iteration.

use vstd::prelude::*;

use crate::types::HangAlert;
use crate::types::MonitorError;
use crate::types::MonitorEvent;
use crate::types::MonitoredComponent;
use crate::types::MonitoredComponentId;
use crate::types::MonitoredComponentMsg;

verus! {

/// How long one combined wait of the event loop lasts at most, in
/// milliseconds: the detector's responsiveness granularity.
pub const POLL_INTERVAL_MS: u64 = 100;

/// Milliseconds of inactivity at time `now` for a component last active at
/// `last_activity`. A timestamp from before the last activity counts as no
/// elapsed time at all.
pub open spec fn elapsed_ms(now: u64, last_activity: u64) -> int {
    if now >= last_activity {
        now - last_activity
    } else {
        0
    }
}

/// The state a component is registered with: waiting, alerts armed, no
/// annotation yet.
pub open spec fn fresh_component(
    transient_hang_timeout: u64,
    permanent_hang_timeout: u64,
    now: u64,
) -> MonitoredComponent {
    MonitoredComponent {
        last_activity: now,
        last_annotation: None,
        transient_hang_timeout,
        permanent_hang_timeout,
        sent_transient_alert: false,
        sent_permanent_alert: false,
        is_waiting: true,
    }
}

/// What a message does to the component it addresses. Activity refreshes the
/// timestamp and annotation and makes the component eligible for evaluation,
/// but deliberately leaves the alert-sent flags alone: only a wait
/// transition re-arms alerts. A wait refreshes the timestamp, clears both
/// flags and suspends evaluation.
pub open spec fn apply_msg(
    c: MonitoredComponent,
    msg: MonitoredComponentMsg,
    now: u64,
) -> MonitoredComponent {
    match msg {
        MonitoredComponentMsg::NotifyActivity(annotation) => MonitoredComponent {
            last_activity: now,
            last_annotation: Some(annotation),
            transient_hang_timeout: c.transient_hang_timeout,
            permanent_hang_timeout: c.permanent_hang_timeout,
            sent_transient_alert: c.sent_transient_alert,
            sent_permanent_alert: c.sent_permanent_alert,
            is_waiting: false,
        },
        MonitoredComponentMsg::NotifyWait => MonitoredComponent {
            last_activity: now,
            last_annotation: c.last_annotation,
            transient_hang_timeout: c.transient_hang_timeout,
            permanent_hang_timeout: c.permanent_hang_timeout,
            sent_transient_alert: false,
            sent_permanent_alert: false,
            is_waiting: true,
        },
    }
}

/// The alert one checkpoint pass emits for one component, if any. A waiting
/// component is never evaluated. Past the permanent grace period a permanent
/// alert is emitted once per cycle and supersedes transient evaluation; past
/// only the transient grace period a transient alert is emitted once per
/// cycle, and never once a permanent alert has gone out — the permanent
/// alert silences the component for the rest of its cycle, even if activity
/// refreshes bring the elapsed time back into the transient band; within the
/// grace period nothing is emitted.
pub open spec fn component_alert(
    id: MonitoredComponentId,
    c: MonitoredComponent,
    now: u64,
) -> Option<HangAlert> {
    if c.is_waiting {
        None
    } else if elapsed_ms(now, c.last_activity) > c.permanent_hang_timeout {
        if c.sent_permanent_alert {
            None
        } else {
            Some(HangAlert::Permanent(id, c.last_annotation->0))
        }
    } else if elapsed_ms(now, c.last_activity) > c.transient_hang_timeout {
        if c.sent_transient_alert || c.sent_permanent_alert {
            None
        } else {
            Some(HangAlert::Transient(id, c.last_annotation->0))
        }
    } else {
        None
    }
}

/// How one checkpoint pass leaves a component: the flag of the threshold it
/// is past is set (idempotently), everything else is untouched. A component
/// whose permanent alert has gone out is left entirely unchanged: nothing of
/// it is evaluated again until a wait transition re-arms it.
pub open spec fn step_component(c: MonitoredComponent, now: u64) -> MonitoredComponent {
    if c.is_waiting {
        c
    } else if elapsed_ms(now, c.last_activity) > c.permanent_hang_timeout {
        MonitoredComponent { sent_permanent_alert: true, ..c }
    } else if elapsed_ms(now, c.last_activity) > c.transient_hang_timeout {
        if c.sent_permanent_alert {
            c
        } else {
            MonitoredComponent { sent_transient_alert: true, ..c }
        }
    } else {
        c
    }
}

/// One checkpoint pass over the whole registry: every entry stepped, in
/// place, in registry order.
pub open spec fn step_entries(
    entries: Seq<(MonitoredComponentId, MonitoredComponent)>,
    now: u64,
) -> Seq<(MonitoredComponentId, MonitoredComponent)> {
    Seq::new(entries.len(), |i: int| (entries[i].0, step_component(entries[i].1, now)))
}

/// The alerts one checkpoint pass emits, in registry order.
pub open spec fn checkpoint_alerts(
    entries: Seq<(MonitoredComponentId, MonitoredComponent)>,
    now: u64,
) -> Seq<HangAlert>
    decreases entries.len(),
{
    if entries.len() == 0 {
        Seq::empty()
    } else {
        checkpoint_alerts(entries.drop_last(), now) + match component_alert(
            entries.last().0,
            entries.last().1,
            now,
        ) {
            Some(alert) => seq![alert],
            None => Seq::empty(),
        }
    }
}

/// The component an alert names.
pub open spec fn alert_component(alert: HangAlert) -> MonitoredComponentId {
    match alert {
        HangAlert::Transient(id, _) => id,
        HangAlert::Permanent(id, _) => id,
    }
}

/// Whether an identity is registered.
pub open spec fn contains_id(
    entries: Seq<(MonitoredComponentId, MonitoredComponent)>,
    id: MonitoredComponentId,
) -> bool {
    exists|i: int| 0 <= i < entries.len() && entries[i].0 == id
}

/// The registry after a message addressed to `id`: the entry with that
/// identity (unique, by the registry invariant) is replaced, all others are
/// untouched and order is kept.
pub open spec fn apply_msg_entries(
    entries: Seq<(MonitoredComponentId, MonitoredComponent)>,
    id: MonitoredComponentId,
    msg: MonitoredComponentMsg,
    now: u64,
) -> Seq<(MonitoredComponentId, MonitoredComponent)> {
    Seq::new(
        entries.len(),
        |i: int|
            if entries[i].0 == id {
                (entries[i].0, apply_msg(entries[i].1, msg, now))
            } else {
                entries[i]
            },
    )
}

/// No identity occurs twice.
pub open spec fn unique_ids(entries: Seq<(MonitoredComponentId, MonitoredComponent)>) -> bool {
    forall|i: int, j: int|
        0 <= i < j < entries.len() ==> entries[i].0 != entries[j].0
}

/// The hang monitor: a registry of components, keyed by identity, mutated
/// only through registration, message handling and checkpoint passes.
pub struct BackgroundHangMonitor {
    monitored_components: Vec<(MonitoredComponentId, MonitoredComponent)>,
}

impl BackgroundHangMonitor {
    /// The registry as a sequence of entries, in insertion order.
    pub closed spec fn components(&self) -> Seq<(MonitoredComponentId, MonitoredComponent)> {
        self.monitored_components@
    }

    /// Registry invariant: identities are unique, and every component
    /// eligible for evaluation has an annotation to report.
    pub open spec fn wf(&self) -> bool {
        &&& unique_ids(self.components())
        &&& forall|i: int|
            0 <= i < self.components().len() ==> #[trigger] self.components()[i].1.wf()
    }

    /// A monitor watching one initial component, registered waiting with
    /// both grace periods fixed for its lifetime.
    pub fn new(
        component_id: MonitoredComponentId,
        transient_hang_timeout: u64,
        permanent_hang_timeout: u64,
        now: u64,
    ) -> (monitor: Self)
        ensures
            monitor.wf(),
            monitor.components() =~= seq![
                (
                    component_id,
                    fresh_component(transient_hang_timeout, permanent_hang_timeout, now),
                ),
            ],
    {
        let mut monitor = BackgroundHangMonitor { monitored_components: Vec::new() };
        let registered = monitor.register(
            component_id,
            transient_hang_timeout,
            permanent_hang_timeout,
            now,
        );
        assert(registered is Ok);
        monitor
    }

    /// Insert a new entry, waiting and with alerts armed. An identity that
    /// is already present is rejected with `DuplicateComponent` and the
    /// registry is left exactly as it was.
    pub fn register(
        &mut self,
        component_id: MonitoredComponentId,
        transient_hang_timeout: u64,
        permanent_hang_timeout: u64,
        now: u64,
    ) -> (r: Result<(), MonitorError>)
        requires
            old(self).wf(),
        ensures
            final(self).wf(),
            contains_id(old(self).components(), component_id) ==> {
                &&& r == Err::<(), MonitorError>(MonitorError::DuplicateComponent)
                &&& final(self).components() == old(self).components()
            },
            !contains_id(old(self).components(), component_id) ==> {
                &&& r is Ok
                &&& final(self).components() =~= old(self).components().push(
                    (
                        component_id,
                        fresh_component(transient_hang_timeout, permanent_hang_timeout, now),
                    ),
                )
            },
    {
        let n = self.monitored_components.len();
        let mut i: usize = 0;
        while i < n
            invariant
                i <= n,
                n == self.components().len(),
                self == old(self),
                self.wf(),
                forall|j: int| 0 <= j < i ==> self.components()[j].0 != component_id,
            decreases n - i,
        {
            if self.monitored_components[i].0 == component_id {
                return Err(MonitorError::DuplicateComponent);
            }
            i += 1;
        }
        let component = MonitoredComponent {
            last_activity: now,
            last_annotation: None,
            transient_hang_timeout,
            permanent_hang_timeout,
            sent_transient_alert: false,
            sent_permanent_alert: false,
            is_waiting: true,
        };
        self.monitored_components.push((component_id, component));
        Ok(())
    }

    /// Apply one message to the component it addresses. A message naming an
    /// identity that was never registered is rejected with
    /// `UnknownComponent` and the registry is left exactly as it was.
    pub fn handle_msg(
        &mut self,
        component_id: MonitoredComponentId,
        msg: MonitoredComponentMsg,
        now: u64,
    ) -> (r: Result<(), MonitorError>)
        requires
            old(self).wf(),
        ensures
            final(self).wf(),
            !contains_id(old(self).components(), component_id) ==> {
                &&& r == Err::<(), MonitorError>(MonitorError::UnknownComponent)
                &&& final(self).components() == old(self).components()
            },
            contains_id(old(self).components(), component_id) ==> {
                &&& r is Ok
                &&& final(self).components() =~= apply_msg_entries(
                    old(self).components(),
                    component_id,
                    msg,
                    now,
                )
            },
    {
        let n = self.monitored_components.len();
        let mut i: usize = 0;
        while i < n
            invariant
                i <= n,
                n == self.components().len(),
                self == old(self),
                self.wf(),
                forall|j: int| 0 <= j < i ==> self.components()[j].0 != component_id,
            decreases n - i,
        {
            if self.monitored_components[i].0 == component_id {
                let c = self.monitored_components[i].1;
                let updated = match msg {
                    MonitoredComponentMsg::NotifyActivity(annotation) => MonitoredComponent {
                        last_activity: now,
                        last_annotation: Some(annotation),
                        is_waiting: false,
                        ..c
                    },
                    MonitoredComponentMsg::NotifyWait => MonitoredComponent {
                        last_activity: now,
                        sent_transient_alert: false,
                        sent_permanent_alert: false,
                        is_waiting: true,
                        ..c
                    },
                };
                self.monitored_components[i].1 = updated;
                return Ok(());
            }
            i += 1;
        }
        Err(MonitorError::UnknownComponent)
    }

    /// One checkpoint pass: evaluate every registered component against its
    /// grace periods at time `now`, in registry order, and return the alerts
    /// this pass produced. Waiting components are skipped entirely. A
    /// component past its permanent grace period yields one permanent alert
    /// per cycle and is never also evaluated for a transient one; a
    /// component past only its transient grace period yields one transient
    /// alert per cycle, and none at all once its permanent alert has gone
    /// out. Delivering the alerts is the caller's concern.
    pub fn perform_a_hang_monitor_checkpoint(&mut self, now: u64) -> (alerts: Vec<HangAlert>)
        requires
            old(self).wf(),
        ensures
            final(self).wf(),
            final(self).components() =~= step_entries(old(self).components(), now),
            alerts@ =~= checkpoint_alerts(old(self).components(), now),
    {
        let n = self.monitored_components.len();
        let mut alerts: Vec<HangAlert> = Vec::new();
        let mut i: usize = 0;
        while i < n
            invariant
                i <= n,
                n == self.components().len(),
                self.components().len() == old(self).components().len(),
                old(self).wf(),
                self.wf(),
                forall|j: int|
                    i <= j < n ==> self.components()[j] == #[trigger] old(self).components()[j],
                forall|j: int|
                    0 <= j < i ==> self.components()[j] == (
                        #[trigger] old(self).components()[j].0,
                        step_component(old(self).components()[j].1, now),
                    ),
                alerts@ =~= checkpoint_alerts(old(self).components().take(i as int), now),
            decreases n - i,
        {
            let id = self.monitored_components[i].0;
            let c = self.monitored_components[i].1;
            proof {
                let entries = old(self).components();
                assert(entries.take(i + 1).drop_last() =~= entries.take(i as int));
                assert(entries.take(i + 1).last() == entries[i as int]);
                assert(self.components()[i as int].1.wf());
            }
            if !c.is_waiting {
                let elapsed = if now >= c.last_activity {
                    now - c.last_activity
                } else {
                    0
                };
                let annotation = c.last_annotation.unwrap();
                if elapsed > c.permanent_hang_timeout {
                    if !c.sent_permanent_alert {
                        alerts.push(HangAlert::Permanent(id, annotation));
                    }
                    self.monitored_components[i].1 = MonitoredComponent {
                        sent_permanent_alert: true,
                        ..c
                    };
                } else if elapsed > c.transient_hang_timeout && !c.sent_permanent_alert {
                    if !c.sent_transient_alert {
                        alerts.push(HangAlert::Transient(id, annotation));
                    }
                    self.monitored_components[i].1 = MonitoredComponent {
                        sent_transient_alert: true,
                        ..c
                    };
                }
            }
            i += 1;
        }
        proof {
            assert(old(self).components().take(n as int) =~= old(self).components());
        }
        alerts
    }

    /// One event-loop iteration, decided from what the combined wait
    /// produced. Closure of the inbound source is the sole stop condition:
    /// the monitor reports it by returning `false` and touches nothing. Any
    /// other event — a message, or the poll interval elapsing with no
    /// message — is followed unconditionally by one checkpoint pass, so
    /// hangs are caught even with no message traffic; the pass's alerts are
    /// returned for the caller to deliver. A message for an unregistered
    /// identity is rejected without running a checkpoint and without
    /// touching the registry.
    pub fn run(&mut self, event: MonitorEvent, now: u64) -> (r: Result<
        (bool, Vec<HangAlert>),
        MonitorError,
    >)
        requires
            old(self).wf(),
        ensures
            final(self).wf(),
            event is Closed ==> {
                &&& *final(self) == *old(self)
                &&& r matches Ok(step) && step.0 == false && step.1@ =~= Seq::<HangAlert>::empty()
            },
            event is Timeout ==> {
                &&& r matches Ok(step) && step.0 == true && step.1@ =~= checkpoint_alerts(
                    old(self).components(),
                    now,
                )
                &&& final(self).components() =~= step_entries(old(self).components(), now)
            },
            event matches MonitorEvent::Message(id, msg) ==> (if contains_id(
                old(self).components(),
                id,
            ) {
                &&& r matches Ok(step) && step.0 == true && step.1@ =~= checkpoint_alerts(
                    apply_msg_entries(old(self).components(), id, msg, now),
                    now,
                )
                &&& final(self).components() =~= step_entries(
                    apply_msg_entries(old(self).components(), id, msg, now),
                    now,
                )
            } else {
                &&& r == Err::<(bool, Vec<HangAlert>), MonitorError>(
                    MonitorError::UnknownComponent,
                )
                &&& final(self).components() == old(self).components()
            }),
            (r matches Ok(step) && step.0 == false) <==> event is Closed,
    {
        match event {
            MonitorEvent::Closed => Ok((false, Vec::new())),
            MonitorEvent::Timeout => {
                let alerts = self.perform_a_hang_monitor_checkpoint(now);
                Ok((true, alerts))
            },
            MonitorEvent::Message(component_id, msg) => {
                match self.handle_msg(component_id, msg, now) {
                    Ok(()) => {
                        let alerts = self.perform_a_hang_monitor_checkpoint(now);
                        Ok((true, alerts))
                    },
                    Err(e) => Err(e),
                }
            },
        }
    }

    /// How many components are registered.
    pub fn len(&self) -> (n: usize)
        ensures
            n == self.components().len(),
    {
        self.monitored_components.len()
    }

    /// The state of the component registered under `component_id`, if any.
    pub fn component(&self, component_id: MonitoredComponentId) -> (r: Option<MonitoredComponent>)
        requires
            self.wf(),
        ensures
            !contains_id(self.components(), component_id) ==> r is None,
            forall|i: int|
                0 <= i < self.components().len() && self.components()[i].0 == component_id
                    ==> r == Some(#[trigger] self.components()[i].1),
    {
        let n = self.monitored_components.len();
        let mut i: usize = 0;
        while i < n
            invariant
                i <= n,
                n == self.components().len(),
                self.wf(),
                forall|j: int| 0 <= j < i ==> self.components()[j].0 != component_id,
            decreases n - i,
        {
            if self.monitored_components[i].0 == component_id {
                return Some(self.monitored_components[i].1);
            }
            i += 1;
        }
        None
    }
}

} // verus!
