//! The monitor's laws: properties that hold of every state and every input,
//! stated over the same spec functions the contracts use and proved once and
//! for all.

use vstd::prelude::*;

use crate::monitor::alert_component;
use crate::monitor::apply_msg;
use crate::monitor::checkpoint_alerts;
use crate::monitor::component_alert;
use crate::monitor::contains_id;
use crate::monitor::elapsed_ms;
use crate::monitor::fresh_component;
use crate::monitor::step_component;
use crate::types::HangAlert;
use crate::types::HangAnnotation;
use crate::types::MonitoredComponent;
use crate::types::MonitoredComponentId;
use crate::types::MonitoredComponentMsg;

verus! {

/// Registering an identity makes it present, so a second registration of the
/// same identity must — by `register`'s contract — fail with
/// `DuplicateComponent` and leave the registry, its size included, exactly
/// as the first registration left it.
pub proof fn lemma_registration_makes_duplicate(
    entries: Seq<(MonitoredComponentId, MonitoredComponent)>,
    id: MonitoredComponentId,
    transient_hang_timeout: u64,
    permanent_hang_timeout: u64,
    now: u64,
)
    ensures
        contains_id(
            entries.push((id, fresh_component(transient_hang_timeout, permanent_hang_timeout, now))),
            id,
        ),
{
    let pushed = entries.push(
        (id, fresh_component(transient_hang_timeout, permanent_hang_timeout, now)),
    );
    assert(pushed[entries.len() as int].0 == id);
}

/// A waiting component is exempt: a checkpoint pass at any time emits no
/// alert for it and leaves it untouched, no matter how much time has
/// elapsed.
pub proof fn lemma_waiting_component_untouched(
    id: MonitoredComponentId,
    c: MonitoredComponent,
    now: u64,
)
    requires
        c.is_waiting,
    ensures
        component_alert(id, c, now) is None,
        step_component(c, now) == c,
{
}

/// Registry-wide form of the waiting exemption: while every entry under an
/// identity is waiting, no alert of a checkpoint pass names that identity.
pub proof fn lemma_waiting_never_alerted(
    entries: Seq<(MonitoredComponentId, MonitoredComponent)>,
    id: MonitoredComponentId,
    now: u64,
)
    requires
        forall|i: int|
            0 <= i < entries.len() && (#[trigger] entries[i]).0 == id ==> entries[i].1.is_waiting,
    ensures
        forall|j: int|
            0 <= j < checkpoint_alerts(entries, now).len() ==> alert_component(
                #[trigger] checkpoint_alerts(entries, now)[j],
            ) != id,
    decreases entries.len(),
{
    if entries.len() > 0 {
        let prefix = entries.drop_last();
        assert forall|i: int|
            0 <= i < prefix.len() && (#[trigger] prefix[i]).0 == id implies prefix[i].1.is_waiting by {
            assert(prefix[i] == entries[i]);
        }
        lemma_waiting_never_alerted(prefix, id, now);
        let last = entries.last();
        let alerts = checkpoint_alerts(entries, now);
        let prefix_alerts = checkpoint_alerts(prefix, now);
        assert forall|j: int| 0 <= j < alerts.len() implies alert_component(alerts[j]) != id by {
            if j < prefix_alerts.len() {
                assert(alerts[j] == prefix_alerts[j]);
            } else {
                assert(component_alert(last.0, last.1, now) matches Some(a) && alerts[j] == a);
                if last.0 == id {
                    assert(entries[entries.len() - 1].1.is_waiting);
                }
            }
        }
    }
}

/// A wait notification always re-arms alerting: both alert-sent flags are
/// cleared, the component is waiting, and its timestamp is refreshed —
/// whatever its prior state was.
pub proof fn lemma_notify_wait_rearms(c: MonitoredComponent, now: u64)
    ensures
        apply_msg(c, MonitoredComponentMsg::NotifyWait, now) == (MonitoredComponent {
            last_activity: now,
            sent_transient_alert: false,
            sent_permanent_alert: false,
            is_waiting: true,
            ..c
        }),
{
}

/// An activity notification always makes the component eligible for
/// evaluation, refreshes its timestamp and annotation — and never touches
/// the alert-sent flags: only a wait transition re-arms alerting.
pub proof fn lemma_notify_activity_keeps_flags(
    c: MonitoredComponent,
    annotation: HangAnnotation,
    now: u64,
)
    ensures
        apply_msg(c, MonitoredComponentMsg::NotifyActivity(annotation), now)
            == (MonitoredComponent {
            last_activity: now,
            last_annotation: Some(annotation),
            is_waiting: false,
            ..c
        }),
{
}

/// Once a permanent alert has gone out, the component stays silent for the
/// rest of its wait cycle: a checkpoint pass at any time whatsoever emits
/// nothing for it — in particular never a transient alert, even if activity
/// refreshes bring the elapsed time back into the transient band — and
/// leaves it unchanged. Only a wait transition, which clears the flag,
/// re-arms it.
pub proof fn lemma_permanent_alert_is_final(
    id: MonitoredComponentId,
    c: MonitoredComponent,
    annotation: HangAnnotation,
    activity_time: u64,
    now: u64,
)
    requires
        c.sent_permanent_alert,
    ensures
        component_alert(id, c, now) is None,
        step_component(c, now) == c,
        component_alert(
            id,
            apply_msg(c, MonitoredComponentMsg::NotifyActivity(annotation), activity_time),
            now,
        ) is None,
{
}

/// A wait followed by fresh activity resets eligibility: the re-armed
/// component raises a fresh transient alert once past its transient grace
/// period, and a fresh permanent alert once past its permanent one.
pub proof fn lemma_wait_then_activity_resets_eligibility(
    id: MonitoredComponentId,
    c: MonitoredComponent,
    annotation: HangAnnotation,
    rearmed: MonitoredComponent,
    wait_time: u64,
    activity_time: u64,
    transient_check: u64,
    permanent_check: u64,
)
    requires
        rearmed == apply_msg(
            apply_msg(c, MonitoredComponentMsg::NotifyWait, wait_time),
            MonitoredComponentMsg::NotifyActivity(annotation),
            activity_time,
        ),
        elapsed_ms(transient_check, activity_time) > c.transient_hang_timeout,
        elapsed_ms(transient_check, activity_time) <= c.permanent_hang_timeout,
        elapsed_ms(permanent_check, activity_time) > c.permanent_hang_timeout,
    ensures
        component_alert(id, rearmed, transient_check) == Some(
            HangAlert::Transient(id, annotation),
        ),
        component_alert(id, step_component(rearmed, transient_check), permanent_check) == Some(
            HangAlert::Permanent(id, annotation),
        ),
{
}

} // verus!
