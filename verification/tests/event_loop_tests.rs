use hang_monitor::monitor::BackgroundHangMonitor;
use hang_monitor::types::HangAlert;
use hang_monitor::types::HangAnnotation;
use hang_monitor::types::MonitorError;
use hang_monitor::types::MonitorEvent;
use hang_monitor::types::MonitoredComponentId;
use hang_monitor::types::MonitoredComponentMsg;

const ID: MonitoredComponentId = MonitoredComponentId(1);

#[test]
fn closed_inbound_source_stops_the_loop() {
    let mut monitor = BackgroundHangMonitor::new(ID, 100, 500, 0);
    let (keep_running, alerts) = monitor.run(MonitorEvent::Closed, 0).unwrap();
    assert!(!keep_running);
    assert_eq!(alerts, vec![]);
    // closure touches nothing: the registry is as it was
    assert_eq!(monitor.len(), 1);
    assert!(monitor.component(ID).unwrap().is_waiting);
}

#[test]
fn timer_tick_alone_never_stops_the_loop() {
    let mut monitor = BackgroundHangMonitor::new(ID, 100, 500, 0);
    for tick in 0..20u64 {
        let (keep_running, alerts) = monitor.run(MonitorEvent::Timeout, tick * 100).unwrap();
        assert!(keep_running);
        assert_eq!(alerts, vec![]);
    }
}

#[test]
fn timer_tick_runs_a_checkpoint() {
    let mut monitor = BackgroundHangMonitor::new(ID, 100, 500, 0);
    let event = MonitorEvent::Message(
        ID,
        MonitoredComponentMsg::NotifyActivity(HangAnnotation(5)),
    );
    let (keep_running, alerts) = monitor.run(event, 0).unwrap();
    assert!(keep_running);
    assert_eq!(alerts, vec![]);
    // no message traffic: the tick alone must still catch the hang
    let (keep_running, alerts) = monitor.run(MonitorEvent::Timeout, 150).unwrap();
    assert!(keep_running);
    assert_eq!(alerts, vec![HangAlert::Transient(ID, HangAnnotation(5))]);
}

#[test]
fn message_is_dispatched_then_checkpointed() {
    let mut monitor = BackgroundHangMonitor::new(ID, 100, 500, 0);
    let activity = MonitorEvent::Message(
        ID,
        MonitoredComponentMsg::NotifyActivity(HangAnnotation(5)),
    );
    monitor.run(activity, 0).unwrap();
    // the checkpoint of the same iteration already sees the fresh activity
    let late_activity = MonitorEvent::Message(
        ID,
        MonitoredComponentMsg::NotifyActivity(HangAnnotation(6)),
    );
    let (keep_running, alerts) = monitor.run(late_activity, 600).unwrap();
    assert!(keep_running);
    assert_eq!(alerts, vec![]);
    // but a wait message leaves last_activity refreshed and the component
    // exempt, so the pass after it stays silent too
    let (keep_running, alerts) = monitor
        .run(MonitorEvent::Message(ID, MonitoredComponentMsg::NotifyWait), 700)
        .unwrap();
    assert!(keep_running);
    assert_eq!(alerts, vec![]);
}

#[test]
fn unknown_component_stops_the_iteration_not_the_loop() {
    let mut monitor = BackgroundHangMonitor::new(ID, 100, 500, 0);
    monitor
        .run(
            MonitorEvent::Message(ID, MonitoredComponentMsg::NotifyActivity(HangAnnotation(5))),
            0,
        )
        .unwrap();
    let unknown = MonitorEvent::Message(
        MonitoredComponentId(9),
        MonitoredComponentMsg::NotifyWait,
    );
    let result = monitor.run(unknown, 150);
    assert_eq!(result, Err(MonitorError::UnknownComponent));
    // the rejected message mutated nothing and ran no checkpoint: the next
    // tick still emits the transient alert
    let (_, alerts) = monitor.run(MonitorEvent::Timeout, 150).unwrap();
    assert_eq!(alerts, vec![HangAlert::Transient(ID, HangAnnotation(5))]);
}
