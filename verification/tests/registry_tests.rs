use hang_monitor::monitor::BackgroundHangMonitor;
use hang_monitor::types::HangAnnotation;
use hang_monitor::types::MonitorError;
use hang_monitor::types::MonitoredComponent;
use hang_monitor::types::MonitoredComponentId;
use hang_monitor::types::MonitoredComponentMsg;

#[test]
fn new_registers_initial_component_waiting() {
    let monitor = BackgroundHangMonitor::new(MonitoredComponentId(1), 100, 500, 0);
    assert_eq!(monitor.len(), 1);
    let component = monitor.component(MonitoredComponentId(1)).unwrap();
    assert_eq!(
        component,
        MonitoredComponent {
            last_activity: 0,
            last_annotation: None,
            transient_hang_timeout: 100,
            permanent_hang_timeout: 500,
            sent_transient_alert: false,
            sent_permanent_alert: false,
            is_waiting: true,
        }
    );
}

#[test]
fn duplicate_registration_fails_and_size_unchanged() {
    let mut monitor = BackgroundHangMonitor::new(MonitoredComponentId(1), 100, 500, 0);
    let before = monitor.len();
    let result = monitor.register(MonitoredComponentId(1), 200, 900, 50);
    assert_eq!(result, Err(MonitorError::DuplicateComponent));
    assert_eq!(monitor.len(), before);
    // the original entry is untouched by the failed attempt
    let component = monitor.component(MonitoredComponentId(1)).unwrap();
    assert_eq!(component.transient_hang_timeout, 100);
    assert_eq!(component.permanent_hang_timeout, 500);
    assert_eq!(component.last_activity, 0);
}

#[test]
fn register_distinct_components() {
    let mut monitor = BackgroundHangMonitor::new(MonitoredComponentId(1), 100, 500, 0);
    assert_eq!(monitor.register(MonitoredComponentId(2), 50, 250, 10), Ok(()));
    assert_eq!(monitor.len(), 2);
    let second = monitor.component(MonitoredComponentId(2)).unwrap();
    assert!(second.is_waiting);
    assert_eq!(second.last_activity, 10);
    assert_eq!(second.transient_hang_timeout, 50);
    assert_eq!(second.permanent_hang_timeout, 250);
    assert_eq!(second.last_annotation, None);
}

#[test]
fn unknown_component_message_rejected() {
    let mut monitor = BackgroundHangMonitor::new(MonitoredComponentId(1), 100, 500, 0);
    let result = monitor.handle_msg(
        MonitoredComponentId(9),
        MonitoredComponentMsg::NotifyActivity(HangAnnotation(3)),
        40,
    );
    assert_eq!(result, Err(MonitorError::UnknownComponent));
    assert_eq!(monitor.len(), 1);
    assert!(monitor.component(MonitoredComponentId(9)).is_none());
    // the registered component was not mutated
    let component = monitor.component(MonitoredComponentId(1)).unwrap();
    assert!(component.is_waiting);
    assert_eq!(component.last_activity, 0);
    assert_eq!(component.last_annotation, None);

    let result = monitor.handle_msg(MonitoredComponentId(9), MonitoredComponentMsg::NotifyWait, 40);
    assert_eq!(result, Err(MonitorError::UnknownComponent));
    assert_eq!(monitor.len(), 1);
}
