use vdesk::error::REGDB_E_CLASSNOTREG;
use vdesk::events::DesktopEvent;
use vdesk::host::{DesktopID, HostState};
use vdesk::service::VirtualDesktops;

fn make(names: &[&str], current: usize) -> VirtualDesktops {
    let owned: Vec<String> = names.iter().map(|n| n.to_string()).collect();
    VirtualDesktops::new(HostState::new(owned, current))
}

#[test]
fn test_two_receivers_both_observe() {
    let mut vd = make(&["One", "Two"], 0);
    let r1 = vd.get_event_receiver();
    let r2 = vd.get_event_receiver();

    vd.go_to_desktop(1).unwrap();

    let expected = DesktopEvent::DesktopChanged {
        old: DesktopID { value: 1 },
        new: DesktopID { value: 2 },
    };
    assert_eq!(r1.try_recv().unwrap(), expected);
    assert_eq!(r2.try_recv().unwrap(), expected);

    // Broadcast, not competition: each receiver saw the event exactly once.
    assert!(r1.try_recv().is_err());
    assert!(r2.try_recv().is_err());
}

#[test]
fn test_rename_emits_event() {
    let mut vd = make(&["One", "Two"], 0);
    let r = vd.get_event_receiver();

    vd.rename_desktop(1, "Renamed").unwrap();

    assert_eq!(
        r.try_recv().unwrap(),
        DesktopEvent::DesktopNameChanged(DesktopID { value: 2 }, "Renamed".to_string())
    );
}

#[test]
fn test_no_events_without_subscription() {
    let mut vd = make(&["One", "Two"], 0);
    vd.go_to_desktop(1).unwrap();
    let r = vd.get_event_receiver();
    // Only events after the receiver was obtained are observed.
    assert!(r.try_recv().is_err());
}

#[test]
fn test_receiver_survives_component_outage() {
    let mut vd = make(&["One", "Two"], 0);

    // The component is down long enough that arming the subscription
    // fails, but a receiver is still handed out.
    for _ in 0..6 {
        vd.host.push_connection_fault(REGDB_E_CLASSNOTREG);
    }
    let r1 = vd.get_event_receiver();

    // Once the component is back, a fresh subscription attempt arms
    // delivery, and the receiver from the outage receives events too.
    let r2 = vd.get_event_receiver();
    vd.go_to_desktop(1).unwrap();

    let expected = DesktopEvent::DesktopChanged {
        old: DesktopID { value: 1 },
        new: DesktopID { value: 2 },
    };
    assert_eq!(r1.try_recv().unwrap(), expected);
    assert_eq!(r2.try_recv().unwrap(), expected);
}

#[test]
fn test_events_flow_across_recreation() {
    let mut vd = make(&["One", "Two"], 0);
    let r = vd.get_event_receiver();

    vd.go_to_desktop(1).unwrap();
    vd.notify_explorer_restarted().unwrap();
    vd.go_to_desktop(0).unwrap();

    // The channel outlives the handle: both switches were delivered to the
    // receiver obtained before the recreation.
    assert!(matches!(r.try_recv().unwrap(), DesktopEvent::DesktopChanged { .. }));
    assert!(matches!(r.try_recv().unwrap(), DesktopEvent::DesktopChanged { .. }));
    assert!(r.try_recv().is_err());
}
