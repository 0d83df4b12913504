use vdesk::error::{
    classify, Error, Verdict, CO_E_NOTINITIALIZED, REGDB_E_CLASSNOTREG, RPC_E_DISCONNECTED,
    RPC_S_SERVER_UNAVAILABLE, HRESULT,
};
use vdesk::host::HostState;
use vdesk::service::{ServiceState, VirtualDesktops};

fn make(names: &[&str], current: usize) -> VirtualDesktops {
    let owned: Vec<String> = names.iter().map(|n| n.to_string()).collect();
    VirtualDesktops::new(HostState::new(owned, current))
}

#[test]
fn test_classifier_verdicts() {
    let rec = |code: u32| classify(&Error::ExternalFailure(HRESULT { code }));
    assert_eq!(rec(CO_E_NOTINITIALIZED), Verdict::Recoverable { needs_runtime_init: true });
    assert_eq!(rec(REGDB_E_CLASSNOTREG), Verdict::Recoverable { needs_runtime_init: false });
    assert_eq!(rec(RPC_S_SERVER_UNAVAILABLE), Verdict::Recoverable { needs_runtime_init: false });
    assert_eq!(rec(RPC_E_DISCONNECTED), Verdict::Recoverable { needs_runtime_init: false });
    assert_eq!(rec(0x8000_4005), Verdict::Fatal);
    assert_eq!(
        classify(&Error::ServiceNotCreated),
        Verdict::Recoverable { needs_runtime_init: false }
    );
    assert_eq!(classify(&Error::DesktopNotFound), Verdict::Fatal);
    assert_eq!(classify(&Error::WindowNotFound), Verdict::Fatal);
}

#[test]
fn test_recoverable_fault_absorbed() {
    let mut vd = make(&["One", "Two"], 0);

    // First call creates the service lazily: one factory invocation.
    assert_eq!(vd.get_desktop_count().unwrap(), 2);
    assert_eq!(vd.recreations, 1);

    // A recoverable failure is absorbed by exactly one recreation, and the
    // caller still gets the domain answer.
    vd.host.push_operation_fault(RPC_E_DISCONNECTED);
    assert_eq!(vd.get_desktop_count().unwrap(), 2);
    assert_eq!(vd.recreations, 2);
}

#[test]
fn test_fatal_fault_surfaces_without_retry() {
    let mut vd = make(&["One", "Two"], 0);
    assert_eq!(vd.get_desktop_count().unwrap(), 2);
    assert_eq!(vd.recreations, 1);

    // An uncategorized failure surfaces verbatim, with zero recreations.
    vd.host.push_operation_fault(0x8000_4005);
    let err = vd.get_desktop_count().unwrap_err();
    assert_eq!(err, Error::ExternalFailure(HRESULT { code: 0x8000_4005 }));
    assert_eq!(vd.recreations, 1);

    // The fault was consumed; the next call is answered normally.
    assert_eq!(vd.get_desktop_count().unwrap(), 2);
}

#[test]
fn test_retry_exhaustion() {
    let mut vd = make(&["One", "Two"], 0);
    for _ in 0..7 {
        vd.host.push_connection_fault(REGDB_E_CLASSNOTREG);
    }

    // Every attempt within the bound fails to create the service.
    let err = vd.get_desktop_count().unwrap_err();
    assert_eq!(err, Error::ServiceNotCreated);
    assert_eq!(vd.recreations, 6);
    assert_eq!(vd.host.create_faults.len(), 1);

    // Once the component is back, the next call succeeds (consuming the
    // one remaining queued fault along the way).
    assert_eq!(vd.get_desktop_count().unwrap(), 2);
}

#[test]
fn test_notify_explorer_restarted() {
    let mut vd = make(&["One", "Two"], 0);
    assert!(matches!(vd.state, ServiceState::Unavailable(_)));

    vd.notify_explorer_restarted().unwrap();
    assert!(matches!(vd.state, ServiceState::Ready(_)));

    // A failing recreation reports the cause and keeps the old state.
    vd.host.push_connection_fault(0x8000_4005);
    let err = vd.notify_explorer_restarted().unwrap_err();
    assert_eq!(err, Error::ExternalFailure(HRESULT { code: 0x8000_4005 }));
    assert!(matches!(vd.state, ServiceState::Ready(_)));
}

#[test]
fn test_runtime_init_marker() {
    let mut vd = make(&["One"], 0);
    assert_eq!(vd.get_desktop_count().unwrap(), 1);
    assert!(!vd.runtime_ready);

    // The not-initialized code asks for the one-time runtime setup.
    vd.host.push_operation_fault(CO_E_NOTINITIALIZED);
    assert_eq!(vd.get_desktop_count().unwrap(), 1);
    assert!(vd.runtime_ready);
}
