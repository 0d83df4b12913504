use vdesk::error::Error;
use vdesk::host::HostState;
use vdesk::service::VirtualDesktops;

fn make(names: &[&str], current: usize) -> VirtualDesktops {
    let owned: Vec<String> = names.iter().map(|n| n.to_string()).collect();
    VirtualDesktops::new(HostState::new(owned, current))
}

/// Rename first desktop to Foo, and then back to what it was
#[test]
fn test_rename_desktop() {
    let mut vd = make(&["One", "Two"], 0);

    let names = vd.get_desktop_names().unwrap();
    let first_desktop_name_before = names.get(0).unwrap();
    assert_ne!(
        first_desktop_name_before, "Foo",
        "Your first desktop must be something else than foo"
    );

    vd.rename_desktop(0, "Foo").unwrap();

    let names = vd.get_desktop_names().unwrap();
    let first_desktop_name_after = names.get(0).unwrap();
    assert_eq!(first_desktop_name_after, "Foo", "Rename failed");

    vd.rename_desktop(0, first_desktop_name_before).unwrap();
}

/// Test some errors
#[test]
fn test_errors() {
    let mut vd = make(&["One", "Two"], 0);
    assert!(vd.host.add_window(42, 0));

    let err = vd.rename_desktop(99999, "").unwrap_err();
    assert_eq!(err, Error::DesktopNotFound);

    let err = vd.go_to_desktop(99999).unwrap_err();
    assert_eq!(err, Error::DesktopNotFound);

    let err = vd.get_desktop_by_window(9999999).unwrap_err();
    assert_eq!(err, Error::WindowNotFound);

    let err = vd.move_window_to_desktop(0, 99999).unwrap_err();
    assert_eq!(err, Error::DesktopNotFound);

    let err = vd.move_window_to_desktop(999999, 0).unwrap_err();
    assert_eq!(err, Error::WindowNotFound);
}

#[test]
fn test_desktop_moves() {
    let mut vd = make(&["One", "Two", "Three"], 2);
    let current_desktop = vd.get_current_desktop().unwrap();

    // Go to desktop 0, ensure it worked
    vd.go_to_desktop(0).unwrap();
    assert_eq!(vd.get_current_desktop().unwrap(), 0);

    // Go to desktop 1, ensure it worked
    vd.go_to_desktop(1).unwrap();
    assert_eq!(vd.get_current_desktop().unwrap(), 1);

    // Go to desktop where it was, ensure it worked
    vd.go_to_desktop(current_desktop).unwrap();
    assert_eq!(vd.get_current_desktop().unwrap(), current_desktop);
}

#[test]
fn test_move_window_between_desktops() {
    let mut vd = make(&["One", "Two", "Three"], 2);
    let w = 42;
    assert!(vd.host.add_window(w, 2));

    let current_desktop = vd.get_current_desktop().unwrap();
    assert!(vd.is_window_on_current_virtual_desktop(w).unwrap());
    assert!(vd.is_window_on_desktop(w, current_desktop).unwrap());

    vd.move_window_to_desktop(w, 0).unwrap();
    assert_eq!(vd.get_desktop_by_window(w).unwrap(), 0);
    assert!(!vd.is_window_on_current_virtual_desktop(w).unwrap());

    vd.move_window_to_desktop(w, 1).unwrap();
    assert_eq!(vd.get_desktop_by_window(w).unwrap(), 1);

    vd.move_window_to_desktop(w, current_desktop).unwrap();
    assert_eq!(vd.get_desktop_by_window(w).unwrap(), current_desktop);
    assert!(vd.is_window_on_current_virtual_desktop(w).unwrap());
}

#[test]
fn test_pin_window() {
    let mut vd = make(&["One", "Two"], 1);
    let w = 42;
    assert!(vd.host.add_window(w, 1));

    assert!(vd.is_window_on_current_virtual_desktop(w).unwrap());
    assert!(!vd.is_pinned_window(w).unwrap());

    let current_desktop = vd.get_current_desktop().unwrap();

    // Pin the window, switch away, and it is still pinned and visible.
    vd.pin_window(w).unwrap();
    vd.go_to_desktop(0).unwrap();
    assert!(vd.is_pinned_window(w).unwrap());
    assert!(vd.is_window_on_current_virtual_desktop(w).unwrap());

    // Back on its own desktop, unpinned, it is visible only there.
    vd.go_to_desktop(current_desktop).unwrap();
    vd.unpin_window(w).unwrap();
    assert!(!vd.is_pinned_window(w).unwrap());
    assert!(vd.is_window_on_desktop(w, current_desktop).unwrap());
    assert!(!vd.is_window_on_desktop(w, 0).unwrap());
}

#[test]
fn test_sixteen_counts_agree() {
    let mut vd = make(&["One", "Two"], 0);
    let first = vd.get_desktop_count().unwrap();
    for _ in 0..16 {
        assert_eq!(vd.get_desktop_count().unwrap(), first);
    }
    assert_eq!(first, 2);
}

#[test]
fn test_desktop_identifiers() {
    let mut vd = make(&["One", "Two"], 0);
    let ids = vd.get_desktops().unwrap();
    assert_eq!(ids.len(), 2);
    assert_eq!(vd.get_index_by_desktop(ids[0]).unwrap(), 0);
    assert_eq!(vd.get_index_by_desktop(ids[1]).unwrap(), 1);
    let stale = vdesk::host::DesktopID { value: 777 };
    assert_eq!(vd.get_index_by_desktop(stale).unwrap_err(), Error::DesktopNotFound);
}
