use dbus::connection::{teardown_step, HandleState, TeardownAction};
use dbus::error::{check_call, check_request_name, is_request_name_consistent, ErrorReport};
use dbus::session::get_dbus_session_address;

fn failed(name: &str, message: &str) -> ErrorReport {
    ErrorReport {
        set: true,
        name: Some(String::from(name)),
        message: Some(String::from(message)),
    }
}

#[test]
fn fresh_report_is_unset() {
    let r = ErrorReport::new_unset();
    assert!(!r.is_set());
    assert!(!r.check_safe());
    assert!(r.is_consistent());
    assert!(check_call(r).is_ok());
}

#[test]
fn failed_call_carries_name_and_message() {
    let r = failed("org.freedesktop.DBus.Error.NoServer", "Failed to connect");
    assert!(r.is_set());
    assert!(r.check_safe());
    let e = check_call(r).unwrap_err();
    assert_eq!(e.get_name(), "org.freedesktop.DBus.Error.NoServer");
    assert_eq!(e.get_message(), "Failed to connect");
}

#[test]
fn set_report_without_strings_is_inconsistent() {
    let r = ErrorReport { set: true, name: Some(String::from("x")), message: None };
    assert!(!r.is_consistent());
    let r = ErrorReport { set: true, name: None, message: None };
    assert!(!r.is_consistent());
}

#[test]
fn request_name_passes_reply_code() {
    assert_eq!(check_request_name(ErrorReport::new_unset(), 1).unwrap(), 1);
    assert_eq!(check_request_name(ErrorReport::new_unset(), 3).unwrap(), 3);
}

#[test]
fn request_name_error_wins() {
    let r = failed("org.freedesktop.DBus.Error.AccessDenied", "not allowed");
    let e = check_request_name(r, -1).unwrap_err();
    assert_eq!(e.get_name(), "org.freedesktop.DBus.Error.AccessDenied");
    assert_eq!(e.get_message(), "not allowed");
}

#[test]
fn request_name_consistency() {
    assert!(is_request_name_consistent(&ErrorReport::new_unset(), 1));
    assert!(!is_request_name_consistent(&ErrorReport::new_unset(), 0));
    assert!(!is_request_name_consistent(&ErrorReport::new_unset(), -1));
    assert!(is_request_name_consistent(&failed("a", "b"), -1));
}

#[test]
fn teardown_closes_then_unrefs_once() {
    let mut state = HandleState::Live;
    let mut actions = Vec::new();
    loop {
        let (next, action) = teardown_step(state);
        state = next;
        match action {
            Some(a) => actions.push(a),
            None => break,
        }
    }
    assert_eq!(actions, vec![TeardownAction::Close, TeardownAction::Unref]);
    assert_eq!(state, HandleState::Released);
    assert_eq!(teardown_step(HandleState::Released), (HandleState::Released, None));
}

#[test]
fn session_address_first_match() {
    let env = vec![
        (String::from("HOME"), String::from("/root")),
        (String::from("DBUS_SESSION_BUS_ADDRESS"), String::from("unix:path=/run/bus")),
        (String::from("DBUS_SESSION_BUS_ADDRESS"), String::from("unix:path=/other")),
    ];
    assert_eq!(get_dbus_session_address(&env), Some(String::from("unix:path=/run/bus")));
}

#[test]
fn session_address_missing() {
    let env = vec![(String::from("DBUS_SYSTEM_BUS_ADDRESS"), String::from("unix:path=/x"))];
    assert_eq!(get_dbus_session_address(&env), None);
    assert_eq!(get_dbus_session_address(&Vec::new()), None);
}
