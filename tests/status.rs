use dbus::dispatch_status::{self, DBusDispatchStatus};
use dbus::handler_result::{self, DBusHandlerResult};
use dbus::timeout::{self, DBusTimeout};

#[test]
fn dispatch_known_ordinals() {
    assert_eq!(dispatch_status::from_ord(0), DBusDispatchStatus::DataRemains);
    assert_eq!(dispatch_status::from_ord(1), DBusDispatchStatus::Complete);
    assert_eq!(dispatch_status::from_ord(2), DBusDispatchStatus::NeedMemory);
}

#[test]
fn dispatch_unknown_ordinals_are_kept() {
    for n in [-1, 3, 4, 100, i32::MIN, i32::MAX, -2_000_000, 1 << 20] {
        assert_eq!(dispatch_status::from_ord(n), DBusDispatchStatus::Unknown(n));
    }
    for n in -1000..1000 {
        let expected = match n {
            0 => DBusDispatchStatus::DataRemains,
            1 => DBusDispatchStatus::Complete,
            2 => DBusDispatchStatus::NeedMemory,
            _ => DBusDispatchStatus::Unknown(n),
        };
        assert_eq!(dispatch_status::from_ord(n), expected);
    }
}

#[test]
fn handler_result_ordinals() {
    assert_eq!(handler_result::from_ord(0), DBusHandlerResult::Handled);
    assert_eq!(handler_result::from_ord(1), DBusHandlerResult::NotYetHandled);
    assert_eq!(handler_result::from_ord(2), DBusHandlerResult::NeedMemory);
    assert_eq!(handler_result::from_ord(-7), DBusHandlerResult::Unknown(-7));
    assert_eq!(handler_result::from_ord(3), DBusHandlerResult::Unknown(3));
}

#[test]
fn timeout_constructors() {
    assert_eq!(timeout::default(), DBusTimeout::Default);
    assert_eq!(timeout::infinite(), DBusTimeout::Infinite);
    assert_eq!(timeout::millis(0), DBusTimeout::Milliseconds(0));
    assert_eq!(timeout::millis(1500), DBusTimeout::Milliseconds(1500));
    assert_eq!(timeout::millis(0x7FFFFFFE), DBusTimeout::Milliseconds(0x7FFFFFFE));
}

#[test]
fn timeout_range_check() {
    assert!(timeout::is_valid_millis(0));
    assert!(timeout::is_valid_millis(0x7FFFFFFE));
    assert!(!timeout::is_valid_millis(0x7FFFFFFF));
    assert!(!timeout::is_valid_millis(-1));
    assert!(!timeout::is_valid_millis(i32::MIN));
}
