use swiftbridge::appkit::app_modify::{set_location, set_title};
use swiftbridge::appkit::app_run::{SwiftApp, SwiftWindow};
use swiftbridge::boundary::{Bridge, Call, CallKind};
use swiftbridge::error::{
    clear_last_error, confirm, confirmed, explain, explained, take_last_error, BridgeError,
    Operation, Violation,
};

fn bits(value: f64) -> u64 {
    value.to_bits()
}

fn clear_calls(bridge: &mut Bridge) {
    bridge.trace.clear();
}

#[test]
fn initial_last_error_is_none() {
    let mut bridge = Bridge::new();
    clear_last_error(&mut bridge);
    assert!(take_last_error(&mut bridge).is_none());
    assert!(bridge.calls().is_empty());
}

#[test]
fn take_last_error_reads_then_clears() {
    let mut bridge = Bridge::new();
    bridge.run(0, true);
    assert!(bridge.has_error());
    assert_eq!(take_last_error(&mut bridge), Some("null app pointer".to_string()));
    assert_eq!(take_last_error(&mut bridge), None);
    assert!(!bridge.has_error());
}

#[test]
fn second_failure_replaces_the_first() {
    let mut bridge = Bridge::new();
    bridge.run(0, true);
    bridge.set_location(0, 0, 0, true);
    assert_eq!(take_last_error(&mut bridge), Some("null window pointer".to_string()));
    assert_eq!(take_last_error(&mut bridge), None);
}

#[test]
fn clear_last_error_resets_the_slot() {
    let mut bridge = Bridge::new();
    bridge.run(0, true);
    clear_last_error(&mut bridge);
    assert!(!bridge.has_error());
    assert_eq!(take_last_error(&mut bridge), None);
}

#[test]
fn last_error_reads_without_clearing() {
    let mut bridge = Bridge::new();
    bridge.run(0, false);
    assert_eq!(bridge.last_error(), Some("must be called on the main thread".to_string()));
    assert_eq!(bridge.last_error(), Some("must be called on the main thread".to_string()));
}

#[test]
fn success_does_not_reset_a_stale_error() {
    let mut bridge = Bridge::new();
    bridge.run(0, true);
    let app = bridge.create_app(true);
    assert_ne!(app, 0);
    assert_eq!(take_last_error(&mut bridge), Some("null app pointer".to_string()));
}

#[test]
fn create_app_on_main_thread_succeeds() {
    let mut bridge = Bridge::new();
    let app = SwiftApp::new(&mut bridge, true).unwrap();
    assert_eq!(app.as_ptr(), 1);
    assert!(!bridge.has_error());
    assert_eq!(bridge.calls(), &vec![Call::plain(CallKind::CreateApp, 0)]);
}

#[test]
fn create_app_returns_the_shared_object() {
    let mut bridge = Bridge::new();
    let first = SwiftApp::new(&mut bridge, true).unwrap();
    let second = SwiftApp::new(&mut bridge, true).unwrap();
    assert_eq!(first.as_ptr(), second.as_ptr());
    assert_eq!(bridge.next_handle, 2);
}

#[test]
fn create_app_off_main_thread_fails() {
    let mut bridge = Bridge::new();
    clear_last_error(&mut bridge);
    let error = SwiftApp::new(&mut bridge, false).unwrap_err();
    assert!(matches!(error, BridgeError::Native(_)));
    assert!(error.message().contains("main thread"));
    assert!(!bridge.has_error());
    assert_eq!(bridge.app, 0);
}

#[test]
fn raw_create_app_off_main_thread_returns_null_and_records() {
    let mut bridge = Bridge::new();
    assert_eq!(bridge.create_app(false), 0);
    let message = take_last_error(&mut bridge).unwrap();
    assert!(message.contains("main thread"));
}

#[test]
fn create_app_without_addresses_fails() {
    let mut bridge = Bridge::new();
    bridge.next_handle = usize::MAX;
    let error = SwiftApp::new(&mut bridge, true).unwrap_err();
    assert_eq!(error.message(), "native object could not be created");
}

#[test]
fn run_on_main_thread_is_dispatched() {
    let mut bridge = Bridge::new();
    let app = SwiftApp::new(&mut bridge, true).unwrap();
    app.run(&mut bridge, true);
    assert!(!bridge.has_error());
    assert_eq!(bridge.calls()[1], Call::plain(CallKind::Run, app.as_ptr()));
}

#[test]
fn run_off_main_thread_returns_with_error() {
    let mut bridge = Bridge::new();
    let app = SwiftApp::new(&mut bridge, true).unwrap();
    app.run(&mut bridge, false);
    assert!(take_last_error(&mut bridge).unwrap().contains("main thread"));
}

#[test]
fn run_with_null_reports_null_app_pointer() {
    let mut bridge = Bridge::new();
    let message = SwiftApp::run_with_null_for_test(&mut bridge, true)
        .unwrap_or_else(|| "expected error".to_string());
    assert!(message.contains("null app pointer"));
    assert!(!bridge.has_error());
}

#[test]
fn run_with_null_off_main_thread_reports_the_thread() {
    let mut bridge = Bridge::new();
    let message = SwiftApp::run_with_null_for_test(&mut bridge, false).unwrap();
    assert!(message.contains("main thread"));
}

#[test]
fn window_lifecycle_and_modification() {
    let mut bridge = Bridge::new();
    let window = SwiftWindow::new(
        &mut bridge,
        true,
        bits(300.0),
        bits(300.0),
        bits(300.0),
        bits(200.0),
        "Rust bridge tests",
    )
    .unwrap();
    assert_ne!(window.as_ptr(), 0);
    assert!(set_title(&mut bridge, true, window.as_ptr(), "Updated title").is_ok());
    assert!(set_location(&mut bridge, true, window.as_ptr(), bits(10.0), bits(10.0)).is_ok());
    assert!(!bridge.has_error());

    clear_last_error(&mut bridge);
    let error = set_title(&mut bridge, true, 0, "x").unwrap_err();
    assert!(error.message().contains("null window pointer"));

    clear_last_error(&mut bridge);
    let error = set_location(&mut bridge, true, 0, bits(0.0), bits(0.0)).unwrap_err();
    assert!(error.message().contains("null window pointer"));

    let message = SwiftApp::run_with_null_for_test(&mut bridge, true).unwrap();
    assert!(message.contains("null app pointer"));
}

#[test]
fn window_title_with_terminator_is_refused_locally() {
    let mut bridge = Bridge::new();
    let error =
        SwiftWindow::new(&mut bridge, true, 0, 0, bits(1.0), bits(1.0), "bad\0title").unwrap_err();
    assert!(matches!(error, BridgeError::EmbeddedNul(Operation::CreateWindow)));
    assert_eq!(error.message(), "Window title contained NUL");
    assert!(bridge.calls().is_empty());
    assert!(!bridge.has_error());
    assert_eq!(bridge.next_handle, 1);
}

#[test]
fn set_title_with_terminator_is_refused_locally() {
    let mut bridge = Bridge::new();
    let window = SwiftWindow::new(&mut bridge, true, 0, 0, 0, 0, "w").unwrap();
    clear_calls(&mut bridge);
    let error = set_title(&mut bridge, true, window.as_ptr(), "\0").unwrap_err();
    assert!(matches!(error, BridgeError::EmbeddedNul(Operation::SetTitle)));
    assert_eq!(error.message(), "Title contained NUL");
    assert!(bridge.calls().is_empty());
    assert!(!bridge.has_error());
}

#[test]
fn set_title_with_terminator_keeps_a_stale_error() {
    let mut bridge = Bridge::new();
    bridge.run(0, true);
    assert!(set_title(&mut bridge, false, 0, "a\0").is_err());
    assert_eq!(take_last_error(&mut bridge), Some("null app pointer".to_string()));
}

#[test]
fn create_window_off_main_thread_fails() {
    let mut bridge = Bridge::new();
    let error = SwiftWindow::new(&mut bridge, false, 0, 0, 0, 0, "w").unwrap_err();
    assert!(matches!(error, BridgeError::Native(_)));
    assert!(error.message().contains("main thread"));
    assert_eq!(bridge.next_handle, 1);
}

#[test]
fn create_window_without_addresses_fails() {
    let mut bridge = Bridge::new();
    bridge.next_handle = usize::MAX;
    let error = SwiftWindow::new(&mut bridge, true, 0, 0, 0, 0, "w").unwrap_err();
    assert_eq!(error.message(), "native object could not be created");
    assert_eq!(bridge.next_handle, usize::MAX);
}

#[test]
fn windows_get_fresh_handles() {
    let mut bridge = Bridge::new();
    let first = SwiftWindow::new(&mut bridge, true, 0, 0, 0, 0, "a").unwrap();
    let second = SwiftWindow::new(&mut bridge, true, 0, 0, 0, 0, "b").unwrap();
    assert_eq!(first.as_ptr(), 1);
    assert_eq!(second.as_ptr(), 2);
}

#[test]
fn set_title_off_main_thread_fails() {
    let mut bridge = Bridge::new();
    let window = SwiftWindow::new(&mut bridge, true, 0, 0, 0, 0, "w").unwrap();
    let error = set_title(&mut bridge, false, window.as_ptr(), "t").unwrap_err();
    assert!(error.message().contains("main thread"));
    let error = set_location(&mut bridge, false, window.as_ptr(), 0, 0).unwrap_err();
    assert!(error.message().contains("main thread"));
}

#[test]
fn set_title_reports_a_stale_error() {
    let mut bridge = Bridge::new();
    let window = SwiftWindow::new(&mut bridge, true, 0, 0, 0, 0, "w").unwrap();
    bridge.run(0, true);
    let error = set_title(&mut bridge, true, window.as_ptr(), "t").unwrap_err();
    assert_eq!(error.message(), "null app pointer");
    assert!(set_title(&mut bridge, true, window.as_ptr(), "t").is_ok());
}

#[test]
fn release_twice_reaches_the_native_side_once() {
    let mut bridge = Bridge::new();
    let mut window = SwiftWindow::new(&mut bridge, true, 0, 0, 0, 0, "w").unwrap();
    let handle = window.as_ptr();
    window.release(&mut bridge, true);
    assert_eq!(window.as_ptr(), 0);
    window.release(&mut bridge, true);
    assert_eq!(window.as_ptr(), 0);
    let releases: Vec<&Call> =
        bridge.calls().iter().filter(|c| c.kind == CallKind::ReleaseWindow).collect();
    assert_eq!(releases, vec![&Call::plain(CallKind::ReleaseWindow, handle)]);
    assert!(!bridge.has_error());
}

#[test]
fn release_off_main_thread_records_and_forgets() {
    let mut bridge = Bridge::new();
    let mut window = SwiftWindow::new(&mut bridge, true, 0, 0, 0, 0, "w").unwrap();
    window.release(&mut bridge, false);
    assert_eq!(window.as_ptr(), 0);
    assert!(take_last_error(&mut bridge).unwrap().contains("main thread"));
}

#[test]
fn raw_release_of_null_is_a_no_op() {
    let mut bridge = Bridge::new();
    bridge.release_window(0, true);
    assert!(!bridge.has_error());
}

#[test]
fn explain_names_the_operation_when_the_slot_is_empty() {
    let mut bridge = Bridge::new();
    let error = explain(&mut bridge, Operation::CreateApp);
    assert!(matches!(error, BridgeError::Unexplained(Operation::CreateApp)));
    assert_eq!(error.message(), "swift_appkit_create_app failed");
    bridge.run(0, true);
    let error = explain(&mut bridge, Operation::CreateApp);
    assert_eq!(error.message(), "null app pointer");
    assert!(!bridge.has_error());
}

#[test]
fn confirm_drains_the_slot() {
    let mut bridge = Bridge::new();
    assert!(confirm(&mut bridge).is_ok());
    bridge.run(0, true);
    assert_eq!(confirm(&mut bridge).unwrap_err().message(), "null app pointer");
    assert!(confirm(&mut bridge).is_ok());
}

#[test]
fn explained_and_confirmed_from_plain_values() {
    assert_eq!(explained(Some("boom".to_string()), Operation::ScreenArray).message(), "boom");
    assert_eq!(
        explained(None, Operation::ScreenArray).message(),
        "swift_nsscreen_get_screen_array failed"
    );
    assert!(confirmed(None).is_ok());
    assert_eq!(confirmed(Some("boom".to_string())).unwrap_err().message(), "boom");
}

#[test]
fn calls_are_traced_in_order() {
    let mut bridge = Bridge::new();
    let app = SwiftApp::new(&mut bridge, true).unwrap();
    let mut window =
        SwiftWindow::new(&mut bridge, true, bits(1.0), bits(2.0), bits(3.0), bits(4.0), "w")
            .unwrap();
    let handle = window.as_ptr();
    set_title(&mut bridge, true, handle, "t").unwrap();
    set_location(&mut bridge, false, handle, bits(-5.5), bits(0.0)).unwrap_err();
    window.release(&mut bridge, true);
    app.run(&mut bridge, true);
    assert_eq!(
        bridge.calls(),
        &vec![
            Call::plain(CallKind::CreateApp, 0),
            Call {
                kind: CallKind::CreateWindow,
                handle: 0,
                numbers: vec![bits(1.0), bits(2.0), bits(3.0), bits(4.0)],
                text: vec![119, 0],
            },
            Call { kind: CallKind::SetTitle, handle, numbers: vec![], text: vec![116, 0] },
            Call {
                kind: CallKind::SetLocation,
                handle,
                numbers: vec![bits(-5.5), bits(0.0)],
                text: vec![],
            },
            Call::plain(CallKind::ReleaseWindow, handle),
            Call::plain(CallKind::Run, app.as_ptr()),
        ]
    );
}

#[test]
fn title_crosses_as_terminated_utf8() {
    let mut bridge = Bridge::new();
    let window = SwiftWindow::new(&mut bridge, true, 0, 0, 0, 0, "Rust bridge tests").unwrap();
    assert_eq!(bridge.calls()[0].text, b"Rust bridge tests\0".to_vec());
    set_title(&mut bridge, true, window.as_ptr(), "\u{e9}t\u{e9}").unwrap();
    assert_eq!(bridge.calls()[1].text, vec![0xC3, 0xA9, 116, 0xC3, 0xA9, 0]);
    set_title(&mut bridge, true, 0, "x").unwrap_err();
    assert_eq!(bridge.calls()[2].text, vec![120, 0]);
    assert_eq!(bridge.calls()[2].handle, 0);
}

#[test]
fn every_error_has_its_message() {
    assert_eq!(
        BridgeError::Unexplained(Operation::CreateWindow).message(),
        "swift_appkit_create_window failed"
    );
    assert_eq!(
        BridgeError::Unexplained(Operation::SetTitle).message(),
        "swift_appkit_set_title failed"
    );
    assert_eq!(BridgeError::EmbeddedNul(Operation::CreateApp).message(), "Title contained NUL");
    assert_eq!(BridgeError::Native("x".to_string()).message(), "x");
    assert_eq!(
        BridgeError::Protocol(Violation::NegativeCount).message(),
        "swift_nsscreen_get_screen_array returned negative count"
    );
    assert_eq!(
        BridgeError::Protocol(Violation::NullItems).message(),
        "swift_nsscreen_get_screen_array returned null items with count>0"
    );
}
