use kindle_button_mapper::events::{asks_for_version, config_path_from_args, route_event, EventKind, InputAction};
use kindle_button_mapper::input::{is_event_node, is_wanted_device, DeviceTarget, InputHandler};

#[test]
fn path_comes_before_name() {
    let h = InputHandler::new(Some("pad".to_string()), Some("/dev/input/event3".to_string()), true);
    assert!(h.grab());
    match h.device_target().unwrap() {
        DeviceTarget::Path(p) => assert_eq!(p, "/dev/input/event3"),
        DeviceTarget::Name(_) => panic!("expected a path"),
    }
}

#[test]
fn name_when_no_path() {
    let h = InputHandler::new(Some("pad".to_string()), None, false);
    assert!(!h.grab());
    match h.device_target().unwrap() {
        DeviceTarget::Name(n) => assert_eq!(n, "pad"),
        DeviceTarget::Path(_) => panic!("expected a name"),
    }
}

#[test]
fn nothing_to_open() {
    let h = InputHandler::new(None, None, false);
    assert_eq!(h.device_target().unwrap_err(), "No device name or path specified");
}

#[test]
fn event_nodes_by_file_name() {
    assert!(is_event_node("event0"));
    assert!(is_event_node("event"));
    assert!(!is_event_node("mouse0"));
    assert!(!is_event_node("even"));
    assert!(!is_event_node("by-id"));
}

#[test]
fn devices_by_reported_name() {
    assert!(is_wanted_device(Some("Gamepad"), "Gamepad"));
    assert!(!is_wanted_device(Some("Gamepad"), "gamepad"));
    assert!(is_wanted_device(None, ""));
    assert!(!is_wanted_device(None, "Gamepad"));
}

#[test]
fn key_events_by_value() {
    assert_eq!(route_event(EventKind::Key, 28, 1), InputAction::Press(28));
    assert_eq!(route_event(EventKind::Key, 28, 2), InputAction::Held(28));
    assert_eq!(route_event(EventKind::Key, 28, 0), InputAction::Release(28));
    assert_eq!(route_event(EventKind::Key, 28, 3), InputAction::Ignore);
    assert_eq!(route_event(EventKind::Key, 28, -1), InputAction::Ignore);
}

#[test]
fn axis_events_by_axis() {
    assert_eq!(route_event(EventKind::AbsAxis, 16, -1), InputAction::Dpad(16, -1));
    assert_eq!(route_event(EventKind::AbsAxis, 17, 1), InputAction::Dpad(17, 1));
    assert_eq!(route_event(EventKind::AbsAxis, 9, 255), InputAction::Trigger(9, 255));
    assert_eq!(route_event(EventKind::AbsAxis, 10, 0), InputAction::Trigger(10, 0));
    assert_eq!(route_event(EventKind::AbsAxis, 0, 100), InputAction::Ignore);
    assert_eq!(route_event(EventKind::Other, 16, 1), InputAction::Ignore);
}

#[test]
fn config_path_argument() {
    let args = vec!["kbm".to_string()];
    assert_eq!(config_path_from_args(&args), "config.ini");
    let args = vec!["kbm".to_string(), "/etc/kbm.ini".to_string(), "extra".to_string()];
    assert_eq!(config_path_from_args(&args), "/etc/kbm.ini");
    assert_eq!(config_path_from_args(&vec![]), "config.ini");
}

#[test]
fn version_flags() {
    assert!(asks_for_version(&vec!["kbm".to_string(), "--version".to_string()]));
    assert!(asks_for_version(&vec!["kbm".to_string(), "cfg.ini".to_string(), "-V".to_string()]));
    assert!(!asks_for_version(&vec!["kbm".to_string(), "-v".to_string()]));
    assert!(!asks_for_version(&vec!["kbm".to_string()]));
}

use kindle_button_mapper::events::{next_link_step, LinkEvent};
use kindle_button_mapper::input::is_awaited_node;

#[test]
fn connect_script_then_events() {
    let on_connect = Some("/c.sh".to_string());
    let on_disconnect = Some("/d.sh".to_string());
    let step = next_link_step(&on_connect, &on_disconnect, true, LinkEvent::Opened);
    assert_eq!(step.run_script.as_deref(), Some("/c.sh"));
    assert!(step.read_events);
    assert_eq!(step.reconnect_after_ms, None);
    let step = next_link_step(&None, &on_disconnect, true, LinkEvent::Opened);
    assert_eq!(step.run_script, None);
    assert!(step.read_events);
}

#[test]
fn disconnect_script_then_reconnect() {
    let on_connect = Some("/c.sh".to_string());
    let on_disconnect = Some("/d.sh".to_string());
    let step = next_link_step(&on_connect, &on_disconnect, true, LinkEvent::EventsFailed);
    assert_eq!(step.run_script.as_deref(), Some("/d.sh"));
    assert!(!step.read_events);
    assert_eq!(step.reconnect_after_ms, Some(1000));
    let step = next_link_step(&on_connect, &on_disconnect, false, LinkEvent::EventsFailed);
    assert_eq!(step.run_script.as_deref(), Some("/d.sh"));
    assert_eq!(step.reconnect_after_ms, None);
}

#[test]
fn failed_open_or_stop_runs_no_script() {
    let on_connect = Some("/c.sh".to_string());
    let on_disconnect = Some("/d.sh".to_string());
    let step = next_link_step(&on_connect, &on_disconnect, true, LinkEvent::OpenFailed);
    assert_eq!(step.run_script, None);
    assert!(!step.read_events);
    assert_eq!(step.reconnect_after_ms, Some(1000));
    let step = next_link_step(&on_connect, &on_disconnect, false, LinkEvent::EventsStopped);
    assert_eq!(step.run_script, None);
    assert_eq!(step.reconnect_after_ms, None);
    let step = next_link_step(&on_connect, &on_disconnect, false, LinkEvent::OpenFailed);
    assert_eq!(step.reconnect_after_ms, None);
}

#[test]
fn awaited_node_by_file_name() {
    assert!(is_awaited_node("event4", "event4"));
    assert!(!is_awaited_node("event40", "event4"));
    assert!(!is_awaited_node("Event4", "event4"));
}
