use mindtype_core::abi::{event_from_wire, event_kind_from_code, snapshot_to_abi, MTCaretSnapshot, ToneConfig};
use mindtype_core::core_version;
use mindtype_core::monitor::{CaretMonitor, CaretSnapshot, EventKind};

#[test]
fn version_string_is_stable() {
    assert_eq!(core_version(), "0.4.0-alpha.0");
}

#[test]
fn wire_codes_decode_to_event_kinds() {
    assert_eq!(event_kind_from_code(0), EventKind::Input);
    assert_eq!(event_kind_from_code(1), EventKind::SelectionChange);
    assert_eq!(event_kind_from_code(2), EventKind::KeyDown);
    // Unknown codes fall back to Input.
    assert_eq!(event_kind_from_code(7), EventKind::Input);
}

#[test]
fn wire_event_is_a_collapsed_selection_at_the_caret() {
    let event = event_from_wire(0, 42, 5, 10);
    assert_eq!(event.kind, EventKind::Input);
    assert_eq!(event.timestamp_ms, 42);
    assert_eq!(event.caret, 5);
    assert_eq!(event.text_len, 10);
    assert!(event.selection.collapsed);
    assert_eq!(event.selection.start, 5);
    assert_eq!(event.selection.end, 5);
    assert!(!event.ime_active);
    assert!(!event.blocked);
    assert_eq!(event.input_type, None);
}

#[test]
fn wire_event_with_caret_past_text_end_is_rejected_by_the_monitor() {
    let mut monitor = CaretMonitor::new();
    assert!(!monitor.update(event_from_wire(0, 42, 11, 10)));
    assert!(monitor.update(event_from_wire(0, 42, 10, 10)));
}

#[test]
fn snapshot_converts_to_its_boundary_layout() {
    let snapshot = CaretSnapshot {
        caret: 3,
        text_len: 9,
        timestamp_ms: 77,
        blocked: true,
        ime_active: false,
    };
    let abi = snapshot_to_abi(&snapshot);
    assert_eq!(
        abi,
        MTCaretSnapshot {
            primary: 0,
            caret: 3,
            text_len: 9,
            timestamp_ms: 77,
            blocked: true,
            ime_active: false,
        }
    );
}

#[test]
fn tone_config_keeps_what_it_was_given() {
    let tone = ToneConfig::new(true, "friendly".to_string());
    assert!(tone.enabled);
    assert_eq!(tone.target, "friendly");
}
