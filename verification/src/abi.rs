//! Interchange records for the binary boundary: plain-value mirrors of the
//! core types in the layout the host expects, the decoding of wire-level
//! event records, and the explicit tone configuration value. The pointer
//! handling of the boundary itself lives outside the core; everything here
//! works on plain values.

use crate::monitor::{
    event_valid, CaretEvent, CaretSnapshot, EventKind, FieldKind, InputModality, SelectionFacet,
};
use vstd::prelude::*;

verus! {

/// A settled snapshot in the layout handed across the binary boundary.
/// `primary` is reserved and always 0.
#[derive(Clone, Copy, PartialEq, Eq, Structural, Debug)]
pub struct MTCaretSnapshot {
    pub primary: u32,
    pub caret: u32,
    pub text_len: u32,
    pub timestamp_ms: u64,
    pub blocked: bool,
    pub ime_active: bool,
}

/// The event kind a wire code decodes to; unknown codes fall back to
/// `Input`.
pub open spec fn kind_of_code(code: u32) -> EventKind {
    if code == 1 {
        EventKind::SelectionChange
    } else if code == 2 {
        EventKind::KeyDown
    } else {
        EventKind::Input
    }
}

/// The event a wire-level record decodes to: a collapsed selection at the
/// caret, keyboard modality, text-area field, no composition in progress,
/// not blocked, no classifier.
pub open spec fn wire_event(kind_code: u32, timestamp_ms: u64, caret: u32, text_len: u32) -> CaretEvent {
    CaretEvent {
        kind: kind_of_code(kind_code),
        timestamp_ms,
        caret,
        text_len,
        selection: SelectionFacet { collapsed: true, start: caret, end: caret },
        input_modality: InputModality::Keyboard,
        field_kind: FieldKind::TextArea,
        ime_active: false,
        blocked: false,
        input_type: None,
    }
}

/// Decode a wire code into an event kind.
pub fn event_kind_from_code(code: u32) -> (k: EventKind)
    ensures
        k == kind_of_code(code),
{
    if code == 1 {
        EventKind::SelectionChange
    } else if code == 2 {
        EventKind::KeyDown
    } else {
        EventKind::Input
    }
}

/// Decode a wire-level event record into a [`CaretEvent`]. The result is
/// structurally valid exactly when the caret lies inside the text.
pub fn event_from_wire(kind_code: u32, timestamp_ms: u64, caret: u32, text_len: u32) -> (e:
    CaretEvent)
    ensures
        e == wire_event(kind_code, timestamp_ms, caret, text_len),
        event_valid(e) <==> caret <= text_len,
{
    CaretEvent {
        kind: event_kind_from_code(kind_code),
        timestamp_ms,
        caret,
        text_len,
        selection: SelectionFacet { collapsed: true, start: caret, end: caret },
        input_modality: InputModality::Keyboard,
        field_kind: FieldKind::TextArea,
        ime_active: false,
        blocked: false,
        input_type: None,
    }
}

/// Convert a settled snapshot into its boundary layout.
pub fn snapshot_to_abi(s: &CaretSnapshot) -> (r: MTCaretSnapshot)
    ensures
        r == (MTCaretSnapshot {
            primary: 0,
            caret: s.caret,
            text_len: s.text_len,
            timestamp_ms: s.timestamp_ms,
            blocked: s.blocked,
            ime_active: s.ime_active,
        }),
{
    MTCaretSnapshot {
        primary: 0,
        caret: s.caret,
        text_len: s.text_len,
        timestamp_ms: s.timestamp_ms,
        blocked: s.blocked,
        ime_active: s.ime_active,
    }
}

/// Tone configuration, owned by the caller and passed explicitly to
/// whichever operation needs it; the core keeps no ambient tone state.
#[derive(Debug)]
pub struct ToneConfig {
    pub enabled: bool,
    pub target: String,
}

impl ToneConfig {
    /// A tone configuration naming a target style.
    pub fn new(enabled: bool, target: String) -> (c: ToneConfig)
        ensures
            c.enabled == enabled,
            c.target@ == target@,
    {
        ToneConfig { enabled, target }
    }
}

} // verus!
