//! Caret monitor: a stateful aggregator that consumes a stream of caret and
//! input events, debounces them against the host-supplied flush clock, and
//! queues coalesced snapshots for the host to drain.
//!
//! The monitor keeps a single pending slot holding the latest accepted event
//! (last write wins), so a burst of events coalesces into one snapshot. All
//! timing decisions use the `now_ms` value the host passes to [`flush`],
//! never a wall clock, so behavior is fully deterministic.
//!
//! [`flush`]: CaretMonitor::flush

use vstd::prelude::*;

verus! {

/// Default quiet period, in milliseconds, that an `Input` event must sit
/// un-followed by further accepted events before `flush` materializes it.
pub const DEBOUNCE_MS: u64 = 75;

/// How an editing occurrence was reported by the host.
#[derive(Clone, Copy, PartialEq, Eq, Structural, Debug)]
pub enum EventKind {
    Input,
    SelectionChange,
    KeyDown,
}

/// The input source of an event.
#[derive(Clone, Copy, PartialEq, Eq, Structural, Debug)]
pub enum InputModality {
    Keyboard,
}

/// The kind of editing surface an event came from.
#[derive(Clone, Copy, PartialEq, Eq, Structural, Debug)]
pub enum FieldKind {
    TextArea,
}

/// The selection at event time; a collapsed selection sits at the caret.
#[derive(Clone, Copy, PartialEq, Eq, Structural, Debug)]
pub struct SelectionFacet {
    pub collapsed: bool,
    pub start: u32,
    pub end: u32,
}

/// One reported editing occurrence. Offsets are in the same text units as
/// `text_len`; `timestamp_ms` is the host's clock value at event time and
/// is not assumed strictly increasing across events.
#[derive(Debug)]
pub struct CaretEvent {
    pub kind: EventKind,
    pub timestamp_ms: u64,
    pub caret: u32,
    pub text_len: u32,
    pub selection: SelectionFacet,
    pub input_modality: InputModality,
    pub field_kind: FieldKind,
    pub ime_active: bool,
    pub blocked: bool,
    pub input_type: Option<String>,
}

/// Structural validity of an event: consistent selection bounds, offsets
/// inside the text, and a collapsed selection sitting at the caret.
pub open spec fn event_valid(e: CaretEvent) -> bool {
    &&& e.selection.start <= e.selection.end
    &&& e.selection.end <= e.text_len
    &&& e.caret <= e.text_len
    &&& (e.selection.collapsed ==> e.selection.start == e.caret && e.selection.end == e.caret)
}

/// A coalesced, debounced summary of the latest settled event.
#[derive(Clone, Copy, PartialEq, Eq, Structural, Debug)]
pub struct CaretSnapshot {
    pub caret: u32,
    pub text_len: u32,
    pub timestamp_ms: u64,
    pub blocked: bool,
    pub ime_active: bool,
}

/// The snapshot that a settled event materializes into.
pub open spec fn snapshot_of(e: CaretEvent) -> CaretSnapshot {
    CaretSnapshot {
        caret: e.caret,
        text_len: e.text_len,
        timestamp_ms: e.timestamp_ms,
        blocked: e.blocked,
        ime_active: e.ime_active,
    }
}

/// Debounce policy: the quiet window for `Input` events, and whether a
/// boundary event (`SelectionChange` or `KeyDown`) settles on the very
/// next flush instead of waiting out the window.
#[derive(Clone, Copy, PartialEq, Eq, Structural, Debug)]
pub struct MonitorConfig {
    pub debounce_ms: u64,
    pub boundary_immediate: bool,
}

impl MonitorConfig {
    /// The quiet window must be positive, so a flush at or before the last
    /// event's timestamp never counts as settled.
    pub open spec fn wf(self) -> bool {
        self.debounce_ms >= 1
    }
}

impl Default for MonitorConfig {
    /// The default policy: a 75 ms quiet window, boundary events immediate.
    fn default() -> (c: MonitorConfig)
        ensures
            c == (MonitorConfig { debounce_ms: DEBOUNCE_MS, boundary_immediate: true }),
            c.wf(),
    {
        MonitorConfig { debounce_ms: DEBOUNCE_MS, boundary_immediate: true }
    }
}

/// Whether an event kind counts as a boundary action for the debounce
/// policy.
pub open spec fn boundary_kind(k: EventKind) -> bool {
    k is SelectionChange || k is KeyDown
}

/// The flush deadline an accepted event asks for: its timestamp plus the
/// quiet window, saturating at the top of the clock.
pub open spec fn event_deadline(e: CaretEvent, debounce_ms: u64) -> u64 {
    if e.timestamp_ms + debounce_ms > u64::MAX {
        u64::MAX
    } else {
        (e.timestamp_ms + debounce_ms) as u64
    }
}

/// The abstract state of a monitor: its policy, the pending slot, the
/// armed settlement conditions, and the snapshot queue (oldest first).
#[verifier::ext_equal]
pub ghost struct MonitorView {
    pub config: MonitorConfig,
    pub pending: Option<CaretEvent>,
    pub settle_now: bool,
    pub settle_deadline: u64,
    pub queue: Seq<CaretSnapshot>,
}

impl MonitorView {
    /// Well-formedness: the policy itself is well-formed.
    pub open spec fn wf(self) -> bool {
        self.config.wf()
    }

    /// Idle means no pending uncommitted activity.
    pub open spec fn idle(self) -> bool {
        self.pending is None
    }
}

/// The state of a fresh monitor under `config`: idle, with an empty queue.
pub open spec fn init_model(config: MonitorConfig) -> MonitorView {
    MonitorView {
        config,
        pending: None,
        settle_now: false,
        settle_deadline: 0,
        queue: Seq::empty(),
    }
}

/// Effect of `update`: an invalid event leaves the state exactly as it
/// was; a valid one becomes the pending event (last write wins). A boundary
/// event under the immediate policy arms `settle_now`; otherwise the
/// settle deadline becomes the event's own deadline, never moving backward
/// while the monitor stays pending, so a regressed timestamp cannot
/// shorten the quiet period already in force.
pub open spec fn update_model(m: MonitorView, e: CaretEvent) -> MonitorView {
    if !event_valid(e) {
        m
    } else {
        let d = event_deadline(e, m.config.debounce_ms);
        MonitorView {
            pending: Some(e),
            settle_now: m.config.boundary_immediate && boundary_kind(e.kind),
            settle_deadline: if m.pending is Some && m.settle_deadline > d {
                m.settle_deadline
            } else {
                d
            },
            ..m
        }
    }
}

/// Whether the pending state has settled at host time `now_ms`: something
/// is pending, and either an immediate-flush condition was armed or the
/// quiet window has elapsed.
pub open spec fn settled(m: MonitorView, now_ms: u64) -> bool {
    m.pending is Some && (m.settle_now || now_ms >= m.settle_deadline)
}

/// Effect of `flush`: when settled, a snapshot of the pending event joins
/// the back of the queue and the monitor returns to idle; otherwise a
/// no-op.
pub open spec fn flush_model(m: MonitorView, now_ms: u64) -> MonitorView {
    if settled(m, now_ms) {
        MonitorView {
            pending: None,
            settle_now: false,
            settle_deadline: 0,
            queue: m.queue.push(snapshot_of(m.pending->Some_0)),
            ..m
        }
    } else {
        m
    }
}

/// Number of snapshots `flush` enqueues at host time `now_ms`: 0 or 1.
pub open spec fn flush_count(m: MonitorView, now_ms: u64) -> int {
    if settled(m, now_ms) {
        1
    } else {
        0
    }
}

/// Effect of a full drain on the state: the queue empties, all else stays.
pub open spec fn drain_model(m: MonitorView) -> MonitorView {
    MonitorView { queue: Seq::empty(), ..m }
}

/// Check an event's structural validity.
pub fn event_is_valid(e: &CaretEvent) -> (ok: bool)
    ensures
        ok == event_valid(*e),
{
    e.selection.start <= e.selection.end && e.selection.end <= e.text_len && e.caret <= e.text_len
        && (!e.selection.collapsed || (e.selection.start == e.caret && e.selection.end == e.caret))
}

/// Whether an event kind is a boundary action.
fn is_boundary_kind(k: EventKind) -> (b: bool)
    ensures
        b == boundary_kind(k),
{
    match k {
        EventKind::Input => false,
        EventKind::SelectionChange => true,
        EventKind::KeyDown => true,
    }
}

/// Stateful aggregator over a stream of caret events. The host calls
/// [`update`] once per event, [`flush`] on its own cadence with the current
/// time, and [`drain_snapshots`] (or the bounded [`drain`]) to collect what
/// has settled. Never panics: malformed events are rejected by return
/// value.
///
/// [`update`]: CaretMonitor::update
/// [`flush`]: CaretMonitor::flush
/// [`drain_snapshots`]: CaretMonitor::drain_snapshots
/// [`drain`]: CaretMonitor::drain
pub struct CaretMonitor {
    config: MonitorConfig,
    pending: Option<CaretEvent>,
    settle_now: bool,
    settle_deadline: u64,
    queue: Vec<CaretSnapshot>,
}

impl View for CaretMonitor {
    type V = MonitorView;

    closed spec fn view(&self) -> MonitorView {
        MonitorView {
            config: self.config,
            pending: self.pending,
            settle_now: self.settle_now,
            settle_deadline: self.settle_deadline,
            queue: self.queue@,
        }
    }
}

impl CaretMonitor {
    /// A monitor under the default debounce policy.
    pub fn new() -> (m: CaretMonitor)
        ensures
            m@ == init_model(MonitorConfig { debounce_ms: DEBOUNCE_MS, boundary_immediate: true }),
            m@.wf(),
    {
        Self::with_config(MonitorConfig::default())
    }

    /// A monitor under an explicit debounce policy.
    pub fn with_config(config: MonitorConfig) -> (m: CaretMonitor)
        requires
            config.wf(),
        ensures
            m@ == init_model(config),
            m@.wf(),
    {
        let m = CaretMonitor {
            config,
            pending: None,
            settle_now: false,
            settle_deadline: 0,
            queue: Vec::new(),
        };
        proof {
            assert(m@ =~= init_model(config));
        }
        m
    }

    /// Accept or reject one event. A malformed event (inconsistent
    /// selection bounds, offsets past the text) is rejected with `false`
    /// and the monitor is left exactly as it was; a valid event becomes
    /// the pending event and the monitor is Pending.
    pub fn update(&mut self, event: CaretEvent) -> (accepted: bool)
        requires
            old(self)@.wf(),
        ensures
            accepted == event_valid(event),
            final(self)@ == update_model(old(self)@, event),
            !event_valid(event) ==> final(self)@ == old(self)@,
            final(self)@.wf(),
    {
        if !event_is_valid(&event) {
            return false;
        }
        let d: u64 = if event.timestamp_ms > u64::MAX - self.config.debounce_ms {
            u64::MAX
        } else {
            event.timestamp_ms + self.config.debounce_ms
        };
        self.settle_deadline = if self.pending.is_some() && self.settle_deadline > d {
            self.settle_deadline
        } else {
            d
        };
        self.settle_now = self.config.boundary_immediate && is_boundary_kind(event.kind);
        self.pending = Some(event);
        true
    }

    /// Evaluate settlement at host time `now_ms`. When the pending event
    /// has settled, synthesize its snapshot, append it to the queue, and
    /// return to Idle; the result is the number of snapshots newly
    /// enqueued (0 or 1). Safe at any cadence: before settlement it is a
    /// no-op returning 0.
    pub fn flush(&mut self, now_ms: u64) -> (count: usize)
        requires
            old(self)@.wf(),
        ensures
            count == flush_count(old(self)@, now_ms),
            final(self)@ == flush_model(old(self)@, now_ms),
            final(self)@.wf(),
    {
        if !self.pending.is_some() {
            return 0;
        }
        if !(self.settle_now || now_ms >= self.settle_deadline) {
            return 0;
        }
        let taken = self.pending.take();
        if let Some(e) = taken {
            let snap = CaretSnapshot {
                caret: e.caret,
                text_len: e.text_len,
                timestamp_ms: e.timestamp_ms,
                blocked: e.blocked,
                ime_active: e.ime_active,
            };
            self.queue.push(snap);
        }
        self.settle_now = false;
        self.settle_deadline = 0;
        1
    }

    /// Remove and return all queued snapshots, oldest first; the queue is
    /// empty afterwards. Safe to call on an empty queue.
    pub fn drain_snapshots(&mut self) -> (out: Vec<CaretSnapshot>)
        ensures
            out@ == old(self)@.queue,
            final(self)@ == drain_model(old(self)@),
    {
        let mut out: Vec<CaretSnapshot> = Vec::new();
        core::mem::swap(&mut out, &mut self.queue);
        proof {
            assert(self@ =~= drain_model(old(self)@));
        }
        out
    }

    /// Remove and return up to `max_count` queued snapshots, oldest first;
    /// any excess stays queued for the next drain.
    pub fn drain(&mut self, max_count: usize) -> (out: Vec<CaretSnapshot>)
        ensures
            out@.len() == if max_count as int <= old(self)@.queue.len() as int {
                max_count as int
            } else {
                old(self)@.queue.len() as int
            },
            out@ == old(self)@.queue.take(out@.len() as int),
            final(self)@.queue == old(self)@.queue.skip(out@.len() as int),
            final(self)@.config == old(self)@.config,
            final(self)@.pending == old(self)@.pending,
            final(self)@.settle_now == old(self)@.settle_now,
            final(self)@.settle_deadline == old(self)@.settle_deadline,
    {
        let k: usize = if max_count <= self.queue.len() {
            max_count
        } else {
            self.queue.len()
        };
        let mut out: Vec<CaretSnapshot> = Vec::new();
        let mut i: usize = 0;
        while i < k
            invariant
                i <= k <= self.queue.len(),
                self@ == old(self)@,
                out@ =~= self.queue@.take(i as int),
            decreases k - i,
        {
            out.push(self.queue[i]);
            i = i + 1;
        }
        let mut rest: Vec<CaretSnapshot> = Vec::new();
        let mut j: usize = k;
        while j < self.queue.len()
            invariant
                k <= j <= self.queue.len(),
                self@ == old(self)@,
                rest@ =~= self.queue@.subrange(k as int, j as int),
            decreases self.queue.len() - j,
        {
            rest.push(self.queue[j]);
            j = j + 1;
        }
        proof {
            assert(rest@ =~= old(self)@.queue.skip(k as int));
        }
        self.queue = rest;
        out
    }
}

/// A valid event is accepted, and a flush whose host time has reached the
/// resulting deadline (or for which an immediate-flush condition was
/// armed) enqueues exactly one snapshot carrying that event's caret, text
/// length, timestamp, blocked and IME flags.
pub proof fn lemma_valid_event_settles(m: MonitorView, e: CaretEvent, now_ms: u64)
    requires
        m.wf(),
        event_valid(e),
        update_model(m, e).settle_now || now_ms >= update_model(m, e).settle_deadline,
    ensures
        flush_count(update_model(m, e), now_ms) == 1,
        flush_model(update_model(m, e), now_ms).queue == m.queue.push(snapshot_of(e)),
        flush_model(update_model(m, e), now_ms).idle(),
        snapshot_of(e) == (CaretSnapshot {
            caret: e.caret,
            text_len: e.text_len,
            timestamp_ms: e.timestamp_ms,
            blocked: e.blocked,
            ime_active: e.ime_active,
        }),
{
}

/// A malformed event has no effect at all: the state is exactly unchanged,
/// so a following flush and drain behave as if the event never arrived.
pub proof fn lemma_invalid_event_no_effect(m: MonitorView, e: CaretEvent, now_ms: u64)
    requires
        !event_valid(e),
    ensures
        update_model(m, e) == m,
        flush_model(update_model(m, e), now_ms) == flush_model(m, now_ms),
        flush_count(update_model(m, e), now_ms) == flush_count(m, now_ms),
{
}

/// Draining empties the queue, so a second drain with no intervening
/// activity returns nothing, and nothing else about the state moves.
pub proof fn lemma_drain_twice_empty(m: MonitorView)
    ensures
        drain_model(m).queue.len() == 0,
        drain_model(drain_model(m)) == drain_model(m),
        drain_model(m).pending == m.pending,
        drain_model(m).config == m.config,
{
    assert(drain_model(drain_model(m)) =~= drain_model(m));
}

/// Debounce window: from idle, a single `Input` event never settles before
/// its deadline — in particular not at a host time at or before the
/// event's own timestamp — and settles exactly once the quiet window has
/// elapsed.
pub proof fn lemma_debounce_window(m: MonitorView, e: CaretEvent, now_ms: u64)
    requires
        m.wf(),
        m.idle(),
        event_valid(e),
        e.kind is Input,
    ensures
        now_ms < event_deadline(e, m.config.debounce_ms) ==> flush_count(update_model(m, e), now_ms)
            == 0 && flush_model(update_model(m, e), now_ms) == update_model(m, e),
        now_ms >= event_deadline(e, m.config.debounce_ms) ==> flush_count(
            update_model(m, e),
            now_ms,
        ) == 1,
        e.timestamp_ms < u64::MAX && now_ms <= e.timestamp_ms ==> flush_count(
            update_model(m, e),
            now_ms,
        ) == 0,
{
}

/// Boundary policy: under the immediate policy, a `SelectionChange` or
/// `KeyDown` event settles on the very next flush, whatever the host
/// clock says.
pub proof fn lemma_boundary_flushes_immediately(m: MonitorView, e: CaretEvent, now_ms: u64)
    requires
        m.wf(),
        event_valid(e),
        boundary_kind(e.kind),
        m.config.boundary_immediate,
    ensures
        flush_count(update_model(m, e), now_ms) == 1,
        flush_model(update_model(m, e), now_ms).queue == m.queue.push(snapshot_of(e)),
{
}

} // verus!
