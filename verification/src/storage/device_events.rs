//! Device arrival and removal notices, and the rule that drops repeats of a
//! notice that come too soon after it.
use vstd::prelude::*;

verus! {

/// `std::sync::mpsc::Sender`, the end of a channel that notices are sent on.
#[verifier::external_type_specification]
#[verifier::external_body]
#[verifier::reject_recursive_types(T)]
pub struct ExSender<T>(std::sync::mpsc::Sender<T>);

/// A change in the set of attached devices.
#[derive(Debug, PartialEq, Eq, Hash, Clone, Copy, Structural)]
pub enum DeviceEvent {
    Added,
    Removed,
    Changed,
}

/// What the system's notification callback is given: where to send notices.
pub struct CallbackContext {
    pub sender: std::sync::mpsc::Sender<DeviceEvent>,
}

/// How long, in milliseconds, a repeat of a notice is dropped.
pub const DEBOUNCE_MILLIS: u64 = 1000;

/// When each kind of notice was last passed on, in milliseconds of a
/// monotonic clock.
#[derive(Debug, Clone, Copy)]
pub struct Debouncer {
    added: Option<u64>,
    removed: Option<u64>,
    changed: Option<u64>,
}

/// The contents of a [`Debouncer`]: the time each kind was last passed on.
pub ghost struct DebouncerView {
    pub added: Option<u64>,
    pub removed: Option<u64>,
    pub changed: Option<u64>,
}

impl View for Debouncer {
    type V = DebouncerView;

    closed spec fn view(&self) -> DebouncerView {
        DebouncerView { added: self.added, removed: self.removed, changed: self.changed }
    }
}

/// When a kind of notice was last passed on.
pub open spec fn last_passed(d: DebouncerView, e: DeviceEvent) -> Option<u64> {
    match e {
        DeviceEvent::Added => d.added,
        DeviceEvent::Removed => d.removed,
        DeviceEvent::Changed => d.changed,
    }
}

/// A notice at `now` is passed on unless the same kind was passed on less
/// than [`DEBOUNCE_MILLIS`] before (a clock that went back counts as no time).
pub open spec fn passes(d: DebouncerView, e: DeviceEvent, now: u64) -> bool {
    match last_passed(d, e) {
        Some(t) => (if now >= t { now - t } else { 0 }) >= DEBOUNCE_MILLIS,
        None => true,
    }
}

/// The record after passing on a notice of kind `e` at `now`.
pub open spec fn record_passed(d: DebouncerView, e: DeviceEvent, now: u64) -> DebouncerView {
    match e {
        DeviceEvent::Added => DebouncerView { added: Some(now), ..d },
        DeviceEvent::Removed => DebouncerView { removed: Some(now), ..d },
        DeviceEvent::Changed => DebouncerView { changed: Some(now), ..d },
    }
}

impl Debouncer {
    /// Nothing passed on yet.
    pub fn new() -> (r: Self)
        ensures
            r@ == (DebouncerView { added: None, removed: None, changed: None }),
    {
        Debouncer { added: None, removed: None, changed: None }
    }

    /// Decides whether a notice received at `now` is passed on, and records it
    /// when it is.
    pub fn accept(&mut self, event: DeviceEvent, now: u64) -> (passed: bool)
        ensures
            passed == passes(old(self)@, event, now),
            final(self)@ == if passed { record_passed(old(self)@, event, now) } else { old(self)@ },
    {
        let last = match event {
            DeviceEvent::Added => self.added,
            DeviceEvent::Removed => self.removed,
            DeviceEvent::Changed => self.changed,
        };
        match last {
            Some(t) => {
                if now.saturating_sub(t) < DEBOUNCE_MILLIS {
                    return false;
                }
            },
            None => {},
        }
        match event {
            DeviceEvent::Added => self.added = Some(now),
            DeviceEvent::Removed => self.removed = Some(now),
            DeviceEvent::Changed => self.changed = Some(now),
        }
        true
    }
}

/// A notice passed on at `now` drops every repeat of its kind received less
/// than [`DEBOUNCE_MILLIS`] later, and lets through one received that long
/// after or later.
pub proof fn repeat_within_window_dropped(d: DebouncerView, e: DeviceEvent, now: u64, later: u64)
    requires
        now <= later,
    ensures
        passes(record_passed(d, e, now), e, later) == (later - now >= DEBOUNCE_MILLIS),
{
}

/// Passing on a notice of one kind leaves the other kinds as they were.
pub proof fn other_kinds_unaffected(d: DebouncerView, e: DeviceEvent, other: DeviceEvent, now: u64, at: u64)
    requires
        e != other,
    ensures
        passes(record_passed(d, e, now), other, at) == passes(d, other, at),
{
}

} // verus!
