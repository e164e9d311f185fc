//! Detection of a clean single tap of the macOS Fn (globe) key.
//!
//! A clean tap is Fn pressed, then released within `MAX_TAP_MS`, with no
//! other key or modifier in between. That tells a deliberate tap apart from
//! Fn used as a modifier (Fn+arrow, Fn+Shift) and from a finger resting on
//! the key. The event tap that observes the keyboard belongs to the
//! application shell; it feeds every event through [`tap_step`] and fires the
//! recording toggle when told to.
use vstd::prelude::*;

verus! {

/// Longest Fn hold, in milliseconds, still treated as a tap.
pub const MAX_TAP_MS: u64 = 700;

/// What the detector remembers between events.
#[derive(Clone, Copy, Debug, PartialEq, Eq)]
pub struct TapState {
    /// Fn is currently held.
    pub fn_down: bool,
    /// When Fn was pressed, in milliseconds of a monotonic clock.
    pub press_at_ms: Option<u64>,
    /// Another key or modifier intervened during this Fn press.
    pub dirty: bool,
}

/// An event seen by the keyboard event tap.
#[derive(Clone, Copy, Debug, PartialEq, Eq)]
pub enum TapEvent {
    /// The system disabled the tap (under load or by user input).
    TapDisabled,
    /// A key went down.
    KeyDown,
    /// The modifier flags changed: whether Fn and whether any of Shift,
    /// Control, Option or Command are now held, at `now_ms`.
    FlagsChanged { fn_now: bool, other_now: bool, now_ms: u64 },
}

/// What the event tap does after an event. Events are never altered.
#[derive(Clone, Copy, Debug, PartialEq, Eq)]
pub enum TapAction {
    /// Nothing beyond observing the event.
    Keep,
    /// Re-enable the tap that the system disabled.
    Reenable,
    /// A clean tap ended: fire the recording toggle.
    Trigger,
}

/// The state before any event.
pub open spec fn idle_state() -> TapState {
    TapState { fn_down: false, press_at_ms: None, dirty: false }
}

/// The detector's invariant: a press time is known exactly while Fn is
/// held, and only a held Fn can be dirty.
pub open spec fn tap_state_wf(s: TapState) -> bool {
    &&& s.fn_down <==> s.press_at_ms is Some
    &&& !s.fn_down ==> !s.dirty
}

/// Whether a press at `press_at_ms` released at `now_ms` was quick enough.
/// The clock is monotonic; a release that reads earlier counts as zero.
pub open spec fn quick_release(press_at_ms: Option<u64>, now_ms: u64) -> bool {
    match press_at_ms {
        Some(t) => (if now_ms >= t {
            now_ms - t
        } else {
            0
        }) <= MAX_TAP_MS,
        None => false,
    }
}

/// The state after an event and the action it calls for.
pub open spec fn tap_step_spec(s: TapState, e: TapEvent) -> (TapState, TapAction) {
    match e {
        TapEvent::TapDisabled => (s, TapAction::Reenable),
        TapEvent::KeyDown => (
            if s.fn_down {
                TapState { dirty: true, ..s }
            } else {
                s
            },
            TapAction::Keep,
        ),
        TapEvent::FlagsChanged { fn_now, other_now, now_ms } => {
            if fn_now && !s.fn_down {
                (TapState { fn_down: true, press_at_ms: Some(now_ms), dirty: other_now }, TapAction::Keep)
            } else if !fn_now && s.fn_down {
                let clean = !s.dirty && quick_release(s.press_at_ms, now_ms);
                (idle_state(), if clean {
                    TapAction::Trigger
                } else {
                    TapAction::Keep
                })
            } else if fn_now && other_now {
                (TapState { dirty: true, ..s }, TapAction::Keep)
            } else {
                (s, TapAction::Keep)
            }
        },
    }
}

/// The state before any event.
pub fn idle() -> (r: TapState)
    ensures
        r == idle_state(),
        tap_state_wf(r),
{
    TapState { fn_down: false, press_at_ms: None, dirty: false }
}

/// Advances the detector by one event.
pub fn tap_step(s: TapState, e: TapEvent) -> (r: (TapState, TapAction))
    ensures
        r == tap_step_spec(s, e),
        tap_state_wf(s) ==> tap_state_wf(r.0),
{
    match e {
        TapEvent::TapDisabled => (s, TapAction::Reenable),
        TapEvent::KeyDown => {
            if s.fn_down {
                (TapState { dirty: true, ..s }, TapAction::Keep)
            } else {
                (s, TapAction::Keep)
            }
        },
        TapEvent::FlagsChanged { fn_now, other_now, now_ms } => {
            if fn_now && !s.fn_down {
                (TapState { fn_down: true, press_at_ms: Some(now_ms), dirty: other_now }, TapAction::Keep)
            } else if !fn_now && s.fn_down {
                let quick = match s.press_at_ms {
                    Some(t) => {
                        let held = if now_ms >= t {
                            now_ms - t
                        } else {
                            0
                        };
                        held <= MAX_TAP_MS
                    },
                    None => false,
                };
                let clean = !s.dirty && quick;
                (idle(), if clean {
                    TapAction::Trigger
                } else {
                    TapAction::Keep
                })
            } else if fn_now && other_now {
                (TapState { dirty: true, ..s }, TapAction::Keep)
            } else {
                (s, TapAction::Keep)
            }
        },
    }
}

} // verus!

verus! {

// ─── Laws ───

/// The recording toggle fires only when a held, undisturbed Fn is released,
/// and every release returns the detector to its idle state.
pub proof fn law_trigger_only_on_clean_release(s: TapState, e: TapEvent)
    ensures
        tap_step_spec(s, e).1 == TapAction::Trigger ==> (e matches TapEvent::FlagsChanged {
            fn_now,
            ..
        } && !fn_now && s.fn_down && !s.dirty),
        (e matches TapEvent::FlagsChanged { fn_now, .. } && !fn_now && s.fn_down) ==> tap_step_spec(
            s,
            e,
        ).0 == idle_state(),
{
}

/// From a state where Fn is up, pressing Fn alone and releasing it within
/// `MAX_TAP_MS` fires the toggle and leaves the detector idle.
pub proof fn law_clean_tap_triggers(s: TapState, t0: u64, t1: u64, other_at_release: bool)
    requires
        tap_state_wf(s),
        !s.fn_down,
        t0 <= t1 <= t0 + MAX_TAP_MS,
    ensures
        ({
            let (s1, a1) = tap_step_spec(
                s,
                TapEvent::FlagsChanged { fn_now: true, other_now: false, now_ms: t0 },
            );
            let (s2, a2) = tap_step_spec(
                s1,
                TapEvent::FlagsChanged { fn_now: false, other_now: other_at_release, now_ms: t1 },
            );
            a1 == TapAction::Keep && a2 == TapAction::Trigger && s2 == idle_state()
        }),
{
}

/// A key pressed while Fn is held means Fn is used as a modifier: its
/// release does not fire the toggle.
pub proof fn law_key_during_hold_blocks_trigger(s: TapState, t0: u64, t1: u64, other_now: bool)
    requires
        tap_state_wf(s),
        !s.fn_down,
    ensures
        ({
            let (s1, _) = tap_step_spec(
                s,
                TapEvent::FlagsChanged { fn_now: true, other_now: false, now_ms: t0 },
            );
            let (s2, _) = tap_step_spec(s1, TapEvent::KeyDown);
            let (s3, a3) = tap_step_spec(
                s2,
                TapEvent::FlagsChanged { fn_now: false, other_now, now_ms: t1 },
            );
            a3 == TapAction::Keep && s3 == idle_state()
        }),
{
}

/// Fn pressed together with another modifier is not a tap.
pub proof fn law_fn_with_modifier_blocks_trigger(s: TapState, t0: u64, t1: u64, other_now: bool)
    requires
        tap_state_wf(s),
        !s.fn_down,
    ensures
        ({
            let (s1, _) = tap_step_spec(
                s,
                TapEvent::FlagsChanged { fn_now: true, other_now: true, now_ms: t0 },
            );
            let (s2, a2) = tap_step_spec(
                s1,
                TapEvent::FlagsChanged { fn_now: false, other_now, now_ms: t1 },
            );
            a2 == TapAction::Keep
        }),
{
}

/// Holding Fn longer than `MAX_TAP_MS` (a finger resting on the key) does
/// not fire the toggle on release.
pub proof fn law_long_hold_blocks_trigger(s: TapState, t0: u64, t1: u64, other_now: bool)
    requires
        tap_state_wf(s),
        !s.fn_down,
        t1 > t0 + MAX_TAP_MS,
    ensures
        ({
            let (s1, _) = tap_step_spec(
                s,
                TapEvent::FlagsChanged { fn_now: true, other_now: false, now_ms: t0 },
            );
            let (s2, a2) = tap_step_spec(
                s1,
                TapEvent::FlagsChanged { fn_now: false, other_now, now_ms: t1 },
            );
            a2 == TapAction::Keep
        }),
{
}

/// Every event keeps the detector's invariant.
pub proof fn law_step_keeps_invariant(s: TapState, e: TapEvent)
    requires
        tap_state_wf(s),
    ensures
        tap_state_wf(tap_step_spec(s, e).0),
{
}

// ─── Whole event sequences ───

/// The detector's state after the first `n` events of `e`, starting idle.
pub open spec fn state_after(e: Seq<TapEvent>, n: int) -> TapState
    decreases n,
{
    if n <= 0 || n > e.len() {
        idle_state()
    } else {
        tap_step_spec(state_after(e, n - 1), e[n - 1]).0
    }
}

/// The action the detector takes on event `j` of `e`.
pub open spec fn action_at(e: Seq<TapEvent>, j: int) -> TapAction {
    tap_step_spec(state_after(e, j), e[j]).1
}

/// Whether `ev` reports the Fn flag as `fn_now`.
pub open spec fn is_fn_flags(ev: TapEvent, fn_now: bool) -> bool {
    ev matches TapEvent::FlagsChanged { fn_now: f, .. } && f == fn_now
}

/// Whether `ev` reports another modifier held.
pub open spec fn other_modifier(ev: TapEvent) -> bool {
    ev matches TapEvent::FlagsChanged { other_now, .. } && other_now
}

/// When `ev` happened (flag changes carry their time).
pub open spec fn event_time(ev: TapEvent) -> u64 {
    match ev {
        TapEvent::FlagsChanged { now_ms, .. } => now_ms,
        _ => 0,
    }
}

/// Whether Fn is held after the first `n` events: the Fn flag of the last
/// flag change among them, or up when there is none.
pub open spec fn fn_held(e: Seq<TapEvent>, n: int) -> bool
    decreases n,
{
    if n <= 0 || n > e.len() {
        false
    } else {
        match e[n - 1] {
            TapEvent::FlagsChanged { fn_now, .. } => fn_now,
            _ => fn_held(e, n - 1),
        }
    }
}

/// An event that may occur while Fn is held without spoiling a tap: a
/// disabled-tap notice, or a flag change that keeps Fn and holds no other
/// modifier.
pub open spec fn undisturbed(ev: TapEvent) -> bool {
    match ev {
        TapEvent::TapDisabled => true,
        TapEvent::KeyDown => false,
        TapEvent::FlagsChanged { fn_now, other_now, .. } => fn_now && !other_now,
    }
}

/// Event `j` of `e` ends a clean tap: it releases Fn, and some earlier event
/// `i` pressed Fn (Fn was up before it) with no other modifier, every event
/// in between left Fn held with no key and no other modifier, and the
/// release came at most `MAX_TAP_MS` after the press.
pub open spec fn clean_tap_ends_at(e: Seq<TapEvent>, j: int) -> bool {
    &&& 0 <= j < e.len()
    &&& is_fn_flags(e[j], false)
    &&& exists|i: int|
        #![trigger e[i]]
        0 <= i < j && is_fn_flags(e[i], true) && !fn_held(e, i) && !other_modifier(e[i]) && (
        forall|k: int| i < k < j ==> undisturbed(#[trigger] e[k])) && quick_release(
            Some(event_time(e[i])),
            event_time(e[j]),
        )
}

/// Index of the event that pressed the Fn currently held after `n` events.
pub open spec fn hold_start(e: Seq<TapEvent>, n: int) -> int
    decreases n,
{
    if n <= 0 || n > e.len() {
        0
    } else if is_fn_flags(e[n - 1], true) && !fn_held(e, n - 1) {
        n - 1
    } else {
        hold_start(e, n - 1)
    }
}

/// The detector's state after `n` events, described by the events: Fn is
/// held as the last flag change says, its press time is that of the event
/// that started the hold, and it is dirty exactly when that press or a
/// later event spoiled the tap.
proof fn lemma_state_after(e: Seq<TapEvent>, n: int)
    requires
        0 <= n <= e.len(),
    ensures
        state_after(e, n).fn_down == fn_held(e, n),
        !fn_held(e, n) ==> state_after(e, n) == idle_state(),
        fn_held(e, n) ==> {
            let i = hold_start(e, n);
            &&& 0 <= i < n
            &&& is_fn_flags(e[i], true)
            &&& !fn_held(e, i)
            &&& state_after(e, n).press_at_ms == Some(event_time(e[i]))
            &&& state_after(e, n).dirty == !(!other_modifier(e[i]) && forall|k: int|
                i < k < n ==> undisturbed(#[trigger] e[k]))
        },
    decreases n,
{
    if n > 0 {
        lemma_state_after(e, n - 1);
        let ev = e[n - 1];
        if fn_held(e, n - 1) && fn_held(e, n) && !(is_fn_flags(ev, true) && !fn_held(e, n - 1)) {
            let i = hold_start(e, n - 1);
            assert(hold_start(e, n) == i);
            if undisturbed(ev) {
                assert forall|k: int| i < k < n - 1 implies undisturbed(#[trigger] e[k]) <==> (
                i < k < n ==> undisturbed(e[k])) by {}
                if !other_modifier(e[i]) && (forall|k: int| i < k < n - 1 ==> undisturbed(#[trigger] e[k])) {
                    assert forall|k: int| i < k < n implies undisturbed(#[trigger] e[k]) by {
                        if k == n - 1 {
                            assert(e[k] == ev);
                        }
                    }
                }
            } else {
                assert(!undisturbed(e[n - 1]));
            }
        }
    }
}

/// Inside a hold that no event has released, Fn stays held and the hold
/// keeps its start.
proof fn lemma_hold_continues(e: Seq<TapEvent>, i: int, m: int)
    requires
        0 <= i < m <= e.len(),
        is_fn_flags(e[i], true),
        !fn_held(e, i),
        forall|k: int| i < k < m ==> undisturbed(#[trigger] e[k]),
    ensures
        fn_held(e, m),
        hold_start(e, m) == i,
    decreases m,
{
    if m > i + 1 {
        lemma_hold_continues(e, i, m - 1);
        assert(undisturbed(e[m - 1]));
    }
}

/// Over any sequence of events from the idle state, the recording toggle
/// fires on an event exactly when that event ends a clean tap: Fn pressed
/// with no other modifier, held with no key and no other modifier, and
/// released within `MAX_TAP_MS`. It fires once per such tap and never
/// otherwise.
pub proof fn law_trigger_exactly_on_clean_taps(e: Seq<TapEvent>, j: int)
    requires
        0 <= j < e.len(),
    ensures
        action_at(e, j) == TapAction::Trigger <==> clean_tap_ends_at(e, j),
{
    lemma_state_after(e, j);
    let s = state_after(e, j);
    let ev = e[j];
    if action_at(e, j) == TapAction::Trigger {
        assert(is_fn_flags(ev, false) && s.fn_down && !s.dirty);
        let i = hold_start(e, j);
        assert(e[i] == e[i]);
        assert(clean_tap_ends_at(e, j));
    }
    if clean_tap_ends_at(e, j) {
        let i = choose|i: int|
            #![trigger e[i]]
            0 <= i < j && is_fn_flags(e[i], true) && !fn_held(e, i) && !other_modifier(e[i]) && (
            forall|k: int| i < k < j ==> undisturbed(#[trigger] e[k])) && quick_release(
                Some(event_time(e[i])),
                event_time(e[j]),
            );
        lemma_hold_continues(e, i, j);
        assert(action_at(e, j) == TapAction::Trigger);
    }
}

} // verus!
