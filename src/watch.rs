//! The debounce machine of the change-notification pipeline. The watcher's
//! consumer loop feeds it what it observes and performs the action it returns:
//! the first change starts a short settle delay, the end of the delay emits one
//! "state changed" notification, and every event still queued is then drained
//! and discarded until the channel is found quiet.

use vstd::prelude::*;

verus! {

/// Where the consumer loop stands.
#[derive(PartialEq, Eq, Structural, Clone, Copy, Debug)]
pub enum WatchPhase {
    /// Blocked on the channel, waiting for an event.
    Idle,
    /// A change was seen; waiting for the backend's writes to settle.
    Settling,
    /// The notification went out; discarding what queued up meanwhile.
    Draining,
}

/// What the consumer loop observed.
#[derive(PartialEq, Eq, Structural, Clone, Copy, Debug)]
pub enum WatchInput {
    /// A filesystem event arrived.
    Changed,
    /// The watcher delivered an error.
    Failed,
    /// The settle delay is over.
    Settled,
    /// The channel held nothing more.
    Quiet,
}

/// What the consumer loop does next.
#[derive(PartialEq, Eq, Structural, Clone, Copy, Debug)]
pub enum WatchAction {
    /// Sleep for the settle delay, then report `Settled`.
    Settle,
    /// Emit one "state changed" notification, then drain the channel.
    Notify,
    /// Drop the event; keep draining (or settling).
    Discard,
    /// Report the watcher error; keep waiting.
    Report,
    /// Go back to waiting on the channel.
    Wait,
}

/// The transition of the debounce machine.
pub open spec fn watch_step(p: WatchPhase, i: WatchInput) -> (WatchPhase, WatchAction) {
    match (p, i) {
        (WatchPhase::Idle, WatchInput::Changed) => (WatchPhase::Settling, WatchAction::Settle),
        (WatchPhase::Idle, WatchInput::Failed) => (WatchPhase::Idle, WatchAction::Report),
        (WatchPhase::Settling, WatchInput::Settled) => (WatchPhase::Draining, WatchAction::Notify),
        (WatchPhase::Settling, WatchInput::Changed) => (WatchPhase::Settling, WatchAction::Discard),
        (WatchPhase::Settling, WatchInput::Failed) => (WatchPhase::Settling, WatchAction::Discard),
        (WatchPhase::Draining, WatchInput::Changed) => (WatchPhase::Draining, WatchAction::Discard),
        (WatchPhase::Draining, WatchInput::Failed) => (WatchPhase::Draining, WatchAction::Discard),
        (WatchPhase::Draining, WatchInput::Quiet) => (WatchPhase::Idle, WatchAction::Wait),
        _ => (p, WatchAction::Wait),
    }
}

impl WatchPhase {
    /// The next phase and the action to perform on input `i`.
    pub fn step(self, i: WatchInput) -> (r: (WatchPhase, WatchAction))
        ensures
            r == watch_step(self, i),
    {
        match (self, i) {
            (WatchPhase::Idle, WatchInput::Changed) => (WatchPhase::Settling, WatchAction::Settle),
            (WatchPhase::Idle, WatchInput::Failed) => (WatchPhase::Idle, WatchAction::Report),
            (WatchPhase::Settling, WatchInput::Settled) => (
                WatchPhase::Draining,
                WatchAction::Notify,
            ),
            (WatchPhase::Settling, WatchInput::Changed) => (
                WatchPhase::Settling,
                WatchAction::Discard,
            ),
            (WatchPhase::Settling, WatchInput::Failed) => (
                WatchPhase::Settling,
                WatchAction::Discard,
            ),
            (WatchPhase::Draining, WatchInput::Changed) => (
                WatchPhase::Draining,
                WatchAction::Discard,
            ),
            (WatchPhase::Draining, WatchInput::Failed) => (
                WatchPhase::Draining,
                WatchAction::Discard,
            ),
            (WatchPhase::Draining, WatchInput::Quiet) => (WatchPhase::Idle, WatchAction::Wait),
            _ => (self, WatchAction::Wait),
        }
    }
}

/// How many notifications the machine emits on `trace`, starting in `p`.
pub open spec fn notifications(p: WatchPhase, trace: Seq<WatchInput>) -> nat
    decreases trace.len(),
{
    if trace.len() == 0 {
        0
    } else {
        let (q, a) = watch_step(p, trace[0]);
        (if a == WatchAction::Notify {
            1nat
        } else {
            0nat
        }) + notifications(q, trace.drop_first())
    }
}

/// Whether the settle delay ends somewhere in `trace`.
pub open spec fn settles(trace: Seq<WatchInput>) -> bool {
    trace.contains(WatchInput::Settled)
}

/// Whether the first change in `trace` is followed, later, by the end of a
/// settle delay.
pub open spec fn change_then_settle(trace: Seq<WatchInput>) -> bool
    decreases trace.len(),
{
    if trace.len() == 0 {
        false
    } else if trace[0] == WatchInput::Changed {
        settles(trace.drop_first())
    } else {
        change_then_settle(trace.drop_first())
    }
}

proof fn lemma_contains_first(t: Seq<WatchInput>, x: WatchInput)
    requires
        t.len() > 0,
    ensures
        t.contains(x) <==> (t[0] == x || t.drop_first().contains(x)),
{
    let rest = t.drop_first();
    if t.contains(x) {
        let i = choose|i: int| 0 <= i < t.len() && t[i] == x;
        if i > 0 {
            assert(rest[i - 1] == x);
        }
    }
    if rest.contains(x) {
        let i = choose|i: int| 0 <= i < rest.len() && rest[i] == x;
        assert(t[i + 1] == x);
    }
}

proof fn lemma_draining_is_silent(t: Seq<WatchInput>)
    requires
        !t.contains(WatchInput::Quiet),
    ensures
        notifications(WatchPhase::Draining, t) == 0,
    decreases t.len(),
{
    if t.len() > 0 {
        lemma_contains_first(t, WatchInput::Quiet);
        lemma_draining_is_silent(t.drop_first());
    }
}

proof fn lemma_settling(t: Seq<WatchInput>)
    requires
        !t.contains(WatchInput::Quiet),
    ensures
        notifications(WatchPhase::Settling, t) == if settles(t) {
            1nat
        } else {
            0nat
        },
    decreases t.len(),
{
    if t.len() > 0 {
        lemma_contains_first(t, WatchInput::Quiet);
        lemma_contains_first(t, WatchInput::Settled);
        if t[0] == WatchInput::Settled {
            lemma_draining_is_silent(t.drop_first());
        } else {
            lemma_settling(t.drop_first());
        }
    }
}

/// One notification per debounce window. Within a window (from waiting on the
/// channel until the channel is next found quiet), however many events arrive,
/// at most one "state changed" notification goes out, and exactly one when a
/// change was followed by the end of the settle delay.
pub proof fn lemma_one_notification_per_window(trace: Seq<WatchInput>)
    requires
        !trace.contains(WatchInput::Quiet),
    ensures
        notifications(WatchPhase::Idle, trace) <= 1,
        notifications(WatchPhase::Idle, trace) == 1 <==> change_then_settle(trace),
    decreases trace.len(),
{
    if trace.len() > 0 {
        lemma_contains_first(trace, WatchInput::Quiet);
        if trace[0] == WatchInput::Changed {
            lemma_settling(trace.drop_first());
        } else {
            lemma_one_notification_per_window(trace.drop_first());
        }
    }
}

} // verus!
