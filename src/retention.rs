//! The retention sweep: which artifacts are old enough to delete, and the
//! schedule on which scans run.
use vstd::prelude::*;

verus! {

/// Nanoseconds in an hour.
pub const HOUR_NANOS: i128 = 3_600_000_000_000;

/// Seconds between the end of one scan and the start of the next.
pub const SCAN_INTERVAL_SECS: u64 = 3600;

/// An artifact last modified at `modified` (nanoseconds since the epoch) is
/// past its retention at `now` when it is strictly older than `ttl_hours`.
pub open spec fn expired(modified: int, now: int, ttl_hours: int) -> bool {
    modified < now - ttl_hours * HOUR_NANOS
}

/// Whether an artifact modified at `modified_ns` is past a retention of
/// `ttl_hours` at `now_ns`.
pub fn is_expired(modified_ns: i64, now_ns: i64, ttl_hours: i32) -> (r: bool)
    ensures
        r == expired(modified_ns as int, now_ns as int, ttl_hours as int),
{
    (modified_ns as i128) < (now_ns as i128) - (ttl_hours as i128) * HOUR_NANOS
}

/// For each artifact of one scan, by its modification time, whether the
/// scan deletes it.
pub fn select_expired(modified_ns: &Vec<i64>, now_ns: i64, ttl_hours: i32) -> (r: Vec<bool>)
    ensures
        r@.len() == modified_ns@.len(),
        forall|i: int|
            0 <= i < r@.len() ==> r@[i] == expired(
                modified_ns@[i] as int,
                now_ns as int,
                ttl_hours as int,
            ),
{
    let mut r: Vec<bool> = Vec::new();
    let mut i: usize = 0;
    while i < modified_ns.len()
        invariant
            i <= modified_ns@.len(),
            r@.len() == i,
            forall|j: int|
                0 <= j < i ==> r@[j] == expired(
                    modified_ns@[j] as int,
                    now_ns as int,
                    ttl_hours as int,
                ),
        decreases modified_ns@.len() - i,
    {
        r.push(is_expired(modified_ns[i], now_ns, ttl_hours));
        i = i + 1;
    }
    r
}

/// A scan deletes an artifact strictly older than the retention and keeps
/// one strictly newer.
pub proof fn lemma_retention(modified: int, now: int, ttl_hours: int)
    ensures
        modified < now - ttl_hours * HOUR_NANOS ==> expired(modified, now, ttl_hours),
        modified > now - ttl_hours * HOUR_NANOS ==> !expired(modified, now, ttl_hours),
{
}

/// Where the sweep stands.
#[derive(Clone, Copy, Debug, PartialEq, Eq, Structural)]
pub enum SweepState {
    /// Retention is off: nothing ever runs.
    Disabled,
    /// A scan is under way.
    Scanning,
    /// Waiting for the next scan.
    Idle,
}

/// What happened since the sweep's last step.
#[derive(Clone, Copy, Debug, PartialEq, Eq, Structural)]
pub enum SweepEvent {
    /// The scan that was asked for has finished.
    ScanDone,
    /// The wait that was asked for is over.
    TimerElapsed,
}

/// What the sweep asks to be done next.
#[derive(Clone, Copy, Debug, PartialEq, Eq, Structural)]
pub enum SweepAction {
    /// Nothing more, ever.
    Stop,
    /// Scan the store now.
    Scan,
    /// Wait this many seconds, then report `TimerElapsed`.
    Wait { secs: u64 },
    /// Nothing until the pending event.
    Continue,
}

/// The sweep's first state and action for a retention of `ttl_hours`.
pub open spec fn start_spec(ttl_hours: int) -> (SweepState, SweepAction) {
    if ttl_hours > 0 {
        (SweepState::Scanning, SweepAction::Scan)
    } else {
        (SweepState::Disabled, SweepAction::Stop)
    }
}

/// One step of the sweep.
pub open spec fn step_spec(state: SweepState, event: SweepEvent) -> (SweepState, SweepAction) {
    match (state, event) {
        (SweepState::Disabled, _) => (SweepState::Disabled, SweepAction::Stop),
        (SweepState::Scanning, SweepEvent::ScanDone) => (
            SweepState::Idle,
            SweepAction::Wait { secs: SCAN_INTERVAL_SECS },
        ),
        (SweepState::Idle, SweepEvent::TimerElapsed) => (SweepState::Scanning, SweepAction::Scan),
        (s, _) => (s, SweepAction::Continue),
    }
}

/// Starts the sweep: with a positive retention, one scan at once; with a
/// retention of zero (or less), nothing.
pub fn sweep_start(ttl_hours: i32) -> (r: (SweepState, SweepAction))
    ensures
        r == start_spec(ttl_hours as int),
{
    if ttl_hours > 0 {
        (SweepState::Scanning, SweepAction::Scan)
    } else {
        (SweepState::Disabled, SweepAction::Stop)
    }
}

/// Steps the sweep: after a scan, wait an hour; after the wait, scan.
pub fn sweep_step(state: SweepState, event: SweepEvent) -> (r: (SweepState, SweepAction))
    ensures
        r == step_spec(state, event),
{
    match (state, event) {
        (SweepState::Disabled, _) => (SweepState::Disabled, SweepAction::Stop),
        (SweepState::Scanning, SweepEvent::ScanDone) => (
            SweepState::Idle,
            SweepAction::Wait { secs: SCAN_INTERVAL_SECS },
        ),
        (SweepState::Idle, SweepEvent::TimerElapsed) => (SweepState::Scanning, SweepAction::Scan),
        (s, _) => (s, SweepAction::Continue),
    }
}

/// The actions of the sweep, from `state`, as `events` come in.
pub open spec fn run_actions(state: SweepState, events: Seq<SweepEvent>) -> Seq<SweepAction>
    decreases events.len(),
{
    if events.len() == 0 {
        Seq::empty()
    } else {
        let (next, action) = step_spec(state, events[0]);
        seq![action] + run_actions(next, events.drop_first())
    }
}

proof fn lemma_run_len(state: SweepState, events: Seq<SweepEvent>)
    ensures
        run_actions(state, events).len() == events.len(),
    decreases events.len(),
{
    if events.len() > 0 {
        lemma_run_len(step_spec(state, events[0]).0, events.drop_first());
    }
}

/// With retention off, no scan ever runs, whatever happens afterwards, so
/// an artifact is never deleted by the sweep.
pub proof fn lemma_disabled_never_scans(ttl_hours: int, events: Seq<SweepEvent>)
    requires
        ttl_hours == 0,
    ensures
        start_spec(ttl_hours).1 != SweepAction::Scan,
        forall|i: int|
            0 <= i < events.len() ==> #[trigger] run_actions(start_spec(ttl_hours).0, events)[i]
                != SweepAction::Scan,
    decreases events.len(),
{
    if events.len() > 0 {
        lemma_disabled_never_scans(ttl_hours, events.drop_first());
        lemma_run_len(SweepState::Disabled, events.drop_first());
        let rest = run_actions(SweepState::Disabled, events.drop_first());
        assert(run_actions(SweepState::Disabled, events) == seq![SweepAction::Stop] + rest);
        assert forall|i: int|
            0 <= i < events.len() implies #[trigger] run_actions(
            start_spec(ttl_hours).0,
            events,
        )[i] != SweepAction::Scan by {
            if i > 0 {
                assert(run_actions(SweepState::Disabled, events)[i] == rest[i - 1]);
            }
        }
    }
}

/// With a positive retention, the first scan runs at once, and each scan
/// that ends leads to a wait of an hour and then to the next scan.
pub proof fn lemma_active_cycle(ttl_hours: int)
    requires
        ttl_hours > 0,
    ensures
        start_spec(ttl_hours) == (SweepState::Scanning, SweepAction::Scan),
        step_spec(SweepState::Scanning, SweepEvent::ScanDone) == (
            SweepState::Idle,
            SweepAction::Wait { secs: SCAN_INTERVAL_SECS },
        ),
        step_spec(SweepState::Idle, SweepEvent::TimerElapsed) == (
            SweepState::Scanning,
            SweepAction::Scan,
        ),
{
}

} // verus!
