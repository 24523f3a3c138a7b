//! The timer state machine: a work countdown, then a break countdown,
//! driven by one-second ticks delivered while the engine is running.
//!
//! The engine owns no clock and performs no notification itself: the
//! caller delivers ticks with [`TimerEngine::on_tick`], which reports
//! whether the work-complete notification must be fired.

use vstd::prelude::*;

verus! {

/// Length of the focused-work interval, in seconds (25 minutes).
pub const WORK_DURATION: u32 = 25 * 60;

/// Length of the rest interval, in seconds (5 minutes).
pub const BREAK_DURATION: u32 = 5 * 60;

/// Which interval the countdown currently belongs to.
#[derive(Clone, Copy, Debug, PartialEq, Eq, Structural)]
pub enum Phase {
    Work,
    Break,
}

/// The interval length loaded when the given phase is entered.
pub open spec fn phase_duration(p: Phase) -> u32 {
    match p {
        Phase::Work => WORK_DURATION,
        Phase::Break => BREAK_DURATION,
    }
}

/// The whole state of the timer: the current phase, the seconds left
/// in it, and whether ticks are currently being applied.
#[derive(Clone, Copy, Debug, PartialEq, Eq, Structural)]
pub struct TimerEngine {
    pub phase: Phase,
    pub remaining: u32,
    pub running: bool,
}

/// The state the engine is created in, and that `reset` returns it to.
pub open spec fn initial_state() -> TimerEngine {
    TimerEngine { phase: Phase::Work, remaining: WORK_DURATION, running: false }
}

/// The state after `start`: ticking, everything else untouched.
pub open spec fn after_start(e: TimerEngine) -> TimerEngine {
    TimerEngine { phase: e.phase, remaining: e.remaining, running: true }
}

/// The state after `stop`: not ticking, countdown and phase untouched.
pub open spec fn after_stop(e: TimerEngine) -> TimerEngine {
    TimerEngine { phase: e.phase, remaining: e.remaining, running: false }
}

/// Whether a tick delivered in state `e` fires the work-complete
/// notification: only when a running work countdown has reached zero.
pub open spec fn tick_notifies(e: TimerEngine) -> bool {
    e.running && e.remaining == 0 && e.phase == Phase::Work
}

/// The state after one tick. A tick while not running changes nothing;
/// a positive countdown loses one second; an expired work countdown
/// turns into a fresh break countdown, still running; an expired break
/// countdown holds at zero.
pub open spec fn after_tick(e: TimerEngine) -> TimerEngine {
    if !e.running {
        e
    } else if e.remaining > 0 {
        TimerEngine { phase: e.phase, remaining: (e.remaining - 1) as u32, running: true }
    } else if e.phase == Phase::Work {
        TimerEngine { phase: Phase::Break, remaining: BREAK_DURATION, running: true }
    } else {
        e
    }
}

impl TimerEngine {
    /// The countdown never exceeds the length of the interval it
    /// belongs to.
    pub open spec fn wf(self) -> bool {
        self.remaining <= phase_duration(self.phase)
    }

    /// A fresh engine: a full work countdown, not yet ticking.
    pub fn new() -> (e: Self)
        ensures
            e == initial_state(),
            e.wf(),
    {
        TimerEngine { phase: Phase::Work, remaining: WORK_DURATION, running: false }
    }

    /// Begin applying ticks. Idempotent; the countdown is untouched.
    pub fn start(&mut self)
        ensures
            *final(self) == after_start(*old(self)),
    {
        self.running = true;
    }

    /// Stop applying ticks. Idempotent; pause semantics: the countdown
    /// and the phase are untouched.
    pub fn stop(&mut self)
        ensures
            *final(self) == after_stop(*old(self)),
    {
        self.running = false;
    }

    /// Return to the initial configuration, whatever the prior state:
    /// work phase, full work countdown, not ticking.
    pub fn reset(&mut self)
        ensures
            *final(self) == initial_state(),
    {
        self.stop();
        self.phase = Phase::Work;
        self.remaining = WORK_DURATION;
    }

    /// Apply one tick. The result says whether the caller must fire
    /// the work-complete notification: exactly on the tick that
    /// settles an expired work countdown into the break phase.
    pub fn on_tick(&mut self) -> (notify: bool)
        ensures
            *final(self) == after_tick(*old(self)),
            notify == tick_notifies(*old(self)),
            old(self).wf() ==> final(self).wf(),
    {
        if !self.running {
            false
        } else if self.remaining > 0 {
            self.remaining = self.remaining - 1;
            false
        } else if self.phase == Phase::Work {
            self.phase = Phase::Break;
            self.remaining = BREAK_DURATION;
            true
        } else {
            false
        }
    }
}

/// The state after `n` ticks delivered in a row from state `e`.
pub open spec fn run_ticks(e: TimerEngine, n: nat) -> TimerEngine
    decreases n,
{
    if n == 0 {
        e
    } else {
        after_tick(run_ticks(e, (n - 1) as nat))
    }
}

/// How many of `n` ticks delivered in a row from state `e` fire the
/// work-complete notification.
pub open spec fn notifications_during(e: TimerEngine, n: nat) -> nat
    decreases n,
{
    if n == 0 {
        0
    } else {
        notifications_during(e, (n - 1) as nat) + if tick_notifies(run_ticks(e, (n - 1) as nat)) {
            1nat
        } else {
            0nat
        }
    }
}

/// The initial state is well-formed and every operation preserves
/// well-formedness, so every reachable state is well-formed.
pub proof fn lemma_wf_preserved(e: TimerEngine)
    requires
        e.wf(),
    ensures
        initial_state().wf(),
        after_start(e).wf(),
        after_stop(e).wf(),
        after_tick(e).wf(),
{
}

/// In a well-formed state the countdown lies between zero and the
/// longer of the two interval lengths.
pub proof fn lemma_remaining_bounded(e: TimerEngine)
    requires
        e.wf(),
    ensures
        0 <= e.remaining <= if WORK_DURATION >= BREAK_DURATION {
            WORK_DURATION
        } else {
            BREAK_DURATION
        },
{
}

/// Starting twice in a row is the same as starting once.
pub proof fn lemma_start_idempotent(e: TimerEngine)
    ensures
        after_start(after_start(e)) == after_start(e),
{
}

/// Stopping while not running changes nothing.
pub proof fn lemma_stop_when_not_running(e: TimerEngine)
    requires
        !e.running,
    ensures
        after_stop(e) == e,
{
}

/// A tick in the break phase never fires the notification, whether
/// the countdown is still positive or has expired.
pub proof fn lemma_no_notification_in_break(e: TimerEngine)
    requires
        e.phase == Phase::Break,
    ensures
        !tick_notifies(e),
{
}

/// While a running countdown is still positive, each tick takes one
/// second off it and nothing else happens: after `k` ticks, `k`
/// seconds are gone, the phase is unchanged, and no notification has
/// fired.
pub proof fn lemma_countdown(e: TimerEngine, k: nat)
    requires
        e.running,
        k <= e.remaining,
    ensures
        run_ticks(e, k) == (TimerEngine {
            phase: e.phase,
            remaining: (e.remaining - k) as u32,
            running: true,
        }),
        notifications_during(e, k) == 0,
    decreases k,
{
    if k > 0 {
        lemma_countdown(e, (k - 1) as nat);
    }
}

/// From the freshly started initial state, `WORK_DURATION` ticks bring
/// the work countdown exactly to zero without a notification, and the
/// one further tick that settles the expiry fires the notification —
/// exactly once over the whole run — and leaves a running break phase
/// at its full length.
pub proof fn lemma_work_interval_completion()
    ensures
        run_ticks(after_start(initial_state()), WORK_DURATION as nat) == (TimerEngine {
            phase: Phase::Work,
            remaining: 0,
            running: true,
        }),
        notifications_during(after_start(initial_state()), WORK_DURATION as nat) == 0,
        run_ticks(after_start(initial_state()), (WORK_DURATION + 1) as nat) == (TimerEngine {
            phase: Phase::Break,
            remaining: BREAK_DURATION,
            running: true,
        }),
        notifications_during(after_start(initial_state()), (WORK_DURATION + 1) as nat) == 1,
{
    let e0 = after_start(initial_state());
    lemma_countdown(e0, WORK_DURATION as nat);
    assert(run_ticks(e0, (WORK_DURATION + 1) as nat) == after_tick(
        run_ticks(e0, WORK_DURATION as nat),
    ));
}

/// No tick is lost or double-counted across a stop/start boundary:
/// `k` ticks, then a stop, a start, and `m` more ticks take exactly
/// `k + m` seconds off the countdown, and none of those ticks fires a
/// notification while the countdown lasts.
pub proof fn lemma_stop_start_keeps_countdown(e: TimerEngine, k: nat, m: nat)
    requires
        e.running,
        k + m <= e.remaining,
    ensures
        ({
            let resumed = after_start(after_stop(run_ticks(e, k)));
            run_ticks(resumed, m).remaining == e.remaining - (k + m)
                && run_ticks(resumed, m).phase == e.phase
                && notifications_during(e, k) + notifications_during(resumed, m) == 0
        }),
{
    lemma_countdown(e, k);
    let resumed = after_start(after_stop(run_ticks(e, k)));
    lemma_countdown(resumed, m);
}

/// A reset leaves the engine not running, and without a new start any
/// number of later ticks changes nothing.
pub proof fn lemma_reset_halts_ticking(n: nat)
    ensures
        !initial_state().running,
        run_ticks(initial_state(), n) == initial_state(),
    decreases n,
{
    if n > 0 {
        lemma_reset_halts_ticking((n - 1) as nat);
    }
}

} // verus!
