use vstd::prelude::*;

verus! {

/// The process-wide countdown: seconds remaining until the overall timeout.
/// Zero means disabled or expired.  One ticker drives it, one second per
/// tick; HTTP readers only read the remaining value.
#[derive(Clone, Copy, Debug, PartialEq, Eq, Structural)]
pub struct CountdownTimer {
    pub remaining: u64,
    pub fired: bool,
}

/// What the ticker must do after one tick.
#[derive(Clone, Copy, Debug, PartialEq, Eq, Structural)]
pub enum TickAction {
    /// The countdown was above zero and fell by one: sleep and tick again.
    CountedDown,
    /// The countdown has reached zero and the overall-timeout command has
    /// not been sent yet: send it once, then stop.
    FireOverallTimeout,
    /// The overall-timeout command is already sent: the ticker writes and
    /// sends nothing further.
    Idle,
}

/// The timer after one tick: above zero it falls by one; at zero it fires
/// once; afterwards nothing changes.
pub open spec fn spec_tick_state(t: CountdownTimer) -> CountdownTimer {
    if t.remaining > 0 {
        CountdownTimer { remaining: (t.remaining - 1) as u64, fired: t.fired }
    } else if !t.fired {
        CountdownTimer { remaining: t.remaining, fired: true }
    } else {
        t
    }
}

/// The action owed by one tick of the timer.
pub open spec fn spec_tick_action(t: CountdownTimer) -> TickAction {
    if t.remaining > 0 {
        TickAction::CountedDown
    } else if !t.fired {
        TickAction::FireOverallTimeout
    } else {
        TickAction::Idle
    }
}

/// The timer after `n` ticks.
pub open spec fn spec_ticks(t: CountdownTimer, n: nat) -> CountdownTimer
    decreases n,
{
    if n == 0 {
        t
    } else {
        spec_tick_state(spec_ticks(t, (n - 1) as nat))
    }
}

/// The countdown value `elapsed` seconds after starting from `start`: it
/// falls by one per second while above zero and stays at zero from
/// `start` seconds on.
pub open spec fn spec_countdown(start: u64, elapsed: nat) -> u64 {
    if elapsed >= start {
        0u64
    } else {
        (start - elapsed) as u64
    }
}

impl CountdownTimer {
    /// A countdown of `secs` seconds that has not fired.
    pub fn new(secs: u64) -> (t: CountdownTimer)
        ensures
            t == (CountdownTimer { remaining: secs, fired: false }),
    {
        CountdownTimer { remaining: secs, fired: false }
    }

    /// One tick: count down while above zero, fire the overall timeout
    /// exactly once at zero, then go idle.  The remaining value never
    /// increases.
    pub fn tick(&mut self) -> (a: TickAction)
        ensures
            *final(self) == spec_tick_state(*old(self)),
            a == spec_tick_action(*old(self)),
            final(self).remaining <= old(self).remaining,
    {
        if self.remaining > 0 {
            self.remaining = self.remaining - 1;
            TickAction::CountedDown
        } else if !self.fired {
            self.fired = true;
            TickAction::FireOverallTimeout
        } else {
            TickAction::Idle
        }
    }
}

/// The countdown over time: starting from `secs`, the remaining value after
/// `n` ticks is exactly `secs` less `n`, floored at zero — never negative,
/// non-increasing, and exactly zero from `secs` ticks on — and the
/// overall-timeout command is owed by exactly one tick, the first one that
/// finds the countdown at zero.
pub proof fn lemma_countdown_run(secs: u64, n: nat)
    ensures
        spec_ticks(CountdownTimer { remaining: secs, fired: false }, n).remaining
            == spec_countdown(secs, n),
        spec_ticks(CountdownTimer { remaining: secs, fired: false }, n).fired <==> n > secs,
        spec_tick_action(spec_ticks(CountdownTimer { remaining: secs, fired: false }, n))
            is FireOverallTimeout <==> n == secs,
    decreases n,
{
    if n > 0 {
        lemma_countdown_run(secs, (n - 1) as nat);
    }
}

/// The countdown value is non-increasing over time.
pub proof fn lemma_countdown_monotone(secs: u64, n1: nat, n2: nat)
    requires
        n1 <= n2,
    ensures
        spec_countdown(secs, n1) >= spec_countdown(secs, n2),
{
}

} // verus!
