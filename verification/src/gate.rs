//! The periodic gate: "has my interval passed since I last fired?", asked
//! and answered in one step.

use vstd::prelude::*;
use crate::time::Instant;

verus! {

/// What a gate is made of: its interval in seconds, and the instant at
/// which it last fired.
pub struct GateState {
    pub interval: u32,
    pub last_fired: Instant,
}

impl GateState {
    /// Whether a gate in this state fires when asked at `now`: the interval, or more,
    /// has passed since it last fired. An instant before the last firing
    /// never fires.
    pub open spec fn is_due(self, now: Instant) -> bool {
        now.at_least_since(self.last_fired, self.interval)
    }

    /// The state after a gate was asked at `now`. When it fires it counts anew
    /// from `now` itself, not from the instant at which it should have
    /// fired; when it does not fire nothing changes.
    pub open spec fn asked(self, now: Instant) -> GateState {
        if self.is_due(now) {
            GateState { interval: self.interval, last_fired: now }
        } else {
            self
        }
    }

    /// The state after a gate was made to count anew from `now`.
    pub open spec fn restarted(self, now: Instant) -> GateState {
        GateState { interval: self.interval, last_fired: now }
    }

    /// The state after a gate was asked at each of `nows` in turn.
    pub open spec fn asked_all(self, nows: Seq<Instant>) -> GateState
        decreases nows.len(),
    {
        if nows.len() == 0 {
            self
        } else {
            self.asked_all(nows.drop_last()).asked(nows.last())
        }
    }

    /// Whether a gate fires at the `i`-th of `nows`, asked at each of
    /// them in turn.
    pub open spec fn fires_at(self, nows: Seq<Instant>, i: int) -> bool {
        self.asked_all(nows.take(i)).is_due(nows[i])
    }
}

/// A periodic task's gate.
#[derive(Copy, Clone, Debug)]
pub struct PeriodicGate {
    interval: u32,
    last_fired: Instant,
}

impl View for PeriodicGate {
    type V = GateState;

    closed spec fn view(&self) -> GateState {
        GateState { interval: self.interval, last_fired: self.last_fired }
    }
}

impl PeriodicGate {
    /// A gate of the given interval, in seconds, that counts from `now`.
    pub fn new(interval: u32, now: Instant) -> (gate: PeriodicGate)
        ensures
            gate@ == (GateState { interval, last_fired: now }),
    {
        PeriodicGate { interval, last_fired: now }
    }

    pub fn interval(&self) -> (secs: u32)
        ensures
            secs == self@.interval,
    {
        self.interval
    }

    pub fn last_fired(&self) -> (t: Instant)
        ensures
            t == self@.last_fired,
    {
        self.last_fired
    }

    /// Asks at `now` whether the task is due, and counts anew from `now` if it
    /// fires. Check and update are one step: of two calls with the same
    /// `now` the second finds the first one's update.
    pub fn due(&mut self, now: &Instant) -> (fired: bool)
        ensures
            fired == old(self)@.is_due(*now),
            final(self)@ == old(self)@.asked(*now),
            fired ==> final(self)@.last_fired == *now,
            !fired ==> final(self)@ == old(self)@,
        no_unwind
    {
        if self.last_fired.ticks <= now.ticks && now.ticks - self.last_fired.ticks
            >= self.interval {
            self.last_fired = *now;
            true
        } else {
            false
        }
    }

    /// Counts anew from `now` without firing.
    pub fn restart(&mut self, now: &Instant)
        ensures
            final(self)@ == old(self)@.restarted(*now),
        no_unwind
    {
        self.last_fired = *now;
    }
}

/// One firing per window. A gate that fires at `fired_at` counts anew from
/// exactly there, however long it had been due; after that it stays shut
/// until a whole interval has passed, and then it is due. With an interval
/// of a second or more it does not fire twice at one instant.
pub proof fn lemma_fires_once_per_window(gate: GateState, fired_at: Instant, now: Instant)
    requires
        gate.is_due(fired_at),
    ensures
        gate.asked(fired_at).last_fired == fired_at,
        gate.asked(fired_at).interval == gate.interval,
        gate.asked(fired_at).is_due(now) <==> now.ticks >= fired_at.ticks + gate.interval,
        gate.interval >= 1 ==> !gate.asked(fired_at).is_due(fired_at),
{
}

/// Asking a gate never changes its interval and never moves the instant it
/// counts from backwards.
pub proof fn lemma_baseline_only_advances(gate: GateState, nows: Seq<Instant>)
    ensures
        gate.asked_all(nows).interval == gate.interval,
        gate.asked_all(nows).last_fired.ticks >= gate.last_fired.ticks,
    decreases nows.len(),
{
    if nows.len() > 0 {
        lemma_baseline_only_advances(gate, nows.drop_last());
    }
}

/// The state after the first `k + 1` of `nows` is the state after the first
/// `k`, asked once more.
proof fn lemma_asked_all_step(gate: GateState, nows: Seq<Instant>, k: int)
    requires
        0 <= k < nows.len(),
    ensures
        gate.asked_all(nows.take(k + 1)) == gate.asked_all(nows.take(k)).asked(nows[k]),
{
    assert(nows.take(k + 1).drop_last() =~= nows.take(k));
}

/// From the `i`-th ask on, a gate counts from no earlier than it did
/// right after that ask.
proof fn lemma_baseline_from(gate: GateState, nows: Seq<Instant>, i: int, j: int)
    requires
        0 <= i < j <= nows.len(),
    ensures
        gate.asked_all(nows.take(j)).last_fired.ticks >= gate.asked_all(
            nows.take(i + 1),
        ).last_fired.ticks,
        gate.asked_all(nows.take(j)).interval == gate.interval,
    decreases j - i,
{
    lemma_baseline_only_advances(gate, nows.take(j));
    if j > i + 1 {
        lemma_baseline_from(gate, nows, i, j - 1);
        lemma_asked_all_step(gate, nows, j - 1);
    }
}

/// Firings are a whole interval apart. Ask a gate at any instants, in any
/// order: whenever it fires at two of them, the later firing lies at least
/// one interval after the earlier one. So it never fires twice within one
/// interval, and a long gap is answered by one firing, not by several.
pub proof fn lemma_firings_are_spaced(gate: GateState, nows: Seq<Instant>, i: int, j: int)
    requires
        0 <= i < j < nows.len(),
        gate.fires_at(nows, i),
        gate.fires_at(nows, j),
    ensures
        nows[j].ticks >= nows[i].ticks + gate.interval,
{
    lemma_asked_all_step(gate, nows, i);
    lemma_baseline_from(gate, nows, i, j);
}

} // verus!
