//! The rotation of the display through its views.

use vstd::prelude::*;
use crate::gate::{GateState, PeriodicGate};
use crate::time::Instant;

verus! {

/// Seconds that a view stays on the display before the next one follows.
pub const VIEW_DURATION: u32 = 5;

/// The views, in the order in which they follow each other.
#[derive(Copy, Clone, Eq, PartialEq, Structural, Ord, PartialOrd, Hash, Debug)]
pub enum ViewMode {
    Time,
    Date,
    SensorReadings,
    SystemStatus,
}

impl ViewMode {
    /// The view that follows this one. After the last comes the first.
    pub open spec fn successor(self) -> ViewMode {
        match self {
            ViewMode::Time => ViewMode::Date,
            ViewMode::Date => ViewMode::SensorReadings,
            ViewMode::SensorReadings => ViewMode::SystemStatus,
            ViewMode::SystemStatus => ViewMode::Time,
        }
    }

    /// The view that is shown `steps` views after this one.
    pub open spec fn advanced(self, steps: nat) -> ViewMode
        decreases steps,
    {
        if steps == 0 {
            self
        } else {
            self.advanced((steps - 1) as nat).successor()
        }
    }

    pub fn next(self) -> (mode: ViewMode)
        ensures
            mode == self.successor(),
    {
        match self {
            ViewMode::Time => ViewMode::Date,
            ViewMode::Date => ViewMode::SensorReadings,
            ViewMode::SensorReadings => ViewMode::SystemStatus,
            ViewMode::SystemStatus => ViewMode::Time,
        }
    }
}

impl Default for ViewMode {
    fn default() -> (mode: ViewMode)
        ensures
            mode == ViewMode::Time,
    {
        ViewMode::Time
    }
}

/// The view on display, and the instant since which it is shown.
pub struct RotationState {
    pub mode: ViewMode,
    pub last_transition: Instant,
}

impl RotationState {
    /// What paces the rotation.
    pub open spec fn dwell_gate(self) -> GateState {
        GateState { interval: VIEW_DURATION, last_fired: self.last_transition }
    }

    /// Whether the view changes when the rotation is asked at `now`: it
    /// has been shown for the whole dwell time.
    pub open spec fn is_due(self, now: Instant) -> bool {
        self.dwell_gate().is_due(now)
    }

    /// The rotation after it was asked at `now`: once the dwell time has
    /// passed the next view is shown, from `now` on.
    pub open spec fn asked(self, now: Instant) -> RotationState {
        if self.is_due(now) {
            RotationState { mode: self.mode.successor(), last_transition: now }
        } else {
            self
        }
    }

    /// The rotation after `mode` was forced onto the display at `now`.
    pub open spec fn forced(self, mode: ViewMode, now: Instant) -> RotationState {
        RotationState { mode, last_transition: now }
    }

    /// The rotation after the view on display was given a new dwell time
    /// at `now`.
    pub open spec fn skipped(self, now: Instant) -> RotationState {
        RotationState { mode: self.mode, last_transition: now }
    }

    /// The rotation after it was asked `times` times, each time exactly
    /// one dwell time after the view last changed.
    pub open spec fn asked_each_dwell(self, times: nat) -> RotationState
        decreases times,
    {
        if times == 0 {
            self
        } else {
            let before = self.asked_each_dwell((times - 1) as nat);
            before.asked(
                Instant { ticks: (before.last_transition.ticks + VIEW_DURATION) as u32 },
            )
        }
    }
}

/// Cycles the display through its views, one dwell time each.
pub struct ViewModeSwitcher {
    mode: ViewMode,
    dwell: PeriodicGate,
}

impl View for ViewModeSwitcher {
    type V = RotationState;

    closed spec fn view(&self) -> RotationState {
        RotationState { mode: self.mode, last_transition: self.dwell@.last_fired }
    }
}

impl ViewModeSwitcher {
    #[verifier::type_invariant]
    spec fn dwell_is_fixed(self) -> bool {
        self.dwell@.interval == VIEW_DURATION
    }

    /// A rotation that shows the first view from `now` on.
    pub fn new(now: Instant) -> (switcher: ViewModeSwitcher)
        ensures
            switcher@ == (RotationState { mode: ViewMode::Time, last_transition: now }),
    {
        ViewModeSwitcher { mode: ViewMode::Time, dwell: PeriodicGate::new(VIEW_DURATION, now) }
    }

    /// Puts `mode` on the display at once, for a whole dwell time from
    /// `now`.
    pub fn set_mode(&mut self, mode: ViewMode, now: &Instant)
        ensures
            final(self)@ == old(self)@.forced(mode, *now),
    {
        proof {
            use_type_invariant(&*self);
        }
        self.mode = mode;
        self.dwell.restart(now);
    }

    /// The view to show at `now`. Called once on every pass of the main
    /// loop; moves on to the next view when the dwell time has passed.
    pub fn mode(&mut self, now: &Instant) -> (mode: ViewMode)
        ensures
            final(self)@ == old(self)@.asked(*now),
            mode == final(self)@.mode,
    {
        proof {
            use_type_invariant(&*self);
        }
        if self.dwell.due(now) {
            self.mode = self.mode.next();
        }
        self.mode
    }

    /// Keeps the view on display for another dwell time from `now`. The
    /// main loop calls this when it has nothing to draw for the view yet.
    pub fn skip(&mut self, now: &Instant)
        ensures
            final(self)@ == old(self)@.skipped(*now),
            final(self)@.mode == old(self)@.mode,
    {
        proof {
            use_type_invariant(&*self);
        }
        self.dwell.restart(now);
    }

    /// The view on display, without asking the rotation to move on.
    pub fn current(&self) -> (mode: ViewMode)
        ensures
            mode == self@.mode,
    {
        self.mode
    }
}

/// The views form one cycle of four: each view is followed by another
/// one, and four steps lead back to where they began.
pub proof fn lemma_views_cycle(mode: ViewMode)
    ensures
        mode.successor() != mode,
        mode.advanced(4) == mode,
        ViewMode::Time.advanced(1) == ViewMode::Date,
        ViewMode::Time.advanced(2) == ViewMode::SensorReadings,
        ViewMode::Time.advanced(3) == ViewMode::SystemStatus,
{
    reveal_with_fuel(ViewMode::advanced, 5);
}

/// A view is shown for exactly its dwell time. Asked before the dwell time
/// is over, or at an instant before the view came up, the rotation keeps
/// its view; asked at the end of the dwell time or later, it moves on by
/// one view, however late, and shows that one from then on.
pub proof fn lemma_view_dwells(state: RotationState, now: Instant)
    ensures
        now.ticks < state.last_transition.ticks + VIEW_DURATION ==> state.asked(now) == state,
        now.ticks >= state.last_transition.ticks + VIEW_DURATION ==> state.asked(now) == (
        RotationState { mode: state.mode.successor(), last_transition: now }),
{
}

/// Asked once every dwell time, the rotation moves on by one view each
/// time: after `times` dwell times it shows the view `times` steps on.
pub proof fn lemma_rotation_advances(state: RotationState, times: nat)
    requires
        state.last_transition.ticks + times * VIEW_DURATION <= u32::MAX,
    ensures
        state.asked_each_dwell(times).mode == state.mode.advanced(times),
        state.asked_each_dwell(times).last_transition.ticks == state.last_transition.ticks + times
            * VIEW_DURATION,
    decreases times,
{
    if times > 0 {
        assert((times - 1) * VIEW_DURATION + VIEW_DURATION == times * VIEW_DURATION)
            by (nonlinear_arith);
        lemma_rotation_advances(state, (times - 1) as nat);
    }
}

/// A forced view is shown at once, whatever the rotation showed before and
/// however long it had shown it, and it stays for its whole dwell time. A
/// skipped view stays for another dwell time.
pub proof fn lemma_forced_view_shows(
    state: RotationState,
    mode: ViewMode,
    now: Instant,
    later: Instant,
)
    ensures
        state.forced(mode, now).asked(now).mode == mode,
        later.ticks < now.ticks + VIEW_DURATION ==> state.forced(mode, now).asked(later).mode
            == mode,
        state.skipped(now).mode == state.mode,
        later.ticks < now.ticks + VIEW_DURATION ==> state.skipped(now).asked(later).mode
            == state.mode,
{
}

} // verus!
