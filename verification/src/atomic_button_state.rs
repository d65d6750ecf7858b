//! The one-bit bridge from the button interrupt to the main loop.

use vstd::prelude::*;

verus! {

/// What can happen to the flag.
pub enum FlagOp {
    /// The interrupt records a press.
    Signal,
    /// The main loop reads the flag and clears it.
    Take,
}

/// What the flag holds after `op`, when it held `pending` before: a press
/// sets it, however many are waiting already, and a read clears it.
pub open spec fn flag_after(pending: bool, op: FlagOp) -> bool {
    match op {
        FlagOp::Signal => true,
        FlagOp::Take => false,
    }
}

/// What the flag holds after all of `ops` in turn.
pub open spec fn flag_after_all(pending: bool, ops: Seq<FlagOp>) -> bool
    decreases ops.len(),
{
    if ops.len() == 0 {
        pending
    } else {
        flag_after(flag_after_all(pending, ops.drop_last()), ops.last())
    }
}

/// What the `i`-th of `ops` reports, if it is a read: whether a press was
/// waiting when it came.
pub open spec fn reported(pending: bool, ops: Seq<FlagOp>, i: int) -> bool {
    flag_after_all(pending, ops.take(i))
}

/// A button press that waits to be served.
///
/// The interrupt sets the flag; the main loop reads and clears it in one
/// step. Both take the flag by `&mut`, so neither can run in the middle of
/// the other: a press is reported once, and presses that pile up before the
/// loop looks are reported as one.
#[derive(Debug)]
pub struct AtomicButtonState {
    pending: bool,
}

impl View for AtomicButtonState {
    type V = bool;

    /// Whether a press waits to be served.
    closed spec fn view(&self) -> bool {
        self.pending
    }
}

impl AtomicButtonState {
    pub fn new() -> (state: AtomicButtonState)
        ensures
            !state@,
    {
        AtomicButtonState { pending: false }
    }

    /// Records a press. A press that is already waiting stays the only one.
    pub fn set(&mut self)
        ensures
            final(self)@ == flag_after(old(self)@, FlagOp::Signal),
            final(self)@,
    {
        self.pending = true;
    }

    /// Reports whether a press was waiting, and clears the flag with the
    /// same step.
    pub fn get_and_clear(&mut self) -> (pressed: bool)
        ensures
            pressed == old(self)@,
            final(self)@ == flag_after(old(self)@, FlagOp::Take),
            !final(self)@,
    {
        let pressed = self.pending;
        self.pending = false;
        pressed
    }
}

/// No press is reported twice. Whatever presses and reads follow each
/// other: a read reports a press only if a press came right before it, with
/// no other read in between; so each press is reported by one read at most,
/// and of two reads in a row the second reports nothing.
pub proof fn lemma_press_is_reported_once(pending: bool, ops: Seq<FlagOp>, i: int)
    requires
        1 <= i < ops.len(),
        ops[i] is Take,
    ensures
        reported(pending, ops, i) <==> ops[i - 1] is Signal,
        ops[i - 1] is Take ==> !reported(pending, ops, i),
{
}

/// No press is lost, and presses coalesce. Of the reads that follow a
/// press, the first one reports it, however many more presses came before
/// that read.
pub proof fn lemma_press_is_reported(pending: bool, ops: Seq<FlagOp>, press: int, read: int)
    requires
        0 <= press < read < ops.len(),
        ops[press] is Signal,
        ops[read] is Take,
        forall|k: int| press < k < read ==> ops[k] is Signal,
    ensures
        reported(pending, ops, read),
{
}

} // verus!
