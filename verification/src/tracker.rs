//! The run tracker: counts attempts and suppresses duplicate outcome
//! reports. A physical contact can be reported for several simulation steps
//! in a row, so the first qualifying report of an attempt is accepted and
//! every later one in the same attempt is refused.

use vstd::prelude::*;
use crate::collision::SemanticEvent;

verus! {

/// The number of attempts made so far in this process run.
#[derive(Clone, Copy, Debug, PartialEq, Eq, Structural, Default)]
pub struct TriesCounter(pub u32);

/// Attempt bookkeeping: the monotonically increasing attempt counter and
/// the per-attempt "outcome already reported" flag.
#[derive(Clone, Copy, Debug, PartialEq, Eq, Structural)]
pub struct RunTracker {
    pub tries: TriesCounter,
    pub reported: bool,
}

/// The tracker after `begin_attempt`: one more attempt, no outcome yet.
pub open spec fn begun(t: RunTracker) -> RunTracker {
    RunTracker { tries: TriesCounter((t.tries.0 + 1) as u32), reported: false }
}

/// The tracker state and the accepted flag after `report_once`: the report
/// is accepted exactly when none was accepted yet this attempt, whatever
/// the outcome kind; afterwards the flag is set either way.
pub open spec fn reported_once(t: RunTracker, outcome: SemanticEvent) -> (RunTracker, bool) {
    (RunTracker { tries: t.tries, reported: true }, !t.reported)
}

impl RunTracker {
    /// A fresh tracker: no attempt yet, nothing reported.
    pub fn new() -> (t: RunTracker)
        ensures
            t.tries.0 == 0,
            !t.reported,
    {
        RunTracker { tries: TriesCounter(0), reported: false }
    }

    /// Start a new attempt: increment the counter (it is never
    /// decremented) and clear the outcome flag.
    pub fn begin_attempt(&mut self)
        requires
            old(self).tries.0 < u32::MAX,
        ensures
            *final(self) == begun(*old(self)),
            final(self).tries.0 == old(self).tries.0 + 1,
            !final(self).reported,
    {
        self.tries.0 = self.tries.0 + 1;
        self.reported = false;
    }

    /// Report an outcome for the current attempt. The first report of an
    /// attempt is accepted; every later one is refused, regardless of the
    /// outcome kind. The counter is untouched.
    pub fn report_once(&mut self, outcome: SemanticEvent) -> (accepted: bool)
        ensures
            (*final(self), accepted) == reported_once(*old(self), outcome),
            accepted == !old(self).reported,
            final(self).reported,
            final(self).tries == old(self).tries,
    {
        let accepted = !self.reported;
        self.reported = true;
        accepted
    }
}

/// Accept-once: after a fresh attempt the first report is accepted; once
/// any report has been made, every further report in the same attempt is
/// refused and leaves the flag set, whatever its outcome kind.
pub proof fn lemma_accept_once(t: RunTracker, first: SemanticEvent)
    requires
        t.tries.0 < u32::MAX,
    ensures
        reported_once(begun(t), first).1,
        forall|u: RunTracker, o: SemanticEvent|
            u.reported ==> !(#[trigger] reported_once(u, o)).1 && reported_once(u, o).0.reported,
{
}

} // verus!
