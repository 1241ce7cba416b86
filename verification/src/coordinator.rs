//! The scoring pipeline's coordinator: bounded admission and aggregation.
//!
//! The coordinator decides; the surrounding runtime performs. It hands out
//! one unit of work per candidate, admits at most `cap` units at a time,
//! and folds each completed unit's outcome into the result collection. The
//! well-formedness invariant ties the counters together, so the admission
//! bound and the final accounting hold after every step.

use vstd::prelude::*;
use crate::persons::ReferralPerson;
use crate::pipeline::PersonOutcome;

verus! {

/// The coordinator's state over one pipeline run of `total` candidates.
///
/// `dispatched` counts the units handed out so far; `completed` those that
/// have come back; the difference is the number of units holding an
/// admission slot. `results` collects the scored records of completed units
/// and `skipped` counts the completed units that yielded none.
#[derive(Debug)]
pub struct Coordinator {
    pub cap: usize,
    pub total: usize,
    pub dispatched: usize,
    pub completed: usize,
    pub skipped: usize,
    pub results: Vec<ReferralPerson>,
}

impl Coordinator {
    /// The number of units currently holding an admission slot.
    pub open spec fn in_flight(self) -> int {
        self.dispatched - self.completed
    }

    /// The coordinator's invariant: counters are consistent, the admission
    /// bound holds, and every completed unit is accounted for exactly once.
    pub open spec fn wf(self) -> bool {
        &&& self.dispatched <= self.total
        &&& self.completed <= self.dispatched
        &&& self.in_flight() <= self.cap
        &&& self.results@.len() + self.skipped == self.completed
    }

    /// A fresh coordinator for `total` candidates and an admission cap of
    /// `cap` units.
    pub fn new(total: usize, cap: usize) -> (c: Coordinator)
        requires
            cap >= 1,
        ensures
            c.wf(),
            c.cap == cap,
            c.total == total,
            c.dispatched == 0,
            c.completed == 0,
            c.skipped == 0,
            c.results@ == Seq::<ReferralPerson>::empty(),
    {
        let c = Coordinator { cap, total, dispatched: 0, completed: 0, skipped: 0, results: Vec::new() };
        proof {
            assert(c.results@ =~= Seq::<ReferralPerson>::empty());
        }
        c
    }

    /// Hands out the next unit where a candidate remains and a slot is
    /// free, and otherwise changes nothing. The unit returned is the index
    /// of the candidate to score.
    pub fn try_dispatch(&mut self) -> (r: Option<usize>)
        requires
            old(self).wf(),
        ensures
            final(self).wf(),
            final(self).cap == old(self).cap,
            final(self).total == old(self).total,
            final(self).completed == old(self).completed,
            final(self).skipped == old(self).skipped,
            final(self).results@ == old(self).results@,
            old(self).dispatched < old(self).total && old(self).in_flight() < old(self).cap ==> {
                &&& r == Some(old(self).dispatched)
                &&& final(self).dispatched == old(self).dispatched + 1
            },
            !(old(self).dispatched < old(self).total && old(self).in_flight() < old(self).cap)
                ==> r is None && final(self).dispatched == old(self).dispatched,
    {
        if self.dispatched < self.total && self.dispatched - self.completed < self.cap {
            let unit = self.dispatched;
            self.dispatched = self.dispatched + 1;
            Some(unit)
        } else {
            None
        }
    }

    /// Folds one completed unit's outcome in: a scored record joins the
    /// results, anything else counts as skipped; either way the unit's
    /// admission slot is freed.
    pub fn complete_unit(&mut self, outcome: PersonOutcome)
        requires
            old(self).wf(),
            old(self).in_flight() > 0,
        ensures
            final(self).wf(),
            final(self).cap == old(self).cap,
            final(self).total == old(self).total,
            final(self).dispatched == old(self).dispatched,
            final(self).completed == old(self).completed + 1,
            outcome matches PersonOutcome::Scored(rp) ==> {
                &&& final(self).results@ == old(self).results@.push(rp)
                &&& final(self).skipped == old(self).skipped
            },
            !(outcome is Scored) ==> {
                &&& final(self).results@ == old(self).results@
                &&& final(self).skipped == old(self).skipped + 1
            },
    {
        match outcome {
            PersonOutcome::Scored(rp) => {
                self.results.push(rp);
            },
            _ => {
                self.skipped = self.skipped + 1;
            },
        }
        self.completed = self.completed + 1;
    }

    /// Whether every unit has been handed out and has come back.
    pub fn is_finished(&self) -> (r: bool)
        requires
            self.wf(),
        ensures
            r == (self.completed == self.total),
            r ==> self.in_flight() == 0,
    {
        self.completed == self.total
    }

    /// Surrenders the aggregated records once the run is finished.
    pub fn into_results(self) -> (r: Vec<ReferralPerson>)
        requires
            self.wf(),
            self.completed == self.total,
        ensures
            r@ == self.results@,
            r@.len() + self.skipped == self.total,
    {
        self.results
    }
}

/// With an admission cap of `cap`, at no instant do more than `cap` units
/// hold an admission slot.
pub proof fn lemma_admission_bounded(c: Coordinator)
    requires
        c.wf(),
    ensures
        c.in_flight() <= c.cap,
{
}

/// Once every unit has completed, none holds a slot, and every candidate is
/// accounted for: the result collection holds exactly one record per
/// non-skipped unit.
pub proof fn lemma_completion_accounts_all_units(c: Coordinator)
    requires
        c.wf(),
        c.completed == c.total,
    ensures
        c.in_flight() == 0,
        c.results@.len() + c.skipped == c.total,
{
}

} // verus!
