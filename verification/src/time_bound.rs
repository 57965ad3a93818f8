//! The time bound that gates every claim.

use vstd::prelude::*;

verus! {

/// Which side of the timestamp a claim must fall on.
#[derive(Clone, Copy, Debug, PartialEq, Eq, Structural)]
pub enum TimeBoundKind {
    Before,
    After,
}

/// A bound on the ledger time at which claims are accepted.
#[derive(Clone, Copy, Debug, PartialEq, Eq, Structural)]
pub struct TimeBound {
    pub kind: TimeBoundKind,
    pub timestamp: u64,
}

impl TimeBound {
    /// Whether the bound admits the time `now`. Both kinds include the
    /// bound's own timestamp.
    pub open spec fn holds(self, now: u64) -> bool {
        match self.kind {
            TimeBoundKind::Before => now <= self.timestamp,
            TimeBoundKind::After => now >= self.timestamp,
        }
    }
}

/// Decides whether `time_bound` admits a claim at ledger time `now`.
pub fn check_time_bound(now: u64, time_bound: &TimeBound) -> (ok: bool)
    ensures
        ok == time_bound.holds(now),
{
    match time_bound.kind {
        TimeBoundKind::Before => now <= time_bound.timestamp,
        TimeBoundKind::After => now >= time_bound.timestamp,
    }
}

} // verus!
