//! Off-boarding escrow records.
use vstd::prelude::*;

verus! {

/// Per-validator off-board record tracking the claim deadline.
#[derive(Clone, Copy, Debug, PartialEq, Eq, Structural)]
pub struct ClaimRecord {
    pub offboarded: bool,
    pub offboarded_at: u64,
    pub claim_deadline: u64,
}

/// `a + b`, clamped at `u64::MAX`.
pub open spec fn saturating_add_u64(a: u64, b: u64) -> u64 {
    if a + b > u64::MAX { u64::MAX } else { (a + b) as u64 }
}

impl ClaimRecord {
    /// The record of a validator that was never off-boarded.
    pub open spec fn spec_default() -> ClaimRecord {
        ClaimRecord { offboarded: false, offboarded_at: 0, claim_deadline: 0 }
    }

    /// Off-boarded at `now_ts` with `now_ts + window` (saturating) as the deadline.
    pub open spec fn spec_new(now_ts: u64, claim_window_secs: u64) -> ClaimRecord {
        ClaimRecord {
            offboarded: true,
            offboarded_at: now_ts,
            claim_deadline: saturating_add_u64(now_ts, claim_window_secs),
        }
    }

    /// Claims are open: off-boarded and `now_ts` not past the deadline.
    pub open spec fn spec_within_claim_window(&self, now_ts: u64) -> bool {
        self.offboarded && now_ts <= self.claim_deadline
    }

    /// Claims are closed: off-boarded and `now_ts` past the deadline.
    pub open spec fn spec_after_claim_window(&self, now_ts: u64) -> bool {
        self.offboarded && now_ts > self.claim_deadline
    }

    /// Records an off-boarding at `now_ts` with a claim window of `claim_window_secs`.
    pub fn new(now_ts: u64, claim_window_secs: u64) -> (r: ClaimRecord)
        ensures
            r == ClaimRecord::spec_new(now_ts, claim_window_secs),
    {
        ClaimRecord {
            offboarded: true,
            offboarded_at: now_ts,
            claim_deadline: now_ts.saturating_add(claim_window_secs),
        }
    }

    /// True iff escrowed fees may still be claimed at `now_ts` (deadline inclusive).
    pub fn within_claim_window(&self, now_ts: u64) -> (r: bool)
        ensures
            r == self.spec_within_claim_window(now_ts),
    {
        self.offboarded && now_ts <= self.claim_deadline
    }

    /// True iff the claim window has closed at `now_ts`.
    pub fn after_claim_window(&self, now_ts: u64) -> (r: bool)
        ensures
            r == self.spec_after_claim_window(now_ts),
    {
        self.offboarded && now_ts > self.claim_deadline
    }
}

impl Default for ClaimRecord {
    fn default() -> (r: ClaimRecord)
        ensures
            r == ClaimRecord::spec_default(),
    {
        ClaimRecord { offboarded: false, offboarded_at: 0, claim_deadline: 0 }
    }
}

/// For an off-boarded record, exactly one of the two window predicates holds at any time.
pub proof fn lemma_claim_windows_partition(r: ClaimRecord, now_ts: u64)
    requires
        r.offboarded,
    ensures
        r.spec_within_claim_window(now_ts) != r.spec_after_claim_window(now_ts),
{
}

} // verus!
