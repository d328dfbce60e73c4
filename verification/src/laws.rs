//! Laws relating several operations, proved once and for all. Properties
//! of a single operation — the state invariants, the strict finalize
//! order, the one-vote-per-account rule, the share and quorum formulas —
//! are stated directly in that operation's contract in `engine`.

use vstd::prelude::*;
use crate::dao::Dao;

verus! {

/// Proposals submitted at the same instant are spaced apart.
///
/// Let `pre` be the state some proposal was submitted into at instant
/// `now`, and `mid` the state right after: the stored starting period of
/// the new proposal is `pre.next_starting_period(now)`. A second proposal
/// submitted at the same instant starts at
/// `mid.next_starting_period(now)`, and the two starting periods lie at
/// least `period_duration` apart, so members have time to exit between
/// consecutive proposals.
pub proof fn lemma_proposal_spacing(pre: Dao, mid: Dao, now: u64)
    requires
        mid.period_duration == pre.period_duration,
        mid.proposals@.len() > 0,
        mid.proposals@.last().starting_period == pre.next_starting_period(now),
    ensures
        mid.next_starting_period(now) >= pre.next_starting_period(now) + mid.period_duration,
{
    assert(pre.next_starting_period(now) >= now);
}

} // verus!
