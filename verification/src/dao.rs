//! The engine state: membership ledger, proposal store, funds account and
//! transaction journal, with the well-formedness invariant every operation
//! preserves, and the small calculations the handlers share.

use vstd::prelude::*;
use crate::types::ActorId;
use crate::types::DaoAction;
use crate::types::DaoError;
use crate::types::DaoState;
use crate::types::InitDao;
use crate::types::Member;
use crate::types::Proposal;
use crate::types::Role;
use crate::types::Vote;
use crate::store::has_key;
use crate::store::sum_shares;
use crate::store::unique_keys;
use crate::store::value_for;

verus! {

/// `a * b`, clamped to the largest representable balance.
pub open spec fn sat_mul(a: u128, b: u128) -> int {
    if a * b > u128::MAX {
        u128::MAX as int
    } else {
        a * b
    }
}

/// The transaction id counter steps through a cyclic id space: it wraps
/// instead of saturating, because ids are names, not balances.
pub open spec fn wrap_inc(t: u64) -> u64 {
    if t == u64::MAX {
        0
    } else {
        (t + 1) as u64
    }
}

/// The single live instance of the fund: all mutable state of the system.
pub struct Dao {
    /// The external token ledger all transfers are issued on.
    pub approved_token_program_id: ActorId,
    /// Minimum spacing between the starting periods of two proposals.
    pub period_duration: u64,
    /// Length of each proposal's voting window.
    pub voting_period_length: u64,
    /// Delay after voting closes before a proposal may be processed.
    pub grace_period_length: u64,
    /// Sum of all members' shares.
    pub total_shares: u128,
    /// account -> stake; keys unique, entries never removed.
    pub members: Vec<(ActorId, Member)>,
    /// The next proposal id; ids are dense, so it equals `proposals.len()`.
    pub proposal_id: u128,
    /// Portion of `balance` reserved by unprocessed proposals.
    pub locked_funds: u128,
    /// Proposal records, indexed by their id.
    pub proposals: Vec<Proposal>,
    /// Custodied balance on the external ledger.
    pub balance: u128,
    /// The next transaction id to allocate; wraps on overflow.
    pub transaction_id: u64,
    /// transaction id -> journaled action, for every in-flight transfer.
    pub transactions: Vec<(u64, Option<DaoAction>)>,
}

/// The two records hold the same proposal: every scalar field agrees, and
/// the description and ballot list agree as values.
pub open spec fn proposal_eq(a: Proposal, b: Proposal) -> bool {
    &&& a.proposer == b.proposer
    &&& a.receiver == b.receiver
    &&& a.yes_votes == b.yes_votes
    &&& a.no_votes == b.no_votes
    &&& a.quorum == b.quorum
    &&& a.amount == b.amount
    &&& a.processed == b.processed
    &&& a.passed == b.passed
    &&& a.details@ == b.details@
    &&& a.starting_period == b.starting_period
    &&& a.ended_at == b.ended_at
    &&& a.votes_by_member@ == b.votes_by_member@
}

/// An owned copy of a proposal record, equal to the original field by
/// field.
pub fn clone_proposal(p: &Proposal) -> (r: Proposal)
    ensures
        proposal_eq(r, *p),
{
    let mut votes_by_member: Vec<(ActorId, Vote)> = Vec::new();
    let mut i: usize = 0;
    while i < p.votes_by_member.len()
        invariant
            i <= p.votes_by_member@.len(),
            votes_by_member@ =~= p.votes_by_member@.subrange(0, i as int),
        decreases p.votes_by_member@.len() - i,
    {
        votes_by_member.push(p.votes_by_member[i]);
        proof {
            assert(votes_by_member@ =~= p.votes_by_member@.subrange(0, i + 1));
        }
        i = i + 1;
    }
    proof {
        assert(votes_by_member@ =~= p.votes_by_member@);
    }
    Proposal {
        proposer: p.proposer,
        receiver: p.receiver,
        yes_votes: p.yes_votes,
        no_votes: p.no_votes,
        quorum: p.quorum,
        amount: p.amount,
        processed: p.processed,
        passed: p.passed,
        details: p.details.clone(),
        starting_period: p.starting_period,
        ended_at: p.ended_at,
        votes_by_member,
    }
}

/// Only fund-moving actions are ever journaled; a resumed entry can always
/// be re-dispatched.
pub open spec fn fund_action(a: Option<DaoAction>) -> bool {
    match a {
        Some(DaoAction::Deposit { .. }) => true,
        Some(DaoAction::ProcessProposal { .. }) => true,
        Some(DaoAction::RageQuit { .. }) => true,
        _ => false,
    }
}

impl Dao {
    /// The account exists in the ledger (possibly with zero shares).
    pub open spec fn spec_has_account(self, account: ActorId) -> bool {
        has_key(self.members@, account)
    }

    /// The ledger record of the account.
    pub open spec fn spec_member(self, account: ActorId) -> Member {
        value_for(self.members@, account)
    }

    /// A current member: present with nonzero shares.
    pub open spec fn spec_is_member(self, account: ActorId) -> bool {
        self.spec_has_account(account) && self.spec_member(account).shares != 0
    }

    /// A journal entry is live for the transaction id.
    pub open spec fn spec_has_txn(self, tid: u64) -> bool {
        has_key(self.transactions@, tid)
    }

    /// The action journaled under the transaction id.
    pub open spec fn spec_txn(self, tid: u64) -> Option<DaoAction> {
        value_for(self.transactions@, tid)
    }

    /// The action journaled under the transaction id, or `None` when no
    /// entry holds the id.
    pub open spec fn spec_txn_or_absent(self, tid: u64) -> Option<DaoAction> {
        if self.spec_has_txn(tid) {
            self.spec_txn(tid)
        } else {
            None
        }
    }

    /// Balance not reserved by open proposals, clamped at zero.
    pub open spec fn spec_available(self) -> u128 {
        self.balance.saturating_sub(self.locked_funds)
    }

    /// Shares minted for a deposit of `amount`: the full amount into an
    /// empty fund, else the amount scaled by the fund's pre-deposit
    /// valuation.
    pub open spec fn spec_share_for(self, amount: u128) -> int {
        if self.balance == 0 {
            amount as int
        } else {
            (self.total_shares * amount) / (self.balance as int)
        }
    }

    /// Funds redeemed for `share` exiting shares, at the current valuation;
    /// meaningful only while `total_shares > 0`.
    pub open spec fn spec_redeemable(self, share: u128) -> int {
        sat_mul(share, self.balance) / (self.total_shares as int)
    }

    /// Start of the next proposal's voting window when submitted at `now`:
    /// proposals are spaced at least `period_duration` apart so members
    /// have time to exit before a new one starts.
    pub open spec fn next_starting_period(self, now: u64) -> int {
        if self.proposals@.len() == 0 {
            now as int
        } else {
            let prev = self.proposals@.last().starting_period + self.period_duration;
            if now >= prev {
                now as int
            } else {
                prev
            }
        }
    }

    /// The instant from which the proposal may be processed.
    pub open spec fn spec_ready_at(self, p: Proposal) -> int {
        p.starting_period + self.voting_period_length + self.grace_period_length
    }

    /// The yes-share fraction, in basis points, meets the quorum
    /// percentage; meaningful only while `total_shares > 0`.
    pub open spec fn spec_quorum_reached(self, p: Proposal) -> bool {
        p.yes_votes * 10000 / (self.total_shares as int) >= p.quorum * 100
    }

    /// The finalize decision: strictly more yes than no votes, and quorum.
    pub open spec fn spec_passed(self, p: Proposal) -> bool {
        p.yes_votes > p.no_votes && self.spec_quorum_reached(p)
    }

    /// A ballot by `account` on `proposal_id` at instant `now` passes every
    /// check except the one-vote-per-account rule: the voter is a member,
    /// the proposal exists unprocessed, and its voting window is open. A
    /// processed proposal takes no further ballots, whatever the clock
    /// says: its verdict and tallies are immutable once set.
    pub open spec fn vote_admissible(self, account: ActorId, proposal_id: u128, now: u64) -> bool {
        &&& self.spec_is_member(account)
        &&& proposal_id < self.proposals@.len()
        &&& !self.proposals@[proposal_id as int].processed
        &&& now <= self.proposals@[proposal_id as int].ended_at
        &&& now >= self.proposals@[proposal_id as int].starting_period
    }

    /// The proposal exists, is unprocessed, and its direct predecessor has
    /// been processed: everything finalization checks except the clock.
    pub open spec fn finalize_precheck(self, proposal_id: u128) -> bool {
        &&& proposal_id < self.proposals@.len()
        &&& (proposal_id > 0 ==> self.proposals@[proposal_id - 1].processed)
        &&& !self.proposals@[proposal_id as int].processed
    }

    /// The proposal may be finalized at instant `now`: the precheck holds
    /// and the voting window plus grace period have elapsed.
    pub open spec fn finalize_admissible(self, proposal_id: u128, now: u64) -> bool {
        &&& self.finalize_precheck(proposal_id)
        &&& now >= self.spec_ready_at(self.proposals@[proposal_id as int])
    }

    /// Nothing gates the account's exit: either it never voted yes, or the
    /// newest proposal it voted yes on has been processed.
    pub open spec fn exit_unblocked(self, account: ActorId) -> bool {
        match self.spec_member(account).highest_index_yes_vote {
            Some(w) => !(w < self.proposals@.len()) || self.proposals@[w as int].processed,
            None => true,
        }
    }

    /// A stored proposal record that is internally consistent.
    pub open spec fn proposal_wf(self, p: Proposal) -> bool {
        &&& p.quorum <= 100
        &&& p.ended_at == p.starting_period + self.voting_period_length
        &&& unique_keys(p.votes_by_member@)
    }

    /// Well-formedness: what every externally observable state satisfies.
    pub open spec fn wf(self) -> bool {
        &&& unique_keys(self.members@)
        &&& unique_keys(self.transactions@)
        &&& self.total_shares == sum_shares(self.members@)
        &&& self.proposal_id == self.proposals@.len()
        &&& forall|i: int|
            0 <= i < self.proposals@.len() ==> self.proposal_wf(#[trigger] self.proposals@[i])
        &&& forall|i: int, j: int| #![trigger self.proposals@[i], self.proposals@[j]]
            0 <= i < j < self.proposals@.len() && self.proposals@[j].processed
                ==> self.proposals@[i].processed
        &&& forall|i: int|
            0 <= i < self.members@.len() ==> match (#[trigger] self.members@[i]).1
                .highest_index_yes_vote {
                Some(w) => w < self.proposals@.len(),
                None => true,
            }
        &&& forall|i: int|
            0 <= i < self.transactions@.len() ==> fund_action(
                (#[trigger] self.transactions@[i]).1,
            )
    }

    /// The locked portion never exceeds the custodied balance.
    pub open spec fn funds_ok(self) -> bool {
        self.locked_funds <= self.balance
    }

    /// `other` differs from `self` at most in the journal's entries.
    pub open spec fn same_except_journal(self, other: Dao) -> bool {
        &&& other.approved_token_program_id == self.approved_token_program_id
        &&& other.period_duration == self.period_duration
        &&& other.voting_period_length == self.voting_period_length
        &&& other.grace_period_length == self.grace_period_length
        &&& other.total_shares == self.total_shares
        &&& other.members@ == self.members@
        &&& other.proposal_id == self.proposal_id
        &&& other.locked_funds == self.locked_funds
        &&& other.proposals@ == self.proposals@
        &&& other.balance == self.balance
        &&& other.transaction_id == self.transaction_id
    }

    /// Going from `self` to `other`, the journal gained or overwrote the
    /// binding `tid -> action` and kept every other entry.
    pub open spec fn journal_updated(self, other: Dao, tid: u64, action: DaoAction) -> bool {
        &&& other.spec_has_txn(tid)
        &&& other.spec_txn(tid) == Some(action)
        &&& forall|t: u64| t != tid ==> #[trigger] other.spec_has_txn(t) == self.spec_has_txn(t)
        &&& forall|t: u64|
            t != tid && self.spec_has_txn(t) ==> #[trigger] other.spec_txn(t) == self.spec_txn(t)
    }

    /// Going from `self` to `other`, the journal lost any binding for `tid`
    /// and kept every other entry.
    pub open spec fn journal_erased(self, other: Dao, tid: u64) -> bool {
        &&& !other.spec_has_txn(tid)
        &&& forall|t: u64| t != tid ==> #[trigger] other.spec_has_txn(t) == self.spec_has_txn(t)
        &&& forall|t: u64|
            t != tid && self.spec_has_txn(t) ==> #[trigger] other.spec_txn(t) == self.spec_txn(t)
    }

    /// A fresh fund: no members, no proposals, no journal, empty custody.
    pub fn new(config: InitDao) -> (dao: Dao)
        ensures
            dao.wf(),
            dao.funds_ok(),
            dao.approved_token_program_id == config.approved_token_program_id,
            dao.period_duration == config.period_duration,
            dao.voting_period_length == config.voting_period_length,
            dao.grace_period_length == config.grace_period_length,
            dao.total_shares == 0,
            dao.members@.len() == 0,
            dao.proposal_id == 0,
            dao.locked_funds == 0,
            dao.proposals@.len() == 0,
            dao.balance == 0,
            dao.transaction_id == 0,
            dao.transactions@.len() == 0,
    {
        Dao {
            approved_token_program_id: config.approved_token_program_id,
            period_duration: config.period_duration,
            voting_period_length: config.voting_period_length,
            grace_period_length: config.grace_period_length,
            total_shares: 0,
            members: Vec::new(),
            proposal_id: 0,
            locked_funds: 0,
            proposals: Vec::new(),
            balance: 0,
            transaction_id: 0,
            transactions: Vec::new(),
        }
    }

    /// True iff the account holds nonzero shares.
    pub fn is_member(&self, account: &ActorId) -> (r: bool)
        requires
            self.wf(),
        ensures
            r == self.spec_is_member(*account),
    {
        let r = crate::store::find_index(&self.members, *account);
        match r {
            Some(i) => {
                proof {
                    crate::store::lemma_key_idx_is(self.members@, *account, i as int);
                }
                self.members[i].1.shares != 0
            },
            None => false,
        }
    }

    /// Membership gate for proposing and exiting.
    pub fn check_for_membership(&self, account: &ActorId) -> (r: Result<(), DaoError>)
        requires
            self.wf(),
        ensures
            r == if self.spec_is_member(*account) {
                Ok::<(), DaoError>(())
            } else {
                Err::<(), DaoError>(DaoError::NotAuthorized)
            },
    {
        if self.is_member(account) {
            Ok(())
        } else {
            Err(DaoError::NotAuthorized)
        }
    }

    /// Shares a deposit of `tokens` mints at the fund's current valuation.
    pub fn calculate_share(&self, tokens: u128) -> (r: u128)
        requires
            self.balance > 0 ==> self.total_shares * tokens <= u128::MAX,
        ensures
            r == self.spec_share_for(tokens),
    {
        if self.balance == 0 {
            return tokens;
        }
        (self.total_shares * tokens) / self.balance
    }

    /// Funds a member can redeem for `share` shares at the current
    /// valuation, clamping the intermediate product.
    pub fn redeemable_funds(&self, share: u128) -> (r: u128)
        requires
            self.total_shares > 0,
        ensures
            r == self.spec_redeemable(share),
    {
        match share.checked_mul(self.balance) {
            Some(product) => product / self.total_shares,
            None => u128::MAX / self.total_shares,
        }
    }

    /// Authorization tier of an account, for the read-only state queries.
    pub fn user_status(&self, account: &ActorId) -> (r: Role)
        requires
            self.wf(),
        ensures
            r == if self.spec_is_member(*account) {
                Role::Member
            } else {
                Role::Nonmember
            },
    {
        if self.is_member(account) {
            Role::Member
        } else {
            Role::Nonmember
        }
    }

    /// A read-only snapshot of the whole state, for reporting: the same
    /// data with the proposal store written out as explicit `(id, record)`
    /// pairs.
    pub fn snapshot(&self) -> (r: DaoState)
        requires
            self.wf(),
        ensures
            r.approved_token_program_id == self.approved_token_program_id,
            r.period_duration == self.period_duration,
            r.voting_period_length == self.voting_period_length,
            r.grace_period_length == self.grace_period_length,
            r.total_shares == self.total_shares,
            r.proposal_id == self.proposal_id,
            r.locked_funds == self.locked_funds,
            r.balance == self.balance,
            r.transaction_id == self.transaction_id,
            r.members@ == self.members@,
            r.transactions@ == self.transactions@,
            r.proposals@.len() == self.proposals@.len(),
            forall|i: int|
                0 <= i < self.proposals@.len() ==> (#[trigger] r.proposals@[i]).0 == i
                    && proposal_eq(r.proposals@[i].1, self.proposals@[i]),
    {
        let mut members: Vec<(ActorId, Member)> = Vec::new();
        let mut i: usize = 0;
        while i < self.members.len()
            invariant
                i <= self.members@.len(),
                members@ =~= self.members@.subrange(0, i as int),
            decreases self.members@.len() - i,
        {
            members.push(self.members[i]);
            proof {
                assert(members@ =~= self.members@.subrange(0, i + 1));
            }
            i = i + 1;
        }
        proof {
            assert(members@ =~= self.members@);
        }

        let mut proposals: Vec<(u128, Proposal)> = Vec::new();
        let mut j: usize = 0;
        while j < self.proposals.len()
            invariant
                j <= self.proposals@.len(),
                proposals@.len() == j,
                forall|k: int|
                    0 <= k < j ==> (#[trigger] proposals@[k]).0 == k && proposal_eq(
                        proposals@[k].1,
                        self.proposals@[k],
                    ),
            decreases self.proposals@.len() - j,
        {
            proposals.push((j as u128, clone_proposal(&self.proposals[j])));
            j = j + 1;
        }

        let mut transactions: Vec<(u64, Option<DaoAction>)> = Vec::new();
        let mut k: usize = 0;
        while k < self.transactions.len()
            invariant
                self.wf(),
                k <= self.transactions@.len(),
                transactions@ =~= self.transactions@.subrange(0, k as int),
            decreases self.transactions@.len() - k,
        {
            let entry = &self.transactions[k];
            let action: Option<DaoAction> = match &entry.1 {
                Some(DaoAction::Deposit { amount }) => Some(
                    DaoAction::Deposit { amount: *amount },
                ),
                Some(DaoAction::ProcessProposal { proposal_id }) => Some(
                    DaoAction::ProcessProposal { proposal_id: *proposal_id },
                ),
                Some(DaoAction::RageQuit { amount }) => Some(
                    DaoAction::RageQuit { amount: *amount },
                ),
                _ => {
                    proof {
                        assert(fund_action(self.transactions@[k as int].1));
                        assert(false);
                    }
                    None
                },
            };
            transactions.push((entry.0, action));
            proof {
                assert(transactions@ =~= self.transactions@.subrange(0, k + 1));
            }
            k = k + 1;
        }
        proof {
            assert(transactions@ =~= self.transactions@);
        }

        DaoState {
            approved_token_program_id: self.approved_token_program_id,
            period_duration: self.period_duration,
            voting_period_length: self.voting_period_length,
            grace_period_length: self.grace_period_length,
            total_shares: self.total_shares,
            members,
            proposal_id: self.proposal_id,
            locked_funds: self.locked_funds,
            proposals,
            balance: self.balance,
            transaction_id: self.transaction_id,
            transactions,
        }
    }

    /// Reuses an explicit id when an interrupted action is resumed, else
    /// allocates the next id and advances the wrapping counter.
    pub fn get_transaction_id(&mut self, transaction_id: Option<u64>) -> (r: u64)
        ensures
            match transaction_id {
                Some(t) => r == t && *final(self) == *old(self),
                None => r == old(self).transaction_id && *final(self) == Dao {
                    transaction_id: wrap_inc(old(self).transaction_id),
                    ..*old(self)
                },
            },
    {
        match transaction_id {
            Some(t) => t,
            None => {
                let t = self.transaction_id;
                self.transaction_id = if self.transaction_id == u64::MAX {
                    0
                } else {
                    self.transaction_id + 1
                };
                t
            },
        }
    }
}

} // verus!
