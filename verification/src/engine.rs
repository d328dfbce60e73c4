//! The orchestrator: one handler per inbound action. Purely local actions
//! (submitting a proposal, voting) conclude in one call. Fund-moving
//! actions are split at the suspension point: a `*_begin` handler
//! validates, journals and returns the remote transfer to issue, and a
//! `*_complete` handler applies or abandons the local mutation once the
//! transfer's outcome is known. `continue_transaction` resumes a journaled
//! action under its original transaction id.

use vstd::prelude::*;
use crate::types::ActorId;
use crate::types::DaoAction;
use crate::types::DaoError;
use crate::types::DaoEvent;
use crate::types::EngineStep;
use crate::types::Member;
use crate::types::Proposal;
use crate::types::TransferDirection;
use crate::types::TransferRequest;
use crate::types::Vote;
use crate::dao::Dao;
use crate::dao::wrap_inc;
use crate::store::has_key;
use crate::store::find_index;
use crate::store::lemma_key_idx_is;
use crate::store::lemma_push_value;
use crate::store::lemma_sum_update;
use crate::store::lemma_update_value;
use crate::store::unique_keys;

verus! {

impl Dao {
    /// Reserve funds for a directed payment and open its voting window.
    ///
    /// Purely local: no journal entry and no remote call. The new
    /// proposal's window starts at `now`, pushed back so that consecutive
    /// proposals start at least `period_duration` apart. The quorum is a
    /// percentage of the total shares, so callers keep it within 0 to 100;
    /// a larger value would name a threshold no vote could express.
    pub fn submit_funding_proposal(
        &mut self,
        proposer: ActorId,
        receiver: ActorId,
        amount: u128,
        quorum: u128,
        details: String,
        now: u64,
    ) -> (r: Result<DaoEvent, DaoError>)
        requires
            old(self).wf(),
            quorum <= 100,
            old(self).spec_is_member(proposer) && receiver != 0 && amount
                <= old(self).spec_available() ==> old(self).next_starting_period(now)
                + old(self).voting_period_length <= u64::MAX,
        ensures
            final(self).wf(),
            old(self).funds_ok() ==> final(self).funds_ok(),
            !old(self).spec_is_member(proposer) ==> r == Err::<DaoEvent, DaoError>(
                DaoError::NotAuthorized,
            ) && *final(self) == *old(self),
            old(self).spec_is_member(proposer) && receiver == 0 ==> r == Err::<
                DaoEvent,
                DaoError,
            >(DaoError::InvalidReceiver) && *final(self) == *old(self),
            old(self).spec_is_member(proposer) && receiver != 0 && amount > old(
                self,
            ).spec_available() ==> r == Err::<DaoEvent, DaoError>(DaoError::InsufficientFunds)
                && *final(self) == *old(self),
            old(self).spec_is_member(proposer) && receiver != 0 && amount <= old(
                self,
            ).spec_available() ==> {
                let p = final(self).proposals@.last();
                &&& r == Ok::<DaoEvent, DaoError>(
                    DaoEvent::SubmitFundingProposal {
                        proposer,
                        receiver,
                        proposal_id: old(self).proposal_id,
                        amount,
                    },
                )
                &&& final(self).proposals@.len() == old(self).proposals@.len() + 1
                &&& forall|i: int|
                    0 <= i < old(self).proposals@.len() ==> final(self).proposals@[i] == old(
                        self,
                    ).proposals@[i]
                &&& p.proposer == proposer
                &&& p.receiver == receiver
                &&& p.yes_votes == 0
                &&& p.no_votes == 0
                &&& p.quorum == quorum
                &&& p.amount == amount
                &&& !p.processed
                &&& !p.passed
                &&& p.details == details
                &&& p.starting_period == old(self).next_starting_period(now)
                &&& p.ended_at == old(self).next_starting_period(now) + old(
                    self,
                ).voting_period_length
                &&& p.votes_by_member@.len() == 0
                &&& final(self).proposal_id == old(self).proposal_id + 1
                &&& final(self).locked_funds == old(self).locked_funds + amount
                &&& final(self).members@ == old(self).members@
                &&& final(self).total_shares == old(self).total_shares
                &&& final(self).balance == old(self).balance
                &&& final(self).transaction_id == old(self).transaction_id
                &&& final(self).transactions@ == old(self).transactions@
            },
            final(self).approved_token_program_id == old(self).approved_token_program_id,
            final(self).period_duration == old(self).period_duration,
            final(self).voting_period_length == old(self).voting_period_length,
            final(self).grace_period_length == old(self).grace_period_length,
    {
        if !self.is_member(&proposer) {
            return Err(DaoError::NotAuthorized);
        }
        if receiver == 0 {
            return Err(DaoError::InvalidReceiver);
        }
        if self.balance.saturating_sub(self.locked_funds) < amount {
            return Err(DaoError::InsufficientFunds);
        }

        let mut starting_period = now;
        if self.proposals.len() > 0 {
            let previous_starting_period =
                self.proposals[self.proposals.len() - 1].starting_period;
            let earliest = previous_starting_period + self.period_duration;
            if starting_period < earliest {
                starting_period = earliest;
            }
        }

        let proposal_id = self.proposal_id;
        let proposal = Proposal {
            proposer,
            receiver,
            yes_votes: 0,
            no_votes: 0,
            quorum,
            amount,
            processed: false,
            passed: false,
            details,
            starting_period,
            ended_at: starting_period + self.voting_period_length,
            votes_by_member: Vec::new(),
        };
        self.proposals.push(proposal);
        self.proposal_id = self.proposal_id.saturating_add(1);
        self.locked_funds = self.locked_funds.saturating_add(amount);

        proof {
            let s = self.proposals@;
            let n = s.len() - 1;
            assert forall|i: int| 0 <= i < s.len() implies self.proposal_wf(
                #[trigger] s[i],
            ) by {
                if i < n {
                    assert(old(self).proposal_wf(old(self).proposals@[i]));
                }
            }
            assert forall|i: int, j: int| #![trigger s[i], s[j]]
                0 <= i < j < s.len() && s[j].processed implies s[i].processed by {
                assert(j < n);
            }
        }

        Ok(
            DaoEvent::SubmitFundingProposal { proposer, receiver, proposal_id, amount },
        )
    }
    /// Record one member's ballot on an open proposal.
    ///
    /// Purely local. A yes ballot adds the member's current shares to the
    /// yes tally and raises the member's exit-gating watermark to this
    /// proposal if it is the newest one the member voted yes on; a no
    /// ballot only adds to the no tally. Each account votes at most once
    /// per proposal, and a processed proposal takes no ballot at all:
    /// once finalized, its verdict, tallies and vote records never change.
    pub fn submit_vote(
        &mut self,
        account: ActorId,
        proposal_id: u128,
        vote: Vote,
        now: u64,
    ) -> (r: Result<DaoEvent, DaoError>)
        requires
            old(self).wf(),
        ensures
            final(self).wf(),
            old(self).funds_ok() ==> final(self).funds_ok(),
            final(self).approved_token_program_id == old(self).approved_token_program_id,
            final(self).period_duration == old(self).period_duration,
            final(self).voting_period_length == old(self).voting_period_length,
            final(self).grace_period_length == old(self).grace_period_length,
            final(self).total_shares == old(self).total_shares,
            final(self).balance == old(self).balance,
            final(self).locked_funds == old(self).locked_funds,
            final(self).proposal_id == old(self).proposal_id,
            final(self).transaction_id == old(self).transaction_id,
            final(self).transactions@ == old(self).transactions@,
            !old(self).spec_is_member(account) ==> r == Err::<DaoEvent, DaoError>(
                DaoError::NotAuthorized,
            ) && *final(self) == *old(self),
            old(self).spec_is_member(account) && proposal_id >= old(self).proposals@.len() ==> r
                == Err::<DaoEvent, DaoError>(DaoError::ProposalNotFound) && *final(self) == *old(
                self,
            ),
            old(self).spec_is_member(account) && proposal_id < old(self).proposals@.len() && (old(
                self,
            ).proposals@[proposal_id as int].processed || now > old(
                self,
            ).proposals@[proposal_id as int].ended_at) ==> r == Err::<DaoEvent, DaoError>(
                DaoError::VotingExpired,
            ) && *final(self) == *old(self),
            old(self).spec_is_member(account) && proposal_id < old(self).proposals@.len() && !old(
                self,
            ).proposals@[proposal_id as int].processed && now <= old(
                self,
            ).proposals@[proposal_id as int].ended_at && now < old(
                self,
            ).proposals@[proposal_id as int].starting_period ==> r == Err::<DaoEvent, DaoError>(
                DaoError::VotingNotStarted,
            ) && *final(self) == *old(self),
            old(self).vote_admissible(account, proposal_id, now) && has_key(
                old(self).proposals@[proposal_id as int].votes_by_member@,
                account,
            ) ==> r == Err::<DaoEvent, DaoError>(DaoError::AlreadyVoted) && *final(self) == *old(
                self,
            ),
            old(self).vote_admissible(account, proposal_id, now) && !has_key(
                old(self).proposals@[proposal_id as int].votes_by_member@,
                account,
            ) ==> {
                let p = old(self).proposals@[proposal_id as int];
                let q = final(self).proposals@[proposal_id as int];
                let shares = old(self).spec_member(account).shares;
                &&& r == Ok::<DaoEvent, DaoError>(
                    DaoEvent::SubmitVote { account, proposal_id, vote },
                )
                &&& final(self).proposals@.len() == old(self).proposals@.len()
                &&& forall|i: int|
                    0 <= i < old(self).proposals@.len() && i != proposal_id
                        ==> final(self).proposals@[i] == old(self).proposals@[i]
                &&& q.votes_by_member@ == p.votes_by_member@.push((account, vote))
                &&& (vote == Vote::Yes ==> q.yes_votes == p.yes_votes.saturating_add(shares)
                    && q.no_votes == p.no_votes)
                &&& (vote == Vote::No ==> q.no_votes == p.no_votes.saturating_add(shares)
                    && q.yes_votes == p.yes_votes)
                &&& q.proposer == p.proposer
                &&& q.receiver == p.receiver
                &&& q.quorum == p.quorum
                &&& q.amount == p.amount
                &&& q.processed == p.processed
                &&& q.passed == p.passed
                &&& q.details == p.details
                &&& q.starting_period == p.starting_period
                &&& q.ended_at == p.ended_at
                &&& forall|a: ActorId| final(self).spec_has_account(a) == old(
                    self,
                ).spec_has_account(a)
                &&& (vote == Vote::No ==> final(self).members@ == old(self).members@)
                &&& (vote == Vote::Yes ==> final(self).spec_member(account) == raised_watermark(
                    old(self).spec_member(account),
                    proposal_id,
                ) && forall|a: ActorId|
                    a != account && old(self).spec_has_account(a)
                        ==> #[trigger] final(self).spec_member(a) == old(self).spec_member(a))
            },
    {
        let mi = match find_index(&self.members, account) {
            Some(mi) => mi,
            None => {
                return Err(DaoError::NotAuthorized);
            },
        };
        proof {
            lemma_key_idx_is(self.members@, account, mi as int);
        }
        let shares = self.members[mi].1.shares;
        if shares == 0 {
            return Err(DaoError::NotAuthorized);
        }
        if proposal_id >= self.proposals.len() as u128 {
            return Err(DaoError::ProposalNotFound);
        }
        let pid = proposal_id as usize;
        if self.proposals[pid].processed || now > self.proposals[pid].ended_at {
            return Err(DaoError::VotingExpired);
        }
        if now < self.proposals[pid].starting_period {
            return Err(DaoError::VotingNotStarted);
        }
        if find_index(&self.proposals[pid].votes_by_member, account).is_some() {
            return Err(DaoError::AlreadyVoted);
        }

        let ghost old_votes = self.proposals@[pid as int].votes_by_member@;
        let p = &mut self.proposals[pid];
        match vote {
            Vote::Yes => {
                p.yes_votes = p.yes_votes.saturating_add(shares);
            },
            Vote::No => {
                p.no_votes = p.no_votes.saturating_add(shares);
            },
        }
        p.votes_by_member.push((account, vote));
        proof {
            lemma_push_value(old_votes, account, vote);
        }

        if let Vote::Yes = vote {
            let ghost old_members = self.members@;
            let m = &mut self.members[mi].1;
            match m.highest_index_yes_vote {
                Some(w) => {
                    if w < proposal_id {
                        m.highest_index_yes_vote = Some(proposal_id);
                    }
                },
                None => {
                    m.highest_index_yes_vote = Some(proposal_id);
                },
            }
            proof {
                let mv = self.members@[mi as int].1;
                assert(self.members@ =~= old_members.update(
                    mi as int,
                    (account, mv),
                ));
                lemma_update_value(old_members, mi as int, mv);
                lemma_sum_update(old_members, mi as int, account, mv);
            }
        }

        proof {
            let s = self.proposals@;
            let n = proposal_id as int;
            assert forall|i: int| 0 <= i < s.len() implies self.proposal_wf(
                #[trigger] s[i],
            ) by {
                assert(old(self).proposal_wf(old(self).proposals@[i]));
            }
            assert forall|i: int, j: int| #![trigger s[i], s[j]]
                0 <= i < j < s.len() && s[j].processed implies s[i].processed by {
                assert(old(self).proposals@[j].processed ==> old(self).proposals@[i].processed);
            }
        }

        Ok(DaoEvent::SubmitVote { account, proposal_id, vote })
    }
}

impl Dao {
    /// Journal phase of §begin: bind `tid` to the action that is about to
    /// issue a remote transfer, overwriting a resumed entry in place.
    fn journal_begin(&mut self, tid: u64, action: DaoAction)
        requires
            unique_keys(old(self).transactions@),
            crate::dao::fund_action(Some(action)),
            forall|i: int|
                0 <= i < old(self).transactions@.len() ==> crate::dao::fund_action(
                    (#[trigger] old(self).transactions@[i]).1,
                ),
        ensures
            unique_keys(final(self).transactions@),
            old(self).journal_updated(*final(self), tid, action),
            old(self).same_except_journal(*final(self)),
            forall|i: int|
                0 <= i < final(self).transactions@.len() ==> crate::dao::fund_action(
                    (#[trigger] final(self).transactions@[i]).1,
                ),
    {
        let ghost s = self.transactions@;
        match find_index(&self.transactions, tid) {
            Some(i) => {
                proof {
                    lemma_key_idx_is(s, tid, i as int);
                }
                let entry = &mut self.transactions[i];
                entry.1 = Some(action);
                proof {
                    assert(self.transactions@ =~= s.update(i as int, (tid, Some(action))));
                    lemma_update_value(s, i as int, Some(action));
                }
            },
            None => {
                self.transactions.push((tid, Some(action)));
                proof {
                    lemma_push_value(s, tid, Some(action));
                }
            },
        }
    }

    /// Open a deposit: journal the action, then hand back the incoming
    /// transfer the caller must issue on the token ledger.
    ///
    /// A deposit needs no local validation; any account may fund the DAO.
    /// A fresh call allocates the next transaction id; a resumed call
    /// (`transaction_id` given) reuses the journaled id so the ledger can
    /// deduplicate the replayed transfer.
    pub fn deposit_begin(
        &mut self,
        caller: ActorId,
        amount: u128,
        transaction_id: Option<u64>,
    ) -> (r: TransferRequest)
        requires
            old(self).wf(),
        ensures
            final(self).wf(),
            old(self).funds_ok() ==> final(self).funds_ok(),
            deposit_begun(*old(self), *final(self), caller, amount, transaction_id, r),
    {
        let current_transaction_id = self.get_transaction_id(transaction_id);
        self.journal_begin(current_transaction_id, DaoAction::Deposit { amount });
        TransferRequest {
            transaction_id: current_transaction_id,
            token_program: self.approved_token_program_id,
            direction: TransferDirection::Incoming { from: caller },
            amount,
        }
    }

    /// Settle a deposit once its incoming transfer concluded.
    ///
    /// On success, mint shares at the fund's pre-deposit valuation, credit
    /// the depositor and the balance, and close the journal entry. On
    /// failure, only close the journal entry: nothing was moved, and the
    /// caller may retry as a fresh action. The caller keeps the minted
    /// share within what the share supply can still absorb: past that
    /// point the supply would clamp and could no longer equal the sum of
    /// the members' shares.
    pub fn deposit_complete(
        &mut self,
        caller: ActorId,
        amount: u128,
        transaction_id: u64,
        transfer_ok: bool,
    ) -> (r: DaoEvent)
        requires
            old(self).wf(),
            transfer_ok && old(self).balance > 0 ==> old(self).total_shares * amount
                <= u128::MAX,
            transfer_ok ==> old(self).total_shares + old(self).spec_share_for(amount)
                <= u128::MAX,
        ensures
            final(self).wf(),
            old(self).journal_erased(*final(self), transaction_id),
            !transfer_ok ==> old(self).same_except_journal(*final(self)) && r
                == DaoEvent::TransactionFailed(transaction_id),
            transfer_ok ==> {
                let share = old(self).spec_share_for(amount) as u128;
                &&& r == (DaoEvent::Deposit { member: caller, share })
                &&& final(self).total_shares == old(self).total_shares + share
                &&& final(self).balance == old(self).balance.saturating_add(amount)
                &&& forall|a: ActorId| #[trigger] final(self).spec_has_account(a) == (old(
                    self,
                ).spec_has_account(a) || a == caller)
                &&& (old(self).spec_has_account(caller) ==> final(self).spec_member(caller)
                    == (Member {
                    shares: (old(self).spec_member(caller).shares + share) as u128,
                    highest_index_yes_vote: old(
                        self,
                    ).spec_member(caller).highest_index_yes_vote,
                }))
                &&& (!old(self).spec_has_account(caller) ==> final(self).spec_member(caller)
                    == (Member { shares: share, highest_index_yes_vote: None }))
                &&& forall|a: ActorId|
                    a != caller && old(self).spec_has_account(a)
                        ==> #[trigger] final(self).spec_member(a) == old(self).spec_member(a)
                &&& final(self).locked_funds == old(self).locked_funds
                &&& final(self).proposals@ == old(self).proposals@
                &&& final(self).proposal_id == old(self).proposal_id
                &&& final(self).transaction_id == old(self).transaction_id
            },
            old(self).funds_ok() ==> final(self).funds_ok(),
            final(self).approved_token_program_id == old(self).approved_token_program_id,
            final(self).period_duration == old(self).period_duration,
            final(self).voting_period_length == old(self).voting_period_length,
            final(self).grace_period_length == old(self).grace_period_length,
    {
        if !transfer_ok {
            self.journal_end(transaction_id);
            return DaoEvent::TransactionFailed(transaction_id);
        }
        let share = self.calculate_share(amount);
        let ghost old_members = self.members@;
        match find_index(&self.members, caller) {
            Some(mi) => {
                proof {
                    lemma_key_idx_is(old_members, caller, mi as int);
                    crate::store::lemma_elem_le_sum(old_members, mi as int);
                }
                let m = &mut self.members[mi].1;
                m.shares = m.shares.saturating_add(share);
                proof {
                    let mv = self.members@[mi as int].1;
                    assert(self.members@ =~= old_members.update(mi as int, (caller, mv)));
                    lemma_update_value(old_members, mi as int, mv);
                    lemma_sum_update(old_members, mi as int, caller, mv);
                }
            },
            None => {
                self.members.push(
                    (caller, Member { shares: share, highest_index_yes_vote: None }),
                );
                proof {
                    lemma_push_value(
                        old_members,
                        caller,
                        Member { shares: share, highest_index_yes_vote: None },
                    );
                    crate::store::lemma_sum_push(
                        old_members,
                        caller,
                        Member { shares: share, highest_index_yes_vote: None },
                    );
                }
            },
        }
        self.total_shares = self.total_shares.saturating_add(share);
        self.balance = self.balance.saturating_add(amount);
        self.journal_end(transaction_id);
        DaoEvent::Deposit { member: caller, share }
    }

    /// Open a member's exit: validate, journal, and hand back the outgoing
    /// transfer that redeems `amount` shares at the current valuation.
    ///
    /// The exit is blocked while the newest proposal the member voted yes
    /// on is still unprocessed, so a member cannot withdraw funds that a
    /// payment it endorsed may still need.
    pub fn ragequit_begin(
        &mut self,
        caller: ActorId,
        amount: u128,
        transaction_id: Option<u64>,
    ) -> (r: Result<TransferRequest, DaoError>)
        requires
            old(self).wf(),
        ensures
            final(self).wf(),
            old(self).funds_ok() ==> final(self).funds_ok(),
            ragequit_begun(*old(self), *final(self), caller, amount, transaction_id, r),
    {
        let mi = match find_index(&self.members, caller) {
            Some(mi) => mi,
            None => {
                return Err(DaoError::NotAuthorized);
            },
        };
        proof {
            lemma_key_idx_is(self.members@, caller, mi as int);
            crate::store::lemma_elem_le_sum(self.members@, mi as int);
        }
        let member = self.members[mi].1;
        if member.shares == 0 {
            return Err(DaoError::NotAuthorized);
        }
        if amount > member.shares {
            return Err(DaoError::InsufficientShares);
        }
        if let Some(w) = member.highest_index_yes_vote {
            if w < self.proposals.len() as u128 {
                let wi = w as usize;
                if !self.proposals[wi].processed {
                    return Err(DaoError::ExitBlocked);
                }
            }
        }
        let funds = self.redeemable_funds(amount);
        let current_transaction_id = self.get_transaction_id(transaction_id);
        self.journal_begin(current_transaction_id, DaoAction::RageQuit { amount });
        Ok(
            TransferRequest {
                transaction_id: current_transaction_id,
                token_program: self.approved_token_program_id,
                direction: TransferDirection::Outgoing { to: caller },
                amount: funds,
            },
        )
    }

    /// Settle a member's exit once its outgoing transfer concluded.
    ///
    /// On success, burn the exiting shares and debit the redeemed funds,
    /// both computed against the pre-withdrawal totals, and close the
    /// journal entry. On failure, only close the journal entry: custody
    /// was not changed.
    pub fn ragequit_complete(
        &mut self,
        caller: ActorId,
        amount: u128,
        transaction_id: u64,
        transfer_ok: bool,
    ) -> (r: DaoEvent)
        requires
            old(self).wf(),
            transfer_ok ==> old(self).spec_is_member(caller) && amount <= old(self).spec_member(
                caller,
            ).shares,
        ensures
            final(self).wf(),
            old(self).journal_erased(*final(self), transaction_id),
            !transfer_ok ==> old(self).same_except_journal(*final(self)) && r
                == DaoEvent::TransactionFailed(transaction_id),
            transfer_ok ==> {
                let funds = old(self).spec_redeemable(amount) as u128;
                &&& r == (DaoEvent::RageQuit { member: caller, amount: funds })
                &&& final(self).spec_member(caller) == (Member {
                    shares: (old(self).spec_member(caller).shares - amount) as u128,
                    highest_index_yes_vote: old(
                        self,
                    ).spec_member(caller).highest_index_yes_vote,
                })
                &&& forall|a: ActorId| #[trigger] final(self).spec_has_account(a) == old(
                    self,
                ).spec_has_account(a)
                &&& forall|a: ActorId|
                    a != caller && old(self).spec_has_account(a)
                        ==> #[trigger] final(self).spec_member(a) == old(self).spec_member(a)
                &&& final(self).total_shares == old(self).total_shares - amount
                &&& final(self).balance == old(self).balance - funds
                &&& final(self).locked_funds == old(self).locked_funds
                &&& final(self).proposals@ == old(self).proposals@
                &&& final(self).proposal_id == old(self).proposal_id
                &&& final(self).transaction_id == old(self).transaction_id
                &&& (old(self).funds_ok() && old(self).locked_funds + funds <= old(self).balance
                    ==> final(self).funds_ok())
            },
            !transfer_ok && old(self).funds_ok() ==> final(self).funds_ok(),
            final(self).approved_token_program_id == old(self).approved_token_program_id,
            final(self).period_duration == old(self).period_duration,
            final(self).voting_period_length == old(self).voting_period_length,
            final(self).grace_period_length == old(self).grace_period_length,
    {
        if !transfer_ok {
            self.journal_end(transaction_id);
            return DaoEvent::TransactionFailed(transaction_id);
        }
        let ghost old_members = self.members@;
        let mi = match find_index(&self.members, caller) {
            Some(mi) => mi,
            None => {
                // unreachable: on a successful transfer the caller is a member
                proof {
                    assert(false);
                }
                return DaoEvent::TransactionFailed(transaction_id);
            },
        };
        proof {
            lemma_key_idx_is(old_members, caller, mi as int);
            crate::store::lemma_elem_le_sum(old_members, mi as int);
            lemma_redeemable_le_balance(*self, amount);
        }
        let funds = self.redeemable_funds(amount);
        let m = &mut self.members[mi].1;
        m.shares = m.shares.saturating_sub(amount);
        proof {
            let mv = self.members@[mi as int].1;
            assert(self.members@ =~= old_members.update(mi as int, (caller, mv)));
            lemma_update_value(old_members, mi as int, mv);
            lemma_sum_update(old_members, mi as int, caller, mv);
        }
        self.total_shares = self.total_shares.saturating_sub(amount);
        self.balance = self.balance.saturating_sub(funds);
        self.journal_end(transaction_id);
        DaoEvent::RageQuit { member: caller, amount: funds }
    }

    /// Finalize a proposal: decide whether it passed and, if it did,
    /// journal the payout and hand back the outgoing transfer to issue.
    ///
    /// Proposals are finalized strictly in id order, only after their
    /// voting window plus the grace period have elapsed. The decision is
    /// final once computed: a fresh call (`transaction_id` absent) applies
    /// the quorum rule to the recorded votes and stores the verdict, while
    /// a resumed call (`transaction_id` given) replays the stored verdict
    /// without recomputing it. A proposal that did not pass is concluded
    /// on the spot: its reserved funds are released and no transfer is
    /// attempted.
    pub fn process_proposal_begin(
        &mut self,
        proposal_id: u128,
        transaction_id: Option<u64>,
        now: u64,
    ) -> (r: Result<EngineStep, DaoError>)
        requires
            old(self).wf(),
            old(self).finalize_precheck(proposal_id) ==> old(self).proposals@[proposal_id as int].ended_at
                + old(self).grace_period_length <= u64::MAX,
            transaction_id.is_none() && old(self).finalize_admissible(proposal_id, now) ==> old(
                self,
            ).total_shares > 0 && old(self).proposals@[proposal_id as int].yes_votes * 10000
                <= u128::MAX,
        ensures
            final(self).wf(),
            old(self).funds_ok() ==> final(self).funds_ok(),
            process_begun(*old(self), *final(self), proposal_id, transaction_id, now, r),
    {
        if proposal_id > 0 {
            let prev_id = proposal_id - 1;
            if prev_id < self.proposals.len() as u128 {
                if !self.proposals[prev_id as usize].processed {
                    return Err(DaoError::PreviousNotProcessed);
                }
            }
        }
        if proposal_id >= self.proposals.len() as u128 {
            return Err(DaoError::ProposalNotFound);
        }
        let pid = proposal_id as usize;
        if self.proposals[pid].processed {
            return Err(DaoError::AlreadyProcessed);
        }
        if now < self.proposals[pid].ended_at + self.grace_period_length {
            return Err(DaoError::NotReady);
        }

        let current_transaction_id = self.get_transaction_id(transaction_id);
        let decision = match transaction_id {
            Some(_) => self.proposals[pid].passed,
            None => {
                let yes_votes = self.proposals[pid].yes_votes;
                let no_votes = self.proposals[pid].no_votes;
                let quorum = self.proposals[pid].quorum;
                yes_votes > no_votes && yes_votes * 10000 / self.total_shares >= quorum * 100
            },
        };
        let amount = self.proposals[pid].amount;
        let receiver = self.proposals[pid].receiver;
        let ghost mid = *self;

        if decision {
            let p = &mut self.proposals[pid];
            p.passed = true;
            proof {
                self.lemma_proposal_field_update(mid, pid as int);
            }
            self.journal_begin(
                current_transaction_id,
                DaoAction::ProcessProposal { proposal_id },
            );
            Ok(
                EngineStep::TransferPending(
                    TransferRequest {
                        transaction_id: current_transaction_id,
                        token_program: self.approved_token_program_id,
                        direction: TransferDirection::Outgoing { to: receiver },
                        amount,
                    },
                ),
            )
        } else {
            let p = &mut self.proposals[pid];
            p.passed = false;
            p.processed = true;
            proof {
                self.lemma_proposal_field_update(mid, pid as int);
                let s = self.proposals@;
                assert forall|i: int, j: int| #![trigger s[i], s[j]]
                    0 <= i < j < s.len() && s[j].processed implies s[i].processed by {
                    if j != pid as int {
                        assert(mid.proposals@[j].processed ==> mid.proposals@[i].processed);
                    } else if i < pid as int {
                        if proposal_id > 0 {
                            assert(mid.proposals@[proposal_id - 1].processed);
                            if i < proposal_id - 1 {
                                assert(mid.proposals@[proposal_id - 1].processed
                                    ==> mid.proposals@[i].processed);
                            }
                        }
                    }
                }
            }
            self.locked_funds = self.locked_funds.saturating_sub(amount);
            self.journal_end(current_transaction_id);
            Ok(
                EngineStep::Finalized(DaoEvent::ProcessProposal { proposal_id, passed: false }),
            )
        }
    }

    /// Proposal-store well-formedness survives an update that keeps every
    /// field the per-proposal invariant speaks of.
    proof fn lemma_proposal_field_update(self, pre: Dao, pid: int)
        requires
            pre.wf(),
            0 <= pid < pre.proposals@.len(),
            self.proposals@.len() == pre.proposals@.len(),
            forall|i: int|
                0 <= i < pre.proposals@.len() && i != pid ==> self.proposals@[i]
                    == pre.proposals@[i],
            self.proposals@[pid].quorum == pre.proposals@[pid].quorum,
            self.proposals@[pid].ended_at == pre.proposals@[pid].ended_at,
            self.proposals@[pid].starting_period == pre.proposals@[pid].starting_period,
            self.proposals@[pid].votes_by_member@ == pre.proposals@[pid].votes_by_member@,
            self.period_duration == pre.period_duration,
            self.voting_period_length == pre.voting_period_length,
            self.grace_period_length == pre.grace_period_length,
        ensures
            forall|i: int|
                0 <= i < self.proposals@.len() ==> self.proposal_wf(
                    #[trigger] self.proposals@[i],
                ),
    {
        assert forall|i: int| 0 <= i < self.proposals@.len() implies self.proposal_wf(
            #[trigger] self.proposals@[i],
        ) by {
            assert(pre.proposal_wf(pre.proposals@[i]));
        }
    }

    /// Settle a passed proposal's payout once its outgoing transfer
    /// concluded.
    ///
    /// On success, release the reservation, debit the balance, mark the
    /// proposal processed and close the journal entry. On failure, leave
    /// everything as it was — the stored verdict and journal entry
    /// included — so the caller can retry the same payout under the same
    /// transaction id via a continue request.
    pub fn process_proposal_complete(
        &mut self,
        proposal_id: u128,
        transaction_id: u64,
        transfer_ok: bool,
    ) -> (r: DaoEvent)
        requires
            old(self).wf(),
            transfer_ok ==> old(self).finalize_precheck(proposal_id) && old(
                self,
            ).proposals@[proposal_id as int].passed,
        ensures
            final(self).wf(),
            old(self).funds_ok() ==> final(self).funds_ok(),
            !transfer_ok ==> *final(self) == *old(self) && r == DaoEvent::TransactionFailed(
                transaction_id,
            ),
            transfer_ok ==> {
                let p = old(self).proposals@[proposal_id as int];
                let q = final(self).proposals@[proposal_id as int];
                &&& r == (DaoEvent::ProcessProposal { proposal_id, passed: true })
                &&& final(self).proposals@.len() == old(self).proposals@.len()
                &&& forall|i: int|
                    0 <= i < old(self).proposals@.len() && i != proposal_id
                        ==> final(self).proposals@[i] == old(self).proposals@[i]
                &&& q == (Proposal { processed: true, ..p })
                &&& final(self).locked_funds == old(self).locked_funds.saturating_sub(p.amount)
                &&& final(self).balance == old(self).balance.saturating_sub(p.amount)
                &&& old(self).journal_erased(*final(self), transaction_id)
                &&& final(self).members@ == old(self).members@
                &&& final(self).total_shares == old(self).total_shares
                &&& final(self).proposal_id == old(self).proposal_id
                &&& final(self).transaction_id == old(self).transaction_id
            },
            final(self).approved_token_program_id == old(self).approved_token_program_id,
            final(self).period_duration == old(self).period_duration,
            final(self).voting_period_length == old(self).voting_period_length,
            final(self).grace_period_length == old(self).grace_period_length,
    {
        if !transfer_ok {
            return DaoEvent::TransactionFailed(transaction_id);
        }
        proof {
            vstd::std_specs::vec::axiom_spec_len(&self.proposals);
        }
        let pid = proposal_id as usize;
        let amount = self.proposals[pid].amount;
        let ghost mid = *self;
        let p = &mut self.proposals[pid];
        p.processed = true;
        proof {
            self.lemma_proposal_field_update(mid, pid as int);
            let s = self.proposals@;
            assert forall|i: int, j: int| #![trigger s[i], s[j]]
                0 <= i < j < s.len() && s[j].processed implies s[i].processed by {
                if j != pid as int {
                    assert(mid.proposals@[j].processed ==> mid.proposals@[i].processed);
                } else if i < pid as int {
                    if proposal_id > 0 {
                        assert(mid.proposals@[proposal_id - 1].processed);
                        if i < proposal_id - 1 {
                            assert(mid.proposals@[proposal_id - 1].processed
                                ==> mid.proposals@[i].processed);
                        }
                    }
                }
            }
        }
        self.locked_funds = self.locked_funds.saturating_sub(amount);
        self.balance = self.balance.saturating_sub(amount);
        self.journal_end(transaction_id);
        DaoEvent::ProcessProposal { proposal_id, passed: true }
    }

    /// Recover what is in flight under a transaction id, so a caller can
    /// settle a resumed transfer with the matching second phase.
    pub fn transaction_lookup(&self, transaction_id: u64) -> (r: Option<DaoAction>)
        requires
            self.wf(),
        ensures
            r == if self.spec_has_txn(transaction_id) {
                self.spec_txn(transaction_id)
            } else {
                None::<DaoAction>
            },
    {
        let i = match find_index(&self.transactions, transaction_id) {
            Some(i) => i,
            None => {
                return None;
            },
        };
        proof {
            lemma_key_idx_is(self.transactions@, transaction_id, i as int);
        }
        match &self.transactions[i].1 {
            Some(DaoAction::Deposit { amount }) => Some(DaoAction::Deposit { amount: *amount }),
            Some(DaoAction::ProcessProposal { proposal_id }) => Some(
                DaoAction::ProcessProposal { proposal_id: *proposal_id },
            ),
            Some(DaoAction::RageQuit { amount }) => Some(DaoAction::RageQuit { amount: *amount }),
            _ => {
                // unreachable: only fund-moving actions are journaled
                proof {
                    assert(false);
                }
                None
            },
        }
    }

    /// Resume a journaled action after an interruption or a failed
    /// transfer: re-dispatch it under its original transaction id, so the
    /// remote transfer is retried under the identical id and the token
    /// ledger can deduplicate it.
    ///
    /// Only fund-moving actions ever journal, so only they can be resumed;
    /// an unknown id is rejected. The caller settles the returned transfer
    /// with the second phase matching the journaled action.
    pub fn continue_transaction(
        &mut self,
        caller: ActorId,
        transaction_id: u64,
        now: u64,
    ) -> (r: Result<EngineStep, DaoError>)
        requires
            old(self).wf(),
            match old(self).spec_txn_or_absent(transaction_id) {
                Some(DaoAction::ProcessProposal { proposal_id }) => old(self).finalize_precheck(
                    proposal_id,
                ) ==> old(self).proposals@[proposal_id as int].ended_at + old(
                    self,
                ).grace_period_length <= u64::MAX,
                _ => true,
            },
        ensures
            final(self).wf(),
            old(self).funds_ok() ==> final(self).funds_ok(),
            !old(self).spec_has_txn(transaction_id) ==> r == Err::<EngineStep, DaoError>(
                DaoError::TransactionNotFound,
            ) && *final(self) == *old(self),
            old(self).spec_has_txn(transaction_id) ==> match old(self).spec_txn(transaction_id) {
                Some(DaoAction::Deposit { amount }) => r matches Ok(
                    EngineStep::TransferPending(req),
                ) && deposit_begun(
                    *old(self),
                    *final(self),
                    caller,
                    amount,
                    Some(transaction_id),
                    req,
                ),
                Some(DaoAction::ProcessProposal { proposal_id }) => process_begun(
                    *old(self),
                    *final(self),
                    proposal_id,
                    Some(transaction_id),
                    now,
                    r,
                ),
                Some(DaoAction::RageQuit { amount }) => match r {
                    Ok(EngineStep::TransferPending(req)) => ragequit_begun(
                        *old(self),
                        *final(self),
                        caller,
                        amount,
                        Some(transaction_id),
                        Ok(req),
                    ),
                    Err(e) => ragequit_begun(
                        *old(self),
                        *final(self),
                        caller,
                        amount,
                        Some(transaction_id),
                        Err(e),
                    ),
                    _ => false,
                },
                _ => false,
            },
    {
        let i = match find_index(&self.transactions, transaction_id) {
            Some(i) => i,
            None => {
                return Err(DaoError::TransactionNotFound);
            },
        };
        proof {
            lemma_key_idx_is(self.transactions@, transaction_id, i as int);
        }
        let action: DaoAction = match &self.transactions[i].1 {
            Some(DaoAction::Deposit { amount }) => DaoAction::Deposit { amount: *amount },
            Some(DaoAction::ProcessProposal { proposal_id }) => DaoAction::ProcessProposal {
                proposal_id: *proposal_id,
            },
            Some(DaoAction::RageQuit { amount }) => DaoAction::RageQuit { amount: *amount },
            _ => {
                // unreachable: only fund-moving actions are journaled
                proof {
                    assert(false);
                }
                DaoAction::Continue(transaction_id)
            },
        };
        match action {
            DaoAction::Deposit { amount } => {
                let req = self.deposit_begin(caller, amount, Some(transaction_id));
                Ok(EngineStep::TransferPending(req))
            },
            DaoAction::ProcessProposal { proposal_id } => self.process_proposal_begin(
                proposal_id,
                Some(transaction_id),
                now,
            ),
            DaoAction::RageQuit { amount } => {
                match self.ragequit_begin(caller, amount, Some(transaction_id)) {
                    Ok(req) => Ok(EngineStep::TransferPending(req)),
                    Err(e) => Err(e),
                }
            },
            _ => {
                // unreachable: the first match only rebuilds fund-moving actions
                proof {
                    assert(false);
                }
                Err(DaoError::TransactionNotFound)
            },
        }
    }

    /// Conclude a journaled action: drop the binding for `tid`. Absence is
    /// not an error; ending twice is harmless.
    fn journal_end(&mut self, tid: u64)
        requires
            unique_keys(old(self).transactions@),
            forall|i: int|
                0 <= i < old(self).transactions@.len() ==> crate::dao::fund_action(
                    (#[trigger] old(self).transactions@[i]).1,
                ),
        ensures
            unique_keys(final(self).transactions@),
            old(self).journal_erased(*final(self), tid),
            old(self).same_except_journal(*final(self)),
            forall|i: int|
                0 <= i < final(self).transactions@.len() ==> crate::dao::fund_action(
                    (#[trigger] final(self).transactions@[i]).1,
                ),
    {
        let ghost s = self.transactions@;
        match find_index(&self.transactions, tid) {
            Some(i) => {
                proof {
                    lemma_key_idx_is(s, tid, i as int);
                    crate::store::lemma_remove_value(s, i as int);
                }
                self.transactions.remove(i);
                proof {
                    assert forall|k: int|
                        0 <= k < self.transactions@.len() implies crate::dao::fund_action(
                        (#[trigger] self.transactions@[k]).1,
                    ) by {
                        if k < i {
                            assert(self.transactions@[k] == s[k]);
                        } else {
                            assert(self.transactions@[k] == s[k + 1]);
                        }
                    }
                }
            },
            None => {},
        }
    }
}

/// How a deposit's first phase transforms the state `pre` into `post` and
/// produces the transfer request `r`: the action is journaled under the
/// allocated or reused transaction id, nothing else changes, and `r` asks
/// the token ledger to move `amount` from the depositor into custody.
pub open spec fn deposit_begun(
    pre: Dao,
    post: Dao,
    caller: ActorId,
    amount: u128,
    explicit: Option<u64>,
    r: TransferRequest,
) -> bool {
    &&& r.token_program == pre.approved_token_program_id
    &&& r.direction == (TransferDirection::Incoming { from: caller })
    &&& r.amount == amount
    &&& match explicit {
        Some(t) => r.transaction_id == t && post.transaction_id == pre.transaction_id,
        None => r.transaction_id == pre.transaction_id && post.transaction_id == wrap_inc(
            pre.transaction_id,
        ),
    }
    &&& pre.journal_updated(post, r.transaction_id, (DaoAction::Deposit { amount }))
    &&& post.members@ == pre.members@
    &&& post.proposals@ == pre.proposals@
    &&& post.total_shares == pre.total_shares
    &&& post.balance == pre.balance
    &&& post.locked_funds == pre.locked_funds
    &&& post.proposal_id == pre.proposal_id
    &&& post.approved_token_program_id == pre.approved_token_program_id
    &&& post.period_duration == pre.period_duration
    &&& post.voting_period_length == pre.voting_period_length
    &&& post.grace_period_length == pre.grace_period_length
}

/// How an exit's first phase relates `pre`, `post` and its result: either
/// one of the three rejections with the state untouched, or the action is
/// journaled and `r` carries the outgoing transfer that redeems `amount`
/// shares at the pre-withdrawal valuation.
pub open spec fn ragequit_begun(
    pre: Dao,
    post: Dao,
    caller: ActorId,
    amount: u128,
    explicit: Option<u64>,
    r: Result<TransferRequest, DaoError>,
) -> bool {
    &&& !pre.spec_is_member(caller) ==> r == Err::<TransferRequest, DaoError>(
        DaoError::NotAuthorized,
    ) && post == pre
    &&& pre.spec_is_member(caller) && amount > pre.spec_member(caller).shares ==> r == Err::<
        TransferRequest,
        DaoError,
    >(DaoError::InsufficientShares) && post == pre
    &&& pre.spec_is_member(caller) && amount <= pre.spec_member(caller).shares
        && !pre.exit_unblocked(caller) ==> r == Err::<TransferRequest, DaoError>(
        DaoError::ExitBlocked,
    ) && post == pre
    &&& pre.spec_is_member(caller) && amount <= pre.spec_member(caller).shares
        && pre.exit_unblocked(caller) ==> {
        let tid = match explicit {
            Some(t) => t,
            None => pre.transaction_id,
        };
        &&& r == Ok::<TransferRequest, DaoError>(
            TransferRequest {
                transaction_id: tid,
                token_program: pre.approved_token_program_id,
                direction: TransferDirection::Outgoing { to: caller },
                amount: pre.spec_redeemable(amount) as u128,
            },
        )
        &&& post.transaction_id == (match explicit {
            Some(_) => pre.transaction_id,
            None => wrap_inc(pre.transaction_id),
        })
        &&& pre.journal_updated(post, tid, (DaoAction::RageQuit { amount }))
        &&& post.members@ == pre.members@
        &&& post.proposals@ == pre.proposals@
        &&& post.total_shares == pre.total_shares
        &&& post.balance == pre.balance
        &&& post.locked_funds == pre.locked_funds
        &&& post.proposal_id == pre.proposal_id
    }
    &&& post.approved_token_program_id == pre.approved_token_program_id
    &&& post.period_duration == pre.period_duration
    &&& post.voting_period_length == pre.voting_period_length
    &&& post.grace_period_length == pre.grace_period_length
}

/// How finalization's first phase relates `pre`, `post` and its result:
/// one of the four rejections with the state untouched, or the stored
/// verdict (`passed`) is set — recomputed on a fresh call, replayed on a
/// resumed one — and the proposal either concludes on the spot (not
/// passed: reservation released, no transfer) or waits journaled for the
/// payout transfer `r` carries.
pub open spec fn process_begun(
    pre: Dao,
    post: Dao,
    proposal_id: u128,
    explicit: Option<u64>,
    now: u64,
    r: Result<EngineStep, DaoError>,
) -> bool {
    &&& proposal_id > 0 && proposal_id - 1 < pre.proposals@.len() && !pre.proposals@[proposal_id
        - 1].processed ==> r == Err::<EngineStep, DaoError>(DaoError::PreviousNotProcessed)
        && post == pre
    &&& (proposal_id > 0 ==> proposal_id - 1 >= pre.proposals@.len()
        || pre.proposals@[proposal_id - 1].processed) && proposal_id >= pre.proposals@.len()
        ==> r == Err::<EngineStep, DaoError>(DaoError::ProposalNotFound) && post == pre
    &&& (proposal_id > 0 ==> pre.proposals@[proposal_id - 1].processed) && proposal_id
        < pre.proposals@.len() && pre.proposals@[proposal_id as int].processed ==> r == Err::<
        EngineStep,
        DaoError,
    >(DaoError::AlreadyProcessed) && post == pre
    &&& pre.finalize_precheck(proposal_id) && now < pre.spec_ready_at(
        pre.proposals@[proposal_id as int],
    ) ==> r == Err::<EngineStep, DaoError>(DaoError::NotReady) && post == pre
    &&& pre.finalize_admissible(proposal_id, now) ==> {
        let p = pre.proposals@[proposal_id as int];
        let decision = match explicit {
            Some(_) => p.passed,
            None => pre.spec_passed(p),
        };
        let tid = match explicit {
            Some(t) => t,
            None => pre.transaction_id,
        };
        let q = post.proposals@[proposal_id as int];
        &&& post.transaction_id == (match explicit {
            Some(_) => pre.transaction_id,
            None => wrap_inc(pre.transaction_id),
        })
        &&& post.proposals@.len() == pre.proposals@.len()
        &&& forall|i: int|
            0 <= i < pre.proposals@.len() && i != proposal_id ==> post.proposals@[i]
                == pre.proposals@[i]
        &&& q.passed == decision
        &&& q.proposer == p.proposer
        &&& q.receiver == p.receiver
        &&& q.yes_votes == p.yes_votes
        &&& q.no_votes == p.no_votes
        &&& q.quorum == p.quorum
        &&& q.amount == p.amount
        &&& q.details == p.details
        &&& q.starting_period == p.starting_period
        &&& q.ended_at == p.ended_at
        &&& q.votes_by_member@ == p.votes_by_member@
        &&& post.members@ == pre.members@
        &&& post.total_shares == pre.total_shares
        &&& post.balance == pre.balance
        &&& post.proposal_id == pre.proposal_id
        &&& (decision ==> {
            &&& r == Ok::<EngineStep, DaoError>(
                EngineStep::TransferPending(
                    TransferRequest {
                        transaction_id: tid,
                        token_program: pre.approved_token_program_id,
                        direction: TransferDirection::Outgoing { to: p.receiver },
                        amount: p.amount,
                    },
                ),
            )
            &&& !q.processed
            &&& pre.journal_updated(post, tid, (DaoAction::ProcessProposal { proposal_id }))
            &&& post.locked_funds == pre.locked_funds
        })
        &&& (!decision ==> {
            &&& r == Ok::<EngineStep, DaoError>(
                EngineStep::Finalized(DaoEvent::ProcessProposal { proposal_id, passed: false }),
            )
            &&& q.processed
            &&& pre.journal_erased(post, tid)
            &&& post.locked_funds == pre.locked_funds.saturating_sub(p.amount)
        })
    }
    &&& post.approved_token_program_id == pre.approved_token_program_id
    &&& post.period_duration == pre.period_duration
    &&& post.voting_period_length == pre.voting_period_length
    &&& post.grace_period_length == pre.grace_period_length
}

/// The funds redeemed for at most the whole share supply never exceed the
/// custodied balance, even where the intermediate product clamps.
pub proof fn lemma_redeemable_le_balance(d: Dao, share: u128)
    requires
        d.total_shares > 0,
        share <= d.total_shares,
    ensures
        0 <= d.spec_redeemable(share) <= d.balance,
{
    let t = d.total_shares as int;
    let b = d.balance as int;
    let a = share as int;
    vstd::arithmetic::mul::lemma_mul_inequality(a, t, b);
    vstd::arithmetic::mul::lemma_mul_nonnegative(a, b);
    vstd::arithmetic::div_mod::lemma_div_multiples_vanish(b, t);
    vstd::arithmetic::div_mod::lemma_div_pos_is_pos(crate::dao::sat_mul(share, d.balance), t);
    if a * b > u128::MAX {
        vstd::arithmetic::div_mod::lemma_div_is_ordered(u128::MAX as int, t * b, t);
    } else {
        vstd::arithmetic::div_mod::lemma_div_is_ordered(a * b, t * b, t);
    }
}

/// The member's record after a yes vote on `proposal_id`: shares are kept
/// and the exit-gating watermark rises to the newest yes-voted proposal.
pub open spec fn raised_watermark(m: Member, proposal_id: u128) -> Member {
    Member {
        shares: m.shares,
        highest_index_yes_vote: match m.highest_index_yes_vote {
            Some(w) => if w < proposal_id {
                Some(proposal_id)
            } else {
                Some(w)
            },
            None => Some(proposal_id),
        },
    }
}

} // verus!
