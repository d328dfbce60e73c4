//! Plain data carried across the engine's boundary: actions, events,
//! errors, membership and proposal records, and the snapshot type.

use vstd::prelude::*;

verus! {

/// An account on the external ledger. The null identity is `0`; it may not
/// receive proposal payouts.
pub type ActorId = u64;

/// A ballot cast by a member on one proposal.
#[derive(Debug, Clone, Copy, PartialEq, Eq, Structural)]
pub enum Vote {
    Yes,
    No,
}

/// Authorization tier of an account, as reported by the state queries.
#[derive(Debug, Clone, Copy, PartialEq, Eq, Structural)]
pub enum Role {
    Admin,
    Member,
    Nonmember,
}

/// A participant's stake: voting shares plus the watermark of the newest
/// proposal the participant voted yes on. The watermark only ever rises and
/// gates the participant's exit until that proposal is processed.
#[derive(Debug, Clone, Copy, PartialEq, Eq, Structural)]
pub struct Member {
    pub shares: u128,
    pub highest_index_yes_vote: Option<u128>,
}

/// A request to pay `amount` to `receiver`, subject to a vote and a quorum
/// threshold given as a percentage of the total shares.
#[derive(Debug, Clone)]
pub struct Proposal {
    pub proposer: ActorId,
    pub receiver: ActorId,
    pub yes_votes: u128,
    pub no_votes: u128,
    pub quorum: u128,
    pub amount: u128,
    pub processed: bool,
    pub passed: bool,
    pub details: String,
    pub starting_period: u64,
    pub ended_at: u64,
    pub votes_by_member: Vec<(ActorId, Vote)>,
}

/// An inbound request to the engine. Fund-moving variants (`Deposit`,
/// `ProcessProposal`, `RageQuit`) are journaled before their remote
/// transfer is issued, so an interrupted run can be resumed by `Continue`.
#[derive(Debug, Clone)]
pub enum DaoAction {
    Deposit { amount: u128 },
    SubmitFundingProposal { receiver: ActorId, amount: u128, quorum: u128, details: String },
    ProcessProposal { proposal_id: u128 },
    SubmitVote { proposal_id: u128, vote: Vote },
    RageQuit { amount: u128 },
    Continue(u64),
}

/// The one reply each request produces. `TransactionFailed` carries the
/// journaled transaction id a caller needs for a later `Continue`.
#[derive(Debug, Clone, Copy, PartialEq, Eq, Structural)]
pub enum DaoEvent {
    Deposit { member: ActorId, share: u128 },
    SubmitFundingProposal { proposer: ActorId, receiver: ActorId, proposal_id: u128, amount: u128 },
    SubmitVote { account: ActorId, proposal_id: u128, vote: Vote },
    ProcessProposal { proposal_id: u128, passed: bool },
    RageQuit { member: ActorId, amount: u128 },
    TransactionFailed(u64),
}

/// Immediate rejections. Each is fatal to its request: no state changes and
/// no journal entry is created.
#[derive(Debug, Clone, Copy, PartialEq, Eq, Structural)]
pub enum DaoError {
    /// The acting account is not a member with nonzero shares.
    NotAuthorized,
    /// The proposal receiver is the null identity.
    InvalidReceiver,
    /// The unlocked balance does not cover the proposed amount.
    InsufficientFunds,
    /// No proposal has the given id.
    ProposalNotFound,
    /// The proposal's voting window has not opened yet.
    VotingNotStarted,
    /// The proposal's voting window has closed.
    VotingExpired,
    /// The account already voted on this proposal.
    AlreadyVoted,
    /// The proposal directly before this one is not processed yet.
    PreviousNotProcessed,
    /// The proposal was already finalized.
    AlreadyProcessed,
    /// The grace period after voting has not elapsed yet.
    NotReady,
    /// The member holds fewer shares than the exit asks to redeem.
    InsufficientShares,
    /// The member's newest yes-vote points at an unprocessed proposal.
    ExitBlocked,
    /// No journal entry holds the given transaction id.
    TransactionNotFound,
}

/// Construction parameters, supplied once and immutable thereafter.
#[derive(Debug, Clone, Copy, PartialEq, Eq, Structural)]
pub struct InitDao {
    pub approved_token_program_id: ActorId,
    pub voting_period_length: u64,
    pub period_duration: u64,
    pub grace_period_length: u64,
}

/// Which way a remote transfer moves funds relative to the fund's custody.
#[derive(Debug, Clone, Copy, PartialEq, Eq, Structural)]
pub enum TransferDirection {
    /// From the named account into the fund's custody.
    Incoming { from: ActorId },
    /// From the fund's custody to the named account.
    Outgoing { to: ActorId },
}

/// One remote transfer the caller must issue on the external token ledger,
/// keyed by the journaled transaction id so the ledger can deduplicate
/// replays of an interrupted action.
#[derive(Debug, Clone, Copy, PartialEq, Eq, Structural)]
pub struct TransferRequest {
    pub transaction_id: u64,
    pub token_program: ActorId,
    pub direction: TransferDirection,
    pub amount: u128,
}

/// What the first phase of a fund-moving action produced: either the action
/// concluded locally, or a remote transfer is now owed and must be settled.
#[derive(Debug, Clone, Copy, PartialEq, Eq, Structural)]
pub enum EngineStep {
    /// The action is complete; no transfer was needed.
    Finalized(DaoEvent),
    /// The action is journaled and waits for this transfer's outcome.
    TransferPending(TransferRequest),
}

/// A read-only snapshot of the whole engine state, for reporting.
#[derive(Debug, Clone)]
pub struct DaoState {
    pub approved_token_program_id: ActorId,
    pub period_duration: u64,
    pub voting_period_length: u64,
    pub grace_period_length: u64,
    pub total_shares: u128,
    pub members: Vec<(ActorId, Member)>,
    pub proposal_id: u128,
    pub locked_funds: u128,
    pub proposals: Vec<(u128, Proposal)>,
    pub balance: u128,
    pub transaction_id: u64,
    pub transactions: Vec<(u64, Option<DaoAction>)>,
}

impl DaoState {
    /// True iff the account appears in the snapshot with nonzero shares.
    pub fn is_member(&self, account: &ActorId) -> (r: bool)
        ensures
            r == exists|i: int|
                0 <= i < self.members@.len() && (#[trigger] self.members@[i]).0 == *account
                    && self.members@[i].1.shares != 0,
    {
        let mut i: usize = 0;
        while i < self.members.len()
            invariant
                i <= self.members@.len(),
                forall|j: int|
                    0 <= j < i ==> !((#[trigger] self.members@[j]).0 == *account
                        && self.members@[j].1.shares != 0),
            decreases self.members@.len() - i,
        {
            let (id, member) = &self.members[i];
            if *id == *account && member.shares != 0 {
                return true;
            }
            i = i + 1;
        }
        false
    }
}

} // verus!
