//! Rejection paths of every action, driven through the engine with an
//! in-memory token ledger standing in for the remote transfer service.

use dao_light::Dao;
use dao_light::DaoEvent;
use dao_light::EngineStep;
use dao_light::InitDao;
use dao_light::TransferDirection;
use dao_light::TransferRequest;
use dao_light::Vote;

const FT_ID: u64 = 1;
const DAO_ID: u64 = 2;
const PERIOD_DURATION: u64 = 10_000;
const VOTING_PERIOD_LENGTH: u64 = 100_000;
const GRACE_PERIOD_LENGTH: u64 = 10_000;

fn applicants() -> Vec<u64> {
    vec![10, 11, 12, 13, 14, 15, 16, 17, 18, 19]
}

struct Harness {
    dao: Dao,
    balances: Vec<(u64, u128)>,
    done: Vec<u64>,
    now: u64,
}

impl Harness {
    fn new() -> Self {
        Harness {
            dao: Dao::new(InitDao {
                approved_token_program_id: FT_ID,
                voting_period_length: VOTING_PERIOD_LENGTH,
                period_duration: PERIOD_DURATION,
                grace_period_length: GRACE_PERIOD_LENGTH,
            }),
            balances: Vec::new(),
            done: Vec::new(),
            now: 0,
        }
    }

    fn spend_blocks(&mut self, blocks: u64) {
        self.now += blocks * 1000;
    }

    fn balance_of(&self, account: u64) -> u128 {
        for entry in self.balances.iter() {
            if entry.0 == account {
                return entry.1;
            }
        }
        0
    }

    fn set_balance(&mut self, account: u64, value: u128) {
        for entry in self.balances.iter_mut() {
            if entry.0 == account {
                entry.1 = value;
                return;
            }
        }
        self.balances.push((account, value));
    }

    fn mint(&mut self, account: u64, amount: u128) {
        let b = self.balance_of(account);
        self.set_balance(account, b + amount);
    }

    fn check_balance(&self, account: u64, expected: u128) {
        assert_eq!(self.balance_of(account), expected);
    }

    fn transfer(&mut self, request: &TransferRequest) -> bool {
        assert_eq!(request.token_program, FT_ID);
        if self.done.contains(&request.transaction_id) {
            return true;
        }
        let (from, to) = match request.direction {
            TransferDirection::Incoming { from } => (from, DAO_ID),
            TransferDirection::Outgoing { to } => (DAO_ID, to),
        };
        let from_balance = self.balance_of(from);
        if from_balance < request.amount {
            return false;
        }
        let to_balance = self.balance_of(to);
        self.set_balance(from, from_balance - request.amount);
        self.set_balance(to, to_balance + request.amount);
        self.done.push(request.transaction_id);
        true
    }

    fn deposit(&mut self, user: u64, amount: u128, share: u128, should_fail: bool) {
        let request = self.dao.deposit_begin(user, amount, None);
        let ok = self.transfer(&request);
        let event = self.dao.deposit_complete(user, amount, request.transaction_id, ok);
        if should_fail {
            assert_eq!(event, DaoEvent::TransactionFailed(request.transaction_id));
        } else {
            assert_eq!(event, DaoEvent::Deposit { member: user, share });
        }
    }

    fn submit_funding_proposal(
        &mut self,
        proposer: u64,
        proposal_id: u128,
        receiver: u64,
        amount: u128,
        quorum: u128,
        should_fail: bool,
    ) {
        let now = self.now;
        let result = self.dao.submit_funding_proposal(
            proposer,
            receiver,
            amount,
            quorum,
            String::from("payout"),
            now,
        );
        if should_fail {
            assert!(result.is_err());
        } else {
            assert_eq!(
                result,
                Ok(DaoEvent::SubmitFundingProposal { proposer, receiver, proposal_id, amount })
            );
        }
    }

    fn submit_vote(&mut self, account: u64, proposal_id: u128, vote: Vote, should_fail: bool) {
        let now = self.now;
        let result = self.dao.submit_vote(account, proposal_id, vote, now);
        if should_fail {
            assert!(result.is_err());
        } else {
            assert_eq!(result, Ok(DaoEvent::SubmitVote { account, proposal_id, vote }));
        }
    }

    fn process_proposal(&mut self, proposal_id: u128, passed: bool, should_fail: bool) {
        let now = self.now;
        let result = self.dao.process_proposal_begin(proposal_id, None, now);
        if should_fail {
            assert!(result.is_err());
            return;
        }
        match result.unwrap() {
            EngineStep::Finalized(event) => {
                assert!(!passed);
                assert_eq!(event, DaoEvent::ProcessProposal { proposal_id, passed: false });
            }
            EngineStep::TransferPending(request) => {
                assert!(passed);
                let ok = self.transfer(&request);
                assert!(ok);
                let event =
                    self.dao.process_proposal_complete(proposal_id, request.transaction_id, ok);
                assert_eq!(event, DaoEvent::ProcessProposal { proposal_id, passed: true });
            }
        }
    }

    fn ragequit(&mut self, user: u64, amount: u128, funds: u128, should_fail: bool) {
        let result = self.dao.ragequit_begin(user, amount, None);
        if should_fail {
            assert!(result.is_err());
            return;
        }
        let request = result.unwrap();
        assert_eq!(request.amount, funds);
        let ok = self.transfer(&request);
        assert!(ok);
        let event = self.dao.ragequit_complete(user, amount, request.transaction_id, ok);
        assert_eq!(event, DaoEvent::RageQuit { member: user, amount: funds });
    }
}

#[test]
fn submit_funding_proposal() {
    let mut h = Harness::new();
    let applicant: u64 = 200;
    let amount: u128 = 10_000;
    let share: u128 = 10_000;
    let quorum: u128 = 50;
    let proposal_id: u128 = 0;

    let user = 1000;
    // must fail since account is not a member
    h.submit_funding_proposal(user, proposal_id, applicant, amount, quorum, true);

    // add user to DAO
    h.mint(user, amount);
    h.deposit(user, amount, share, false);

    // must fail since not enough funds in DAO
    h.submit_funding_proposal(user, proposal_id, applicant, amount + 1, quorum, true);

    // must fail since proposal for a zero address
    h.submit_funding_proposal(user, proposal_id, 0, amount, quorum, true);
}

#[test]
fn submit_vote() {
    let mut h = Harness::new();
    let applicant: u64 = 200;
    let amount: u128 = 10_000;
    let share: u128 = 10_000;
    let quorum: u128 = 50;
    let proposal_id: u128 = 0;

    let user = 1000;

    // add user to DAO
    h.mint(user, amount);
    h.deposit(user, amount, share, false);

    h.submit_funding_proposal(user, proposal_id, applicant, amount / 2, quorum, false);

    // must fail since the account is not a member nor a delegate
    h.submit_vote(user + 1, proposal_id, Vote::Yes, true);

    // submit another proposal
    h.submit_funding_proposal(user, proposal_id + 1, applicant, amount / 10, quorum, false);

    // must fail since the voting period has not started
    h.submit_vote(user, proposal_id + 1, Vote::Yes, true);

    h.spend_blocks(PERIOD_DURATION / 1000);

    h.submit_vote(user, proposal_id + 1, Vote::Yes, false);

    // must fail since the account has already voted on this proposal
    h.submit_vote(user, proposal_id + 1, Vote::No, true);

    h.spend_blocks((VOTING_PERIOD_LENGTH + 1000) / 1000);
    // must fail since the proposal voting period has expired
    h.submit_vote(user, proposal_id, Vote::Yes, true);

    // must fail since the proposal does not exist
    h.submit_vote(user, proposal_id + 2, Vote::Yes, true);
}

#[test]
fn process_proposal() {
    let mut h = Harness::new();
    let applicant: u64 = 200;
    let amount: u128 = 10_000;
    let share: u128 = 10_000;
    let quorum: u128 = 50;
    let proposal_id: u128 = 0;

    let user = 1000;

    // add user to DAO
    h.mint(user, amount);
    h.deposit(user, amount, share, false);

    // must fail since proposal does not exist
    h.process_proposal(proposal_id, true, true);

    // submit proposal
    h.submit_funding_proposal(user, proposal_id, applicant, amount / 10, quorum, false);

    // submit another proposal
    h.submit_funding_proposal(user, proposal_id + 1, applicant, amount / 10, quorum, false);

    // must fail since previous proposal must be processed
    h.process_proposal(proposal_id + 1, true, true);

    // must fail since the proposal is not ready to be processed
    h.process_proposal(proposal_id, true, true);

    h.spend_blocks((VOTING_PERIOD_LENGTH + GRACE_PERIOD_LENGTH) / 1000);

    h.process_proposal(proposal_id, false, false);

    // must fail since the proposal has already been processed
    h.process_proposal(proposal_id, true, true);
}

#[test]
fn ragequit() {
    let mut h = Harness::new();
    let applicant: u64 = 200;
    let amount: u128 = 10_000;
    let share: u128 = 10_000;
    let ragequit_amount: u128 = 6_000;
    let quorum: u128 = 50;
    let proposal_id: u128 = 0;

    // add members to DAO
    for member in applicants() {
        h.mint(member, amount);
        h.deposit(member, amount, share, false);
    }

    // submit proposal
    h.submit_funding_proposal(10, proposal_id, applicant, 5 * amount, quorum, false);

    // members of DAO vote
    for member in applicants() {
        let vote: Vote = if member < 16 { Vote::Yes } else { Vote::No };
        h.submit_vote(member, proposal_id, vote, false);
    }

    // must fail since the applicant voted YES and the proposal has not been processed
    h.ragequit(10, ragequit_amount, 0, true);

    // must fail since an account is not a DAO member
    h.ragequit(300, ragequit_amount, 0, true);

    // must fail since a member has unsufficient shares
    h.ragequit(18, 2 * ragequit_amount, 0, true);

    // successful ragequit
    let mut balance: u128 = 10 * amount;
    let mut total_shares: u128 = 10 * amount;
    h.check_balance(18, 0);
    let funds = (balance * ragequit_amount) / total_shares;
    h.ragequit(18, ragequit_amount, funds, false);
    total_shares -= ragequit_amount;
    balance -= funds;
    h.check_balance(18, funds);
    h.check_balance(DAO_ID, balance);

    // successful ragequit
    h.check_balance(19, 0);
    let funds = (balance * ragequit_amount) / total_shares;
    h.ragequit(19, ragequit_amount, funds, false);
    balance -= funds;
    total_shares -= ragequit_amount;
    h.check_balance(19, funds);
    h.check_balance(DAO_ID, balance);

    h.spend_blocks((VOTING_PERIOD_LENGTH + GRACE_PERIOD_LENGTH) / 1000);

    h.process_proposal(proposal_id, true, false);
    balance -= 5 * amount;
    h.check_balance(DAO_ID, balance);
    h.check_balance(applicant, 5 * amount);

    // successful ragequit
    h.check_balance(10, 0);
    let funds = (balance * ragequit_amount) / total_shares;
    h.ragequit(10, ragequit_amount, funds, false);
    balance -= funds;
    h.check_balance(10, funds);
    h.check_balance(DAO_ID, balance);
}
