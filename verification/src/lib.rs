//! Governance and treasury engine for a member-owned fund.
//!
//! Participants deposit capital for proportional voting shares, propose
//! directed payments, vote within bounded periods, and finalize proposals
//! that move funds to a receiver. Every fund-moving action is a two-phase
//! operation: local validation and journaling first, then a remote transfer
//! on an external token ledger. The journal keeps the state consistent when
//! the process is interrupted between the two phases; an interrupted action
//! is resumed by an explicit continue request that reuses the journaled
//! transaction id, so the remote ledger can deduplicate replays.
//!
//! This crate holds the verified core: the membership ledger, the proposal
//! store, the funds account, the transaction journal and the engine that
//! orchestrates them. The remote transfer itself and the host runtime's
//! message plumbing stay outside, handing the engine plain values.

pub mod types;
pub mod store;
pub mod dao;
pub mod engine;
pub mod laws;

pub use types::ActorId;
pub use types::DaoAction;
pub use types::DaoError;
pub use types::DaoEvent;
pub use types::DaoState;
pub use types::EngineStep;
pub use types::InitDao;
pub use types::Member;
pub use types::Proposal;
pub use types::Role;
pub use types::TransferDirection;
pub use types::TransferRequest;
pub use types::Vote;
pub use dao::Dao;
