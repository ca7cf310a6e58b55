//! Constant-product liquidity pool and proposal voting, as pure state
//! transitions over plain-value snapshots of the accounts they act on.
//!
//! The host moves tokens, reads the clock and keys accounts by address; this
//! crate decides what each instruction does and proves it.

pub mod address;
pub mod errors;
pub mod governance;
pub mod governance_laws;
pub mod math;
pub mod pool;
pub mod pool_laws;

pub use address::Address;
pub use errors::{AmmError, GovernanceError};
pub use governance::{
    process_create_proposal, process_finalize_voting, process_start_voting, process_vote,
    CreateProposal, FinalizeVoting, Proposal, ProposalStatus, StartVoting, Vote, VoteRecord,
    MAX_VOTING_PERIOD,
};
pub use math::integer_sqrt;
pub use pool::{
    add_liquidity, initialize_pool, remove_liquidity, swap, AddLiquidity, InitializePool, Pool,
    RemoveLiquidity, Swap, Withdrawal, FEE_DENOMINATOR,
};
