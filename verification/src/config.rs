use vstd::prelude::*;

verus! {

/// Account identifier on the ledger.
pub type AccountId = u64;

/// Balance of fungible units on the ledger.
pub type Balance = u128;

/// Ledger height (block/sequence number); the clock of the voting window.
pub type BlockNumber = u64;

/// Unique identifier of a proposal, assigned at creation.
pub type ProposalId = u64;

/// Identifier of a club scope.
pub type ClubId = u32;

/// Absolute vote counts.
pub type Votes = u32;

/// Fixed configuration of the router, chosen once when the router is built.
///
/// `default_voting_period`, `default_quorum` and `default_pass_threshold`
/// are substituted when a submission omits the corresponding parameter.
/// The pass threshold is a fixed-point percentage in the 0..=10000 scale
/// (5000 means 50.00%).
#[derive(Clone, Copy)]
pub struct RouterConfig {
    /// Largest accepted encoded action, in bytes.
    pub max_action_len: u32,
    /// Largest accepted metadata blob, in bytes.
    pub max_metadata_len: u32,
    /// Capacity of the per-proposal voter set.
    pub max_voters_per_proposal: u32,
    /// Capacity of each per-club proposal index.
    pub club_index_cap: u32,
    /// Voting period used when a submission names none.
    pub default_voting_period: BlockNumber,
    /// Quorum used when a submission names none.
    pub default_quorum: Votes,
    /// Pass threshold used when a submission names none.
    pub default_pass_threshold: u32,
    /// The privileged account allowed to cancel proposals.
    pub admin: AccountId,
}

} // verus!
