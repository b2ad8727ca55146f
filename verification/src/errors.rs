use vstd::prelude::*;

verus! {

/// Failure reason of a router operation.
///
/// Every error is request-scoped: except for the terminal execution path
/// (a failed dispatch still marks the proposal executed), a failing request
/// leaves the whole state unchanged.
#[derive(Clone, Copy, PartialEq, Eq, Structural, Debug)]
pub enum RouterError {
    /// No proposal is stored under the given id.
    ProposalNotFound,
    /// The current height is outside the voting window, or execution was
    /// attempted before the window had fully closed.
    VotingClosed,
    /// The signer is already in the proposal's voter set.
    AlreadyVoted,
    /// The signer is not a registered member.
    NotMember,
    /// The signer is not a member of the proposal's club.
    NotClubMember,
    /// The origin is not the privileged admin.
    NotAuthorized,
    /// The proposal has already been executed.
    ProposalAlreadyExecuted,
    /// The decoded operation was dispatched and the ledger rejected it.
    ExecutionFailed,
    /// The encoded action exceeds the configured size bound.
    ActionTooLarge,
    /// The metadata blob exceeds the configured size bound.
    MetadataTooLarge,
    /// The submission would open an empty voting window: its effective
    /// voting period is zero, or the current height is the maximum the
    /// ledger can represent, after which no window could close.
    EmptyVotingWindow,
    /// The voter set is at capacity.
    VotersOverflow,
    /// The club's proposal index is at capacity.
    ClubIndexOverflow,
    /// The stored action bytes do not decode to any known operation.
    InvalidCallEncoding,
    /// Fewer total votes than the proposal's quorum.
    QuorumNotReached,
    /// The yea share is below the proposal's pass threshold.
    ProposalNotPassed,
}

/// Failure reason of a ledger dispatch.
#[derive(Clone, Copy, PartialEq, Eq, Structural, Debug)]
pub enum DispatchError {
    /// The paying account holds less than the transferred value.
    InsufficientFunds,
    /// Crediting the destination would overflow its balance.
    BalanceOverflow,
}

} // verus!
