use vstd::prelude::*;

use crate::config::AccountId;
use crate::config::ProposalId;
use crate::config::Votes;
use crate::errors::DispatchError;

verus! {

/// An entry of the router's append-only, ordered event log.
#[derive(Clone, Copy, PartialEq, Eq, Structural, Debug)]
pub enum Event {
    /// A proposal was stored.
    ProposalCreated { id: ProposalId, proposer: AccountId, is_club_scoped: bool },
    /// A vote was recorded; the weight is always 1 (one account, one vote).
    Voted { id: ProposalId, who: AccountId, aye: bool, weight: Votes },
    /// A proposal passed and its operation was dispatched successfully.
    ProposalExecuted { id: ProposalId },
    /// A proposal passed but the ledger rejected the dispatch; the proposal
    /// is still marked executed and cannot be retried.
    ProposalFailed { id: ProposalId, reason: DispatchError },
    /// A proposal was removed by the admin.
    ProposalCancelled { id: ProposalId },
}

} // verus!
