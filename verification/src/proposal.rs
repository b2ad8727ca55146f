use vstd::prelude::*;

use crate::config::AccountId;
use crate::config::BlockNumber;
use crate::config::ClubId;
use crate::config::ProposalId;
use crate::config::RouterConfig;
use crate::config::Votes;

verus! {

/// Whose eligibility rule a proposal falls under: one club's members, or
/// every registered member.
#[derive(Clone, Copy, PartialEq, Eq, Structural, Debug)]
pub enum Scope {
    Club(ClubId),
    Global,
}

/// A stored proposal.  `action` is an opaque byte string, meaningful only
/// to the operation decoder at execution time.
pub struct Proposal {
    pub id: ProposalId,
    pub proposer: AccountId,
    pub scope: Scope,
    /// Encoded operation bytes, bounded by the configured action size.
    pub action: Vec<u8>,
    /// Optional informational bytes, bounded by the configured metadata size.
    pub metadata: Option<Vec<u8>>,
    /// First height (inclusive) at which votes are accepted.
    pub start: BlockNumber,
    /// Last height (inclusive) at which votes are accepted.
    pub end: BlockNumber,
    pub yea: Votes,
    pub nay: Votes,
    /// Set at most once, by execution; never reverts.
    pub executed: bool,
    /// Accounts that have voted; no account appears twice.
    pub voters: Vec<AccountId>,
    /// Minimum total votes for the outcome to count.
    pub quorum: Votes,
    /// Minimum yea share, fixed-point in the 0..=10000 scale.
    pub pass_threshold: u32,
    /// The club of a club-scoped proposal, `None` for a global one.
    pub club: Option<ClubId>,
}

/// The mathematical image of a stored proposal.
#[verifier::ext_equal]
pub struct ProposalModel {
    pub id: ProposalId,
    pub proposer: AccountId,
    pub scope: Scope,
    pub action: Seq<u8>,
    pub metadata: Option<Seq<u8>>,
    pub start: BlockNumber,
    pub end: BlockNumber,
    pub yea: Votes,
    pub nay: Votes,
    pub executed: bool,
    pub voters: Seq<AccountId>,
    pub quorum: Votes,
    pub pass_threshold: u32,
    pub club: Option<ClubId>,
}

impl View for Proposal {
    type V = ProposalModel;

    open spec fn view(&self) -> ProposalModel {
        ProposalModel {
            id: self.id,
            proposer: self.proposer,
            scope: self.scope,
            action: self.action@,
            metadata: match self.metadata {
                Some(m) => Some(m@),
                None => None,
            },
            start: self.start,
            end: self.end,
            yea: self.yea,
            nay: self.nay,
            executed: self.executed,
            voters: self.voters@,
            quorum: self.quorum,
            pass_threshold: self.pass_threshold,
            club: self.club,
        }
    }
}

/// The mathematical image of an optional metadata blob.
pub open spec fn metadata_view(m: Option<Vec<u8>>) -> Option<Seq<u8>> {
    match m {
        Some(v) => Some(v@),
        None => None,
    }
}

/// The club recorded alongside a scope.
pub open spec fn club_of(scope: Scope) -> Option<ClubId> {
    match scope {
        Scope::Club(c) => Some(c),
        Scope::Global => None,
    }
}

/// Well-formedness of a stored proposal under a configuration: the voting
/// window is non-empty, sizes respect their bounds, no account voted twice,
/// and the tallies add up to the voter count.
pub open spec fn proposal_wf(p: ProposalModel, cfg: RouterConfig) -> bool {
    &&& p.start < p.end
    &&& p.action.len() <= cfg.max_action_len
    &&& (p.metadata matches Some(m) ==> m.len() <= cfg.max_metadata_len)
    &&& p.voters.len() <= cfg.max_voters_per_proposal
    &&& p.yea + p.nay == p.voters.len()
    &&& (forall|i: int, j: int| 0 <= i < j < p.voters.len() ==> p.voters[i] != p.voters[j])
    &&& p.club == club_of(p.scope)
}

/// `u64` addition that sticks at the maximum instead of wrapping.
pub open spec fn sat_add_u64(a: u64, b: u64) -> u64 {
    if a + b > u64::MAX {
        u64::MAX
    } else {
        (a + b) as u64
    }
}

/// The proposal record created by an accepted submission: the window opens
/// at the current height and closes `period` later (saturating), the tallies
/// start at zero and nobody has voted.
pub open spec fn created_proposal(
    id: ProposalId,
    proposer: AccountId,
    scope: Scope,
    action: Seq<u8>,
    metadata: Option<Seq<u8>>,
    now: BlockNumber,
    period: BlockNumber,
    quorum: Votes,
    pass_threshold: u32,
) -> ProposalModel {
    ProposalModel {
        id,
        proposer,
        scope,
        action,
        metadata,
        start: now,
        end: sat_add_u64(now, period),
        yea: 0,
        nay: 0,
        executed: false,
        voters: Seq::empty(),
        quorum,
        pass_threshold,
        club: club_of(scope),
    }
}

/// The proposal after one accepted vote: exactly one tally grows by one and
/// the voter joins the voter set; everything else is untouched.
pub open spec fn voted_proposal(p: ProposalModel, who: AccountId, aye: bool) -> ProposalModel {
    ProposalModel {
        yea: if aye {
            (p.yea + 1) as u32
        } else {
            p.yea
        },
        nay: if aye {
            p.nay
        } else {
            (p.nay + 1) as u32
        },
        voters: p.voters.push(who),
        ..p
    }
}

/// The proposal after execution was triggered: only the terminal flag moves.
pub open spec fn executed_proposal(p: ProposalModel) -> ProposalModel {
    ProposalModel { executed: true, ..p }
}

/// Whether `now` lies in the inclusive voting window.
pub open spec fn in_window(p: ProposalModel, now: BlockNumber) -> bool {
    p.start <= now <= p.end
}

/// The yea share of the tallies as a fixed-point percentage (integer
/// division, rounding toward zero); zero when nobody voted.
pub open spec fn pass_percent(yea: Votes, nay: Votes) -> int {
    if yea + nay == 0 {
        0
    } else {
        (yea * 10000) / (yea + nay)
    }
}

/// Whether an account already appears in a voter list.
pub fn contains_account(voters: &Vec<AccountId>, who: AccountId) -> (r: bool)
    ensures
        r == voters@.contains(who),
{
    let mut i: usize = 0;
    while i < voters.len()
        invariant
            i <= voters@.len(),
            forall|k: int| 0 <= k < i ==> voters@[k] != who,
        decreases voters@.len() - i,
    {
        if voters[i] == who {
            return true;
        }
        i = i + 1;
    }
    false
}

} // verus!
