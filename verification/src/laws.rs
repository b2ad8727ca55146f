use vstd::prelude::*;

use crate::config::AccountId;
use crate::config::Balance;
use crate::config::BlockNumber;
use crate::config::ClubId;
use crate::config::ProposalId;
use crate::config::RouterConfig;
use crate::config::Votes;
use crate::errors::RouterError;
use crate::membership::spec_eligible;
use crate::membership::spec_in_club;
use crate::proposal::ProposalModel;
use crate::proposal::Scope;
use crate::proposal::created_proposal;
use crate::proposal::in_window;
use crate::proposal::pass_percent;
use crate::proposal::voted_proposal;
use crate::router::execute_result;
use crate::router::propose_result;
use crate::router::vote_result;

verus! {

/// Every created proposal opens a non-empty window: `end > start`
/// immediately after creation.  The two preconditions are exactly the
/// inputs on which submission refuses to create a proposal at all
/// (`EmptyVotingWindow`), so they hold of every proposal the router stores.
pub proof fn lemma_created_window_nonempty(
    id: ProposalId,
    proposer: AccountId,
    scope: Scope,
    action: Seq<u8>,
    metadata: Option<Seq<u8>>,
    now: BlockNumber,
    period: BlockNumber,
    quorum: Votes,
    pass_threshold: u32,
)
    requires
        1 <= period,
        now < BlockNumber::MAX,
    ensures
        ({
            let p = created_proposal(
                id,
                proposer,
                scope,
                action,
                metadata,
                now,
                period,
                quorum,
                pass_threshold,
            );
            p.end > p.start
        }),
{
}

/// A vote at any height outside the inclusive `[start, end]` window fails
/// with `VotingClosed`, whoever votes and whatever the registry holds.
pub proof fn lemma_vote_outside_window_closed(
    props: Map<ProposalId, ProposalModel>,
    cfg: RouterConfig,
    reg: Map<AccountId, Seq<ClubId>>,
    who: AccountId,
    id: ProposalId,
    now: BlockNumber,
)
    requires
        props.contains_key(id),
        !in_window(props[id], now),
    ensures
        vote_result(props, cfg, reg, who, id, now) == Err::<(), RouterError>(
            RouterError::VotingClosed,
        ),
{
}

/// A vote exactly at `start` or exactly at `end` is accepted, given an
/// eligible signer who has not voted yet and a voter set below capacity.
pub proof fn lemma_vote_at_window_bounds_accepted(
    props: Map<ProposalId, ProposalModel>,
    cfg: RouterConfig,
    reg: Map<AccountId, Seq<ClubId>>,
    who: AccountId,
    id: ProposalId,
    now: BlockNumber,
)
    requires
        props.contains_key(id),
        now == props[id].start || now == props[id].end,
        props[id].start <= props[id].end,
        spec_eligible(reg, who, props[id].scope),
        !props[id].voters.contains(who),
        props[id].voters.len() < cfg.max_voters_per_proposal,
    ensures
        vote_result(props, cfg, reg, who, id, now) == Ok::<(), RouterError>(()),
{
}

/// No account votes twice: once a vote by `who` has been recorded, any
/// further attempt by `who` inside the window fails with `AlreadyVoted`,
/// whatever `aye` value either attempt carries.  (And by the voting
/// engine's contract, a failed attempt leaves the tallies untouched.)
pub proof fn lemma_no_double_vote(
    props: Map<ProposalId, ProposalModel>,
    cfg: RouterConfig,
    reg: Map<AccountId, Seq<ClubId>>,
    who: AccountId,
    id: ProposalId,
    aye: bool,
    now: BlockNumber,
)
    requires
        props.contains_key(id),
        in_window(props[id], now),
    ensures
        ({
            let recorded = props.insert(id, voted_proposal(props[id], who, aye));
            vote_result(recorded, cfg, reg, who, id, now) == Err::<(), RouterError>(
                RouterError::AlreadyVoted,
            )
        }),
{
    let after = voted_proposal(props[id], who, aye);
    assert(after.voters[after.voters.len() - 1] == who);
    assert(after.voters.contains(who));
}

/// Eligibility is read from the registry at call time, never cached: a
/// club-scoped submission refused for missing membership is accepted
/// unchanged — at the next free id — once the registry shows the signer in
/// that club, given an action and metadata within bounds, a non-empty
/// voting window, and a club index below capacity.
pub proof fn lemma_club_eligibility_at_call_time(
    cfg: RouterConfig,
    before: Map<AccountId, Seq<ClubId>>,
    after: Map<AccountId, Seq<ClubId>>,
    who: AccountId,
    club: ClubId,
    action: Seq<u8>,
    metadata: Option<Seq<u8>>,
    period: BlockNumber,
    now: BlockNumber,
    club_list: Seq<ProposalId>,
    next_id: ProposalId,
)
    requires
        !spec_in_club(before, who, club),
        spec_in_club(after, who, club),
        action.len() <= cfg.max_action_len,
        metadata matches Some(m) ==> m.len() <= cfg.max_metadata_len,
        1 <= period,
        now < BlockNumber::MAX,
        club_list.len() < cfg.club_index_cap,
    ensures
        propose_result(
            cfg,
            before,
            who,
            Scope::Club(club),
            action,
            metadata,
            period,
            now,
            club_list,
            next_id,
        ) == Err::<ProposalId, RouterError>(RouterError::NotClubMember),
        propose_result(
            cfg,
            after,
            who,
            Scope::Club(club),
            action,
            metadata,
            period,
            now,
            club_list,
            next_id,
        ) == Ok::<ProposalId, RouterError>(next_id),
{
}

/// The quorum gate reads only the total `yea + nay`, never the split:
/// execution reports `QuorumNotReached` exactly when the total falls short.
pub proof fn lemma_quorum_counts_total(
    props: Map<ProposalId, ProposalModel>,
    balances: Map<AccountId, Balance>,
    id: ProposalId,
    now: BlockNumber,
)
    requires
        props.contains_key(id),
        !props[id].executed,
        now > props[id].end,
    ensures
        execute_result(props, balances, id, now) == Err::<(), RouterError>(
            RouterError::QuorumNotReached,
        ) <==> props[id].yea + props[id].nay < props[id].quorum,
{
}

/// The threshold gate compares the fixed-point yea share, rounded toward
/// zero, against the proposal's pass threshold: with quorum met, execution
/// reports `ProposalNotPassed` exactly when the share falls below it.
pub proof fn lemma_threshold_gates_share(
    props: Map<ProposalId, ProposalModel>,
    balances: Map<AccountId, Balance>,
    id: ProposalId,
    now: BlockNumber,
)
    requires
        props.contains_key(id),
        !props[id].executed,
        now > props[id].end,
        props[id].yea + props[id].nay >= props[id].quorum,
    ensures
        execute_result(props, balances, id, now) == Err::<(), RouterError>(
            RouterError::ProposalNotPassed,
        ) <==> pass_percent(props[id].yea, props[id].nay) < props[id].pass_threshold,
{
}

/// Execution is terminal: whatever its outcome was, a further execution
/// request on an executed proposal fails with `ProposalAlreadyExecuted`, at
/// every height and over every ledger state.
pub proof fn lemma_execute_terminal(
    props: Map<ProposalId, ProposalModel>,
    balances: Map<AccountId, Balance>,
    id: ProposalId,
    now: BlockNumber,
)
    requires
        props.contains_key(id),
        props[id].executed,
    ensures
        execute_result(props, balances, id, now) == Err::<(), RouterError>(
            RouterError::ProposalAlreadyExecuted,
        ),
{
}

/// Cancellation removes the proposal outright: on the state it leaves
/// behind, both voting and execution on the cancelled id fail with
/// `ProposalNotFound`.
pub proof fn lemma_cancelled_proposal_gone(
    props: Map<ProposalId, ProposalModel>,
    cfg: RouterConfig,
    reg: Map<AccountId, Seq<ClubId>>,
    balances: Map<AccountId, Balance>,
    who: AccountId,
    id: ProposalId,
    now: BlockNumber,
)
    ensures
        vote_result(props.remove(id), cfg, reg, who, id, now) == Err::<(), RouterError>(
            RouterError::ProposalNotFound,
        ),
        execute_result(props.remove(id), balances, id, now) == Err::<(), RouterError>(
            RouterError::ProposalNotFound,
        ),
{
}

} // verus!
