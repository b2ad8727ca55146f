use vstd::prelude::*;
use std::collections::HashMap;

use crate::codec::decode_operation;
use crate::codec::spec_decode;
use crate::config::AccountId;
use crate::config::Balance;
use crate::config::BlockNumber;
use crate::config::ClubId;
use crate::config::ProposalId;
use crate::config::RouterConfig;
use crate::config::Votes;
use crate::errors::RouterError;
use crate::events::Event;
use crate::ledger::Ledger;
use crate::ledger::execution_principal;
use crate::ledger::spec_dispatch;
use crate::ledger::spec_execution_principal;
use crate::membership::Membership;
use crate::membership::eligibility_error;
use crate::membership::spec_eligible;
use crate::proposal::Proposal;
use crate::proposal::ProposalModel;
use crate::proposal::Scope;
use crate::proposal::contains_account;
use crate::proposal::created_proposal;
use crate::proposal::executed_proposal;
use crate::proposal::in_window;
use crate::proposal::metadata_view;
use crate::proposal::pass_percent;
use crate::proposal::proposal_wf;
use crate::proposal::sat_add_u64;
use crate::proposal::voted_proposal;

verus! {

broadcast use vstd::std_specs::hash::group_hash_axioms;

/// An optional value, or a default where none was given.
pub open spec fn opt_or_u64(v: Option<u64>, default: u64) -> u64 {
    match v {
        Some(x) => x,
        None => default,
    }
}

/// An optional value, or a default where none was given.
pub open spec fn opt_or_u32(v: Option<u32>, default: u32) -> u32 {
    match v {
        Some(x) => x,
        None => default,
    }
}

/// The outcome of a submission, decided over the registry, the size bounds,
/// the effective voting period (defaults already substituted) and the
/// capacity of the scope's club index.  A submission whose window would be
/// empty — a zero period, or a height with no representable successor — is
/// refused, so every stored proposal has `end > start`.  On acceptance the
/// new proposal takes the next free id.
pub open spec fn propose_result(
    cfg: RouterConfig,
    reg: Map<AccountId, Seq<ClubId>>,
    who: AccountId,
    scope: Scope,
    action: Seq<u8>,
    metadata: Option<Seq<u8>>,
    period: BlockNumber,
    now: BlockNumber,
    club_list: Seq<ProposalId>,
    next_id: ProposalId,
) -> Result<ProposalId, RouterError> {
    if !spec_eligible(reg, who, scope) {
        Err(eligibility_error(scope))
    } else if action.len() > cfg.max_action_len {
        Err(RouterError::ActionTooLarge)
    } else if metadata matches Some(m) && m.len() > cfg.max_metadata_len {
        Err(RouterError::MetadataTooLarge)
    } else if period == 0 || now == BlockNumber::MAX {
        Err(RouterError::EmptyVotingWindow)
    } else if scope matches Scope::Club(_) && club_list.len() >= cfg.club_index_cap {
        Err(RouterError::ClubIndexOverflow)
    } else {
        Ok(next_id)
    }
}

/// The outcome of a vote request: the proposal must exist, the height must
/// lie in the inclusive window, the signer must be new to the proposal,
/// eligible under its scope, and the voter set below capacity.
pub open spec fn vote_result(
    props: Map<ProposalId, ProposalModel>,
    cfg: RouterConfig,
    reg: Map<AccountId, Seq<ClubId>>,
    who: AccountId,
    id: ProposalId,
    now: BlockNumber,
) -> Result<(), RouterError> {
    if !props.contains_key(id) {
        Err(RouterError::ProposalNotFound)
    } else {
        let p = props[id];
        if !in_window(p, now) {
            Err(RouterError::VotingClosed)
        } else if p.voters.contains(who) {
            Err(RouterError::AlreadyVoted)
        } else if !spec_eligible(reg, who, p.scope) {
            Err(eligibility_error(p.scope))
        } else if p.voters.len() >= cfg.max_voters_per_proposal {
            Err(RouterError::VotersOverflow)
        } else {
            Ok(())
        }
    }
}

/// Whether execution reaches the dispatch step: the proposal exists, was
/// never executed, its window has fully closed, and quorum and threshold
/// are met.
pub open spec fn execute_approved(
    props: Map<ProposalId, ProposalModel>,
    id: ProposalId,
    now: BlockNumber,
) -> bool {
    &&& props.contains_key(id)
    &&& !props[id].executed
    &&& now > props[id].end
    &&& props[id].yea + props[id].nay >= props[id].quorum
    &&& pass_percent(props[id].yea, props[id].nay) >= props[id].pass_threshold
}

/// The outcome of an execution request over the stored proposals and the
/// ledger's balances.  Note that a proposal whose action decodes but whose
/// dispatch is refused still counts as executed (`ExecutionFailed` is
/// terminal); every earlier failure leaves it retryable.
pub open spec fn execute_result(
    props: Map<ProposalId, ProposalModel>,
    balances: Map<AccountId, Balance>,
    id: ProposalId,
    now: BlockNumber,
) -> Result<(), RouterError> {
    if !props.contains_key(id) {
        Err(RouterError::ProposalNotFound)
    } else {
        let p = props[id];
        if p.executed {
            Err(RouterError::ProposalAlreadyExecuted)
        } else if now <= p.end {
            Err(RouterError::VotingClosed)
        } else if p.yea + p.nay < p.quorum {
            Err(RouterError::QuorumNotReached)
        } else if pass_percent(p.yea, p.nay) < p.pass_threshold {
            Err(RouterError::ProposalNotPassed)
        } else {
            match spec_decode(p.action) {
                None => Err(RouterError::InvalidCallEncoding),
                Some(op) => match spec_dispatch(balances, spec_execution_principal(), op) {
                    Ok(_) => Ok(()),
                    Err(_) => Err(RouterError::ExecutionFailed),
                },
            }
        }
    }
}

/// The outcome of a cancellation: only the admin may cancel, only stored
/// proposals can be cancelled, and execution is final.
pub open spec fn cancel_result(
    props: Map<ProposalId, ProposalModel>,
    cfg: RouterConfig,
    origin: AccountId,
    id: ProposalId,
) -> Result<(), RouterError> {
    if origin != cfg.admin {
        Err(RouterError::NotAuthorized)
    } else if !props.contains_key(id) {
        Err(RouterError::ProposalNotFound)
    } else if props[id].executed {
        Err(RouterError::ProposalAlreadyExecuted)
    } else {
        Ok(())
    }
}

/// The proposal store, voting engine, execution engine and admin control in
/// one sequential state machine.  Every operation either commits in full or
/// fails with its state untouched; the one exception is the terminal
/// execution path, which keeps `executed = true` even when the dispatch
/// itself is refused.
pub struct Router {
    cfg: RouterConfig,
    next_id: ProposalId,
    proposals: HashMap<ProposalId, Proposal>,
    club_index: HashMap<ClubId, Vec<ProposalId>>,
    events: Vec<Event>,
}

/// Whether two router states are observably identical.
pub open spec fn same_state(a: Router, b: Router) -> bool {
    &&& a.props() == b.props()
    &&& a.spec_next_id() == b.spec_next_id()
    &&& a.events_log() == b.events_log()
    &&& a.spec_config() == b.spec_config()
    &&& forall|c: ClubId| #![auto] a.club_list(c) == b.club_list(c)
}

impl Router {
    /// The stored proposals as a map from id to proposal model.
    pub closed spec fn props(self) -> Map<ProposalId, ProposalModel> {
        self.proposals@.map_values(|p: Proposal| p@)
    }

    /// The id the next accepted submission will take.
    pub closed spec fn spec_next_id(self) -> ProposalId {
        self.next_id
    }

    /// The append-only index of a club's proposal ids.  The index is not
    /// cleaned on cancellation, so an id in it need not resolve.
    pub closed spec fn club_list(self, c: ClubId) -> Seq<ProposalId> {
        if self.club_index@.contains_key(c) {
            self.club_index@[c]@
        } else {
            Seq::empty()
        }
    }

    /// The ordered log of emitted events.
    pub closed spec fn events_log(self) -> Seq<Event> {
        self.events@
    }

    /// The fixed configuration.
    pub closed spec fn spec_config(self) -> RouterConfig {
        self.cfg
    }

    /// The club index a submission under `scope` would append to.
    pub open spec fn scope_list(self, scope: Scope) -> Seq<ProposalId> {
        match scope {
            Scope::Club(c) => self.club_list(c),
            Scope::Global => Seq::empty(),
        }
    }

    /// Well-formedness: every stored proposal is keyed by its own id and
    /// respects the configured bounds, and every club index is within
    /// capacity.
    pub open spec fn wf(self) -> bool {
        &&& forall|id: ProposalId| #[trigger]
            self.props().contains_key(id) ==> self.props()[id].id == id && proposal_wf(
                self.props()[id],
                self.spec_config(),
            )
        &&& forall|c: ClubId| (#[trigger] self.club_list(c)).len() <= self.spec_config().club_index_cap
    }

    /// An operation that leaves the club index alone leaves every club's
    /// list as it was.
    proof fn club_lists_unchanged(self, pre: Router)
        requires
            self.club_index == pre.club_index,
        ensures
            forall|c: ClubId| #[trigger] self.club_list(c) == pre.club_list(c),
    {
    }

    /// A fresh router: no proposals, no events, ids starting at zero.
    pub fn new(config: RouterConfig) -> (r: Router)
        ensures
            r.wf(),
            r.spec_config() == config,
            r.spec_next_id() == 0,
            r.props() == Map::<ProposalId, ProposalModel>::empty(),
            r.events_log() == Seq::<Event>::empty(),
            forall|c: ClubId| #![auto] r.club_list(c) == Seq::<ProposalId>::empty(),
    {
        let r = Router {
            cfg: config,
            next_id: 0,
            proposals: HashMap::new(),
            club_index: HashMap::new(),
            events: Vec::new(),
        };
        proof {
            assert(r.props() =~= Map::<ProposalId, ProposalModel>::empty());
        }
        r
    }

    /// Submits a proposal carrying the encoded `action`.  The signer must be
    /// eligible under `scope`; omitted parameters fall back to the
    /// configured defaults.  A submission whose voting window would be empty
    /// (an effective period of zero, or a current height with no
    /// representable successor) is refused, so a stored proposal always has
    /// `end > start`.  On acceptance the proposal is stored under the next
    /// free id, the id is appended to the club's index for club-scoped
    /// proposals, and a `ProposalCreated` event is emitted.  A failure —
    /// including a club index at capacity — leaves the state untouched.
    pub fn propose(
        &mut self,
        registry: &Membership,
        who: AccountId,
        scope: Scope,
        action: Vec<u8>,
        metadata: Option<Vec<u8>>,
        voting_period: Option<BlockNumber>,
        quorum: Option<Votes>,
        pass_threshold: Option<u32>,
        now: BlockNumber,
    ) -> (r: Result<ProposalId, RouterError>)
        requires
            old(self).wf(),
        ensures
            final(self).wf(),
            r == propose_result(
                old(self).spec_config(),
                registry@,
                who,
                scope,
                action@,
                metadata_view(metadata),
                opt_or_u64(voting_period, old(self).spec_config().default_voting_period),
                now,
                old(self).scope_list(scope),
                old(self).spec_next_id(),
            ),
            r is Err ==> same_state(*final(self), *old(self)),
            r matches Ok(id) ==> {
                let cfg = old(self).spec_config();
                let p = created_proposal(
                    id,
                    who,
                    scope,
                    action@,
                    metadata_view(metadata),
                    now,
                    opt_or_u64(voting_period, cfg.default_voting_period),
                    opt_or_u32(quorum, cfg.default_quorum),
                    opt_or_u32(pass_threshold, cfg.default_pass_threshold),
                );
                &&& id == old(self).spec_next_id()
                &&& p.end > p.start
                &&& final(self).props() == old(self).props().insert(id, p)
                &&& final(self).spec_next_id() == sat_add_u64(id, 1)
                &&& final(self).spec_config() == cfg
                &&& final(self).events_log() == old(self).events_log().push(
                    Event::ProposalCreated {
                        id,
                        proposer: who,
                        is_club_scoped: scope matches Scope::Club(_),
                    },
                )
                &&& match scope {
                    Scope::Club(c) => final(self).club_list(c) == old(self).club_list(c).push(id)
                        && (forall|c2: ClubId|
                        c2 != c ==> #[trigger] final(self).club_list(c2) == old(self).club_list(
                            c2,
                        )),
                    Scope::Global => forall|c2: ClubId| #![auto]
                        final(self).club_list(c2) == old(self).club_list(c2),
                }
            },
    {
        let eligible = registry.is_eligible(who, scope);
        if !eligible {
            return Err(
                match scope {
                    Scope::Club(_) => RouterError::NotClubMember,
                    Scope::Global => RouterError::NotMember,
                },
            );
        }
        if action.len() > self.cfg.max_action_len as usize {
            return Err(RouterError::ActionTooLarge);
        }
        if let Some(md) = &metadata {
            if md.len() > self.cfg.max_metadata_len as usize {
                return Err(RouterError::MetadataTooLarge);
            }
        }
        let period = match voting_period {
            Some(p) => p,
            None => self.cfg.default_voting_period,
        };
        if period == 0 || now == u64::MAX {
            return Err(RouterError::EmptyVotingWindow);
        }
        let id = self.next_id;
        let start = now;
        let end = if period > u64::MAX - start {
            u64::MAX
        } else {
            start + period
        };
        let effective_quorum = match quorum {
            Some(q) => q,
            None => self.cfg.default_quorum,
        };
        let effective_threshold = match pass_threshold {
            Some(t) => t,
            None => self.cfg.default_pass_threshold,
        };
        if let Scope::Club(c) = scope {
            let current_len: usize = match self.club_index.get(&c) {
                Some(list) => list.len(),
                None => 0,
            };
            if current_len >= self.cfg.club_index_cap as usize {
                return Err(RouterError::ClubIndexOverflow);
            }
            proof {
                assert(current_len as nat == old(self).club_list(c).len());
            }
            let mut list: Vec<ProposalId> = match self.club_index.remove(&c) {
                Some(existing) => existing,
                None => Vec::new(),
            };
            proof {
                assert(list@ =~= old(self).club_list(c));
            }
            list.push(id);
            self.club_index.insert(c, list);
        }
        let stored = Proposal {
            id,
            proposer: who,
            scope,
            action,
            metadata,
            start,
            end,
            yea: 0,
            nay: 0,
            executed: false,
            voters: Vec::new(),
            quorum: effective_quorum,
            pass_threshold: effective_threshold,
            club: match scope {
                Scope::Club(c) => Some(c),
                Scope::Global => None,
            },
        };
        proof {
            let cfg = old(self).spec_config();
            assert(stored@ =~= created_proposal(
                id,
                who,
                scope,
                stored.action@,
                metadata_view(stored.metadata),
                now,
                opt_or_u64(voting_period, cfg.default_voting_period),
                opt_or_u32(quorum, cfg.default_quorum),
                opt_or_u32(pass_threshold, cfg.default_pass_threshold),
            ));
        }
        self.proposals.insert(id, stored);
        proof {
            assert(self.props() =~= old(self).props().insert(id, self.proposals@[id]@));
        }
        self.next_id = if id == u64::MAX {
            u64::MAX
        } else {
            id + 1
        };
        self.events.push(
            Event::ProposalCreated {
                id,
                proposer: who,
                is_club_scoped: match scope {
                    Scope::Club(_) => true,
                    Scope::Global => false,
                },
            },
        );
        proof {
            match scope {
                Scope::Club(c) => {
                    assert(self.club_list(c) =~= old(self).club_list(c).push(id));
                    assert(forall|c2: ClubId|
                        c2 != c ==> #[trigger] self.club_list(c2) == old(self).club_list(c2));
                },
                Scope::Global => {
                    self.club_lists_unchanged(*old(self));
                },
            }
        }
        Ok(id)
    }

    /// Records one vote by `who` on proposal `id` at height `now`.  The
    /// accepted vote raises exactly one tally by one (weight is fixed at 1)
    /// and adds the signer to the voter set; a `Voted` event is emitted.
    /// Any failure leaves the state untouched, so a rejected attempt never
    /// moves the tallies.
    pub fn vote(
        &mut self,
        registry: &Membership,
        who: AccountId,
        id: ProposalId,
        aye: bool,
        now: BlockNumber,
    ) -> (r: Result<(), RouterError>)
        requires
            old(self).wf(),
        ensures
            final(self).wf(),
            final(self).spec_config() == old(self).spec_config(),
            r == vote_result(
                old(self).props(),
                old(self).spec_config(),
                registry@,
                who,
                id,
                now,
            ),
            r is Err ==> same_state(*final(self), *old(self)),
            r is Ok ==> {
                &&& final(self).props() == old(self).props().insert(
                    id,
                    voted_proposal(old(self).props()[id], who, aye),
                )
                &&& final(self).events_log() == old(self).events_log().push(
                    Event::Voted { id, who, aye, weight: 1 },
                )
                &&& final(self).spec_next_id() == old(self).spec_next_id()
                &&& forall|c: ClubId| #![auto] final(self).club_list(c) == old(self).club_list(c)
            },
    {
        let removed = self.proposals.remove(&id);
        let mut p = match removed {
            None => {
                proof {
                    assert(self.proposals@ =~= old(self).proposals@);
                    assert(self.props() =~= old(self).props());
                    self.club_lists_unchanged(*old(self));
                }
                return Err(RouterError::ProposalNotFound);
            },
            Some(p) => p,
        };
        proof {
            assert(old(self).props().contains_key(id) && p@ == old(self).props()[id]);
        }
        if now < p.start || now > p.end {
            self.proposals.insert(id, p);
            proof {
                assert(self.proposals@ =~= old(self).proposals@);
                assert(self.props() =~= old(self).props());
                self.club_lists_unchanged(*old(self));
            }
            return Err(RouterError::VotingClosed);
        }
        if contains_account(&p.voters, who) {
            self.proposals.insert(id, p);
            proof {
                assert(self.proposals@ =~= old(self).proposals@);
                assert(self.props() =~= old(self).props());
                self.club_lists_unchanged(*old(self));
            }
            return Err(RouterError::AlreadyVoted);
        }
        let eligible = registry.is_eligible(who, p.scope);
        if !eligible {
            let scope = p.scope;
            self.proposals.insert(id, p);
            proof {
                assert(self.proposals@ =~= old(self).proposals@);
                assert(self.props() =~= old(self).props());
                self.club_lists_unchanged(*old(self));
            }
            return Err(
                match scope {
                    Scope::Club(_) => RouterError::NotClubMember,
                    Scope::Global => RouterError::NotMember,
                },
            );
        }
        if p.voters.len() >= self.cfg.max_voters_per_proposal as usize {
            self.proposals.insert(id, p);
            proof {
                assert(self.proposals@ =~= old(self).proposals@);
                assert(self.props() =~= old(self).props());
                self.club_lists_unchanged(*old(self));
            }
            return Err(RouterError::VotersOverflow);
        }
        proof {
            assert(proposal_wf(p@, self.cfg));
        }
        if aye {
            p.yea = p.yea + 1;
        } else {
            p.nay = p.nay + 1;
        }
        p.voters.push(who);
        proof {
            assert(p@ =~= voted_proposal(old(self).props()[id], who, aye));
        }
        self.proposals.insert(id, p);
        proof {
            assert(self.props() =~= old(self).props().insert(
                id,
                voted_proposal(old(self).props()[id], who, aye),
            ));
        }
        self.events.push(Event::Voted { id, who, aye, weight: 1 });
        proof {
            self.club_lists_unchanged(*old(self));
        }
        Ok(())
    }

    /// Triggers execution of proposal `id` at height `now`.  Anyone may
    /// call; only the proposal's own passing condition gates execution.
    /// Once the window has fully closed and quorum and threshold are met,
    /// the stored action is decoded and dispatched against `ledger` under
    /// the fixed execution principal.  The proposal is marked executed
    /// whether or not the dispatch itself succeeds; a refused dispatch
    /// emits `ProposalFailed` and reports `ExecutionFailed`.  Failures
    /// before the dispatch step leave everything untouched.
    pub fn execute(
        &mut self,
        _caller: AccountId,
        id: ProposalId,
        now: BlockNumber,
        ledger: &mut Ledger,
    ) -> (r: Result<(), RouterError>)
        requires
            old(self).wf(),
        ensures
            final(self).wf(),
            final(self).spec_config() == old(self).spec_config(),
            r == execute_result(old(self).props(), old(ledger).balances(), id, now),
            !execute_approved(old(self).props(), id, now) ==> same_state(
                *final(self),
                *old(self),
            ) && final(ledger).balances() == old(ledger).balances(),
            execute_approved(old(self).props(), id, now) ==> match spec_decode(
                old(self).props()[id].action,
            ) {
                None => same_state(*final(self), *old(self)) && final(ledger).balances() == old(
                    ledger,
                ).balances(),
                Some(op) => {
                    &&& final(self).props() == old(self).props().insert(
                        id,
                        executed_proposal(old(self).props()[id]),
                    )
                    &&& final(self).spec_next_id() == old(self).spec_next_id()
                    &&& forall|c: ClubId| #![auto]
                        final(self).club_list(c) == old(self).club_list(c)
                    &&& match spec_dispatch(old(ledger).balances(), spec_execution_principal(), op) {
                        Ok(b2) => final(ledger).balances() == b2 && final(self).events_log() == old(self).events_log().push(Event::ProposalExecuted { id }),
                        Err(e) => final(ledger).balances() == old(ledger).balances() && final(self).events_log() == old(self).events_log().push(
                            Event::ProposalFailed { id, reason: e },
                        ),
                    }
                },
            },
    {
        let removed = self.proposals.remove(&id);
        let mut p = match removed {
            None => {
                proof {
                    assert(self.proposals@ =~= old(self).proposals@);
                    assert(self.props() =~= old(self).props());
                    self.club_lists_unchanged(*old(self));
                }
                return Err(RouterError::ProposalNotFound);
            },
            Some(p) => p,
        };
        proof {
            assert(old(self).props().contains_key(id) && p@ == old(self).props()[id]);
            assert(proposal_wf(p@, self.cfg));
        }
        if p.executed {
            self.proposals.insert(id, p);
            proof {
                assert(self.proposals@ =~= old(self).proposals@);
                assert(self.props() =~= old(self).props());
                self.club_lists_unchanged(*old(self));
            }
            return Err(RouterError::ProposalAlreadyExecuted);
        }
        if now <= p.end {
            self.proposals.insert(id, p);
            proof {
                assert(self.proposals@ =~= old(self).proposals@);
                assert(self.props() =~= old(self).props());
                self.club_lists_unchanged(*old(self));
            }
            return Err(RouterError::VotingClosed);
        }
        let total: u32 = p.yea + p.nay;
        if total < p.quorum {
            self.proposals.insert(id, p);
            proof {
                assert(self.proposals@ =~= old(self).proposals@);
                assert(self.props() =~= old(self).props());
                self.club_lists_unchanged(*old(self));
            }
            return Err(RouterError::QuorumNotReached);
        }
        let percent: u64 = if total == 0 {
            0
        } else {
            (p.yea as u64) * 10000 / (total as u64)
        };
        proof {
            assert(percent == pass_percent(p.yea, p.nay));
        }
        if percent < p.pass_threshold as u64 {
            self.proposals.insert(id, p);
            proof {
                assert(self.proposals@ =~= old(self).proposals@);
                assert(self.props() =~= old(self).props());
                self.club_lists_unchanged(*old(self));
            }
            return Err(RouterError::ProposalNotPassed);
        }
        let decoded = decode_operation(&p.action);
        let op = match decoded {
            None => {
                self.proposals.insert(id, p);
                proof {
                    assert(self.proposals@ =~= old(self).proposals@);
                    assert(self.props() =~= old(self).props());
                    self.club_lists_unchanged(*old(self));
                }
                return Err(RouterError::InvalidCallEncoding);
            },
            Some(op) => op,
        };
        let principal = execution_principal();
        let dispatched = ledger.dispatch(principal, &op);
        p.executed = true;
        proof {
            assert(p@ =~= executed_proposal(old(self).props()[id]));
        }
        self.proposals.insert(id, p);
        proof {
            assert(self.props() =~= old(self).props().insert(
                id,
                executed_proposal(old(self).props()[id]),
            ));
        }
        match dispatched {
            Ok(_) => {
                self.events.push(Event::ProposalExecuted { id });
                proof {
                    self.club_lists_unchanged(*old(self));
                }
                Ok(())
            },
            Err(reason) => {
                self.events.push(Event::ProposalFailed { id, reason });
                proof {
                    self.club_lists_unchanged(*old(self));
                }
                Err(RouterError::ExecutionFailed)
            },
        }
    }

    /// Removes proposal `id` entirely.  Only the configured admin may
    /// cancel; an executed proposal stays as an audit record and cannot be
    /// cancelled.  The club index is not cleaned, so readers must treat a
    /// dangling index entry as gone.
    pub fn cancel(&mut self, origin: AccountId, id: ProposalId) -> (r: Result<(), RouterError>)
        requires
            old(self).wf(),
        ensures
            final(self).wf(),
            final(self).spec_config() == old(self).spec_config(),
            r == cancel_result(old(self).props(), old(self).spec_config(), origin, id),
            r is Err ==> same_state(*final(self), *old(self)),
            r is Ok ==> {
                &&& final(self).props() == old(self).props().remove(id)
                &&& final(self).events_log() == old(self).events_log().push(
                    Event::ProposalCancelled { id },
                )
                &&& final(self).spec_next_id() == old(self).spec_next_id()
                &&& forall|c: ClubId| #![auto] final(self).club_list(c) == old(self).club_list(c)
            },
    {
        if origin != self.cfg.admin {
            return Err(RouterError::NotAuthorized);
        }
        let removed = self.proposals.remove(&id);
        match removed {
            None => {
                proof {
                    assert(self.proposals@ =~= old(self).proposals@);
                    assert(self.props() =~= old(self).props());
                    self.club_lists_unchanged(*old(self));
                }
                Err(RouterError::ProposalNotFound)
            },
            Some(p) => {
                if p.executed {
                    self.proposals.insert(id, p);
                    proof {
                        assert(self.proposals@ =~= old(self).proposals@);
                        assert(self.props() =~= old(self).props());
                        self.club_lists_unchanged(*old(self));
                    }
                    Err(RouterError::ProposalAlreadyExecuted)
                } else {
                    proof {
                        assert(self.props() =~= old(self).props().remove(id));
                    }
                    self.events.push(Event::ProposalCancelled { id });
                    proof {
                        self.club_lists_unchanged(*old(self));
                    }
                    Ok(())
                }
            },
        }
    }

    /// The id the next accepted submission will take.
    pub fn next_proposal_id(&self) -> (r: ProposalId)
        ensures
            r == self.spec_next_id(),
    {
        self.next_id
    }

    /// The stored proposal under `id`, if any.
    pub fn proposals(&self, id: ProposalId) -> (r: Option<&Proposal>)
        ensures
            match r {
                Some(p) => self.props().contains_key(id) && p@ == self.props()[id],
                None => !self.props().contains_key(id),
            },
    {
        self.proposals.get(&id)
    }

    /// The club's proposal index, if the club ever held a proposal.
    pub fn club_proposals(&self, club: ClubId) -> (r: Option<&Vec<ProposalId>>)
        ensures
            match r {
                Some(list) => list@ == self.club_list(club),
                None => self.club_list(club) == Seq::<ProposalId>::empty(),
            },
    {
        self.club_index.get(&club)
    }

    /// The ordered log of every event emitted so far.
    pub fn events(&self) -> (r: &Vec<Event>)
        ensures
            r@ == self.events_log(),
    {
        &self.events
    }

    /// The fixed configuration the router was built with.
    pub fn config(&self) -> (r: RouterConfig)
        ensures
            r == self.spec_config(),
    {
        self.cfg
    }
}

} // verus!
