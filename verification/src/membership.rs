use vstd::prelude::*;
use std::collections::HashMap;

use crate::config::AccountId;
use crate::config::ClubId;
use crate::errors::RouterError;
use crate::proposal::Scope;

verus! {

broadcast use vstd::std_specs::hash::group_hash_axioms;

/// The membership registry as the router sees it: which accounts are
/// registered, and which clubs each belongs to.  The router consults it on
/// every submission and on every vote; eligibility is never cached.
///
/// The registry is injected into the router's operations, so the engine can
/// be driven against any membership state.
pub struct Membership {
    members: HashMap<AccountId, Vec<ClubId>>,
}

impl View for Membership {
    type V = Map<AccountId, Seq<ClubId>>;

    closed spec fn view(&self) -> Map<AccountId, Seq<ClubId>> {
        self.members@.map_values(|clubs: Vec<ClubId>| clubs@)
    }
}

/// Whether `who` is a registered member at all.
pub open spec fn spec_is_member(reg: Map<AccountId, Seq<ClubId>>, who: AccountId) -> bool {
    reg.contains_key(who)
}

/// Whether `who` is a registered member of `club`.
pub open spec fn spec_in_club(
    reg: Map<AccountId, Seq<ClubId>>,
    who: AccountId,
    club: ClubId,
) -> bool {
    reg.contains_key(who) && reg[who].contains(club)
}

/// The eligibility rule of a scope: club proposals demand membership of that
/// club, global proposals demand any registration.  The same rule gates both
/// submission and voting.
pub open spec fn spec_eligible(
    reg: Map<AccountId, Seq<ClubId>>,
    who: AccountId,
    scope: Scope,
) -> bool {
    match scope {
        Scope::Club(c) => spec_in_club(reg, who, c),
        Scope::Global => spec_is_member(reg, who),
    }
}

/// The error reported when the eligibility rule of `scope` fails.
pub open spec fn eligibility_error(scope: Scope) -> RouterError {
    match scope {
        Scope::Club(_) => RouterError::NotClubMember,
        Scope::Global => RouterError::NotMember,
    }
}

impl Membership {
    /// An empty registry: nobody is a member.
    pub fn new() -> (r: Membership)
        ensures
            r@ == Map::<AccountId, Seq<ClubId>>::empty(),
    {
        let r = Membership { members: HashMap::new() };
        proof {
            assert(r@ =~= Map::<AccountId, Seq<ClubId>>::empty());
        }
        r
    }

    /// Registers `who` as a member (of no club yet); already-registered
    /// accounts are left as they are.
    pub fn register_member(&mut self, who: AccountId)
        ensures
            final(self)@ == if old(self)@.contains_key(who) {
                old(self)@
            } else {
                old(self)@.insert(who, Seq::<ClubId>::empty())
            },
    {
        if !self.members.contains_key(&who) {
            self.members.insert(who, Vec::new());
            proof {
                assert(self@ =~= old(self)@.insert(who, Seq::<ClubId>::empty()));
            }
        }
    }

    /// Adds `who` to `club`, registering the account if needed.  Joining a
    /// club twice leaves a duplicate entry behind, which is harmless: only
    /// membership is ever asked.
    pub fn join_club(&mut self, who: AccountId, club: ClubId)
        ensures
            final(self)@ == old(self)@.insert(
                who,
                if old(self)@.contains_key(who) {
                    old(self)@[who].push(club)
                } else {
                    seq![club]
                },
            ),
    {
        let mut clubs: Vec<ClubId> = match self.members.remove(&who) {
            Some(existing) => existing,
            None => Vec::new(),
        };
        clubs.push(club);
        self.members.insert(who, clubs);
        proof {
            if old(self)@.contains_key(who) {
                assert(self@ =~= old(self)@.insert(who, old(self)@[who].push(club)));
            } else {
                assert(self@ =~= old(self)@.insert(who, seq![club]));
            }
        }
    }

    /// Whether `who` is registered.
    pub fn is_member(&self, who: AccountId) -> (r: bool)
        ensures
            r == spec_is_member(self@, who),
    {
        self.members.contains_key(&who)
    }

    /// The clubs `who` belongs to, `None` for an unregistered account.
    pub fn member_clubs(&self, who: AccountId) -> (r: Option<&Vec<ClubId>>)
        ensures
            match r {
                Some(clubs) => self@.contains_key(who) && clubs@ == self@[who],
                None => !self@.contains_key(who),
            },
    {
        self.members.get(&who)
    }

    /// Whether `who` is registered and belongs to `club`.
    pub fn is_club_member(&self, who: AccountId, club: ClubId) -> (r: bool)
        ensures
            r == spec_in_club(self@, who, club),
    {
        match self.members.get(&who) {
            None => false,
            Some(clubs) => {
                proof {
                    assert(self@.contains_key(who));
                    assert(self@[who] == clubs@);
                }
                let mut i: usize = 0;
                while i < clubs.len()
                    invariant
                        i <= clubs@.len(),
                        self@.contains_key(who),
                        self@[who] == clubs@,
                        forall|k: int| 0 <= k < i ==> clubs@[k] != club,
                    decreases clubs@.len() - i,
                {
                    if clubs[i] == club {
                        proof {
                            assert(clubs@.contains(club)) by {
                                assert(clubs@[i as int] == club);
                            }
                        }
                        return true;
                    }
                    i = i + 1;
                }
                false
            },
        }
    }

    /// Whether `who` may submit or vote under `scope`.
    pub fn is_eligible(&self, who: AccountId, scope: Scope) -> (r: bool)
        ensures
            r == spec_eligible(self@, who, scope),
    {
        match scope {
            Scope::Club(c) => self.is_club_member(who, c),
            Scope::Global => self.is_member(who),
        }
    }
}

} // verus!
