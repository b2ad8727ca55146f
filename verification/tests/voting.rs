use proposal_router::codec::encode_operation;
use proposal_router::Event;
use proposal_router::Membership;
use proposal_router::Operation;
use proposal_router::Router;
use proposal_router::RouterConfig;
use proposal_router::RouterError;
use proposal_router::Scope;

fn config_with_voter_cap(max_voters: u32) -> RouterConfig {
    RouterConfig {
        max_action_len: 4096,
        max_metadata_len: 256,
        max_voters_per_proposal: max_voters,
        club_index_cap: 1024,
        default_voting_period: 10,
        default_quorum: 1,
        default_pass_threshold: 5000,
        admin: 100,
    }
}

fn noop_proposal(router: &mut Router, registry: &Membership, proposer: u64, now: u64) -> u64 {
    let encoded = encode_operation(&Operation::Noop);
    router
        .propose(registry, proposer, Scope::Global, encoded, None, None, None, None, now)
        .unwrap()
}

#[test]
fn voting_window_is_inclusive_at_both_bounds() {
    let mut router = Router::new(config_with_voter_cap(1024));
    let mut registry = Membership::new();
    registry.register_member(1);
    registry.register_member(2);
    registry.register_member(3);

    // Submitted at height 5 with the default period 10: window [5, 15].
    let id = noop_proposal(&mut router, &registry, 1, 5);

    // Exactly at start and exactly at end, votes are accepted.
    assert_eq!(router.vote(&registry, 1, id, true, 5), Ok(()));
    assert_eq!(router.vote(&registry, 2, id, false, 15), Ok(()));

    // Outside the window on either side, voting fails with VotingClosed.
    assert_eq!(
        router.vote(&registry, 3, id, true, 4),
        Err(RouterError::VotingClosed)
    );
    assert_eq!(
        router.vote(&registry, 3, id, true, 16),
        Err(RouterError::VotingClosed)
    );
}

#[test]
fn double_vote_rejected_and_tallies_unchanged() {
    let mut router = Router::new(config_with_voter_cap(1024));
    let mut registry = Membership::new();
    registry.register_member(1);

    let id = noop_proposal(&mut router, &registry, 1, 1);
    assert_eq!(router.vote(&registry, 1, id, true, 2), Ok(()));

    let before = router.proposals(id).unwrap();
    assert_eq!((before.yea, before.nay), (1, 0));

    // A second attempt fails whatever the aye value carries.
    assert_eq!(
        router.vote(&registry, 1, id, false, 3),
        Err(RouterError::AlreadyVoted)
    );
    assert_eq!(
        router.vote(&registry, 1, id, true, 3),
        Err(RouterError::AlreadyVoted)
    );

    let after = router.proposals(id).unwrap();
    assert_eq!((after.yea, after.nay), (1, 0));
    assert_eq!(after.voters, vec![1]);
}

#[test]
fn vote_requires_membership_at_vote_time() {
    let mut router = Router::new(config_with_voter_cap(1024));
    let mut registry = Membership::new();
    registry.register_member(1);
    registry.register_member(3);
    registry.join_club(3, 4);

    let global = noop_proposal(&mut router, &registry, 1, 1);
    let club = router
        .propose(
            &registry,
            3,
            Scope::Club(4),
            encode_operation(&Operation::Noop),
            None,
            None,
            None,
            None,
            1,
        )
        .unwrap();

    // Unregistered account 9 cannot vote on the global proposal.
    assert_eq!(
        router.vote(&registry, 9, global, true, 2),
        Err(RouterError::NotMember)
    );

    // Registered account 1 is still not in club 4.
    assert_eq!(
        router.vote(&registry, 1, club, true, 2),
        Err(RouterError::NotClubMember)
    );

    // Eligibility is read at vote time: once 1 joins club 4, the vote lands.
    registry.join_club(1, 4);
    assert_eq!(router.vote(&registry, 1, club, true, 2), Ok(()));
}

#[test]
fn voter_set_capacity_is_enforced() {
    let mut router = Router::new(config_with_voter_cap(1));
    let mut registry = Membership::new();
    registry.register_member(1);
    registry.register_member(2);

    let id = noop_proposal(&mut router, &registry, 1, 1);
    assert_eq!(router.vote(&registry, 1, id, true, 2), Ok(()));
    assert_eq!(
        router.vote(&registry, 2, id, true, 2),
        Err(RouterError::VotersOverflow)
    );

    let stored = router.proposals(id).unwrap();
    assert_eq!((stored.yea, stored.nay), (1, 0));
}

#[test]
fn vote_on_unknown_id_not_found() {
    let mut router = Router::new(config_with_voter_cap(1024));
    let mut registry = Membership::new();
    registry.register_member(1);
    assert_eq!(
        router.vote(&registry, 1, 7, true, 1),
        Err(RouterError::ProposalNotFound)
    );
}

#[test]
fn votes_are_logged_with_unit_weight() {
    let mut router = Router::new(config_with_voter_cap(1024));
    let mut registry = Membership::new();
    registry.register_member(1);
    registry.register_member(2);

    let id = noop_proposal(&mut router, &registry, 1, 1);
    router.vote(&registry, 1, id, true, 2).unwrap();
    router.vote(&registry, 2, id, false, 3).unwrap();

    let events = router.events();
    assert_eq!(
        events[0],
        Event::ProposalCreated { id: 0, proposer: 1, is_club_scoped: false }
    );
    assert_eq!(events[1], Event::Voted { id: 0, who: 1, aye: true, weight: 1 });
    assert_eq!(events[2], Event::Voted { id: 0, who: 2, aye: false, weight: 1 });
}
