use proposal_router::codec::encode_operation;
use proposal_router::ledger::execution_principal;
use proposal_router::Event;
use proposal_router::Ledger;
use proposal_router::Membership;
use proposal_router::Operation;
use proposal_router::Router;
use proposal_router::RouterConfig;
use proposal_router::RouterError;
use proposal_router::Scope;

fn test_config() -> RouterConfig {
    RouterConfig {
        max_action_len: 4096,
        max_metadata_len: 256,
        max_voters_per_proposal: 1024,
        club_index_cap: 1024,
        default_voting_period: 10,
        default_quorum: 1,
        default_pass_threshold: 5000,
        admin: 100,
    }
}

#[test]
fn propose_vote_execute_transfer() {
    let mut router = Router::new(test_config());
    let mut registry = Membership::new();
    let mut ledger = Ledger::new();

    // Genesis balances; the execution principal must hold funds for the
    // transfer to succeed.
    ledger.set_balance(1, 1_000_000);
    ledger.set_balance(2, 1_000_000);
    ledger.set_balance(99, 1_000_000);
    let principal = execution_principal();
    ledger.set_balance(principal, 1_000_000);
    assert!(ledger.balance_of(principal) > 0);

    // Register member 3 with club 0.
    registry.register_member(3);
    registry.join_club(3, 0);

    // A transfer of 1000 units to account 1, encoded.
    let encoded = encode_operation(&Operation::Transfer { dest: 1, value: 1_000 });

    // Member 3 submits a global proposal at height 1.
    let id = router
        .propose(&registry, 3, Scope::Global, encoded, None, None, None, None, 1)
        .unwrap();
    assert_eq!(id, 0);

    // Vote by member 3.
    router.vote(&registry, 3, 0, true, 1).unwrap();

    // Advance beyond the voting end and execute.
    let before = ledger.balance_of(1);
    router.execute(1, 0, 100, &mut ledger).unwrap();
    let after = ledger.balance_of(1);
    assert_eq!(after, before + 1_000);
}

#[test]
fn club_proposal_eligibility_and_double_vote_prevention() {
    let mut router = Router::new(test_config());
    let mut registry = Membership::new();

    // Club 0 with member 3.
    registry.register_member(3);
    registry.join_club(3, 0);

    let encoded = encode_operation(&Operation::Transfer { dest: 1, value: 100 });

    // Non-member 5 cannot propose club-scoped.
    let refused = router.propose(
        &registry,
        5,
        Scope::Club(0),
        encoded.clone(),
        None,
        None,
        None,
        None,
        1,
    );
    assert_eq!(refused, Err(RouterError::NotClubMember));

    // Member 3 proposes fine.
    let accepted = router.propose(
        &registry,
        3,
        Scope::Club(0),
        encoded,
        None,
        None,
        None,
        None,
        1,
    );
    assert_eq!(accepted, Ok(0));

    // Member votes once; the second vote fails.
    assert_eq!(router.vote(&registry, 3, 0, true, 1), Ok(()));
    assert_eq!(
        router.vote(&registry, 3, 0, true, 1),
        Err(RouterError::AlreadyVoted)
    );
}

#[test]
fn global_end_to_end_transfer_with_events() {
    let mut router = Router::new(test_config());
    let mut registry = Membership::new();
    let mut ledger = Ledger::new();

    let principal = execution_principal();
    ledger.set_balance(principal, 5_000);
    registry.register_member(3);

    // Proposal 0: transfer 1000 units from the principal to account 9;
    // period 10, quorum 1, pass threshold 0, submitted at height 1.
    let encoded = encode_operation(&Operation::Transfer { dest: 9, value: 1_000 });
    let id = router
        .propose(
            &registry,
            3,
            Scope::Global,
            encoded,
            None,
            Some(10),
            Some(1),
            Some(0),
            1,
        )
        .unwrap();
    assert_eq!(id, 0);

    // One eligible account votes aye within the window.
    router.vote(&registry, 3, 0, true, 5).unwrap();

    // Past height end = 11, anyone may execute.
    assert_eq!(router.execute(42, 0, 12, &mut ledger), Ok(()));
    assert_eq!(ledger.balance_of(9), 1_000);
    assert_eq!(ledger.balance_of(principal), 4_000);

    // The proposal is terminally executed and the event was emitted.
    let stored = router.proposals(0).unwrap();
    assert!(stored.executed);
    let events = router.events();
    assert_eq!(events[events.len() - 1], Event::ProposalExecuted { id: 0 });

    // A second execution attempt on id 0 fails.
    assert_eq!(
        router.execute(42, 0, 13, &mut ledger),
        Err(RouterError::ProposalAlreadyExecuted)
    );
    assert_eq!(ledger.balance_of(9), 1_000);
}

#[test]
fn club_eligibility_gained_by_joining() {
    let mut router = Router::new(test_config());
    let mut registry = Membership::new();

    let encoded = encode_operation(&Operation::Noop);

    // Account 8 is not in club 7: the club-scoped submission fails.
    let refused = router.propose(
        &registry,
        8,
        Scope::Club(7),
        encoded.clone(),
        None,
        None,
        None,
        None,
        1,
    );
    assert_eq!(refused, Err(RouterError::NotClubMember));

    // After joining club 7, the identical call succeeds.
    registry.join_club(8, 7);
    let accepted = router.propose(
        &registry,
        8,
        Scope::Club(7),
        encoded,
        None,
        None,
        None,
        None,
        1,
    );
    assert_eq!(accepted, Ok(0));

    // The club index now lists the proposal.
    assert_eq!(router.club_proposals(7), Some(&vec![0]));
}
