use proposal_router::codec::encode_operation;
use proposal_router::ledger::derive_principal;
use proposal_router::ledger::execution_principal;
use proposal_router::DispatchError;
use proposal_router::Ledger;
use proposal_router::Membership;
use proposal_router::Operation;
use proposal_router::Router;
use proposal_router::RouterConfig;
use proposal_router::Scope;

#[test]
fn transfers_move_exact_amounts() {
    let mut ledger = Ledger::new();
    ledger.set_balance(1, 500);
    assert_eq!(ledger.transfer(1, 2, 120), Ok(()));
    assert_eq!(ledger.balance_of(1), 380);
    assert_eq!(ledger.balance_of(2), 120);
}

#[test]
fn transfer_with_insufficient_funds_changes_nothing() {
    let mut ledger = Ledger::new();
    ledger.set_balance(1, 99);
    assert_eq!(
        ledger.transfer(1, 2, 100),
        Err(DispatchError::InsufficientFunds)
    );
    assert_eq!(ledger.balance_of(1), 99);
    assert_eq!(ledger.balance_of(2), 0);
}

#[test]
fn transfer_overflowing_the_destination_changes_nothing() {
    let mut ledger = Ledger::new();
    ledger.set_balance(1, 10);
    ledger.set_balance(2, u128::MAX);
    assert_eq!(
        ledger.transfer(1, 2, 1),
        Err(DispatchError::BalanceOverflow)
    );
    assert_eq!(ledger.balance_of(1), 10);
    assert_eq!(ledger.balance_of(2), u128::MAX);
}

#[test]
fn transfer_to_self_keeps_the_balance() {
    let mut ledger = Ledger::new();
    ledger.set_balance(5, 70);
    assert_eq!(ledger.transfer(5, 5, 70), Ok(()));
    assert_eq!(ledger.balance_of(5), 70);
}

#[test]
fn noop_dispatch_succeeds_without_effect() {
    let mut ledger = Ledger::new();
    ledger.set_balance(3, 30);
    assert_eq!(ledger.dispatch(3, &Operation::Noop), Ok(()));
    assert_eq!(ledger.balance_of(3), 30);
}

#[test]
fn execution_principal_is_deterministic_and_reserved() {
    let first = execution_principal();
    let second = execution_principal();
    assert_eq!(first, second);
    // It is the router's seed read as a little-endian account id, far away
    // from any small test account.
    assert_eq!(first, u64::from_le_bytes(*b"proposal"));
    assert!(first > 1_000_000);
}

#[test]
fn principals_derive_from_the_first_eight_seed_bytes() {
    // A short seed is padded with zeros.
    assert_eq!(derive_principal(&vec![1]), 1);
    assert_eq!(derive_principal(&vec![0, 1]), 256);
    assert_eq!(derive_principal(&vec![]), 0);
    // Bytes past the eighth are ignored.
    assert_eq!(
        derive_principal(&vec![9, 0, 0, 0, 0, 0, 0, 0, 77, 88]),
        derive_principal(&vec![9])
    );
}

#[test]
fn proposals_execute_under_the_principal_not_the_proposer() {
    let cfg = RouterConfig {
        max_action_len: 4096,
        max_metadata_len: 256,
        max_voters_per_proposal: 1024,
        club_index_cap: 1024,
        default_voting_period: 10,
        default_quorum: 1,
        default_pass_threshold: 0,
        admin: 100,
    };
    let mut router = Router::new(cfg);
    let mut registry = Membership::new();
    let mut ledger = Ledger::new();
    registry.register_member(1);
    ledger.set_balance(1, 500);
    ledger.set_balance(execution_principal(), 500);

    let encoded = encode_operation(&Operation::Transfer { dest: 8, value: 200 });
    let id = router
        .propose(&registry, 1, Scope::Global, encoded, None, None, None, None, 1)
        .unwrap();
    router.vote(&registry, 1, id, true, 2).unwrap();
    assert_eq!(router.execute(1, id, 12, &mut ledger), Ok(()));

    // The proposer's own funds are untouched; the principal paid.
    assert_eq!(ledger.balance_of(1), 500);
    assert_eq!(ledger.balance_of(execution_principal()), 300);
    assert_eq!(ledger.balance_of(8), 200);
}
