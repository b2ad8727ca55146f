use vstd::prelude::*;
use std::collections::HashMap;

use crate::codec::Operation;
use crate::codec::le_value;
use crate::config::AccountId;
use crate::config::Balance;
use crate::errors::DispatchError;

verus! {

broadcast use vstd::std_specs::hash::group_hash_axioms;

/// The deterministic store of account balances, together with the dispatch
/// primitive that applies a decoded operation to it.  Accounts without an
/// entry hold a balance of zero.
pub struct Ledger {
    balances: HashMap<AccountId, Balance>,
}

/// The outcome of moving `value` units from `from` to `to` over the total
/// balance map `b`: the new map, or the reason the transfer is refused.
/// A self-transfer of an affordable value succeeds and changes nothing.
pub open spec fn spec_transfer(
    b: Map<AccountId, Balance>,
    from: AccountId,
    to: AccountId,
    value: Balance,
) -> Result<Map<AccountId, Balance>, DispatchError> {
    if b[from] < value {
        Err(DispatchError::InsufficientFunds)
    } else if to != from && b[to] + value > Balance::MAX {
        Err(DispatchError::BalanceOverflow)
    } else {
        let debited = b.insert(from, (b[from] - value) as Balance);
        Ok(debited.insert(to, (debited[to] + value) as Balance))
    }
}

/// The outcome of dispatching `op` under the paying account `principal`.
pub open spec fn spec_dispatch(
    b: Map<AccountId, Balance>,
    principal: AccountId,
    op: Operation,
) -> Result<Map<AccountId, Balance>, DispatchError> {
    match op {
        Operation::Transfer { dest, value } => spec_transfer(b, principal, dest, value),
        Operation::Noop => Ok(b),
    }
}

/// The fixed seed from which the execution principal is derived: the bytes
/// of the router's own name, `proposal_r`.
pub open spec fn router_seed() -> Seq<u8> {
    seq![0x70u8, 0x72u8, 0x6fu8, 0x70u8, 0x6fu8, 0x73u8, 0x61u8, 0x6cu8, 0x5fu8, 0x72u8]
}

/// An account id derived from a byte seed: the first eight bytes, read
/// little-endian, padded with zeros when the seed is shorter.
pub open spec fn spec_derive_principal(seed: Seq<u8>) -> AccountId {
    le_value(Seq::new(8, |i: int| if i < seed.len() { seed[i] } else { 0u8 })) as u64
}

/// The fixed execution principal: the account under which every approved
/// operation is dispatched.  It is derived deterministically from the
/// router's seed and belongs to no proposer or voter.
pub open spec fn spec_execution_principal() -> AccountId {
    spec_derive_principal(router_seed())
}

/// Derives an account id from a byte seed, deterministically: the same seed
/// yields the same account on every call.
pub fn derive_principal(seed: &Vec<u8>) -> (r: AccountId)
    ensures
        r == spec_derive_principal(seed@),
{
    let ghost padded = Seq::new(8, |i: int| if i < seed@.len() { seed@[i] } else { 0u8 });
    let mut acc: u64 = 0;
    let mut j: usize = 8;
    proof {
        assert(padded.subrange(8, 8) =~= Seq::empty());
    }
    while j > 0
        invariant
            j <= 8,
            padded == Seq::new(8, |i: int| if i < seed@.len() { seed@[i] } else { 0u8 }),
            (acc as nat) == le_value(padded.subrange(j as int, 8)),
            (acc as nat) < crate::codec::pow256((8 - j) as nat),
        decreases j,
    {
        j = j - 1;
        let byte: u8 = if j < seed.len() {
            seed[j]
        } else {
            0u8
        };
        proof {
            assert(padded[j as int] == byte);
            assert(padded.subrange(j as int, 8).drop_first() =~= padded.subrange(j as int + 1, 8));
            crate::codec::lemma_pow256_increases((8 - j - 1) as nat, 7);
            crate::codec::lemma_pow256_values();
            assert(crate::codec::pow256(7) * 256 == crate::codec::pow256(8)) by {
                reveal_with_fuel(crate::codec::pow256, 9);
            }
            assert(crate::codec::pow256(8) == 0x1_0000_0000_0000_0000);
        }
        acc = acc * 256 + byte as u64;
    }
    proof {
        assert(padded.subrange(0, 8) =~= padded);
    }
    acc
}

/// The fixed execution principal as a concrete account id.
pub fn execution_principal() -> (r: AccountId)
    ensures
        r == spec_execution_principal(),
{
    let mut seed: Vec<u8> = Vec::new();
    seed.push(0x70u8);
    seed.push(0x72u8);
    seed.push(0x6fu8);
    seed.push(0x70u8);
    seed.push(0x6fu8);
    seed.push(0x73u8);
    seed.push(0x61u8);
    seed.push(0x6cu8);
    seed.push(0x5fu8);
    seed.push(0x72u8);
    proof {
        assert(seed@ =~= router_seed());
    }
    derive_principal(&seed)
}

impl Ledger {
    /// The total balance map: zero for every account without an entry.
    pub closed spec fn balances(self) -> Map<AccountId, Balance> {
        Map::new(
            |a: AccountId| true,
            |a: AccountId|
                if self.balances@.contains_key(a) {
                    self.balances@[a]
                } else {
                    0
                },
        )
    }

    /// An empty ledger: every account holds zero.
    pub fn new() -> (r: Ledger)
        ensures
            forall|a: AccountId| r.balances()[a] == 0,
    {
        Ledger { balances: HashMap::new() }
    }

    /// Sets `who`'s balance outright; the genesis/endowment primitive.
    pub fn set_balance(&mut self, who: AccountId, amount: Balance)
        ensures
            final(self).balances() == old(self).balances().insert(who, amount),
    {
        self.balances.insert(who, amount);
        proof {
            assert(self.balances() =~= old(self).balances().insert(who, amount));
        }
    }

    /// Reads `who`'s balance.
    pub fn balance_of(&self, who: AccountId) -> (r: Balance)
        ensures
            r == self.balances()[who],
    {
        match self.balances.get(&who) {
            Some(v) => *v,
            None => 0,
        }
    }

    /// Moves `value` units from `from` to `to`.  On failure the ledger is
    /// untouched; on success exactly the two balances move.
    pub fn transfer(&mut self, from: AccountId, to: AccountId, value: Balance) -> (r: Result<
        (),
        DispatchError,
    >)
        ensures
            match spec_transfer(old(self).balances(), from, to, value) {
                Ok(b2) => r is Ok && final(self).balances() == b2,
                Err(e) => r == Err::<(), DispatchError>(e) && final(self).balances() == old(
                    self,
                ).balances(),
            },
    {
        let from_balance = self.balance_of(from);
        if from_balance < value {
            return Err(DispatchError::InsufficientFunds);
        }
        if to != from {
            let to_balance = self.balance_of(to);
            if value > Balance::MAX - to_balance {
                return Err(DispatchError::BalanceOverflow);
            }
            self.balances.insert(from, from_balance - value);
            self.balances.insert(to, to_balance + value);
            proof {
                let b = old(self).balances();
                let debited = b.insert(from, (b[from] - value) as Balance);
                assert(self.balances() =~= debited.insert(to, (debited[to] + value) as Balance));
            }
        } else {
            proof {
                let b = old(self).balances();
                let debited = b.insert(from, (b[from] - value) as Balance);
                assert(self.balances() =~= debited.insert(to, (debited[to] + value) as Balance));
            }
        }
        Ok(())
    }

    /// Applies `op` under the paying account `principal`.  A refused
    /// dispatch leaves every balance as it was.
    pub fn dispatch(&mut self, principal: AccountId, op: &Operation) -> (r: Result<
        (),
        DispatchError,
    >)
        ensures
            match spec_dispatch(old(self).balances(), principal, *op) {
                Ok(b2) => r is Ok && final(self).balances() == b2,
                Err(e) => r == Err::<(), DispatchError>(e) && final(self).balances() == old(
                    self,
                ).balances(),
            },
    {
        match op {
            Operation::Transfer { dest, value } => self.transfer(principal, *dest, *value),
            Operation::Noop => Ok(()),
        }
    }
}

} // verus!
