//! What the host chain reported for one invocation.
//!
//! The distributor never talks to the chain itself. The caller reads what an
//! invocation needs (which identities the chain accepts, what the accounts
//! hold in the funding denomination) and hands it over as plain values.

use crate::identity::{compare, Order};
use vstd::prelude::*;

verus! {

/// The denomination in which the pool is held and accounts are funded.
pub const UNTRN_DENOM: &'static str = "untrn";

/// The block in which the invocation runs.
#[derive(Clone, Copy, Debug, PartialEq, Eq, Structural)]
pub struct BlockInfo {
    pub height: u64,
    /// Block time in nanoseconds since the Unix epoch.
    pub time: u64,
}

/// Where the invocation runs: the current block and the contract's own
/// account, which holds the pool.
#[derive(Clone, Debug, PartialEq, Eq)]
pub struct Env {
    pub block: BlockInfo,
    pub contract_address: String,
}

/// Who sent the message.
#[derive(Clone, Debug, PartialEq, Eq)]
pub struct MessageInfo {
    pub sender: String,
}

/// The identities that the host's address validation accepted.
#[derive(Clone, Debug, PartialEq, Eq)]
pub struct Api {
    accepted: Vec<String>,
}

impl View for Api {
    type V = Set<Seq<char>>;

    closed spec fn view(&self) -> Set<Seq<char>> {
        Set::new(|a: Seq<char>| exists|i: int| 0 <= i < self.accepted@.len() && (#[trigger] self.accepted@[i])@ == a)
    }
}

impl Api {
    /// An `Api` that accepts no identity.
    pub fn new() -> (api: Api)
        ensures
            api@ == Set::<Seq<char>>::empty(),
    {
        let api = Api { accepted: Vec::new() };
        assert(api@ =~= Set::<Seq<char>>::empty());
        api
    }

    /// Records that the host accepts `address`.
    pub fn accept(&mut self, address: String)
        ensures
            final(self)@ == old(self)@.insert(address@),
    {
        let ghost before = self.accepted@;
        self.accepted.push(address);
        proof {
            let after = self.accepted@;
            assert forall|a: Seq<char>| self@.contains(a) <==> old(self)@.insert(address@).contains(a) by {
                if self@.contains(a) {
                    let i = choose|i: int| 0 <= i < after.len() && (#[trigger] after[i])@ == a;
                    if i < before.len() {
                        assert(before[i]@ == a);
                    }
                }
                if old(self)@.contains(a) {
                    let i = choose|i: int| 0 <= i < before.len() && (#[trigger] before[i])@ == a;
                    assert(after[i]@ == a);
                }
                if a == address@ {
                    assert(after[before.len() as int]@ == a);
                }
            }
            assert(self@ =~= old(self)@.insert(address@));
        }
    }

    /// Whether the host accepts `address` as an account identity.
    pub fn addr_validate(&self, address: &str) -> (ok: bool)
        ensures
            ok == self@.contains(address@),
    {
        let mut i: usize = 0;
        while i < self.accepted.len()
            invariant
                i <= self.accepted@.len(),
                forall|j: int| 0 <= j < i ==> (#[trigger] self.accepted@[j])@ != address@,
            decreases self.accepted@.len() - i,
        {
            if compare(self.accepted[i].as_str(), address) == Order::Same {
                return true;
            }
            i = i + 1;
        }
        false
    }
}

/// One account's balance in the funding denomination.
#[derive(Clone, Debug, PartialEq, Eq)]
pub struct Balance {
    pub address: String,
    pub amount: u128,
}

/// The balances that the host's bank reported, in the funding denomination.
/// An account that was not reported holds nothing.
#[derive(Clone, Debug, PartialEq, Eq)]
pub struct Querier {
    reported: Vec<Balance>,
}

/// The ledger that a list of reports describes: a later report of an account
/// replaces an earlier one.
pub open spec fn ledger_of(reported: Seq<Balance>) -> Map<Seq<char>, u128>
    decreases reported.len(),
{
    if reported.len() == 0 {
        Map::empty()
    } else {
        ledger_of(reported.drop_last()).insert(reported.last().address@, reported.last().amount)
    }
}

/// What `address` holds according to `ledger`.
pub open spec fn balance_in(ledger: Map<Seq<char>, u128>, address: Seq<char>) -> u128 {
    if ledger.contains_key(address) {
        ledger[address]
    } else {
        0
    }
}

impl View for Querier {
    type V = Map<Seq<char>, u128>;

    closed spec fn view(&self) -> Map<Seq<char>, u128> {
        ledger_of(self.reported@)
    }
}

impl Querier {
    /// A querier to which no balance was reported.
    pub fn new() -> (querier: Querier)
        ensures
            querier@ == Map::<Seq<char>, u128>::empty(),
    {
        Querier { reported: Vec::new() }
    }

    /// Records that `address` holds `amount`.
    pub fn update_balance(&mut self, address: String, amount: u128)
        ensures
            final(self)@ == old(self)@.insert(address@, amount),
    {
        self.reported.push(Balance { address, amount });
        assert(self.reported@.drop_last() =~= old(self).reported@);
    }

    /// What `address` holds.
    pub fn query_balance(&self, address: &str) -> (amount: u128)
        ensures
            amount == balance_in(self@, address@),
    {
        let mut i: usize = self.reported.len();
        assert(self.reported@.take(i as int) =~= self.reported@);
        while i > 0
            invariant
                i <= self.reported@.len(),
                balance_in(self@, address@) == balance_in(
                    ledger_of(self.reported@.take(i as int)),
                    address@,
                ),
            decreases i,
        {
            i = i - 1;
            proof {
                assert(self.reported@.take(i + 1).drop_last() =~= self.reported@.take(i as int));
            }
            if compare(self.reported[i].address.as_str(), address) == Order::Same {
                return self.reported[i].amount;
            }
        }
        0
    }
}

} // verus!
