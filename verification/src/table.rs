//! The table of policies: at most one policy for each recipient, walked in
//! ascending order of the recipients' identities.

use crate::error::ContractError;
use crate::identity::{before, compare, lemma_before_transitive, lemma_before_trichotomy, Order};
use crate::msg::{policies_view, TargetBalance, TargetBalanceUpdateParams, TargetBalanceView};
use vstd::prelude::*;

verus! {

/// Each policy's identity comes before those of the policies behind it.
pub open spec fn ascending(policies: Seq<TargetBalanceView>) -> bool {
    forall|i: int, j: int|
        0 <= i < j < policies.len() ==> before(
            (#[trigger] policies[i]).address,
            (#[trigger] policies[j]).address,
        )
}

/// No two policies are for the same recipient.
pub open spec fn distinct(policies: Seq<TargetBalanceView>) -> bool {
    forall|i: int, j: int|
        0 <= i < j < policies.len() ==> (#[trigger] policies[i]).address != (
        #[trigger] policies[j]).address
}

/// `policies` holds a policy for `address`.
pub open spec fn names(policies: Seq<TargetBalanceView>, address: Seq<char>) -> bool {
    exists|i: int| 0 <= i < policies.len() && (#[trigger] policies[i]).address == address
}

/// Where `policies` holds its policy for `address`.
pub open spec fn index_of(policies: Seq<TargetBalanceView>, address: Seq<char>) -> int {
    choose|i: int| 0 <= i < policies.len() && (#[trigger] policies[i]).address == address
}

/// The levels that `policies` sets for each recipient.
pub open spec fn levels(policies: Seq<TargetBalanceView>) -> Map<
    Seq<char>,
    TargetBalanceUpdateParams,
> {
    Map::new(
        |address: Seq<char>| names(policies, address),
        |address: Seq<char>| policies[index_of(policies, address)].update_options,
    )
}

/// Ascending policies are distinct.
pub proof fn lemma_ascending_distinct(policies: Seq<TargetBalanceView>)
    requires
        ascending(policies),
    ensures
        distinct(policies),
{
    assert forall|i: int, j: int| 0 <= i < j < policies.len() implies (
    #[trigger] policies[i]).address != (#[trigger] policies[j]).address by {
        lemma_before_trichotomy(policies[i].address, policies[j].address);
    }
}

/// Among distinct policies, the levels of a recipient are those of its policy.
pub proof fn lemma_levels_at(policies: Seq<TargetBalanceView>, i: int)
    requires
        distinct(policies),
        0 <= i < policies.len(),
    ensures
        names(policies, policies[i].address),
        index_of(policies, policies[i].address) == i,
        levels(policies).contains_key(policies[i].address),
        levels(policies)[policies[i].address] == policies[i].update_options,
{
    let j = index_of(policies, policies[i].address);
    if j < i {
        assert(policies[j].address != policies[i].address);
    } else if i < j {
        assert(policies[i].address != policies[j].address);
    }
}

/// Putting a policy for a new recipient into its place adds its levels.
pub proof fn lemma_levels_insert(policies: Seq<TargetBalanceView>, k: int, policy: TargetBalanceView)
    requires
        0 <= k <= policies.len(),
        ascending(policies),
        ascending(policies.insert(k, policy)),
    ensures
        levels(policies.insert(k, policy)) == levels(policies).insert(
            policy.address,
            policy.update_options,
        ),
{
    let grown = policies.insert(k, policy);
    let expected = levels(policies).insert(policy.address, policy.update_options);
    lemma_ascending_distinct(policies);
    lemma_ascending_distinct(grown);
    assert forall|a: Seq<char>| levels(grown).contains_key(a) <==> expected.contains_key(a) by {
        if names(grown, a) {
            let i = index_of(grown, a);
            if i < k {
                assert(policies[i].address == a);
            } else if i > k {
                assert(policies[i - 1].address == a);
            }
        }
        if names(policies, a) {
            let i = index_of(policies, a);
            let moved = if i < k { i } else { i + 1 };
            assert(grown[moved].address == a);
        }
        if a == policy.address {
            assert(grown[k].address == a);
        }
    }
    assert forall|a: Seq<char>| levels(grown).contains_key(a) implies levels(grown)[a]
        == expected[a] by {
        let i = index_of(grown, a);
        lemma_levels_at(grown, i);
        if i < k {
            assert(grown[i].address != grown[k].address);
            lemma_levels_at(policies, i);
        } else if i > k {
            assert(grown[k].address != grown[i].address);
            lemma_levels_at(policies, i - 1);
        }
    }
    assert(levels(grown) =~= expected);
}

/// Replacing a recipient's policy replaces its levels.
pub proof fn lemma_levels_update(policies: Seq<TargetBalanceView>, k: int, policy: TargetBalanceView)
    requires
        0 <= k < policies.len(),
        ascending(policies),
        policies[k].address == policy.address,
    ensures
        ascending(policies.update(k, policy)),
        levels(policies.update(k, policy)) == levels(policies).insert(
            policy.address,
            policy.update_options,
        ),
{
    let changed = policies.update(k, policy);
    let expected = levels(policies).insert(policy.address, policy.update_options);
    assert forall|i: int, j: int| 0 <= i < j < changed.len() implies before(
        (#[trigger] changed[i]).address,
        (#[trigger] changed[j]).address,
    ) by {
        assert(before(policies[i].address, policies[j].address));
    }
    lemma_ascending_distinct(policies);
    lemma_ascending_distinct(changed);
    assert forall|a: Seq<char>| levels(changed).contains_key(a) <==> expected.contains_key(a) by {
        if names(changed, a) {
            let i = index_of(changed, a);
            assert(policies[i].address == a);
        }
        if names(policies, a) {
            let i = index_of(policies, a);
            assert(changed[i].address == a);
        }
        if a == policy.address {
            assert(changed[k].address == a);
        }
    }
    assert forall|a: Seq<char>| levels(changed).contains_key(a) implies levels(changed)[a]
        == expected[a] by {
        let i = index_of(changed, a);
        lemma_levels_at(changed, i);
        if i != k {
            lemma_levels_at(policies, i);
            if i < k {
                assert(policies[i].address != policies[k].address);
            } else {
                assert(policies[k].address != policies[i].address);
            }
        }
    }
    assert(levels(changed) =~= expected);
}

/// Taking a policy out takes out its recipient's levels, and nothing else.
pub proof fn lemma_levels_remove(policies: Seq<TargetBalanceView>, k: int)
    requires
        0 <= k < policies.len(),
        ascending(policies),
    ensures
        ascending(policies.remove(k)),
        levels(policies.remove(k)) == levels(policies).remove(policies[k].address),
{
    let shrunk = policies.remove(k);
    let expected = levels(policies).remove(policies[k].address);
    assert forall|i: int, j: int| 0 <= i < j < shrunk.len() implies before(
        (#[trigger] shrunk[i]).address,
        (#[trigger] shrunk[j]).address,
    ) by {
        let from_i = if i < k { i } else { i + 1 };
        let from_j = if j < k { j } else { j + 1 };
        assert(before(policies[from_i].address, policies[from_j].address));
    }
    lemma_ascending_distinct(policies);
    lemma_ascending_distinct(shrunk);
    assert forall|a: Seq<char>| levels(shrunk).contains_key(a) <==> expected.contains_key(a) by {
        if names(shrunk, a) {
            let i = index_of(shrunk, a);
            let from = if i < k { i } else { i + 1 };
            assert(policies[from].address == a);
            if from < k {
                assert(policies[from].address != policies[k].address);
            } else {
                assert(policies[k].address != policies[from].address);
            }
        }
        if names(policies, a) && a != policies[k].address {
            let i = index_of(policies, a);
            let moved = if i < k { i } else { i - 1 };
            assert(shrunk[moved].address == a);
        }
    }
    assert forall|a: Seq<char>| levels(shrunk).contains_key(a) implies levels(shrunk)[a]
        == expected[a] by {
        let i = index_of(shrunk, a);
        lemma_levels_at(shrunk, i);
        let from = if i < k { i } else { i + 1 };
        lemma_levels_at(policies, from);
    }
    assert(levels(shrunk) =~= expected);
}

/// The order of a table is determined by what it holds: two ascending lists
/// of policies that set the same levels for the same recipients are the same
/// list.
pub proof fn lemma_order_determined(a: Seq<TargetBalanceView>, b: Seq<TargetBalanceView>)
    requires
        ascending(a),
        ascending(b),
        levels(a) == levels(b),
    ensures
        a == b,
    decreases a.len(),
{
    lemma_ascending_distinct(a);
    lemma_ascending_distinct(b);
    if a.len() == 0 {
        if b.len() > 0 {
            lemma_levels_at(b, 0);
            assert(levels(a).contains_key(b[0].address));
        }
        assert(a =~= b);
    } else {
        let n = a.len() - 1;
        let key = a[n].address;
        lemma_levels_at(a, n);
        assert(levels(b).contains_key(key));
        let j = index_of(b, key);
        let m = b.len() - 1;
        if j < m {
            lemma_levels_at(b, m);
            assert(levels(a).contains_key(b[m].address));
            let i = index_of(a, b[m].address);
            assert(before(b[j].address, b[m].address));
            lemma_before_trichotomy(key, b[m].address);
            if i < n {
                assert(before(a[i].address, a[n].address));
            }
        }
        lemma_levels_at(b, m);
        lemma_levels_remove(a, n);
        lemma_levels_remove(b, m);
        assert(a.remove(n) =~= a.drop_last());
        assert(b.remove(m) =~= b.drop_last());
        lemma_order_determined(a.drop_last(), b.drop_last());
        assert(a =~= a.drop_last().push(a[n]));
        assert(b =~= b.drop_last().push(b[m]));
    }
}

/// The levels after writing `policies`, one after the other, into `table`.
pub open spec fn with_all(
    table: Map<Seq<char>, TargetBalanceUpdateParams>,
    policies: Seq<TargetBalanceView>,
) -> Map<Seq<char>, TargetBalanceUpdateParams>
    decreases policies.len(),
{
    if policies.len() == 0 {
        table
    } else {
        with_all(table, policies.drop_last()).insert(
            policies.last().address,
            policies.last().update_options,
        )
    }
}

/// The levels after removing `addresses`, one after the other, from `table`;
/// `None` if one of them has no policy when its turn comes.
pub open spec fn without_all(
    table: Map<Seq<char>, TargetBalanceUpdateParams>,
    addresses: Seq<Seq<char>>,
) -> Option<Map<Seq<char>, TargetBalanceUpdateParams>>
    decreases addresses.len(),
{
    if addresses.len() == 0 {
        Some(table)
    } else {
        match without_all(table, addresses.drop_last()) {
            Some(rest) => if rest.contains_key(addresses.last()) {
                Some(rest.remove(addresses.last()))
            } else {
                None
            },
            None => None,
        }
    }
}

/// A list of identities as a sequence of mathematical values.
pub open spec fn addresses_view(addresses: Seq<String>) -> Seq<Seq<char>> {
    addresses.map_values(|a: String| a@)
}

proof fn lemma_without_all_fails(
    table: Map<Seq<char>, TargetBalanceUpdateParams>,
    addresses: Seq<Seq<char>>,
    n: int,
)
    requires
        0 <= n <= addresses.len(),
        without_all(table, addresses.take(n)) is None,
    ensures
        without_all(table, addresses) is None,
    decreases addresses.len(),
{
    if n == addresses.len() {
        assert(addresses.take(n) =~= addresses);
    } else {
        assert(addresses.drop_last().take(n) =~= addresses.take(n));
        lemma_without_all_fails(table, addresses.drop_last(), n);
    }
}

/// A batch of removals that names a recipient without a policy is refused.
pub proof fn lemma_remove_unknown(
    table: Map<Seq<char>, TargetBalanceUpdateParams>,
    addresses: Seq<Seq<char>>,
    i: int,
)
    requires
        0 <= i < addresses.len(),
        !table.contains_key(addresses[i]),
    ensures
        without_all(table, addresses) is None,
    decreases addresses.len(),
{
    if i == addresses.len() - 1 {
        lemma_without_all_shrinks(table, addresses.drop_last());
    } else {
        lemma_remove_unknown(table, addresses.drop_last(), i);
    }
}

proof fn lemma_without_all_shrinks(
    table: Map<Seq<char>, TargetBalanceUpdateParams>,
    addresses: Seq<Seq<char>>,
)
    ensures
        without_all(table, addresses) is Some ==> without_all(table, addresses)->Some_0.dom()
            <= table.dom(),
    decreases addresses.len(),
{
    if addresses.len() > 0 {
        lemma_without_all_shrinks(table, addresses.drop_last());
    }
}

/// The table of policies.
#[derive(Debug, PartialEq, Eq)]
pub struct TargetBalances {
    entries: Vec<TargetBalance>,
}

impl View for TargetBalances {
    type V = Map<Seq<char>, TargetBalanceUpdateParams>;

    /// The levels that the table sets for each recipient.
    closed spec fn view(&self) -> Map<Seq<char>, TargetBalanceUpdateParams> {
        levels(self.policies())
    }
}

impl Clone for TargetBalances {
    fn clone(&self) -> (copy: TargetBalances)
        ensures
            copy.wf(),
            copy.policies() == self.policies(),
            copy@ == self@,
    {
        proof {
            use_type_invariant(self);
        }
        TargetBalances { entries: self.to_vec() }
    }
}

impl TargetBalances {
    /// The policies in the order in which the table walks them.
    pub closed spec fn policies(&self) -> Seq<TargetBalanceView> {
        policies_view(self.entries@)
    }

    /// The table walks its policies in ascending order of their identities.
    #[verifier::type_invariant]
    pub closed spec fn wf(&self) -> bool {
        ascending(policies_view(self.entries@))
    }

    /// What the view of a well-formed table is made of.
    pub proof fn lemma_view(&self)
        requires
            self.wf(),
        ensures
            ascending(self.policies()),
            distinct(self.policies()),
            self@ == levels(self.policies()),
    {
        lemma_ascending_distinct(self.policies());
    }

    /// Two well-formed tables that set the same levels walk the same policies
    /// in the same order.
    pub proof fn lemma_same_levels_same_order(&self, other: &TargetBalances)
        requires
            self.wf(),
            other.wf(),
            self@ == other@,
        ensures
            self.policies() == other.policies(),
    {
        lemma_order_determined(self.policies(), other.policies());
    }

    /// A table without policies.
    pub fn new() -> (table: TargetBalances)
        ensures
            table.wf(),
            table.policies() == Seq::<TargetBalanceView>::empty(),
            table@ == Map::<Seq<char>, TargetBalanceUpdateParams>::empty(),
    {
        let table = TargetBalances { entries: Vec::new() };
        assert(table.policies() =~= Seq::<TargetBalanceView>::empty());
        assert(table@ =~= Map::<Seq<char>, TargetBalanceUpdateParams>::empty());
        table
    }

    /// The number of policies.
    pub fn len(&self) -> (n: usize)
        ensures
            n == self.policies().len(),
    {
        self.entries.len()
    }

    /// Moves the policies out and leaves the table empty.
    fn take_entries(&mut self) -> (entries: Vec<TargetBalance>)
        ensures
            entries == old(self).entries,
    {
        let mut taken = TargetBalances::new();
        core::mem::swap(self, &mut taken);
        let TargetBalances { entries } = taken;
        entries
    }

    /// Finds the first policy whose identity does not come before `address`,
    /// and says whether it is the policy for `address`.
    fn locate(&self, address: &str) -> (r: (usize, bool))
        ensures
            r.0 <= self.policies().len(),
            forall|j: int| 0 <= j < r.0 ==> before((#[trigger] self.policies()[j]).address, address@),
            r.1 ==> r.0 < self.policies().len() && self.policies()[r.0 as int].address == address@,
            !r.1 ==> !names(self.policies(), address@),
            !r.1 ==> forall|j: int|
                r.0 <= j < self.policies().len() ==> before(
                    address@,
                    (#[trigger] self.policies()[j]).address,
                ),
    {
        proof {
            use_type_invariant(self);
        }
        let mut i: usize = 0;
        while i < self.entries.len()
            invariant
                i <= self.entries@.len(),
                ascending(self.policies()),
                self.policies() == policies_view(self.entries@),
                forall|j: int| 0 <= j < i ==> before((#[trigger] self.policies()[j]).address, address@),
            decreases self.entries@.len() - i,
        {
            let found: Order = compare(self.entries[i].address.as_str(), address);
            match found {
                Order::Before => {},
                Order::Same => {
                    return (i, true);
                },
                Order::After => {
                    proof {
                        let all = self.policies();
                        assert forall|j: int| i <= j < all.len() implies before(
                            address@,
                            (#[trigger] all[j]).address,
                        ) by {
                            if i < j {
                                assert(before(all[i as int].address, all[j].address));
                                lemma_before_transitive(address@, all[i as int].address, all[j].address);
                            }
                        }
                        assert forall|j: int| 0 <= j < all.len() implies (#[trigger] all[j]).address
                            != address@ by {
                            lemma_before_trichotomy(all[j].address, address@);
                        }
                    }
                    return (i, false);
                },
            }
            i = i + 1;
        }
        proof {
            let all = self.policies();
            assert forall|j: int| 0 <= j < all.len() implies (#[trigger] all[j]).address
                != address@ by {
                lemma_before_trichotomy(all[j].address, address@);
            }
        }
        (i, false)
    }

    /// The policy for `address`, if the table holds one.
    pub fn get(&self, address: &str) -> (r: Option<TargetBalance>)
        ensures
            self@.contains_key(address@) ==> r is Some && r->Some_0@ == (TargetBalanceView {
                address: address@,
                update_options: self@[address@],
            }),
            !self@.contains_key(address@) ==> r is None,
    {
        proof {
            use_type_invariant(self);
            self.lemma_view();
        }
        let (k, found) = self.locate(address);
        if found {
            proof {
                lemma_levels_at(self.policies(), k as int);
            }
            Some(self.entries[k].duplicate())
        } else {
            None
        }
    }

    /// The policies in ascending order of their identities, as the table
    /// holds them.
    pub fn as_vec(&self) -> (all: &Vec<TargetBalance>)
        ensures
            policies_view(all@) == self.policies(),
            ascending(policies_view(all@)),
    {
        proof {
            use_type_invariant(self);
        }
        &self.entries
    }

    /// A copy of the policies in ascending order of their identities.
    pub fn to_vec(&self) -> (all: Vec<TargetBalance>)
        ensures
            policies_view(all@) == self.policies(),
            ascending(policies_view(all@)),
    {
        proof {
            use_type_invariant(self);
        }
        let mut all: Vec<TargetBalance> = Vec::new();
        let mut i: usize = 0;
        while i < self.entries.len()
            invariant
                i <= self.entries@.len(),
                all@.len() == i,
                forall|j: int| 0 <= j < i ==> (#[trigger] all@[j])@ == self.entries@[j]@,
            decreases self.entries@.len() - i,
        {
            all.push(self.entries[i].duplicate());
            i = i + 1;
        }
        assert(policies_view(all@) =~= self.policies());
        all
    }

    /// Writes `policy`, in place of the recipient's earlier policy if it has
    /// one.
    pub fn set(&mut self, policy: TargetBalance)
        ensures
            final(self).wf(),
            final(self)@ == old(self)@.insert(policy.address@, policy.update_options),
    {
        proof {
            use_type_invariant(&*self);
        }
        let (k, found) = self.locate(policy.address.as_str());
        proof {
            let held = self.policies();
            if found {
                lemma_levels_update(held, k as int, policy@);
                assert(policies_view(self.entries@.update(k as int, policy)) =~= held.update(
                    k as int,
                    policy@,
                ));
            } else {
                let grown = held.insert(k as int, policy@);
                assert forall|i: int, j: int| 0 <= i < j < grown.len() implies before(
                    (#[trigger] grown[i]).address,
                    (#[trigger] grown[j]).address,
                ) by {
                    if j < k {
                        assert(before(held[i].address, held[j].address));
                    } else if j == k {
                        assert(before(held[i].address, policy.address@));
                    } else if i < k {
                        assert(before(held[i].address, held[j - 1].address));
                    } else if i == k {
                        assert(before(policy.address@, held[j - 1].address));
                    } else {
                        assert(before(held[i - 1].address, held[j - 1].address));
                    }
                }
                lemma_levels_insert(held, k as int, policy@);
                assert(policies_view(self.entries@.insert(k as int, policy)) =~= grown);
            }
        }
        let mut entries = self.take_entries();
        if found {
            entries[k] = policy;
        } else {
            entries.insert(k, policy);
        }
        *self = TargetBalances { entries };
    }

    /// Writes `policies` one after the other.
    pub fn set_all(&mut self, policies: &Vec<TargetBalance>)
        ensures
            final(self).wf(),
            final(self)@ == with_all(old(self)@, policies_view(policies@)),
    {
        proof {
            use_type_invariant(&*self);
        }
        let ghost all = policies_view(policies@);
        let mut i: usize = 0;
        assert(all.take(0) =~= Seq::<TargetBalanceView>::empty());
        while i < policies.len()
            invariant
                i <= policies.len(),
                all == policies_view(policies@),
                self.wf(),
                self@ == with_all(old(self)@, all.take(i as int)),
            decreases policies.len() - i,
        {
            proof {
                assert(all.take(i + 1).drop_last() =~= all.take(i as int));
                assert(all.take(i + 1).last() == policies@[i as int]@);
            }
            self.set(policies[i].duplicate());
            i = i + 1;
        }
        assert(all.take(i as int) =~= all);
    }

    /// The table that holds `policies`, a later policy for a recipient in
    /// place of an earlier one.
    pub fn from_policies(policies: &Vec<TargetBalance>) -> (table: TargetBalances)
        ensures
            table.wf(),
            table@ == with_all(Map::empty(), policies_view(policies@)),
    {
        let mut table = TargetBalances::new();
        table.set_all(policies);
        table
    }

    /// Takes the policy for `address` out. Without such a policy the table
    /// stays as it is.
    pub fn remove(&mut self, address: &str) -> (r: Result<(), ContractError>)
        ensures
            final(self).wf(),
            old(self)@.contains_key(address@) ==> r == Ok::<(), ContractError>(()) && final(self)@
                == old(self)@.remove(address@),
            !old(self)@.contains_key(address@) ==> r == Err::<(), ContractError>(
                ContractError::UnknownTarget,
            ) && *final(self) == *old(self),
    {
        proof {
            use_type_invariant(&*self);
        }
        let (k, found) = self.locate(address);
        if !found {
            return Err(ContractError::UnknownTarget);
        }
        proof {
            let held = self.policies();
            lemma_ascending_distinct(held);
            lemma_levels_at(held, k as int);
            lemma_levels_remove(held, k as int);
            assert(policies_view(self.entries@.remove(k as int)) =~= held.remove(k as int));
        }
        let mut entries = self.take_entries();
        entries.remove(k);
        *self = TargetBalances { entries };
        Ok(())
    }

    /// Takes the policies for `addresses` out, one after the other. If one of
    /// them has no policy when its turn comes, the table stays as it is.
    pub fn remove_all(&mut self, addresses: &Vec<String>) -> (r: Result<(), ContractError>)
        ensures
            final(self).wf(),
            match without_all(old(self)@, addresses_view(addresses@)) {
                Some(rest) => r == Ok::<(), ContractError>(()) && final(self)@ == rest,
                None => r == Err::<(), ContractError>(ContractError::UnknownTarget) && *final(self)
                    == *old(self),
            },
    {
        proof {
            use_type_invariant(&*self);
        }
        let ghost all = addresses_view(addresses@);
        let mut rest = self.clone();
        let mut i: usize = 0;
        assert(all.take(0) =~= Seq::<Seq<char>>::empty());
        while i < addresses.len()
            invariant
                i <= addresses.len(),
                all == addresses_view(addresses@),
                self.wf(),
                rest.wf(),
                without_all(self@, all.take(i as int)) == Some(rest@),
            decreases addresses.len() - i,
        {
            proof {
                assert(all.take(i + 1).drop_last() =~= all.take(i as int));
                assert(all.take(i + 1).last() == addresses@[i as int]@);
            }
            match rest.remove(addresses[i].as_str()) {
                Ok(()) => {},
                Err(e) => {
                    proof {
                        lemma_without_all_fails(self@, all, i + 1);
                    }
                    return Err(e);
                },
            }
            i = i + 1;
        }
        assert(all.take(i as int) =~= all);
        *self = rest;
        Ok(())
    }
}

} // verus!
