//! The accounts that exist, by address.

use vstd::prelude::*;
use crate::address::Address;
use crate::pool::Account;

verus! {

/// One occupied address and what it holds.
struct Slot {
    address: Address,
    account: Account,
}

/// The sum of the balances held in `slots`.
spec fn total_of(slots: Seq<Slot>) -> nat
    decreases slots.len(),
{
    if slots.len() == 0 {
        0
    } else {
        total_of(slots.drop_last()) + slots.last().account.balance()
    }
}

/// Whether no address occurs twice in `slots`.
spec fn distinct(slots: Seq<Slot>) -> bool {
    forall|i: int, j: int|
        0 <= i < j < slots.len() ==> (#[trigger] slots[i]).address != (#[trigger] slots[j]).address
}

/// Whether `slots` holds an account at `address`.
spec fn occupied(slots: Seq<Slot>, address: Address) -> bool {
    exists|i: int| 0 <= i < slots.len() && (#[trigger] slots[i]).address == address
}

/// The mapping that `slots` stands for.
spec fn map_of(slots: Seq<Slot>) -> Map<Address, Account> {
    Map::new(
        |a: Address| occupied(slots, a),
        |a: Address|
            slots[choose|i: int| 0 <= i < slots.len() && (#[trigger] slots[i]).address == a].account,
    )
}

proof fn lemma_total_push(slots: Seq<Slot>, slot: Slot)
    ensures
        total_of(slots.push(slot)) == total_of(slots) + slot.account.balance(),
{
    assert(slots.push(slot).drop_last() =~= slots);
}

proof fn lemma_total_update(slots: Seq<Slot>, i: int, slot: Slot)
    requires
        0 <= i < slots.len(),
    ensures
        total_of(slots.update(i, slot)) + slots[i].account.balance() == total_of(slots)
            + slot.account.balance(),
    decreases slots.len(),
{
    let updated = slots.update(i, slot);
    if i == slots.len() - 1 {
        assert(updated.drop_last() =~= slots.drop_last());
    } else {
        lemma_total_update(slots.drop_last(), i, slot);
        assert(updated.drop_last() =~= slots.drop_last().update(i, slot));
    }
}

proof fn lemma_balance_le_total(slots: Seq<Slot>, i: int)
    requires
        0 <= i < slots.len(),
    ensures
        slots[i].account.balance() <= total_of(slots),
    decreases slots.len(),
{
    if i < slots.len() - 1 {
        lemma_balance_le_total(slots.drop_last(), i);
    }
}

proof fn lemma_map_of_index(slots: Seq<Slot>, i: int)
    requires
        distinct(slots),
        0 <= i < slots.len(),
    ensures
        map_of(slots).contains_key(slots[i].address),
        map_of(slots)[slots[i].address] == slots[i].account,
{
}

/// The accounts that exist, each at its address. No address holds two
/// accounts, and the balances together fit in a `u64`.
pub struct Storage {
    slots: Vec<Slot>,
    total: u64,
}

impl View for Storage {
    type V = Map<Address, Account>;

    closed spec fn view(&self) -> Map<Address, Account> {
        map_of(self.slots@)
    }
}

impl Storage {
    /// The invariant of the store.
    pub closed spec fn wf(&self) -> bool {
        &&& distinct(self.slots@)
        &&& self.total == total_of(self.slots@)
    }

    /// All the tokens that the accounts hold, of whatever asset.
    pub closed spec fn total(&self) -> nat {
        total_of(self.slots@)
    }

    /// The store without any account.
    pub fn new() -> (s: Storage)
        ensures
            s.wf(),
            s@ == Map::<Address, Account>::empty(),
            s.total() == 0,
    {
        let s = Storage { slots: Vec::new(), total: 0 };
        assert(s@ =~= Map::<Address, Account>::empty());
        s
    }

    /// The total fits in a `u64`.
    pub proof fn lemma_total_bounded(&self)
        requires
            self.wf(),
        ensures
            self.total() <= u64::MAX,
    {
    }

    /// Every balance is at most the total, and the total fits in a `u64`.
    pub proof fn lemma_balance_bounded(&self, address: Address)
        requires
            self.wf(),
            self@.contains_key(address),
        ensures
            self@[address].balance() <= self.total() <= u64::MAX,
    {
        let i = choose|i: int| 0 <= i < self.slots@.len() && (#[trigger] self.slots@[i]).address == address;
        lemma_balance_le_total(self.slots@, i);
    }

    fn position(&self, address: &Address) -> (r: Option<usize>)
        requires
            self.wf(),
        ensures
            match r {
                Some(i) => i < self.slots@.len() && self.slots@[i as int].address == *address,
                None => !occupied(self.slots@, *address),
            },
    {
        let mut i: usize = 0;
        while i < self.slots.len()
            invariant
                i <= self.slots@.len(),
                forall|j: int| 0 <= j < i ==> (#[trigger] self.slots@[j]).address != *address,
            decreases self.slots@.len() - i,
        {
            if self.slots[i].address == *address {
                return Some(i);
            }
            i = i + 1;
        }
        None
    }

    /// The account at `address`, if there is one.
    pub fn get(&self, address: &Address) -> (r: Option<Account>)
        requires
            self.wf(),
        ensures
            r == (if self@.contains_key(*address) {
                Some(self@[*address])
            } else {
                None
            }),
    {
        match self.position(address) {
            Some(i) => {
                proof {
                    lemma_map_of_index(self.slots@, i as int);
                }
                Some(self.slots[i].account)
            },
            None => None,
        }
    }

    /// The total of all balances.
    pub fn total_balance(&self) -> (t: u64)
        requires
            self.wf(),
        ensures
            t == self.total(),
    {
        self.total
    }

    /// Stores `account` at the free address `address`.
    pub fn insert(&mut self, address: Address, account: Account)
        requires
            old(self).wf(),
            !old(self)@.contains_key(address),
            old(self).total() + account.balance() <= u64::MAX,
        ensures
            final(self).wf(),
            final(self)@ == old(self)@.insert(address, account),
            final(self).total() == old(self).total() + account.balance(),
    {
        let added: u64 = match account {
            Account::Token(t) => t.amount,
            _ => 0,
        };
        let slot = Slot { address, account };
        proof {
            lemma_total_push(self.slots@, slot);
        }
        self.slots.push(slot);
        self.total = self.total + added;
        proof {
            let before = old(self).slots@;
            let after = self.slots@;
            assert(after == before.push(slot));
            assert forall|a: Address| occupied(after, a) <==> (a == address || occupied(
                before,
                a,
            )) by {
                if occupied(before, a) {
                    let i = choose|i: int| 0 <= i < before.len() && (#[trigger] before[i]).address == a;
                    assert(after[i].address == a);
                }
                if a == address {
                    assert(after[before.len() as int].address == a);
                }
            }
            assert forall|a: Address| occupied(after, a) implies map_of(after)[a] == old(
                self,
            )@.insert(address, account)[a] by {
                let i = choose|i: int| 0 <= i < after.len() && (#[trigger] after[i]).address == a;
                if a != address {
                    let j = choose|j: int| 0 <= j < before.len() && (#[trigger] before[j]).address == a;
                    assert(after[j].address == a);
                    assert(i == j);
                } else {
                    assert(after[before.len() as int].address == a);
                    assert(i == before.len());
                }
            }
            assert(self@ =~= old(self)@.insert(address, account));
        }
    }

    /// Puts `account` in the place of the account at `address`.
    pub fn replace(&mut self, address: &Address, account: Account)
        requires
            old(self).wf(),
            old(self)@.contains_key(*address),
            old(self).total() - old(self)@[*address].balance() + account.balance() <= u64::MAX,
        ensures
            final(self).wf(),
            final(self)@ == old(self)@.insert(*address, account),
            final(self).total() == old(self).total() - old(self)@[*address].balance()
                + account.balance(),
    {
        let found = self.position(address);
        let i = found.unwrap();
        let removed: u64 = match self.slots[i].account {
            Account::Token(t) => t.amount,
            _ => 0,
        };
        let added: u64 = match account {
            Account::Token(t) => t.amount,
            _ => 0,
        };
        let slot = Slot { address: *address, account };
        proof {
            lemma_map_of_index(self.slots@, i as int);
            lemma_total_update(self.slots@, i as int, slot);
            lemma_balance_le_total(self.slots@, i as int);
        }
        self.slots.set(i, slot);
        self.total = self.total - removed + added;
        proof {
            let before = old(self).slots@;
            let after = self.slots@;
            assert(after == before.update(i as int, slot));
            assert forall|a: Address| occupied(after, a) <==> occupied(before, a) by {
                if occupied(before, a) {
                    let k = choose|k: int| 0 <= k < before.len() && (#[trigger] before[k]).address == a;
                    assert(after[k].address == a);
                }
                if occupied(after, a) {
                    let k = choose|k: int| 0 <= k < after.len() && (#[trigger] after[k]).address == a;
                    assert(before[k].address == a);
                }
            }
            assert forall|a: Address| occupied(after, a) implies map_of(after)[a] == old(
                self,
            )@.insert(*address, account)[a] by {
                let k = choose|k: int| 0 <= k < after.len() && (#[trigger] after[k]).address == a;
                assert(before[k].address == a);
                if a != *address {
                    let j = choose|j: int| 0 <= j < before.len() && (#[trigger] before[j]).address == a;
                    assert(k == j);
                } else {
                    assert(k == i);
                }
            }
            assert(self@ =~= old(self)@.insert(*address, account));
        }
    }
}

} // verus!
