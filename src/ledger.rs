//! A deposit ledger for one asset: how much each account has made available
//! to the pool and not yet committed to it.
use vstd::prelude::*;
use crate::error::AmmError;

verus! {

/// The balances that a list of pairs gives, the last pair for an account
/// winning.
pub open spec fn balances_of(s: Seq<(String, u128)>) -> Map<Seq<char>, u128>
    decreases s.len(),
{
    if s.len() == 0 {
        Map::empty()
    } else {
        balances_of(s.drop_last()).insert(s.last().0@, s.last().1)
    }
}

/// Balances by account; an account never credited holds zero.
pub struct Ledger {
    entries: Vec<(String, u128)>,
    model: Ghost<Map<Seq<char>, u128>>,
}

impl View for Ledger {
    type V = Map<Seq<char>, u128>;

    closed spec fn view(&self) -> Map<Seq<char>, u128> {
        self.model@
    }
}

impl Ledger {
    /// Each account has one entry, and the entries are exactly the model.
    pub closed spec fn wf(self) -> bool {
        &&& forall|i: int, j: int|
            0 <= i < j < self.entries@.len() ==> #[trigger] self.entries@[i].0@
                != #[trigger] self.entries@[j].0@
        &&& forall|i: int|
            0 <= i < self.entries@.len() ==> self.model@.contains_key(
                #[trigger] self.entries@[i].0@,
            ) && self.model@[self.entries@[i].0@] == self.entries@[i].1
        &&& forall|k: Seq<char>|
            #[trigger] self.model@.contains_key(k) ==> exists|i: int|
                0 <= i < self.entries@.len() && #[trigger] self.entries@[i].0@ == k
    }

    /// The balance of `who`, zero where nothing was ever credited.
    pub open spec fn balance(self, who: Seq<char>) -> u128 {
        if self@.contains_key(who) {
            self@[who]
        } else {
            0
        }
    }

    /// An empty ledger.
    pub fn new() -> (r: Ledger)
        ensures
            r.wf(),
            r@ == Map::<Seq<char>, u128>::empty(),
    {
        Ledger { entries: Vec::new(), model: Ghost(Map::empty()) }
    }

    /// The position of the entry of `who`, if it has one.
    fn find(&self, who: &String) -> (r: Option<usize>)
        requires
            self.wf(),
        ensures
            r.is_some() ==> r.unwrap() < self.entries@.len() && self.entries@[r.unwrap() as int].0@
                == who@,
            r.is_none() ==> !self@.contains_key(who@),
    {
        let mut i: usize = 0;
        while i < self.entries.len()
            invariant
                self.wf(),
                i <= self.entries@.len(),
                forall|j: int| 0 <= j < i ==> #[trigger] self.entries@[j].0@ != who@,
            decreases self.entries@.len() - i,
        {
            if self.entries[i].0 == *who {
                return Some(i);
            }
            i = i + 1;
        }
        None
    }

    /// The balance of `who`.
    pub fn balance_of(&self, who: &String) -> (r: u128)
        requires
            self.wf(),
        ensures
            r == self.balance(who@),
    {
        match self.find(who) {
            Some(i) => self.entries[i].1,
            None => 0,
        }
    }

    /// Sets the balance of `who` to `amount`.
    fn set(&mut self, who: &String, amount: u128)
        requires
            old(self).wf(),
        ensures
            final(self).wf(),
            final(self)@ == old(self)@.insert(who@, amount),
    {
        let ghost old_model = self.model@;
        let ghost pos: int;
        match self.find(who) {
            Some(i) => {
                self.entries.set(i, (who.clone(), amount));
                proof {
                    pos = i as int;
                }
            },
            None => {
                self.entries.push((who.clone(), amount));
                proof {
                    pos = self.entries@.len() - 1;
                }
            },
        }
        self.model = Ghost(old_model.insert(who@, amount));
        assert(self.entries@[pos].0@ == who@);
        assert forall|k: Seq<char>| #[trigger] self.model@.contains_key(k) implies exists|i: int|
            0 <= i < self.entries@.len() && #[trigger] self.entries@[i].0@ == k by {
            if k != who@ {
                let i = choose|i: int|
                    0 <= i < old(self).entries@.len() && #[trigger] old(self).entries@[i].0@ == k;
                assert(self.entries@[i].0@ == k);
            } else {
                assert(self.entries@[pos].0@ == k);
            }
        }
    }

    /// Adds `amount` to the balance of `who`.
    pub fn credit(&mut self, who: &String, amount: u128)
        requires
            old(self).wf(),
            old(self).balance(who@) + amount <= u128::MAX,
        ensures
            final(self).wf(),
            final(self)@ == old(self)@.insert(who@, (old(self).balance(who@) + amount) as u128),
    {
        let b = self.balance_of(who);
        self.set(who, b + amount);
    }

    /// Takes `amount` from the balance of `who`, all or nothing: refused
    /// exactly when the balance is smaller, and then nothing changes.
    pub fn debit(&mut self, who: &String, amount: u128) -> (r: Result<(), AmmError>)
        requires
            old(self).wf(),
        ensures
            final(self).wf(),
            old(self).balance(who@) < amount ==> r == Err::<(), AmmError>(
                AmmError::InsufficientBalance,
            ) && final(self)@ == old(self)@,
            old(self).balance(who@) >= amount ==> r.is_ok() && final(self)@ == old(self)@.insert(
                who@,
                (old(self).balance(who@) - amount) as u128,
            ),
    {
        let b = self.balance_of(who);
        if b < amount {
            return Err(AmmError::InsufficientBalance);
        }
        self.set(who, b - amount);
        Ok(())
    }

    /// Every account with an entry and its balance, one pair per account.
    pub fn entries(&self) -> (r: Vec<(String, u128)>)
        requires
            self.wf(),
        ensures
            forall|i: int, j: int|
                0 <= i < j < r@.len() ==> #[trigger] r@[i].0@ != #[trigger] r@[j].0@,
            forall|i: int|
                0 <= i < r@.len() ==> self@.contains_key(#[trigger] r@[i].0@) && self@[r@[i].0@]
                    == r@[i].1,
            forall|k: Seq<char>|
                #[trigger] self@.contains_key(k) ==> exists|i: int|
                    0 <= i < r@.len() && #[trigger] r@[i].0@ == k,
    {
        let mut r: Vec<(String, u128)> = Vec::new();
        let mut i: usize = 0;
        while i < self.entries.len()
            invariant
                self.wf(),
                i <= self.entries@.len(),
                r@.len() == i,
                forall|j: int|
                    0 <= j < i ==> #[trigger] r@[j].0@ == self.entries@[j].0@ && r@[j].1
                        == self.entries@[j].1,
            decreases self.entries@.len() - i,
        {
            r.push((self.entries[i].0.clone(), self.entries[i].1));
            i = i + 1;
        }
        assert forall|k: Seq<char>| #[trigger] self@.contains_key(k) implies exists|i: int|
            0 <= i < r@.len() && #[trigger] r@[i].0@ == k by {
            let i = choose|i: int| 0 <= i < self.entries@.len() && #[trigger] self.entries@[i].0@ == k;
            assert(r@[i].0@ == k);
        }
        assert forall|i: int, j: int| 0 <= i < j < r@.len() implies #[trigger] r@[i].0@
            != #[trigger] r@[j].0@ by {
            assert(r@[i].0@ == self.entries@[i].0@);
            assert(r@[j].0@ == self.entries@[j].0@);
        }
        r
    }

    /// The ledger that gives each account of `entries` its balance there,
    /// the last pair winning where an account occurs twice.
    pub fn from_entries(entries: &Vec<(String, u128)>) -> (r: Ledger)
        ensures
            r.wf(),
            r@ == balances_of(entries@),
    {
        let mut r = Ledger::new();
        let mut i: usize = 0;
        while i < entries.len()
            invariant
                i <= entries@.len(),
                r.wf(),
                r@ == balances_of(entries@.take(i as int)),
            decreases entries@.len() - i,
        {
            r.set(&entries[i].0, entries[i].1);
            assert(entries@.take(i + 1).drop_last() =~= entries@.take(i as int));
            i = i + 1;
        }
        assert(entries@.take(entries@.len() as int) =~= entries@);
        r
    }
}

} // verus!
