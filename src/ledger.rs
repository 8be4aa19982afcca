//! Records keyed by account name, and balances with their sum.

use vstd::prelude::*;

verus! {

/// Amount held for `account` in a ledger view: zero when the account has no entry.
pub open spec fn amount_of(m: Map<Seq<char>, u128>, account: Seq<char>) -> nat {
    if m.contains_key(account) {
        m[account] as nat
    } else {
        0
    }
}

/// Map of account to amount described by a list of entries.
pub open spec fn entries_map<V>(s: Seq<(String, V)>) -> Map<Seq<char>, V>
    decreases s.len(),
{
    if s.len() == 0 {
        Map::empty()
    } else {
        entries_map(s.drop_last()).insert(s.last().0@, s.last().1)
    }
}

/// Sum of the amounts of a list of entries.
pub open spec fn entries_total(s: Seq<(String, u128)>) -> nat
    decreases s.len(),
{
    if s.len() == 0 {
        0
    } else {
        entries_total(s.drop_last()) + s.last().1 as nat
    }
}

/// No account appears twice in a list of entries.
pub open spec fn distinct_accounts<V>(s: Seq<(String, V)>) -> bool {
    forall|i: int, j: int| 0 <= i < j < s.len() ==> s[i].0@ != s[j].0@
}

proof fn lemma_map_lookup<V>(s: Seq<(String, V)>, k: Seq<char>)
    requires
        distinct_accounts(s),
    ensures
        entries_map(s).contains_key(k) <==> exists|i: int| 0 <= i < s.len() && s[i].0@ == k,
        forall|i: int|
            0 <= i < s.len() && #[trigger] s[i].0@ == k ==> entries_map(s).contains_key(k)
                && entries_map(s)[k] == s[i].1,
    decreases s.len(),
{
    if s.len() > 0 {
        let d = s.drop_last();
        let last = s.len() - 1;
        lemma_map_lookup(d, k);
        assert forall|i: int| 0 <= i < d.len() implies #[trigger] d[i] == s[i] by {}
        if s[last].0@ != k {
            if entries_map(s).contains_key(k) {
                assert(entries_map(d).contains_key(k));
                let i = choose|i: int| 0 <= i < d.len() && d[i].0@ == k;
                assert(s[i].0@ == k);
            }
            if exists|i: int| 0 <= i < s.len() && s[i].0@ == k {
                let i = choose|i: int| 0 <= i < s.len() && s[i].0@ == k;
                assert(i < d.len());
                assert(d[i].0@ == k);
            }
            assert forall|i: int| 0 <= i < s.len() && #[trigger] s[i].0@ == k implies
                entries_map(s).contains_key(k) && entries_map(s)[k] == s[i].1 by {
                assert(i < d.len());
                assert(d[i].0@ == k);
            }
        } else {
            assert(s[last].0@ == k);
            assert forall|i: int| 0 <= i < s.len() && #[trigger] s[i].0@ == k implies
                entries_map(s).contains_key(k) && entries_map(s)[k] == s[i].1 by {
                assert(i == last);
            }
        }
    }
}

proof fn lemma_map_len<V>(s: Seq<(String, V)>)
    requires
        distinct_accounts(s),
    ensures
        entries_map(s).dom().finite(),
        entries_map(s).len() == s.len(),
    decreases s.len(),
{
    if s.len() > 0 {
        let d = s.drop_last();
        lemma_map_len(d);
        lemma_map_lookup(d, s.last().0@);
        assert(!entries_map(d).contains_key(s.last().0@)) by {
            if entries_map(d).contains_key(s.last().0@) {
                let i = choose|i: int| 0 <= i < d.len() && d[i].0@ == s.last().0@;
                assert(s[i] == d[i]);
            }
        }
    }
}

proof fn lemma_total_ge(s: Seq<(String, u128)>, i: int)
    requires
        0 <= i < s.len(),
    ensures
        entries_total(s) >= s[i].1,
    decreases s.len(),
{
    if i < s.len() - 1 {
        lemma_total_ge(s.drop_last(), i);
    }
}

proof fn lemma_update<V>(s: Seq<(String, V)>, i: int, v: V)
    requires
        distinct_accounts(s),
        0 <= i < s.len(),
    ensures
        distinct_accounts(s.update(i, (s[i].0, v))),
        entries_map(s.update(i, (s[i].0, v))) == entries_map(s).insert(s[i].0@, v),
    decreases s.len(),
{
    let t = s.update(i, (s[i].0, v));
    assert(t.drop_last() =~= if i == s.len() - 1 {
        s.drop_last()
    } else {
        s.drop_last().update(i, (s[i].0, v))
    });
    if i < s.len() - 1 {
        lemma_update(s.drop_last(), i, v);
    }
    assert(entries_map(t) =~= entries_map(s).insert(s[i].0@, v));
}

proof fn lemma_update_total(s: Seq<(String, u128)>, i: int, v: u128)
    requires
        0 <= i < s.len(),
    ensures
        entries_total(s.update(i, (s[i].0, v))) + s[i].1 == entries_total(s) + v,
    decreases s.len(),
{
    let t = s.update(i, (s[i].0, v));
    assert(t.drop_last() =~= if i == s.len() - 1 {
        s.drop_last()
    } else {
        s.drop_last().update(i, (s[i].0, v))
    });
    if i < s.len() - 1 {
        lemma_update_total(s.drop_last(), i, v);
    }
}

proof fn lemma_remove<V>(s: Seq<(String, V)>, i: int)
    requires
        distinct_accounts(s),
        0 <= i < s.len(),
    ensures
        distinct_accounts(s.remove(i)),
        entries_map(s.remove(i)) == entries_map(s).remove(s[i].0@),
    decreases s.len(),
{
    let t = s.remove(i);
    let d = s.drop_last();
    if i == s.len() - 1 {
        assert(t =~= d);
        lemma_map_lookup(d, s[i].0@);
        assert(!entries_map(d).contains_key(s[i].0@));
    } else {
        assert(t.drop_last() =~= d.remove(i));
        assert(t.last() == s.last());
        lemma_remove(d, i);
    }
    assert(entries_map(t) =~= entries_map(s).remove(s[i].0@));
}

proof fn lemma_remove_total(s: Seq<(String, u128)>, i: int)
    requires
        0 <= i < s.len(),
    ensures
        entries_total(s.remove(i)) + s[i].1 == entries_total(s),
    decreases s.len(),
{
    let t = s.remove(i);
    let d = s.drop_last();
    if i == s.len() - 1 {
        assert(t =~= d);
    } else {
        assert(t.drop_last() =~= d.remove(i));
        assert(t.last() == s.last());
        lemma_remove_total(d, i);
    }
}

/// Records keyed by account name: each account appears at most once.
pub struct AccountMap<V> {
    entries: Vec<(String, V)>,
}

/// Balances keyed by account name.
pub type Ledger = AccountMap<u128>;

impl<V> View for AccountMap<V> {
    type V = Map<Seq<char>, V>;

    closed spec fn view(&self) -> Map<Seq<char>, V> {
        entries_map(self.entries@)
    }
}

impl<V> AccountMap<V> {
    /// No account has two entries.
    pub closed spec fn wf(&self) -> bool {
        distinct_accounts(self.entries@)
    }

    /// An empty map.
    pub fn new() -> (r: Self)
        ensures
            r.wf(),
            r@ == Map::<Seq<char>, V>::empty(),
    {
        AccountMap { entries: Vec::new() }
    }

    /// Number of accounts with an entry.
    pub fn len(&self) -> (r: usize)
        requires
            self.wf(),
        ensures
            r == self@.len(),
            self@.dom().finite(),
    {
        proof {
            lemma_map_len(self.entries@);
        }
        self.entries.len()
    }

    fn find(&self, account: &String) -> (r: Option<usize>)
        requires
            self.wf(),
        ensures
            match r {
                Some(i) => i < self.entries@.len() && self.entries@[i as int].0@ == account@
                    && self@.contains_key(account@) && self@[account@] == self.entries@[i as int].1,
                None => !self@.contains_key(account@),
            },
    {
        let mut i: usize = 0;
        while i < self.entries.len()
            invariant
                self.wf(),
                i <= self.entries@.len(),
                forall|j: int| 0 <= j < i ==> self.entries@[j].0@ != account@,
            decreases self.entries@.len() - i,
        {
            if self.entries[i].0 == *account {
                proof {
                    lemma_map_lookup(self.entries@, account@);
                }
                return Some(i);
            }
            i = i + 1;
        }
        proof {
            lemma_map_lookup(self.entries@, account@);
        }
        None
    }

    /// Whether `account` has an entry.
    pub fn contains(&self, account: &String) -> (r: bool)
        requires
            self.wf(),
        ensures
            r == self@.contains_key(account@),
    {
        self.find(account).is_some()
    }

    /// The entry of `account`, if any.
    pub fn get(&self, account: &String) -> (r: Option<&V>)
        requires
            self.wf(),
        ensures
            r == (if self@.contains_key(account@) {
                Some(&self@[account@])
            } else {
                None::<&V>
            }),
    {
        match self.find(account) {
            Some(i) => Some(&self.entries[i].1),
            None => None,
        }
    }

    /// Sets the entry of `account` to `value`.
    pub fn insert(&mut self, account: String, value: V)
        requires
            old(self).wf(),
        ensures
            final(self).wf(),
            final(self)@ == old(self)@.insert(account@, value),
            old(self)@.contains_key(account@) ==> final(self).list() == old(self).list().update(
                old(self).index_of(account@),
                (old(self).list()[old(self).index_of(account@)].0, value),
            ),
            !old(self)@.contains_key(account@) ==> final(self).list() == old(self).list().push(
                (account, value),
            ),
            old(self)@.contains_key(account@) ==> 0 <= old(self).index_of(account@) < old(self).list().len() && old(self).list()[old(self).index_of(account@)].1 == old(
                self,
            )@[account@],
    {
        match self.find(&account) {
            Some(i) => {
                proof {
                    lemma_map_lookup(self.entries@, account@);
                    lemma_update(self.entries@, i as int, value);
                    self.lemma_index_of(i as int);
                }
                let key = self.entries[i].0.clone();
                self.entries.set(i, (key, value));
            },
            None => {
                let ghost s = self.entries@;
                self.entries.push((account, value));
                proof {
                    assert(self.entries@.drop_last() =~= s);
                    lemma_map_lookup(s, account@);
                    assert forall|a: int, b: int| 0 <= a < b < self.entries@.len() implies
                        self.entries@[a].0@ != self.entries@[b].0@ by {
                        if b == s.len() {
                            assert(s[a] == self.entries@[a]);
                        }
                    }
                }
            },
        }
    }

    /// The underlying list of entries.
    pub closed spec fn list(&self) -> Seq<(String, V)> {
        self.entries@
    }

    /// Position of the entry of `account` in the underlying list.
    pub closed spec fn index_of(&self, account: Seq<char>) -> int {
        choose|i: int| 0 <= i < self.entries@.len() && self.entries@[i].0@ == account
    }

    proof fn lemma_index_of(&self, i: int)
        requires
            self.wf(),
            0 <= i < self.entries@.len(),
        ensures
            self.index_of(self.entries@[i].0@) == i,
    {
        let j = self.index_of(self.entries@[i].0@);
        assert(0 <= j < self.entries@.len() && self.entries@[j].0@ == self.entries@[i].0@);
    }

    /// Removes the entry of `account` and returns it, if it had one.
    pub fn remove(&mut self, account: &String) -> (r: Option<V>)
        requires
            old(self).wf(),
        ensures
            final(self).wf(),
            final(self)@ == old(self)@.remove(account@),
            r == (if old(self)@.contains_key(account@) {
                Some(old(self)@[account@])
            } else {
                None::<V>
            }),
            old(self)@.contains_key(account@) ==> 0 <= old(self).index_of(account@) < old(self).list().len() && old(self).list()[old(self).index_of(account@)].1 == old(
                self,
            )@[account@] && final(self).list() == old(self).list().remove(
                old(self).index_of(account@),
            ),
            !old(self)@.contains_key(account@) ==> final(self).list() == old(self).list(),
    {
        match self.find(account) {
            Some(i) => {
                proof {
                    lemma_map_lookup(self.entries@, account@);
                    lemma_remove(self.entries@, i as int);
                    self.lemma_index_of(i as int);
                }
                let (_, value) = self.entries.remove(i);
                Some(value)
            },
            None => {
                proof {
                    assert(self@.remove(account@) =~= self@);
                }
                None
            },
        }
    }

    /// The accounts with an entry, each once.
    pub fn keys(&self) -> (r: Vec<String>)
        requires
            self.wf(),
        ensures
            r@.len() == self@.len(),
            r@.len() == self.list().len(),
            forall|i: int| 0 <= i < r@.len() ==> #[trigger] r@[i]@ == self.list()[i].0@,
            forall|i: int| 0 <= i < r@.len() ==> self@.contains_key(#[trigger] r@[i]@),
    {
        let mut r: Vec<String> = Vec::new();
        let mut i: usize = 0;
        while i < self.entries.len()
            invariant
                self.wf(),
                i <= self.entries@.len(),
                r@.len() == i,
                forall|j: int| 0 <= j < i ==> #[trigger] r@[j]@ == self.entries@[j].0@,
            decreases self.entries@.len() - i,
        {
            r.push(self.entries[i].0.clone());
            i = i + 1;
        }
        proof {
            lemma_map_len(self.entries@);
            assert forall|j: int| 0 <= j < r@.len() implies self@.contains_key(#[trigger] r@[j]@) by {
                lemma_map_lookup(self.entries@, r@[j]@);
            }
        }
        r
    }
}

impl AccountMap<u128> {
    /// Sum of all balances.
    pub closed spec fn total(&self) -> nat {
        entries_total(self.entries@)
    }

    /// An account's balance never exceeds the sum of all balances.
    pub proof fn lemma_amount_le_total(&self, account: Seq<char>)
        requires
            self.wf(),
        ensures
            amount_of(self@, account) <= self.total(),
    {
        lemma_map_lookup(self.entries@, account);
        if self@.contains_key(account) {
            let i = choose|i: int|
                0 <= i < self.entries@.len() && self.entries@[i].0@ == account;
            lemma_total_ge(self.entries@, i);
        }
    }

    /// An empty ledger holds nothing.
    pub proof fn lemma_empty_total(&self)
        requires
            self.wf(),
            self@ == Map::<Seq<char>, u128>::empty(),
        ensures
            self.total() == 0,
    {
        lemma_map_len(self.entries@);
    }

    /// Balance of `account`, zero when it has no entry.
    pub fn amount(&self, account: &String) -> (r: u128)
        requires
            self.wf(),
        ensures
            r == amount_of(self@, account@),
    {
        match self.get(account) {
            Some(v) => *v,
            None => 0,
        }
    }

    /// Sets the balance of `account` to `amount`.
    pub fn set_amount(&mut self, account: String, amount: u128)
        requires
            old(self).wf(),
        ensures
            final(self).wf(),
            final(self)@ == old(self)@.insert(account@, amount),
            final(self).total() + amount_of(old(self)@, account@) == old(self).total() + amount,
    {
        let ghost k = account@;
        self.insert(account, amount);
        proof {
            let s = old(self).entries@;
            if old(self)@.contains_key(k) {
                lemma_update_total(s, old(self).index_of(k), amount);
            } else {
                assert(self.entries@.drop_last() =~= s);
            }
        }
    }

    /// Removes the balance of `account` and returns it, if it had one.
    pub fn take(&mut self, account: &String) -> (r: Option<u128>)
        requires
            old(self).wf(),
        ensures
            final(self).wf(),
            final(self)@ == old(self)@.remove(account@),
            r == (if old(self)@.contains_key(account@) {
                Some(old(self)@[account@])
            } else {
                None::<u128>
            }),
            final(self).total() + amount_of(old(self)@, account@) == old(self).total(),
    {
        let r = self.remove(account);
        proof {
            if old(self)@.contains_key(account@) {
                lemma_remove_total(old(self).entries@, old(self).index_of(account@));
            }
        }
        r
    }
}

} // verus!
