use vstd::prelude::*;

verus! {

/// A 32-byte account address, held as four 64-bit words.
#[derive(Clone, Copy, Debug, PartialEq, Eq, Structural)]
pub struct AccountId {
    pub w0: u64,
    pub w1: u64,
    pub w2: u64,
    pub w3: u64,
}

impl AccountId {
    /// The account made of the four given words.
    pub fn new(w0: u64, w1: u64, w2: u64, w3: u64) -> (r: AccountId)
        ensures
            r == (AccountId { w0, w1, w2, w3 }),
    {
        AccountId { w0, w1, w2, w3 }
    }

    /// The all-zero account.
    pub fn zero() -> (r: AccountId)
        ensures
            r == (AccountId { w0: 0, w1: 0, w2: 0, w3: 0 }),
    {
        AccountId { w0: 0, w1: 0, w2: 0, w3: 0 }
    }

    /// Whether every word of the account is zero.
    pub fn is_zero(&self) -> (b: bool)
        ensures
            b == (*self == AccountId { w0: 0, w1: 0, w2: 0, w3: 0 }),
    {
        self.w0 == 0 && self.w1 == 0 && self.w2 == 0 && self.w3 == 0
    }
}

/// A key of a storage mapping: a value whose equality can be tested.
pub trait MapKey: Sized {
    fn same(&self, other: &Self) -> (b: bool)
        ensures
            b == (*self == *other),
    ;

    fn copy_key(&self) -> (r: Self)
        ensures
            r == *self,
    ;
}

impl MapKey for AccountId {
    fn same(&self, other: &Self) -> (b: bool) {
        *self == *other
    }

    fn copy_key(&self) -> (r: Self) {
        *self
    }
}

impl MapKey for (AccountId, AccountId) {
    fn same(&self, other: &Self) -> (b: bool) {
        self.0 == other.0 && self.1 == other.1
    }

    fn copy_key(&self) -> (r: Self) {
        (self.0, self.1)
    }
}

impl MapKey for u64 {
    fn same(&self, other: &Self) -> (b: bool) {
        *self == *other
    }

    fn copy_key(&self) -> (r: Self) {
        *self
    }
}

/// A storage mapping from keys to values: a list of entries with distinct keys.
/// A key that is absent reads as absent, as in contract storage.
#[derive(Debug)]
pub struct Mapping<K: MapKey, V: Copy> {
    entries: Vec<(K, V)>,
}

impl<K: MapKey, V: Copy> Mapping<K, V> {
    /// The entries as a sequence.
    pub closed spec fn entries(&self) -> Seq<(K, V)> {
        self.entries@
    }

    /// No key occurs twice among the entries.
    #[verifier::type_invariant]
    closed spec fn wf(&self) -> bool {
        forall|i: int, j: int|
            0 <= i < self.entries@.len() && 0 <= j < self.entries@.len() && i != j
                ==> self.entries@[i].0 != self.entries@[j].0
    }

    /// The mapping as a map from keys to values.
    pub closed spec fn view(&self) -> Map<K, V> {
        Map::new(
            |k: K| exists|i: int| 0 <= i < self.entries@.len() && self.entries@[i].0 == k,
            |k: K| self.entries@[choose|i: int| 0 <= i < self.entries@.len() && self.entries@[i].0 == k].1,
        )
    }

    /// The value stored under `k`, or `d` where there is none.
    pub open spec fn get_or(&self, k: K, d: V) -> V {
        if self.view().dom().contains(k) {
            self.view()[k]
        } else {
            d
        }
    }

    /// The entries after `v` is stored under `k`: the entry of `k` is replaced where
    /// there is one, else a new entry comes last.
    pub closed spec fn entries_with(&self, k: K, v: V) -> Seq<(K, V)> {
        if exists|i: int| 0 <= i < self.entries@.len() && self.entries@[i].0 == k {
            self.entries@.update(choose|i: int| 0 <= i < self.entries@.len() && self.entries@[i].0 == k, (k, v))
        } else {
            self.entries@.push((k, v))
        }
    }

    /// The empty mapping.
    pub fn new() -> (m: Self)
        ensures
            m.view() == Map::<K, V>::empty(),
    {
        let m = Mapping { entries: Vec::new() };
        assert(m.view() =~= Map::<K, V>::empty());
        m
    }

    /// The position of `k` among the entries, if it is there.
    fn find(&self, k: &K) -> (r: Option<usize>)
        ensures
            match r {
                Some(i) => i < self.entries@.len() && self.entries@[i as int].0 == *k,
                None => forall|j: int| 0 <= j < self.entries@.len() ==> self.entries@[j].0 != *k,
            },
    {
        proof {
            use_type_invariant(self);
        }
        let mut i: usize = 0;
        while i < self.entries.len()
            invariant
                i <= self.entries@.len(),
                forall|j: int| 0 <= j < i ==> self.entries@[j].0 != *k,
            decreases self.entries@.len() - i,
        {
            if self.entries[i].0.same(k) {
                return Some(i);
            }
            i = i + 1;
        }
        None
    }

    proof fn lemma_view_at(&self, i: int)
        requires
            self.wf(),
            0 <= i < self.entries@.len(),
        ensures
            self.view().dom().contains(self.entries@[i].0),
            self.view()[self.entries@[i].0] == self.entries@[i].1,
    {
        let k = self.entries@[i].0;
        assert(self.view().dom().contains(k));
        let c = choose|j: int| 0 <= j < self.entries@.len() && self.entries@[j].0 == k;
        assert(c == i);
    }

    /// The value stored under `k`, if any.
    pub fn get(&self, k: &K) -> (r: Option<V>)
        ensures
            r == (if self.view().dom().contains(*k) { Some(self.view()[*k]) } else { None::<V> }),
    {
        match self.find(k) {
            Some(i) => {
                proof {
                    use_type_invariant(self);
                    self.lemma_view_at(i as int);
                }
                Some(self.entries[i].1)
            },
            None => {
                assert(!self.view().dom().contains(*k));
                None
            },
        }
    }

    /// The value stored under `k`, or `d` where there is none.
    pub fn get_or_default(&self, k: &K, d: V) -> (r: V)
        ensures
            r == self.get_or(*k, d),
    {
        match self.get(k) {
            Some(v) => v,
            None => d,
        }
    }

    /// Stores `v` under `k`, replacing what was there.
    pub fn insert(&mut self, k: K, v: V)
        ensures
            final(self).view() == old(self).view().insert(k, v),
            final(self).entries() == old(self).entries_with(k, v),
    {
        proof {
            use_type_invariant(&*self);
        }
        let ghost old_entries = self.entries@;
        match self.find(&k) {
            Some(i) => {
                let mut entries: Vec<(K, V)> = Vec::new();
                std::mem::swap(&mut entries, &mut self.entries);
                entries.set(i, (k, v));
                self.entries = entries;
                proof {
                    let c = choose|j: int| 0 <= j < old_entries.len() && old_entries[j].0 == k;
                    assert(old_entries[i as int].0 == k);
                    assert(c == i);
                    assert(self.entries@ =~= old(self).entries_with(k, v));
                    assert forall|kk: K|
                        #[trigger] self.view().dom().contains(kk) == old(self).view().insert(
                            k,
                            v,
                        ).dom().contains(kk) by {
                        if exists|j: int| 0 <= j < old_entries.len() && old_entries[j].0 == kk {
                            let j = choose|j: int| 0 <= j < old_entries.len() && old_entries[j].0 == kk;
                            assert(self.entries@[j].0 == kk);
                        }
                        if exists|j: int| 0 <= j < self.entries@.len() && self.entries@[j].0 == kk {
                            let j = choose|j: int| 0 <= j < self.entries@.len() && self.entries@[j].0 == kk;
                            if j != i {
                                assert(old_entries[j].0 == kk);
                            }
                        }
                    }
                    assert forall|kk: K| #[trigger] self.view().dom().contains(kk) implies self.view()[kk]
                        == old(self).view().insert(k, v)[kk] by {
                        let j = choose|j: int| 0 <= j < self.entries@.len() && self.entries@[j].0 == kk;
                        self.lemma_view_at(j);
                        if j != i {
                            old(self).lemma_view_at(j);
                        }
                    }
                    assert(self.view() =~= old(self).view().insert(k, v));
                }
            },
            None => {
                let mut entries: Vec<(K, V)> = Vec::new();
                std::mem::swap(&mut entries, &mut self.entries);
                entries.push((k, v));
                self.entries = entries;
                proof {
                    let n = old_entries.len() as int;
                    assert(self.entries@ =~= old(self).entries_with(k, v));
                    assert forall|kk: K|
                        #[trigger] self.view().dom().contains(kk) == old(self).view().insert(
                            k,
                            v,
                        ).dom().contains(kk) by {
                        if exists|j: int| 0 <= j < old_entries.len() && old_entries[j].0 == kk {
                            let j = choose|j: int| 0 <= j < old_entries.len() && old_entries[j].0 == kk;
                            assert(self.entries@[j].0 == kk);
                        }
                        if kk == k {
                            assert(self.entries@[n].0 == kk);
                        }
                        if exists|j: int| 0 <= j < self.entries@.len() && self.entries@[j].0 == kk {
                            let j = choose|j: int| 0 <= j < self.entries@.len() && self.entries@[j].0 == kk;
                            if j != n {
                                assert(old_entries[j].0 == kk);
                            }
                        }
                    }
                    assert forall|kk: K| #[trigger] self.view().dom().contains(kk) implies self.view()[kk]
                        == old(self).view().insert(k, v)[kk] by {
                        let j = choose|j: int| 0 <= j < self.entries@.len() && self.entries@[j].0 == kk;
                        self.lemma_view_at(j);
                        if j != n {
                            old(self).lemma_view_at(j);
                        }
                    }
                    assert(self.view() =~= old(self).view().insert(k, v));
                }
            },
        }
    }
}

/// The sum of the amounts of a list of entries.
pub open spec fn entries_total<K>(s: Seq<(K, u128)>) -> int
    decreases s.len(),
{
    if s.len() == 0 {
        0
    } else {
        entries_total(s.drop_last()) + s.last().1
    }
}

/// Replacing one entry changes the sum by the difference of the two amounts.
proof fn lemma_entries_total_update<K>(s: Seq<(K, u128)>, i: int, e: (K, u128))
    requires
        0 <= i < s.len(),
    ensures
        entries_total(s.update(i, e)) == entries_total(s) - s[i].1 + e.1,
    decreases s.len(),
{
    if i == s.len() - 1 {
        assert(s.update(i, e).drop_last() =~= s.drop_last());
    } else {
        lemma_entries_total_update(s.drop_last(), i, e);
        assert(s.update(i, e).drop_last() =~= s.drop_last().update(i, e));
    }
}

impl<K: MapKey> Mapping<K, u128> {
    /// The sum of the amounts stored.
    pub closed spec fn total(&self) -> int {
        entries_total(self.entries@)
    }

    /// Storing `v` under `k` changes the sum of the amounts by `v` less what `k`
    /// held.
    pub proof fn lemma_total_insert(before: &Self, after: &Self, k: K, v: u128)
        requires
            after.entries() == before.entries_with(k, v),
        ensures
            after.total() == before.total() - before.get_or(k, 0) + v,
    {
        let s = before.entries@;
        if exists|i: int| 0 <= i < s.len() && s[i].0 == k {
            let i = choose|i: int| 0 <= i < s.len() && s[i].0 == k;
            lemma_entries_total_update(s, i, (k, v));
            assert(before.view().dom().contains(k));
        } else {
            assert(s.push((k, v)).drop_last() =~= s);
            assert(!before.view().dom().contains(k));
        }
    }

    /// The empty mapping sums to zero.
    pub proof fn lemma_total_empty(m: &Self)
        requires
            m.view() == Map::<K, u128>::empty(),
        ensures
            m.total() == 0,
    {
        if m.entries@.len() > 0 {
            assert(m.view().dom().contains(m.entries@[0].0));
        }
    }
}

impl<K: MapKey, V: Copy> Clone for Mapping<K, V> {
    fn clone(&self) -> (r: Self)
        ensures
            r.entries() == self.entries(),
    {
        proof {
            use_type_invariant(self);
        }
        let mut entries: Vec<(K, V)> = Vec::new();
        let mut i: usize = 0;
        while i < self.entries.len()
            invariant
                self.wf(),
                i <= self.entries@.len(),
                entries@ == self.entries@.subrange(0, i as int),
            decreases self.entries@.len() - i,
        {
            entries.push((self.entries[i].0.copy_key(), self.entries[i].1));
            i = i + 1;
        }
        assert(entries@ =~= self.entries@);
        Mapping { entries }
    }
}

} // verus!
