//! A finite map kept as a list of entries with pairwise different keys.

use vstd::prelude::*;

verus! {

/// A value that can be copied without changing what it stands for.
pub trait Datum: View + Sized {
    fn duplicate(&self) -> (r: Self)
        ensures
            r@ == self@,
    ;
}

/// A value that can stand as a key: two keys are the same when their views are.
pub trait Key: Datum {
    fn same(&self, other: &Self) -> (r: bool)
        ensures
            r == (self@ == other@),
    ;
}

impl Datum for String {
    fn duplicate(&self) -> (r: Self) {
        self.clone()
    }
}

impl Key for String {
    fn same(&self, other: &Self) -> (r: bool) {
        *self == *other
    }
}

impl Datum for () {
    fn duplicate(&self) -> (r: Self) {
    }
}

/// A map from keys to values. Its view maps the view of each key to the view
/// of its value.
pub struct Table<K: Key, V: View> {
    entries: Vec<(K, V)>,
}

/// `pairs` lists every entry of `m` once.
pub open spec fn enumerates<A, B>(pairs: Seq<(A, B)>, m: Map<A, B>) -> bool {
    &&& forall|i: int, j: int|
        0 <= i < pairs.len() && 0 <= j < pairs.len() && i != j ==> (#[trigger] pairs[i]).0 != (
        #[trigger] pairs[j]).0
    &&& forall|i: int|
        0 <= i < pairs.len() ==> m.contains_key((#[trigger] pairs[i]).0) && m[pairs[i].0]
            == pairs[i].1
    &&& forall|k: A| #[trigger]
        m.contains_key(k) ==> exists|i: int| 0 <= i < pairs.len() && (#[trigger] pairs[i]).0 == k
}

/// A map that is listed by `pairs` is finite, and has as many entries as
/// `pairs` has items.
pub proof fn lemma_enumerates_len<A, B>(pairs: Seq<(A, B)>, m: Map<A, B>)
    requires
        enumerates(pairs, m),
    ensures
        m.dom().finite(),
        m.dom().len() == pairs.len(),
    decreases pairs.len(),
{
    if pairs.len() == 0 {
        assert(m.dom() =~= Set::empty());
    } else {
        let last = pairs.last();
        let rest = m.remove(last.0);
        let front = pairs.drop_last();
        assert(pairs[pairs.len() - 1] == last);
        assert forall|i: int| 0 <= i < front.len() implies rest.contains_key(
            (#[trigger] front[i]).0,
        ) && rest[front[i].0] == front[i].1 by {
            assert(front[i] == pairs[i]);
        }
        assert forall|k: A| #[trigger] rest.contains_key(k) implies exists|i: int|
            0 <= i < front.len() && (#[trigger] front[i]).0 == k by {
            assert(m.contains_key(k));
            let i = choose|i: int| 0 <= i < pairs.len() && (#[trigger] pairs[i]).0 == k;
            assert(front[i] == pairs[i]);
        }
        assert forall|i: int, j: int|
            0 <= i < front.len() && 0 <= j < front.len() && i != j implies (
        #[trigger] front[i]).0 != (#[trigger] front[j]).0 by {
            assert(front[i] == pairs[i] && front[j] == pairs[j]);
        }
        lemma_enumerates_len(front, rest);
        assert(m.dom() =~= rest.dom().insert(last.0));
    }
}

/// The sum of the numbers of a finite map.
pub open spec fn map_sum<A>(m: Map<A, nat>) -> nat
    decreases m.dom().len(),
    when m.dom().finite()
{
    if m.dom().len() == 0 {
        0
    } else {
        let k = m.dom().choose();
        m[k] + map_sum(m.remove(k))
    }
}

/// Any one entry can be taken out of a sum.
pub proof fn lemma_map_sum_remove<A>(m: Map<A, nat>, k: A)
    requires
        m.dom().finite(),
        m.contains_key(k),
    ensures
        map_sum(m) == m[k] + map_sum(m.remove(k)),
    decreases m.dom().len(),
{
    let c = m.dom().choose();
    if m.dom().len() == 0 {
        assert(m.dom() =~= Set::empty());
    } else if c != k {
        lemma_map_sum_remove(m.remove(c), k);
        lemma_map_sum_remove(m.remove(k), c);
        assert(m.remove(c).remove(k) =~= m.remove(k).remove(c));
    }
}

/// The sum of the numbers of a list of entries.
pub open spec fn pair_sum<A>(pairs: Seq<(A, nat)>) -> nat
    decreases pairs.len(),
{
    if pairs.len() == 0 {
        0
    } else {
        pair_sum(pairs.drop_last()) + pairs.last().1
    }
}

/// A list of the entries of a map has the sum of the map.
pub proof fn lemma_pair_sum<A>(pairs: Seq<(A, nat)>, m: Map<A, nat>)
    requires
        enumerates(pairs, m),
    ensures
        pair_sum(pairs) == map_sum(m),
    decreases pairs.len(),
{
    lemma_enumerates_len(pairs, m);
    if pairs.len() > 0 {
        let last = pairs.last();
        assert(pairs[pairs.len() - 1] == last);
        let rest = m.remove(last.0);
        let front = pairs.drop_last();
        assert forall|i: int| 0 <= i < front.len() implies rest.contains_key(
            (#[trigger] front[i]).0,
        ) && rest[front[i].0] == front[i].1 by {
            assert(front[i] == pairs[i]);
        }
        assert forall|k: A| #[trigger] rest.contains_key(k) implies exists|i: int|
            0 <= i < front.len() && (#[trigger] front[i]).0 == k by {
            assert(m.contains_key(k));
            let i = choose|i: int| 0 <= i < pairs.len() && (#[trigger] pairs[i]).0 == k;
            assert(front[i] == pairs[i]);
        }
        assert forall|i: int, j: int|
            0 <= i < front.len() && 0 <= j < front.len() && i != j implies (
        #[trigger] front[i]).0 != (#[trigger] front[j]).0 by {
            assert(front[i] == pairs[i] && front[j] == pairs[j]);
        }
        lemma_pair_sum(front, rest);
        lemma_map_sum_remove(m, last.0);
    }
}

/// A list keeps listing its map once both are put through a function of the
/// values.
pub proof fn lemma_enumerates_map<A, B, C>(pairs: Seq<(A, B)>, m: Map<A, B>, f: spec_fn(B) -> C)
    requires
        enumerates(pairs, m),
    ensures
        enumerates(
            Seq::new(pairs.len(), |i: int| (pairs[i].0, f(pairs[i].1))),
            m.map_values(f),
        ),
{
    let mapped = Seq::new(pairs.len(), |i: int| (pairs[i].0, f(pairs[i].1)));
    let n = m.map_values(f);
    assert forall|i: int, j: int|
        0 <= i < mapped.len() && 0 <= j < mapped.len() && i != j implies (
    #[trigger] mapped[i]).0 != (#[trigger] mapped[j]).0 by {
        assert(pairs[i].0 != pairs[j].0);
    }
    assert forall|i: int| 0 <= i < mapped.len() implies n.contains_key((#[trigger] mapped[i]).0)
        && n[mapped[i].0] == mapped[i].1 by {
        assert(m.contains_key(pairs[i].0));
    }
    assert forall|k: A| #[trigger] n.contains_key(k) implies exists|i: int|
        0 <= i < mapped.len() && (#[trigger] mapped[i]).0 == k by {
        assert(m.contains_key(k));
        let i = choose|i: int| 0 <= i < pairs.len() && (#[trigger] pairs[i]).0 == k;
        assert(mapped[i].0 == k);
    }
}

/// The map that a list of entries stands for: the first entry of a key counts.
spec fn listed<A, B>(pairs: Seq<(A, B)>) -> Map<A, B> {
    Map::new(
        |k: A| exists|i: int| 0 <= i < pairs.len() && (#[trigger] pairs[i]).0 == k,
        |k: A| pairs[choose|i: int| 0 <= i < pairs.len() && (#[trigger] pairs[i]).0 == k].1,
    )
}

spec fn distinct<A, B>(pairs: Seq<(A, B)>) -> bool {
    forall|i: int, j: int|
        0 <= i < pairs.len() && 0 <= j < pairs.len() && i != j ==> (#[trigger] pairs[i]).0 != (
        #[trigger] pairs[j]).0
}

proof fn lemma_listed<A, B>(pairs: Seq<(A, B)>)
    requires
        distinct(pairs),
    ensures
        enumerates(pairs, listed(pairs)),
{
    let m = listed(pairs);
    assert forall|i: int| 0 <= i < pairs.len() implies m.contains_key((#[trigger] pairs[i]).0)
        && m[pairs[i].0] == pairs[i].1 by {
        let k = pairs[i].0;
        let j = choose|j: int| 0 <= j < pairs.len() && (#[trigger] pairs[j]).0 == k;
        assert(pairs[j].0 == k);
    }
}

impl<K: Key, V: View> Table<K, V> {
    /// The entries in the order in which they are kept.
    pub closed spec fn pairs(&self) -> Seq<(K::V, V::V)> {
        Seq::new(self.entries@.len(), |i: int| (self.entries@[i].0@, self.entries@[i].1@))
    }

    #[verifier::type_invariant]
    spec fn keys_distinct(&self) -> bool {
        distinct(self.pairs())
    }
}

impl<K: Key, V: View> View for Table<K, V> {
    type V = Map<K::V, V::V>;

    closed spec fn view(&self) -> Map<K::V, V::V> {
        listed(self.pairs())
    }
}

impl<K: Key, V: View> Table<K, V> {
    pub fn new() -> (r: Self)
        ensures
            r@ == Map::<K::V, V::V>::empty(),
    {
        let r = Table { entries: Vec::new() };
        assert(r@ =~= Map::<K::V, V::V>::empty());
        r
    }

    /// The number of entries.
    pub fn len(&self) -> (n: usize)
        ensures
            n == self.pairs().len(),
            n == self@.dom().len(),
            self@.dom().finite(),
            enumerates(self.pairs(), self@),
    {
        proof {
            use_type_invariant(self);
            lemma_listed(self.pairs());
            lemma_enumerates_len(self.pairs(), self@);
        }
        self.entries.len()
    }

    pub fn is_empty(&self) -> (r: bool)
        ensures
            r == (self@ == Map::<K::V, V::V>::empty()),
    {
        let n: usize = self.len();
        proof {
            if n == 0 {
                assert(self@ =~= Map::<K::V, V::V>::empty());
            }
        }
        n == 0
    }

    /// The key of the entry at a place in the list.
    pub fn key_at(&self, i: usize) -> (k: &K)
        requires
            i < self.pairs().len(),
        ensures
            k@ == self.pairs()[i as int].0,
    {
        &self.entries[i].0
    }

    /// The value of the entry at a place in the list.
    pub fn value_at(&self, i: usize) -> (v: &V)
        requires
            i < self.pairs().len(),
        ensures
            v@ == self.pairs()[i as int].1,
    {
        &self.entries[i].1
    }

    fn position(&self, key: &K) -> (r: Option<usize>)
        ensures
            match r {
                Some(i) => i < self.pairs().len() && self.pairs()[i as int].0 == key@,
                None => forall|i: int| 0 <= i < self.pairs().len() ==> (#[trigger] self.pairs()[i]).0 != key@,
            },
    {
        let mut i: usize = 0;
        while i < self.entries.len()
            invariant
                i <= self.entries@.len(),
                forall|j: int| 0 <= j < i ==> (#[trigger] self.pairs()[j]).0 != key@,
            decreases self.entries@.len() - i,
        {
            assert(self.pairs()[i as int].0 == self.entries@[i as int].0@);
            if self.entries[i].0.same(key) {
                return Some(i);
            }
            i = i + 1;
        }
        None
    }

    pub fn contains_key(&self, key: &K) -> (r: bool)
        ensures
            r == self@.contains_key(key@),
    {
        match self.position(key) {
            Some(i) => {
                assert(self.pairs()[i as int].0 == key@);
                true
            },
            None => false,
        }
    }

    pub fn get(&self, key: &K) -> (r: Option<&V>)
        ensures
            match r {
                Some(v) => self@.contains_key(key@) && v@ == self@[key@],
                None => !self@.contains_key(key@),
            },
    {
        proof {
            use_type_invariant(self);
            lemma_listed(self.pairs());
        }
        match self.position(key) {
            Some(i) => {
                assert(self.pairs()[i as int].0 == key@);
                Some(&self.entries[i].1)
            },
            None => None,
        }
    }

    /// Removes the entry of a key and hands its value out.
    pub fn remove(&mut self, key: &K) -> (r: Option<V>)
        ensures
            final(self)@ == old(self)@.remove(key@),
            match r {
                Some(v) => old(self)@.contains_key(key@) && v@ == old(self)@[key@],
                None => !old(self)@.contains_key(key@),
            },
    {
        proof {
            use_type_invariant(&*self);
            lemma_listed(self.pairs());
        }
        match self.position(key) {
            Some(i) => {
                let ghost before = self.pairs();
                let ghost whole = self@;
                let mut entries: Vec<(K, V)> = Vec::new();
                std::mem::swap(&mut entries, &mut self.entries);
                let (_, value) = entries.remove(i);
                let ghost after = before.remove(i as int);
                proof {
                    assert(after =~= Seq::new(
                        entries@.len(),
                        |j: int| (entries@[j].0@, entries@[j].1@),
                    ));
                    lemma_removed(before, i as int);
                }
                self.entries = entries;
                assert(self.pairs() =~= after);
                assert(before[i as int].0 == key@);
                Some(value)
            },
            None => {
                assert(!self@.contains_key(key@));
                assert(self@ =~= self@.remove(key@));
                None
            },
        }
    }

    /// Sets the value of a key and hands out the value that it had before.
    pub fn insert(&mut self, key: K, value: V) -> (r: Option<V>)
        ensures
            final(self)@ == old(self)@.insert(key@, value@),
            match r {
                Some(v) => old(self)@.contains_key(key@) && v@ == old(self)@[key@],
                None => !old(self)@.contains_key(key@),
            },
    {
        let previous = self.remove(&key);
        proof {
            use_type_invariant(&*self);
            lemma_listed(self.pairs());
        }
        let ghost before = self.pairs();
        let ghost rest = self@;
        let ghost pair = (key@, value@);
        assert(!rest.contains_key(key@));
        let mut entries: Vec<(K, V)> = Vec::new();
        std::mem::swap(&mut entries, &mut self.entries);
        entries.push((key, value));
        let ghost after = before.push(pair);
        proof {
            assert(after =~= Seq::new(entries@.len(), |j: int| (entries@[j].0@, entries@[j].1@)));
            lemma_pushed(before, pair);
        }
        self.entries = entries;
        assert(self.pairs() =~= after);
        assert(self@ =~= old(self)@.insert(pair.0, pair.1));
        previous
    }
}

proof fn lemma_removed<A, B>(pairs: Seq<(A, B)>, i: int)
    requires
        distinct(pairs),
        0 <= i < pairs.len(),
    ensures
        distinct(pairs.remove(i)),
        listed(pairs.remove(i)) == listed(pairs).remove(pairs[i].0),
{
    let rest = pairs.remove(i);
    assert forall|a: int, b: int| 0 <= a < rest.len() && 0 <= b < rest.len() && a != b implies (
    #[trigger] rest[a]).0 != (#[trigger] rest[b]).0 by {
        let x = if a < i { a } else { a + 1 };
        let y = if b < i { b } else { b + 1 };
        assert(rest[a] == pairs[x] && rest[b] == pairs[y]);
    }
    lemma_listed(pairs);
    lemma_listed(rest);
    let m = listed(pairs).remove(pairs[i].0);
    let n = listed(rest);
    assert forall|k: A| #[trigger] m.dom().contains(k) == n.dom().contains(k) && (m.dom().contains(k)
        ==> m[k] == n[k]) by {
        if m.contains_key(k) {
            let x = choose|x: int| 0 <= x < pairs.len() && (#[trigger] pairs[x]).0 == k;
            assert(pairs[x].0 == k);
            let a = if x < i { x } else { x - 1 };
            assert(rest[a] == pairs[x]);
        }
        if n.contains_key(k) {
            let a = choose|a: int| 0 <= a < rest.len() && (#[trigger] rest[a]).0 == k;
            let x = if a < i { a } else { a + 1 };
            assert(rest[a] == pairs[x]);
            assert(pairs[x].0 != pairs[i].0);
        }
    }
    assert(m.dom() =~= n.dom());
    assert(m =~= n);
}

proof fn lemma_pushed<A, B>(pairs: Seq<(A, B)>, pair: (A, B))
    requires
        distinct(pairs),
        !listed(pairs).contains_key(pair.0),
    ensures
        distinct(pairs.push(pair)),
        listed(pairs.push(pair)) == listed(pairs).insert(pair.0, pair.1),
{
    let all = pairs.push(pair);
    lemma_listed(pairs);
    assert forall|a: int, b: int| 0 <= a < all.len() && 0 <= b < all.len() && a != b implies (
    #[trigger] all[a]).0 != (#[trigger] all[b]).0 by {
        if a < pairs.len() {
            assert(all[a] == pairs[a]);
        }
        if b < pairs.len() {
            assert(all[b] == pairs[b]);
        }
    }
    lemma_listed(all);
    let m = listed(pairs).insert(pair.0, pair.1);
    let n = listed(all);
    assert forall|k: A| #[trigger] m.dom().contains(k) == n.dom().contains(k) && (m.dom().contains(k)
        ==> m[k] == n[k]) by {
        if m.contains_key(k) {
            if k == pair.0 {
                assert(all[pairs.len() as int].0 == k);
            } else {
                let x = choose|x: int| 0 <= x < pairs.len() && (#[trigger] pairs[x]).0 == k;
                assert(pairs[x].0 == k);
                assert(all[x] == pairs[x]);
            }
        }
        if n.contains_key(k) {
            let a = choose|a: int| 0 <= a < all.len() && (#[trigger] all[a]).0 == k;
            if a < pairs.len() {
                assert(all[a] == pairs[a]);
            }
        }
    }
    assert(m.dom() =~= n.dom());
    assert(m =~= n);
}

impl<K: Key, V: Datum> Datum for Table<K, V> {
    fn duplicate(&self) -> (r: Self) {
        proof {
            use_type_invariant(self);
        }
        let mut entries: Vec<(K, V)> = Vec::new();
        let mut i: usize = 0;
        while i < self.entries.len()
            invariant
                i <= self.entries@.len(),
                entries@.len() == i,
                forall|j: int|
                    0 <= j < i ==> (#[trigger] entries@[j]).0@ == self.entries@[j].0@
                        && entries@[j].1@ == self.entries@[j].1@,
            decreases self.entries@.len() - i,
        {
            entries.push((self.entries[i].0.duplicate(), self.entries[i].1.duplicate()));
            i = i + 1;
        }
        assert(Seq::new(entries@.len(), |j: int| (entries@[j].0@, entries@[j].1@)) =~= self.pairs());
        let r = Table { entries };
        assert(r.pairs() =~= self.pairs());
        r
    }
}

} // verus!
