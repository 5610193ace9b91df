//! A map from string keys to values that keeps its entries sorted by key,
//! as a `BTreeMap<String, V>` does: the shape of the JSON objects the
//! application keeps on disk (front-end storage namespaces, configuration
//! overrides).
use vstd::prelude::*;

use crate::text::{
    compare_text, lemma_text_lt_asymmetric, lemma_text_lt_irreflexive, lemma_text_lt_total,
    lemma_text_lt_transitive, text_lt, TextOrder,
};

verus! {

/// Keys in strictly increasing order.
pub open spec fn sorted_keys<V>(s: Seq<(String, V)>) -> bool {
    forall|i: int, j: int| 0 <= i < j < s.len() ==> text_lt(#[trigger] s[i].0@, #[trigger] s[j].0@)
}

/// Some entry has key `k`.
pub open spec fn has_key<V>(s: Seq<(String, V)>, k: Seq<char>) -> bool {
    exists|i: int| 0 <= i < s.len() && #[trigger] s[i].0@ == k
}

/// The position of key `k`.
pub open spec fn key_index<V>(s: Seq<(String, V)>, k: Seq<char>) -> int {
    choose|i: int| 0 <= i < s.len() && #[trigger] s[i].0@ == k
}

/// The map that a sorted entry list stands for.
pub open spec fn entries_map<V>(s: Seq<(String, V)>) -> Map<Seq<char>, V> {
    Map::new(|k: Seq<char>| has_key(s, k), |k: Seq<char>| s[key_index(s, k)].1)
}

/// A map from string keys to values, iterated in key order.
pub struct TextMap<V> {
    entries: Vec<(String, V)>,
}

impl<V> TextMap<V> {
    #[verifier::type_invariant]
    spec fn inv(self) -> bool {
        sorted_keys(self.entries@)
    }

    /// The entries, in increasing key order.
    pub closed spec fn entry_seq(self) -> Seq<(String, V)> {
        self.entries@
    }

    pub open spec fn map(self) -> Map<Seq<char>, V> {
        entries_map(self.entry_seq())
    }

    pub fn new() -> (m: TextMap<V>)
        ensures
            m.entry_seq() == Seq::<(String, V)>::empty(),
            m.map() == Map::<Seq<char>, V>::empty(),
    {
        let m = TextMap { entries: Vec::new() };
        assert(m.map() =~= Map::<Seq<char>, V>::empty());
        m
    }

    pub fn len(&self) -> (n: usize)
        ensures
            n == self.entry_seq().len(),
            n == self.map().dom().len(),
    {
        proof {
            use_type_invariant(self);
            lemma_dom_len(self.entries@);
        }
        self.entries.len()
    }

    /// Position of the first entry whose key is not below `key`.
    fn lower_bound(&self, key: &str) -> (p: usize)
        ensures
            p <= self.entry_seq().len(),
            forall|i: int| 0 <= i < p ==> text_lt(#[trigger] self.entry_seq()[i].0@, key@),
            forall|i: int|
                p <= i < self.entry_seq().len() ==> !text_lt(#[trigger] self.entry_seq()[i].0@, key@),
    {
        proof {
            use_type_invariant(self);
        }
        let n = self.entries.len();
        let mut p: usize = 0;
        while p < n
            invariant
                n == self.entries@.len(),
                sorted_keys(self.entries@),
                p <= n,
                forall|i: int| 0 <= i < p ==> text_lt(#[trigger] self.entries@[i].0@, key@),
            decreases n - p,
        {
            if compare_text(self.entries[p].0.as_str(), key) != TextOrder::Less {
                proof {
                    assert forall|i: int| p <= i < n implies !text_lt(
                        #[trigger] self.entries@[i].0@,
                        key@,
                    ) by {
                        if i > p && text_lt(self.entries@[i].0@, key@) {
                            lemma_text_lt_transitive(
                                self.entries@[p as int].0@,
                                self.entries@[i].0@,
                                key@,
                            );
                        }
                    }
                }
                return p;
            }
            p = p + 1;
        }
        p
    }

    /// The value stored under `key`.
    pub fn get(&self, key: &str) -> (r: Option<&V>)
        ensures
            r is Some <==> self.map().dom().contains(key@),
            r matches Some(v) ==> *v == self.map()[key@],
    {
        proof {
            use_type_invariant(self);
        }
        let p = self.lower_bound(key);
        if p < self.entries.len() && compare_text(self.entries[p].0.as_str(), key)
            == TextOrder::Equal {
            proof {
                lemma_key_index(self.entries@, p as int);
            }
            Some(&self.entries[p].1)
        } else {
            proof {
                if has_key(self.entries@, key@) {
                    let i = key_index(self.entries@, key@);
                    lemma_text_lt_irreflexive(key@);
                    if i > p {
                        lemma_text_lt_total(self.entries@[p as int].0@, key@);
                        assert(text_lt(self.entries@[p as int].0@, self.entries@[i].0@));
                        lemma_text_lt_asymmetric(self.entries@[p as int].0@, key@);
                    }
                }
            }
            None
        }
    }

    /// Sets `key` to `value`, replacing what was there.
    pub fn insert(&mut self, key: String, value: V)
        ensures
            final(self).map() == old(self).map().insert(key@, value),
    {
        proof {
            use_type_invariant(&*self);
        }
        let p = self.lower_bound(key.as_str());
        let mut entries: Vec<(String, V)> = Vec::new();
        std::mem::swap(&mut entries, &mut self.entries);
        let ghost old_s = entries@;
        if p < entries.len() && compare_text(entries[p].0.as_str(), key.as_str())
            == TextOrder::Equal {
            let ghost k = key@;
            entries.set(p, (key, value));
            proof {
                let s = entries@;
                assert(sorted_keys(s)) by {
                    assert forall|i: int, j: int| 0 <= i < j < s.len() implies text_lt(
                        #[trigger] s[i].0@,
                        #[trigger] s[j].0@,
                    ) by {
                        assert(old_s[i].0@ == s[i].0@ || i == p);
                        assert(old_s[j].0@ == s[j].0@ || j == p);
                        assert(old_s[p as int].0@ == k);
                        assert(text_lt(old_s[i].0@, old_s[j].0@));
                    }
                }
                lemma_map_set(old_s, p as int, k, value);
            }
            self.entries = entries;
            return;
        } else {
            let ghost k = key@;
            entries.insert(p, (key, value));
            proof {
                let s = entries@;
                assert(forall|i: int| 0 <= i < p ==> s[i] == old_s[i]);
                assert(forall|i: int| p < i < s.len() ==> s[i] == old_s[i - 1]);
                assert(sorted_keys(s)) by {
                    assert forall|i: int, j: int| 0 <= i < j < s.len() implies text_lt(
                        #[trigger] s[i].0@,
                        #[trigger] s[j].0@,
                    ) by {
                        if j == p {
                            assert(text_lt(old_s[i].0@, k));
                        } else if i == p {
                            assert(!text_lt(old_s[j - 1].0@, k));
                            lemma_text_lt_total(old_s[j - 1].0@, k);
                            if old_s[j - 1].0@ == k {
                                if p < old_s.len() {
                                    if j - 1 > p {
                                        lemma_text_lt_total(old_s[p as int].0@, k);
                                        assert(text_lt(old_s[p as int].0@, old_s[j - 1].0@));
                                        lemma_text_lt_asymmetric(old_s[p as int].0@, k);
                                    }
                                }
                            }
                        } else if i < p && j > p {
                            assert(text_lt(old_s[i].0@, k));
                            assert(!text_lt(old_s[j - 1].0@, k));
                            lemma_text_lt_total(old_s[j - 1].0@, k);
                            if old_s[j - 1].0@ != k {
                                lemma_text_lt_transitive(old_s[i].0@, k, old_s[j - 1].0@);
                            }
                        } else if j < p {
                            assert(text_lt(old_s[i].0@, old_s[j].0@));
                        } else {
                            assert(text_lt(old_s[i - 1].0@, old_s[j - 1].0@));
                        }
                    }
                }
                // k is absent from old_s
                assert(!has_key(old_s, k)) by {
                    if has_key(old_s, k) {
                        let i = key_index(old_s, k);
                        if i < p {
                            lemma_text_lt_irreflexive(k);
                        } else if i == p {
                        } else {
                            lemma_text_lt_total(old_s[p as int].0@, k);
                            assert(text_lt(old_s[p as int].0@, old_s[i].0@));
                            lemma_text_lt_asymmetric(old_s[p as int].0@, k);
                        }
                    }
                }
                lemma_map_insert_at(old_s, p as int, k, value, s);
            }
        }
        self.entries = entries;
    }

    /// Removes `key`; nothing happens when it is absent.
    pub fn remove(&mut self, key: &str)
        ensures
            final(self).map() == old(self).map().remove(key@),
    {
        proof {
            use_type_invariant(&*self);
        }
        let p = self.lower_bound(key);
        let mut entries: Vec<(String, V)> = Vec::new();
        std::mem::swap(&mut entries, &mut self.entries);
        let ghost old_s = entries@;
        if p < entries.len() && compare_text(entries[p].0.as_str(), key)
            == TextOrder::Equal {
            let _ = entries.remove(p);
            proof {
                let s = entries@;
                assert(forall|i: int| 0 <= i < p ==> s[i] == old_s[i]);
                assert(forall|i: int| p <= i < s.len() ==> s[i] == old_s[i + 1]);
                assert(sorted_keys(s)) by {
                    assert forall|i: int, j: int| 0 <= i < j < s.len() implies text_lt(
                        #[trigger] s[i].0@,
                        #[trigger] s[j].0@,
                    ) by {
                        if j < p {
                        } else if i < p {
                            assert(text_lt(old_s[i].0@, old_s[j + 1].0@));
                        } else {
                            assert(text_lt(old_s[i + 1].0@, old_s[j + 1].0@));
                        }
                    }
                }
                lemma_map_remove_at(old_s, p as int, s);
            }
            self.entries = entries;
        } else {
            proof {
                if has_key(old_s, key@) {
                    let i = key_index(old_s, key@);
                    lemma_text_lt_irreflexive(key@);
                    if i > p {
                        lemma_text_lt_total(old_s[p as int].0@, key@);
                        assert(text_lt(old_s[p as int].0@, old_s[i].0@));
                        lemma_text_lt_asymmetric(old_s[p as int].0@, key@);
                    }
                }
                assert(entries_map(old_s) =~= entries_map(old_s).remove(key@));
            }
            self.entries = entries;
        }
    }

    /// The entries, in increasing key order.
    pub fn into_entries(self) -> (r: Vec<(String, V)>)
        ensures
            r@ == self.entry_seq(),
            sorted_keys(r@),
    {
        proof {
            use_type_invariant(&self);
        }
        self.entries
    }

    /// Read access to the entries, in increasing key order.
    pub fn entries(&self) -> (r: &Vec<(String, V)>)
        ensures
            r@ == self.entry_seq(),
            sorted_keys(r@),
    {
        proof {
            use_type_invariant(self);
        }
        &self.entries
    }
}

// ── lemmas on sorted entry lists ─────────────────────────────────────────

pub proof fn lemma_key_index<V>(s: Seq<(String, V)>, p: int)
    requires
        sorted_keys(s),
        0 <= p < s.len(),
    ensures
        has_key(s, s[p].0@),
        key_index(s, s[p].0@) == p,
{
    let k = s[p].0@;
    assert(has_key(s, k));
    let i = key_index(s, k);
    if i != p {
        if i < p {
            assert(text_lt(s[i].0@, s[p].0@));
        } else {
            assert(text_lt(s[p].0@, s[i].0@));
        }
        lemma_text_lt_irreflexive(k);
    }
}

proof fn lemma_map_set<V>(old_s: Seq<(String, V)>, p: int, k: Seq<char>, v: V)
    requires
        sorted_keys(old_s),
        0 <= p < old_s.len(),
        old_s[p].0@ == k,
    ensures
        forall|s: Seq<(String, V)>|
            #![trigger entries_map(s)]
            s.len() == old_s.len() && s[p].0@ == k && s[p].1 == v && sorted_keys(s) && (forall|i: int|
                0 <= i < s.len() && i != p ==> s[i] == old_s[i]) ==> entries_map(s) =~= entries_map(
                old_s,
            ).insert(k, v),
{
    assert forall|s: Seq<(String, V)>|
        #![trigger entries_map(s)]
        s.len() == old_s.len() && s[p].0@ == k && s[p].1 == v && sorted_keys(s) && (forall|i: int|
            0 <= i < s.len() && i != p ==> s[i] == old_s[i]) implies entries_map(s) =~= entries_map(
        old_s,
    ).insert(k, v) by {
        assert forall|q: Seq<char>| #[trigger] has_key(s, q) == has_key(old_s, q) by {
            if has_key(s, q) {
                let i = key_index(s, q);
                if i != p {
                    assert(old_s[i].0@ == q);
                } else {
                    assert(old_s[p].0@ == q);
                }
            }
            if has_key(old_s, q) {
                let i = key_index(old_s, q);
                if i != p {
                    assert(s[i].0@ == q);
                } else {
                    assert(s[p].0@ == q);
                }
            }
        }
        assert forall|q: Seq<char>| has_key(s, q) implies #[trigger] entries_map(s)[q]
            == entries_map(old_s).insert(k, v)[q] by {
            let i = key_index(s, q);
            lemma_key_index(s, i);
            if q != k {
                let j = key_index(old_s, q);
                lemma_key_index(old_s, j);
                assert(i != p);
                assert(old_s[i].0@ == q);
                lemma_key_index(old_s, i);
            } else {
                lemma_key_index(s, p);
            }
        }
        assert(entries_map(s).dom() =~= entries_map(old_s).insert(k, v).dom());
    }
}

proof fn lemma_map_insert_at<V>(
    old_s: Seq<(String, V)>,
    p: int,
    k: Seq<char>,
    v: V,
    s: Seq<(String, V)>,
)
    requires
        sorted_keys(old_s),
        sorted_keys(s),
        !has_key(old_s, k),
        0 <= p <= old_s.len(),
        s.len() == old_s.len() + 1,
        s[p].0@ == k,
        s[p].1 == v,
        forall|i: int| 0 <= i < p ==> s[i] == old_s[i],
        forall|i: int| p < i < s.len() ==> s[i] == old_s[i - 1],
    ensures
        entries_map(s) =~= entries_map(old_s).insert(k, v),
{
    assert forall|q: Seq<char>| #[trigger] has_key(s, q) == (has_key(old_s, q) || q == k) by {
        if has_key(s, q) {
            let i = key_index(s, q);
            if i < p {
                assert(old_s[i].0@ == q);
            } else if i > p {
                assert(old_s[i - 1].0@ == q);
            }
        }
        if has_key(old_s, q) {
            let i = key_index(old_s, q);
            if i < p {
                assert(s[i].0@ == q);
            } else {
                assert(s[i + 1].0@ == q);
            }
        }
        if q == k {
            assert(s[p].0@ == q);
        }
    }
    assert forall|q: Seq<char>| has_key(s, q) implies #[trigger] entries_map(s)[q] == entries_map(
        old_s,
    ).insert(k, v)[q] by {
        let i = key_index(s, q);
        lemma_key_index(s, i);
        if q == k {
            lemma_key_index(s, p);
        } else {
            let j = if i < p {
                i
            } else {
                i - 1
            };
            assert(old_s[j].0@ == q);
            lemma_key_index(old_s, j);
        }
    }
    assert(entries_map(s).dom() =~= entries_map(old_s).insert(k, v).dom());
}

proof fn lemma_map_remove_at<V>(old_s: Seq<(String, V)>, p: int, s: Seq<(String, V)>)
    requires
        sorted_keys(old_s),
        sorted_keys(s),
        0 <= p < old_s.len(),
        s.len() + 1 == old_s.len(),
        forall|i: int| 0 <= i < p ==> s[i] == old_s[i],
        forall|i: int| p <= i < s.len() ==> s[i] == old_s[i + 1],
    ensures
        entries_map(s) =~= entries_map(old_s).remove(old_s[p].0@),
{
    let k = old_s[p].0@;
    assert forall|q: Seq<char>| #[trigger] has_key(s, q) == (has_key(old_s, q) && q != k) by {
        if has_key(s, q) {
            let i = key_index(s, q);
            let j = if i < p {
                i
            } else {
                i + 1
            };
            assert(old_s[j].0@ == q);
            if q == k {
                lemma_key_index(old_s, j);
                lemma_key_index(old_s, p);
            }
        }
        if has_key(old_s, q) && q != k {
            let i = key_index(old_s, q);
            if i < p {
                assert(s[i].0@ == q);
            } else {
                assert(i != p);
                assert(s[i - 1].0@ == q);
            }
        }
    }
    assert forall|q: Seq<char>| has_key(s, q) implies #[trigger] entries_map(s)[q] == entries_map(
        old_s,
    ).remove(k)[q] by {
        let i = key_index(s, q);
        lemma_key_index(s, i);
        let j = if i < p {
            i
        } else {
            i + 1
        };
        assert(old_s[j].0@ == q);
        lemma_key_index(old_s, j);
    }
    assert(entries_map(s).dom() =~= entries_map(old_s).remove(k).dom());
}

pub proof fn lemma_dom_len<V>(s: Seq<(String, V)>)
    requires
        sorted_keys(s),
    ensures
        entries_map(s).dom().len() == s.len(),
        entries_map(s).dom().finite(),
    decreases s.len(),
{
    if s.len() == 0 {
        assert(entries_map(s).dom() =~= Set::<Seq<char>>::empty());
    } else {
        let t = s.drop_last();
        assert(sorted_keys(t));
        lemma_dom_len(t);
        let k = s.last().0@;
        assert(!entries_map(t).dom().contains(k)) by {
            if has_key(t, k) {
                let i = key_index(t, k);
                assert(text_lt(s[i].0@, s[s.len() - 1].0@));
                lemma_text_lt_irreflexive(k);
            }
        }
        assert forall|q: Seq<char>| #[trigger] has_key(s, q) == (has_key(t, q) || q == k) by {
            if has_key(s, q) {
                let i = key_index(s, q);
                if i < t.len() {
                    assert(t[i].0@ == q);
                }
            }
            if has_key(t, q) {
                let i = key_index(t, q);
                assert(s[i].0@ == q);
            }
            if q == k {
                assert(s[s.len() - 1].0@ == q);
            }
        }
        assert(entries_map(s).dom() =~= entries_map(t).dom().insert(k));
    }
}


/// `base` with each pair of `s` inserted in turn (later pairs win).
pub open spec fn insert_all<V>(base: Map<Seq<char>, V>, s: Seq<(String, V)>) -> Map<Seq<char>, V>
    decreases s.len(),
{
    if s.len() == 0 {
        base
    } else {
        insert_all(base, s.drop_last()).insert(s.last().0@, s.last().1)
    }
}

/// The map of a sorted list grows by one pair when the list does.
pub proof fn lemma_entries_map_push<V>(s: Seq<(String, V)>)
    requires
        sorted_keys(s),
        s.len() > 0,
    ensures
        entries_map(s) =~= entries_map(s.drop_last()).insert(s.last().0@, s.last().1),
{
    let t = s.drop_last();
    let k = s.last().0@;
    let p = s.len() - 1;
    assert(sorted_keys(t));
    assert forall|q: Seq<char>| #[trigger] has_key(s, q) == (has_key(t, q) || q == k) by {
        if has_key(s, q) {
            let i = key_index(s, q);
            if i < t.len() {
                assert(t[i].0@ == q);
            }
        }
        if has_key(t, q) {
            let i = key_index(t, q);
            assert(s[i].0@ == q);
        }
        if q == k {
            assert(s[p].0@ == q);
        }
    }
    assert forall|q: Seq<char>| has_key(s, q) implies #[trigger] entries_map(s)[q]
        == entries_map(t).insert(k, s.last().1)[q] by {
        let i = key_index(s, q);
        lemma_key_index(s, i);
        if q == k {
            lemma_key_index(s, p);
        } else {
            assert(i < t.len());
            assert(t[i] == s[i]);
            lemma_key_index(t, i);
        }
    }
    assert(entries_map(s).dom() =~= entries_map(t).dom().insert(k));
}

/// Inserting the pairs of a sorted list into `base` overlays its map.
pub proof fn lemma_insert_all_sorted<V>(base: Map<Seq<char>, V>, s: Seq<(String, V)>)
    requires
        sorted_keys(s),
    ensures
        insert_all(base, s) =~= base.union_prefer_right(entries_map(s)),
    decreases s.len(),
{
    if s.len() == 0 {
        assert(entries_map(s) =~= Map::<Seq<char>, V>::empty());
    } else {
        let t = s.drop_last();
        assert(sorted_keys(t));
        lemma_insert_all_sorted(base, t);
        lemma_entries_map_push(s);
    }
}

impl<V> TextMap<V> {
    /// A map holding the pairs of `entries`, a later pair replacing an
    /// earlier one with the same key.
    pub fn from_entries(entries: Vec<(String, V)>) -> (m: TextMap<V>)
        ensures
            m.map() == insert_all(Map::<Seq<char>, V>::empty(), entries@),
    {
        let mut m = TextMap::new();
        let mut rest = entries;
        let ghost all = rest@;
        let ghost mut done: nat = 0;
        while rest.len() > 0
            invariant
                done + rest@.len() == all.len(),
                rest@ == all.skip(done as int),
                m.map() == insert_all(Map::<Seq<char>, V>::empty(), all.take(done as int)),
            decreases rest@.len(),
        {
            let (k, v) = rest.remove(0);
            proof {
                assert(all[done as int] == (k, v));
                assert(all.take((done + 1) as int).drop_last() =~= all.take(done as int));
                assert(all.take((done + 1) as int).last() == all[done as int]);
            }
            m.insert(k, v);
            proof {
                done = done + 1;
                assert(rest@ =~= all.skip(done as int));
            }
        }
        assert(all.take(done as int) =~= all);
        m
    }

    /// `self` with every pair of `top` set on it (`top` wins on shared keys).
    pub fn overlay(self, top: TextMap<V>) -> (m: TextMap<V>)
        ensures
            m.map() == self.map().union_prefer_right(top.map()),
    {
        let ghost base = self.map();
        let mut m = self;
        let entries = top.into_entries();
        let ghost all = entries@;
        let mut rest = entries;
        let ghost mut done: nat = 0;
        while rest.len() > 0
            invariant
                done + rest@.len() == all.len(),
                rest@ == all.skip(done as int),
                sorted_keys(all),
                m.map() == insert_all(base, all.take(done as int)),
            decreases rest@.len(),
        {
            let (k, v) = rest.remove(0);
            proof {
                assert(all[done as int] == (k, v));
                assert(all.take((done + 1) as int).drop_last() =~= all.take(done as int));
                assert(all.take((done + 1) as int).last() == all[done as int]);
            }
            m.insert(k, v);
            proof {
                done = done + 1;
                assert(rest@ =~= all.skip(done as int));
            }
        }
        proof {
            assert(all.take(done as int) =~= all);
            lemma_insert_all_sorted(base, all);
        }
        m
    }
}

} // verus!
