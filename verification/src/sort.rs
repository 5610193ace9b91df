//! Sorting records by a string key, as `sort_by(|a, b| a.key.cmp(&b.key))`
//! orders directory listings before they reach the front end.
use vstd::multiset::Multiset;
use vstd::prelude::*;

use crate::text::{
    compare_text, lemma_text_lt_asymmetric, lemma_text_lt_irreflexive, lemma_text_lt_total,
    lemma_text_lt_transitive, text_lt, TextOrder,
};

verus! {

broadcast use vstd::seq_lib::group_to_multiset_ensures;

/// Keys never decrease along the sequence.
pub open spec fn keys_ascending<T>(s: Seq<(String, T)>) -> bool {
    forall|i: int, j: int| 0 <= i < j < s.len() ==> !text_lt(#[trigger] s[j].0@, #[trigger] s[i].0@)
}

/// Holds of the entries whose key is `k`.
pub open spec fn key_is<T>(k: Seq<char>) -> spec_fn((String, T)) -> bool {
    |e: (String, T)| e.0@ == k
}

/// The entries whose key is `k`, in the order in which they stand.
pub open spec fn with_key<T>(s: Seq<(String, T)>, k: Seq<char>) -> Seq<(String, T)> {
    s.filter(key_is::<T>(k))
}

proof fn lemma_with_key_single<T>(x: (String, T), k: Seq<char>)
    ensures
        with_key(seq![x], k) == (if x.0@ == k { seq![x] } else { Seq::<(String, T)>::empty() }),
{
    reveal_with_fuel(Seq::filter, 2);
    assert(seq![x].drop_last() =~= Seq::<(String, T)>::empty());
    if x.0@ == k {
        assert(with_key(seq![x], k) =~= seq![x]);
    } else {
        assert(with_key(seq![x], k) =~= Seq::<(String, T)>::empty());
    }
}

proof fn lemma_with_key_none<T>(s: Seq<(String, T)>, k: Seq<char>)
    requires
        forall|i: int| 0 <= i < s.len() ==> (#[trigger] s[i]).0@ != k,
    ensures
        with_key(s, k) == Seq::<(String, T)>::empty(),
{
    let pred = key_is::<T>(k);
    assert(s.all(|e: (String, T)| !pred(e)));
    s.lemma_all_neg_filter_empty(pred);
    assert(with_key(s, k) =~= Seq::<(String, T)>::empty());
}

/// Inserting `x` before entries whose keys all lie above its own key adds
/// it at the end of its key's group and leaves the other groups as they
/// were.
proof fn lemma_insert_groups<T>(out: Seq<(String, T)>, p: int, x: (String, T), k: Seq<char>)
    requires
        0 <= p <= out.len(),
        forall|i: int| p <= i < out.len() ==> text_lt(x.0@, #[trigger] out[i].0@),
    ensures
        with_key(out.insert(p, x), k) == (if x.0@ == k { with_key(out, k).push(x) } else { with_key(out, k) }),
{
    let a = out.subrange(0, p);
    let b = out.subrange(p, out.len() as int);
    let pred = key_is::<T>(k);
    assert(out =~= a + b);
    assert(out.insert(p, x) =~= a + seq![x] + b);
    Seq::filter_distributes_over_add(a, b, pred);
    Seq::filter_distributes_over_add(a + seq![x], b, pred);
    Seq::filter_distributes_over_add(a, seq![x], pred);
    lemma_with_key_single(x, k);
    if x.0@ == k {
        assert forall|i: int| 0 <= i < b.len() implies (#[trigger] b[i]).0@ != k by {
            assert(b[i] == out[p + i]);
            lemma_text_lt_irreflexive(k);
        }
        lemma_with_key_none(b, k);
        assert(with_key(out, k) =~= with_key(a, k));
        assert(with_key(out.insert(p, x), k) =~= with_key(a, k).push(x));
    } else {
        assert(with_key(out.insert(p, x), k) =~= with_key(a, k) + with_key(b, k));
    }
}

/// Position after the last entry whose key is not above `key`.
fn upper_bound<T>(s: &Vec<(String, T)>, key: &str) -> (p: usize)
    requires
        keys_ascending(s@),
    ensures
        p <= s@.len(),
        forall|i: int| 0 <= i < p ==> !text_lt(key@, #[trigger] s@[i].0@),
        forall|i: int| p <= i < s@.len() ==> text_lt(key@, #[trigger] s@[i].0@),
{
    let n = s.len();
    let mut p: usize = 0;
    while p < n
        invariant
            n == s@.len(),
            keys_ascending(s@),
            p <= n,
            forall|i: int| 0 <= i < p ==> !text_lt(key@, #[trigger] s@[i].0@),
        decreases n - p,
    {
        if compare_text(key, s[p].0.as_str()) == TextOrder::Less {
            proof {
                assert forall|i: int| p <= i < n implies text_lt(key@, #[trigger] s@[i].0@) by {
                    if i > p {
                        assert(!text_lt(s@[i].0@, s@[p as int].0@));
                        lemma_text_lt_total(s@[i].0@, s@[p as int].0@);
                        if s@[i].0@ != s@[p as int].0@ {
                            lemma_text_lt_transitive(key@, s@[p as int].0@, s@[i].0@);
                        }
                    }
                }
            }
            return p;
        }
        p = p + 1;
    }
    p
}

/// The entries ordered by key. Entries with equal keys keep their relative
/// order: the entries of each key stand in the result as in `items`.
pub fn sort_by_text_key<T>(items: Vec<(String, T)>) -> (r: Vec<(String, T)>)
    ensures
        keys_ascending(r@),
        r@.to_multiset() == items@.to_multiset(),
        forall|k: Seq<char>| #[trigger] with_key(r@, k) == with_key(items@, k),
{
    let mut rest = items;
    let mut out: Vec<(String, T)> = Vec::new();
    let ghost all = rest@.to_multiset();
    let ghost orig = rest@;
    proof {
        reveal_with_fuel(Seq::filter, 1);
        assert forall|k: Seq<char>| #[trigger] with_key(orig, k) == with_key(out@, k) + with_key(rest@, k) by {
            assert(with_key(out@, k) =~= Seq::<(String, T)>::empty());
            assert(with_key(out@, k) + with_key(rest@, k) =~= with_key(rest@, k));
        }
    }
    while rest.len() > 0
        invariant
            keys_ascending(out@),
            out@.to_multiset().add(rest@.to_multiset()) == all,
            forall|k: Seq<char>| #[trigger] with_key(orig, k) == with_key(out@, k) + with_key(rest@, k),
        decreases rest@.len(),
    {
        let ghost before_rest = rest@;
        let x = rest.remove(0);
        let p = upper_bound(&out, x.0.as_str());
        let ghost before_out = out@;
        let ghost xk = x.0@;
        out.insert(p, x);
        proof {
            let s = out@;
            assert(forall|i: int| 0 <= i < p ==> s[i] == before_out[i]);
            assert(forall|i: int| p < i < s.len() ==> s[i] == before_out[i - 1]);
            assert forall|i: int, j: int| 0 <= i < j < s.len() implies !text_lt(
                #[trigger] s[j].0@,
                #[trigger] s[i].0@,
            ) by {
                if j == p {
                    assert(!text_lt(xk, before_out[i].0@));
                } else if i == p {
                    assert(text_lt(xk, before_out[j - 1].0@));
                    lemma_text_lt_asymmetric(xk, before_out[j - 1].0@);
                } else if i < p && j > p {
                    assert(!text_lt(xk, before_out[i].0@));
                    assert(text_lt(xk, before_out[j - 1].0@));
                    if text_lt(before_out[j - 1].0@, before_out[i].0@) {
                        lemma_text_lt_total(xk, before_out[i].0@);
                        if xk == before_out[i].0@ {
                            lemma_text_lt_asymmetric(xk, before_out[j - 1].0@);
                        } else {
                            lemma_text_lt_transitive(before_out[i].0@, xk, before_out[j - 1].0@);
                            lemma_text_lt_asymmetric(before_out[i].0@, before_out[j - 1].0@);
                        }
                    }
                } else if j < p {
                    assert(!text_lt(before_out[j].0@, before_out[i].0@));
                } else {
                    assert(!text_lt(before_out[j - 1].0@, before_out[i - 1].0@));
                }
            }
            assert(before_rest.remove(0) == rest@);
            assert(before_rest.to_multiset() == rest@.to_multiset().insert(before_rest[0])) by {
                assert(before_rest.remove(0).to_multiset() == before_rest.to_multiset().remove(
                    before_rest[0],
                ));
                assert(before_rest.to_multiset().contains(before_rest[0]));
            }
            assert(out@.to_multiset() == before_out.to_multiset().insert(before_rest[0]));
            assert(out@.to_multiset().add(rest@.to_multiset()) =~= all);
            assert(before_rest =~= seq![before_rest[0]] + rest@);
            assert forall|k: Seq<char>| #[trigger] with_key(orig, k) == with_key(out@, k) + with_key(rest@, k) by {
                lemma_insert_groups(before_out, p as int, before_rest[0], k);
                rest@.lemma_filter_prepend(before_rest[0], key_is::<T>(k));
                assert(with_key(orig, k) == with_key(before_out, k) + with_key(before_rest, k));
                if xk == k {
                    assert(with_key(before_rest, k) == seq![before_rest[0]] + with_key(rest@, k));
                    assert(with_key(before_out, k).push(before_rest[0]) + with_key(rest@, k) =~= with_key(before_out, k)
                        + (seq![before_rest[0]] + with_key(rest@, k)));
                }
            }
        }
    }
    proof {
        assert(rest@.to_multiset() =~= Multiset::<(String, T)>::empty());
        assert(out@.to_multiset() =~= all);
        assert forall|k: Seq<char>| #[trigger] with_key(out@, k) == with_key(items@, k) by {
            reveal_with_fuel(Seq::filter, 1);
            assert(with_key(rest@, k) =~= Seq::<(String, T)>::empty());
            assert(with_key(out@, k) + with_key(rest@, k) =~= with_key(out@, k));
        }
    }
    out
}

/// The second components, in order.
pub fn values_of<T>(items: Vec<(String, T)>) -> (r: Vec<T>)
    ensures
        r@ == items@.map_values(|p: (String, T)| p.1),
{
    let mut rest = items;
    let mut out: Vec<T> = Vec::new();
    let ghost orig = rest@;
    let ghost n = orig.len();
    // consume from the back, then put back in order
    let mut back: Vec<T> = Vec::new();
    while rest.len() > 0
        invariant
            rest@ == orig.take(rest@.len() as int),
            rest@.len() <= n,
            n == orig.len(),
            back@.len() == n - rest@.len(),
            forall|i: int|
                0 <= i < back@.len() ==> #[trigger] back@[i] == orig[n - 1 - i].1,
        decreases rest@.len(),
    {
        let (_, v) = rest.pop().unwrap();
        back.push(v);
    }
    while back.len() > 0
        invariant
            n == orig.len(),
            back@.len() + out@.len() == n,
            forall|i: int|
                0 <= i < back@.len() ==> #[trigger] back@[i] == orig[n - 1 - i].1,
            forall|i: int| 0 <= i < out@.len() ==> #[trigger] out@[i] == orig[i].1,
        decreases back@.len(),
    {
        let v = back.pop().unwrap();
        out.push(v);
    }
    assert(out@ =~= orig.map_values(|p: (String, T)| p.1));
    out
}


/// Equal multisets stay equal under a map of their items.
pub proof fn lemma_map_values_multiset<A, B>(s1: Seq<A>, s2: Seq<A>, f: spec_fn(A) -> B)
    requires
        s1.to_multiset() == s2.to_multiset(),
    ensures
        s1.map_values(f).to_multiset() == s2.map_values(f).to_multiset(),
    decreases s1.len(),
{
    vstd::seq_lib::to_multiset_len(s1);
    vstd::seq_lib::to_multiset_len(s2);
    if s1.len() == 0 {
        assert(s2.len() == 0);
        assert(s1.map_values(f) =~= Seq::<B>::empty());
        assert(s2.map_values(f) =~= Seq::<B>::empty());
    } else {
        let x = s1.last();
        assert(s1.contains(x)) by {
            assert(s1[s1.len() - 1] == x);
        }
        vstd::seq_lib::to_multiset_contains(s1, x);
        vstd::seq_lib::to_multiset_contains(s2, x);
        assert(s2.contains(x));
        let k = choose|k: int| 0 <= k < s2.len() && s2[k] == x;
        let t1 = s1.drop_last();
        let t2 = s2.remove(k);
        assert(s1.remove(s1.len() - 1) =~= t1);
        assert(t1.to_multiset() == s1.to_multiset().remove(x));
        assert(t2.to_multiset() == s2.to_multiset().remove(x));
        lemma_map_values_multiset(t1, t2, f);
        assert(s1.map_values(f).remove(s1.len() - 1) =~= t1.map_values(f));
        assert(s2.map_values(f).remove(k) =~= t2.map_values(f));
        assert(s1.map_values(f).to_multiset().remove(f(x)) == t1.map_values(f).to_multiset());
        assert(s2.map_values(f).to_multiset().remove(f(x)) == t2.map_values(f).to_multiset());
        assert(s1.map_values(f).to_multiset().contains(f(x))) by {
            assert(s1.map_values(f)[s1.len() - 1] == f(x));
            assert(s1.map_values(f).contains(f(x)));
        }
        assert(s2.map_values(f).to_multiset().contains(f(x))) by {
            assert(s2.map_values(f)[k] == f(x));
            assert(s2.map_values(f).contains(f(x)));
        }
        assert(s1.map_values(f).to_multiset() =~= s1.map_values(f).to_multiset().remove(f(x)).insert(f(x)));
        assert(s2.map_values(f).to_multiset() =~= s2.map_values(f).to_multiset().remove(f(x)).insert(f(x)));
    }
}

/// The items of `s` whose key is `k`, in the order in which they stand.
pub open spec fn group_of<T>(s: Seq<T>, key: spec_fn(T) -> Seq<char>, k: Seq<char>) -> Seq<T> {
    s.filter(|t: T| key(t) == k)
}

/// Mapping every item by `f` maps each group to the group of the same key,
/// where the key of an item is the key of its image.
pub proof fn lemma_group_of_map<T, V>(
    s: Seq<T>,
    f: spec_fn(T) -> V,
    key: spec_fn(T) -> Seq<char>,
    image_key: spec_fn(V) -> Seq<char>,
    k: Seq<char>,
)
    requires
        forall|t: T| #[trigger] key(t) == image_key(f(t)),
    ensures
        group_of(s, key, k).map_values(f) == group_of(s.map_values(f), image_key, k),
    decreases s.len(),
{
    reveal(Seq::filter);
    if s.len() == 0 {
        assert(s.map_values(f) =~= Seq::<V>::empty());
        assert(group_of(s, key, k).map_values(f) =~= Seq::<V>::empty());
    } else {
        lemma_group_of_map(s.drop_last(), f, key, image_key, k);
        assert(s.map_values(f).drop_last() =~= s.drop_last().map_values(f));
        assert(s.map_values(f).last() == f(s.last()));
        assert(key(s.last()) == image_key(f(s.last())));
        if key(s.last()) == k {
            assert(group_of(s, key, k).map_values(f) =~= group_of(s.drop_last(), key, k).map_values(f).push(
                f(s.last()),
            ));
        } else {
            assert(group_of(s, key, k) == group_of(s.drop_last(), key, k));
        }
    }
}

/// For entries each paired with its own key, the entries of key `k` carry
/// the values of key `k`.
proof fn lemma_with_key_values<T>(s: Seq<(String, T)>, key: spec_fn(T) -> Seq<char>, k: Seq<char>)
    requires
        forall|i: int| 0 <= i < s.len() ==> #[trigger] s[i].0@ == key(s[i].1),
    ensures
        with_key(s, k).map_values(|p: (String, T)| p.1) == group_of(s.map_values(|p: (String, T)| p.1), key, k),
    decreases s.len(),
{
    reveal(Seq::filter);
    let snd = |p: (String, T)| p.1;
    if s.len() == 0 {
        assert(s.map_values(snd) =~= Seq::<T>::empty());
        assert(with_key(s, k).map_values(snd) =~= Seq::<T>::empty());
    } else {
        let t = s.drop_last();
        assert forall|i: int| 0 <= i < t.len() implies #[trigger] t[i].0@ == key(t[i].1) by {
            assert(t[i] == s[i]);
        }
        lemma_with_key_values(t, key, k);
        assert(s.map_values(snd).drop_last() =~= t.map_values(snd));
        assert(s[s.len() - 1].0@ == key(s[s.len() - 1].1));
        if s.last().0@ == k {
            assert(with_key(s, k).map_values(snd) =~= with_key(t, k).map_values(snd).push(s.last().1));
        } else {
            assert(with_key(s, k) == with_key(t, k));
        }
    }
}

/// The records of `keyed` (each paired with its key) ordered by key: keys
/// never decrease, and the records of each key stand in the same order as in
/// `keyed`.
pub(crate) fn sort_records<T>(keyed: Vec<(String, T)>, Ghost(key): Ghost<spec_fn(T) -> Seq<char>>) -> (r: Vec<T>)
    requires
        forall|i: int| 0 <= i < keyed@.len() ==> #[trigger] keyed@[i].0@ == key(keyed@[i].1),
    ensures
        forall|i: int, j: int| 0 <= i < j < r@.len() ==> !text_lt(key(#[trigger] r@[j]), key(#[trigger] r@[i])),
        r@.to_multiset() == keyed@.map_values(|p: (String, T)| p.1).to_multiset(),
        forall|k: Seq<char>| #[trigger] group_of(r@, key, k) == group_of(keyed@.map_values(|p: (String, T)| p.1), key, k),
{
    let sorted = sort_by_text_key(keyed);
    proof {
        assert forall|i: int| 0 <= i < sorted@.len() implies #[trigger] sorted@[i].0@ == key(sorted@[i].1) by {
            assert(sorted@.contains(sorted@[i]));
            vstd::seq_lib::to_multiset_contains(sorted@, sorted@[i]);
            vstd::seq_lib::to_multiset_contains(keyed@, sorted@[i]);
            assert(keyed@.contains(sorted@[i]));
            let j = choose|j: int| 0 <= j < keyed@.len() && keyed@[j] == sorted@[i];
            assert(keyed@[j].0@ == key(keyed@[j].1));
        }
        lemma_map_values_multiset(sorted@, keyed@, |p: (String, T)| p.1);
    }
    let r = values_of(sorted);
    proof {
        assert forall|k: Seq<char>| #[trigger] group_of(r@, key, k) == group_of(keyed@.map_values(|p: (String, T)| p.1), key, k) by {
            lemma_with_key_values(sorted@, key, k);
            lemma_with_key_values(keyed@, key, k);
            assert(with_key(sorted@, k) == with_key(keyed@, k));
        }
        assert forall|i: int, j: int| 0 <= i < j < r@.len() implies !text_lt(key(#[trigger] r@[j]), key(#[trigger] r@[i])) by {
            assert(r@[i] == sorted@[i].1);
            assert(r@[j] == sorted@[j].1);
            assert(sorted@[i].0@ == key(sorted@[i].1));
            assert(sorted@[j].0@ == key(sorted@[j].1));
        }
    }
    r
}


/// The numbers in ascending order (`slice::sort` on integers).
pub fn sort_i32(items: Vec<i32>) -> (r: Vec<i32>)
    ensures
        forall|i: int, j: int| 0 <= i < j < r@.len() ==> #[trigger] r@[i] <= #[trigger] r@[j],
        r@.to_multiset() == items@.to_multiset(),
{
    let mut rest = items;
    let mut out: Vec<i32> = Vec::new();
    let ghost all = rest@.to_multiset();
    while rest.len() > 0
        invariant
            forall|i: int, j: int| 0 <= i < j < out@.len() ==> #[trigger] out@[i] <= #[trigger] out@[j],
            out@.to_multiset().add(rest@.to_multiset()) == all,
        decreases rest@.len(),
    {
        let ghost before_rest = rest@;
        let x = rest.remove(0);
        let mut p: usize = 0;
        while p < out.len() && out[p] <= x
            invariant
                p <= out@.len(),
                forall|i: int| 0 <= i < p ==> #[trigger] out@[i] <= x,
            decreases out@.len() - p,
        {
            p = p + 1;
        }
        let ghost before_out = out@;
        out.insert(p, x);
        proof {
            let s = out@;
            assert(forall|i: int| 0 <= i < p ==> s[i] == before_out[i]);
            assert(forall|i: int| p < i < s.len() ==> s[i] == before_out[i - 1]);
            if p < before_out.len() {
                assert(before_out[p as int] > x);
            }
            assert forall|i: int, j: int| 0 <= i < j < s.len() implies #[trigger] s[i] <= #[trigger] s[j] by {
                if j == p {
                    assert(before_out[i] <= x);
                } else if i == p {
                    assert(before_out[p as int] <= before_out[j - 1]);
                } else if i < p && j > p {
                    assert(before_out[i] <= x);
                    assert(before_out[p as int] <= before_out[j - 1]);
                } else if j < p {
                    assert(before_out[i] <= before_out[j]);
                } else {
                    assert(before_out[i - 1] <= before_out[j - 1]);
                }
            }
            assert(before_rest.remove(0) == rest@);
            assert(before_rest.to_multiset() == rest@.to_multiset().insert(before_rest[0])) by {
                assert(before_rest.remove(0).to_multiset() == before_rest.to_multiset().remove(before_rest[0]));
                assert(before_rest.to_multiset().contains(before_rest[0]));
            }
            assert(out@.to_multiset() == before_out.to_multiset().insert(before_rest[0]));
            assert(out@.to_multiset().add(rest@.to_multiset()) =~= all);
        }
    }
    proof {
        assert(rest@.to_multiset() =~= Multiset::<i32>::empty());
        assert(out@.to_multiset() =~= all);
    }
    out
}

} // verus!
