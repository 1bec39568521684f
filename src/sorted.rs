//! Sequences of key-value entries kept sorted by a strict order on keys, and
//! the map they stand for. A sorted sequence is the only one of its map, which
//! is what makes a digest over the entries depend on the map alone.
use vstd::prelude::*;

verus! {

/// The map that a sequence of entries with distinct keys stands for.
pub open spec fn entries_map<K, V>(e: Seq<(K, V)>) -> Map<K, V> {
    Map::new(
        |k: K| exists|i: int| 0 <= i < e.len() && e[i].0 == k,
        |k: K| e[choose|i: int| 0 <= i < e.len() && e[i].0 == k].1,
    )
}

/// Keys strictly increase along the sequence.
pub open spec fn sorted_by<K, V>(e: Seq<(K, V)>, lt: spec_fn(K, K) -> bool) -> bool {
    forall|i: int, j: int| 0 <= i < j < e.len() ==> #[trigger] lt(e[i].0, e[j].0)
}

pub open spec fn asymmetric<K>(lt: spec_fn(K, K) -> bool) -> bool {
    forall|a: K, b: K| !(#[trigger] lt(a, b) && #[trigger] lt(b, a))
}

pub proof fn lemma_sorted_distinct<K, V>(e: Seq<(K, V)>, lt: spec_fn(K, K) -> bool, i: int, j: int)
    requires
        asymmetric(lt),
        sorted_by(e, lt),
        0 <= i < e.len(),
        0 <= j < e.len(),
        i != j,
    ensures
        e[i].0 != e[j].0,
{
    if i < j {
        assert(lt(e[i].0, e[j].0));
    } else {
        assert(lt(e[j].0, e[i].0));
    }
}

/// In a sorted sequence, the map holds each entry's value at its key.
pub proof fn lemma_lookup<K, V>(e: Seq<(K, V)>, lt: spec_fn(K, K) -> bool, i: int)
    requires
        asymmetric(lt),
        sorted_by(e, lt),
        0 <= i < e.len(),
    ensures
        entries_map(e).contains_key(e[i].0),
        entries_map(e)[e[i].0] == e[i].1,
{
    let k = e[i].0;
    assert(exists|j: int| 0 <= j < e.len() && e[j].0 == k);
    let j = choose|j: int| 0 <= j < e.len() && e[j].0 == k;
    if j != i {
        lemma_sorted_distinct(e, lt, i, j);
    }
}

/// Two sorted sequences of the same map are equal.
pub proof fn lemma_sorted_unique<K, V>(a: Seq<(K, V)>, b: Seq<(K, V)>, lt: spec_fn(K, K) -> bool)
    requires
        asymmetric(lt),
        sorted_by(a, lt),
        sorted_by(b, lt),
        entries_map(a) == entries_map(b),
    ensures
        a == b,
    decreases a.len(),
{
    if a.len() == 0 {
        if b.len() > 0 {
            lemma_lookup(b, lt, 0);
            assert(entries_map(a).contains_key(b[0].0));
        }
        assert(a =~= b);
    } else if b.len() == 0 {
        lemma_lookup(a, lt, 0);
        assert(entries_map(b).contains_key(a[0].0));
    } else {
        let la = a.len() - 1;
        let lb = b.len() - 1;
        let ka = a[la].0;
        let kb = b[lb].0;
        lemma_lookup(a, lt, la);
        lemma_lookup(b, lt, lb);
        if ka != kb {
            assert(entries_map(b).contains_key(ka));
            let jb = choose|j: int| 0 <= j < b.len() && b[j].0 == ka;
            assert(jb < lb);
            assert(lt(b[jb].0, b[lb].0));
            assert(entries_map(a).contains_key(kb));
            let ja = choose|j: int| 0 <= j < a.len() && a[j].0 == kb;
            assert(ja < la);
            assert(lt(a[ja].0, a[la].0));
            assert(false);
        }
        let a2 = a.drop_last();
        let b2 = b.drop_last();
        lemma_drop_last_map(a, lt);
        lemma_drop_last_map(b, lt);
        lemma_sorted_unique(a2, b2, lt);
        assert(a =~= a2.push(a[la]));
        assert(b =~= b2.push(b[lb]));
    }
}

/// Dropping the last entry of a sorted sequence removes its key from the map.
pub proof fn lemma_drop_last_map<K, V>(e: Seq<(K, V)>, lt: spec_fn(K, K) -> bool)
    requires
        asymmetric(lt),
        sorted_by(e, lt),
        e.len() > 0,
    ensures
        sorted_by(e.drop_last(), lt),
        entries_map(e.drop_last()) == entries_map(e).remove(e.last().0),
{
    let d = e.drop_last();
    let k = e.last().0;
    assert forall|x: K| #[trigger] entries_map(d).contains_key(x) == entries_map(e).remove(k).contains_key(x) by {
        if entries_map(d).contains_key(x) {
            let i = choose|i: int| 0 <= i < d.len() && d[i].0 == x;
            lemma_sorted_distinct(e, lt, i, e.len() - 1);
            assert(e[i].0 == x);
        }
        if entries_map(e).remove(k).contains_key(x) {
            let i = choose|i: int| 0 <= i < e.len() && e[i].0 == x;
            assert(i != e.len() - 1);
            assert(d[i].0 == x);
        }
    }
    assert forall|x: K| #[trigger] entries_map(d).contains_key(x) implies entries_map(d)[x] == entries_map(e)[x] by {
        let i = choose|i: int| 0 <= i < d.len() && d[i].0 == x;
        lemma_lookup(d, lt, i);
        lemma_lookup(e, lt, i);
    }
    assert(entries_map(d) =~= entries_map(e).remove(k));
}

/// Inserting a new key at the place the order gives keeps the sequence sorted
/// and inserts the entry into the map.
pub proof fn lemma_insert_at<K, V>(e: Seq<(K, V)>, lt: spec_fn(K, K) -> bool, p: int, k: K, v: V)
    requires
        asymmetric(lt),
        sorted_by(e, lt),
        0 <= p <= e.len(),
        forall|i: int| 0 <= i < p ==> lt(#[trigger] e[i].0, k),
        forall|j: int| p <= j < e.len() ==> lt(k, #[trigger] e[j].0),
    ensures
        sorted_by(e.insert(p, (k, v)), lt),
        entries_map(e.insert(p, (k, v))) == entries_map(e).insert(k, v),
{
    let n = e.insert(p, (k, v));
    assert forall|i: int, j: int| 0 <= i < j < n.len() implies #[trigger] lt(n[i].0, n[j].0) by {
        if j < p {
        } else if j == p {
        } else if i < p {
            assert(lt(e[i].0, e[j - 1].0));
        } else if i == p {
        } else {
            assert(lt(e[i - 1].0, e[j - 1].0));
        }
    }
    assert forall|x: K| #[trigger] entries_map(n).contains_key(x) == entries_map(e).insert(k, v).contains_key(x) by {
        if entries_map(e).contains_key(x) {
            let i = choose|i: int| 0 <= i < e.len() && e[i].0 == x;
            if i < p {
                assert(n[i].0 == x);
            } else {
                assert(n[i + 1].0 == x);
            }
        }
        if x == k {
            assert(n[p].0 == x);
        }
        if entries_map(n).contains_key(x) && x != k {
            let i = choose|i: int| 0 <= i < n.len() && n[i].0 == x;
            if i < p {
                assert(e[i].0 == x);
            } else {
                assert(e[i - 1].0 == x);
            }
        }
    }
    assert forall|x: K| #[trigger] entries_map(n).contains_key(x) implies entries_map(n)[x] == entries_map(e).insert(k, v)[x] by {
        let i = choose|i: int| 0 <= i < n.len() && n[i].0 == x;
        lemma_lookup(n, lt, i);
        if i < p {
            lemma_lookup(e, lt, i);
        } else if i > p {
            lemma_lookup(e, lt, i - 1);
        }
    }
    assert(entries_map(n) =~= entries_map(e).insert(k, v));
}

/// Replacing the value of a key keeps the sequence sorted and updates the map.
pub proof fn lemma_replace_at<K, V>(e: Seq<(K, V)>, lt: spec_fn(K, K) -> bool, p: int, v: V)
    requires
        asymmetric(lt),
        sorted_by(e, lt),
        0 <= p < e.len(),
    ensures
        sorted_by(e.update(p, (e[p].0, v)), lt),
        entries_map(e.update(p, (e[p].0, v))) == entries_map(e).insert(e[p].0, v),
{
    let k = e[p].0;
    let n = e.update(p, (k, v));
    assert forall|i: int, j: int| 0 <= i < j < n.len() implies #[trigger] lt(n[i].0, n[j].0) by {
        assert(lt(e[i].0, e[j].0));
    }
    assert forall|x: K| #[trigger] entries_map(n).contains_key(x) == entries_map(e).insert(k, v).contains_key(x) by {
        if entries_map(e).contains_key(x) {
            let i = choose|i: int| 0 <= i < e.len() && e[i].0 == x;
            assert(n[i].0 == x);
        }
        if x == k {
            assert(n[p].0 == x);
        }
        if entries_map(n).contains_key(x) {
            let i = choose|i: int| 0 <= i < n.len() && n[i].0 == x;
            assert(e[i].0 == x);
        }
    }
    assert forall|x: K| #[trigger] entries_map(n).contains_key(x) implies entries_map(n)[x] == entries_map(e).insert(k, v)[x] by {
        let i = choose|i: int| 0 <= i < n.len() && n[i].0 == x;
        lemma_lookup(n, lt, i);
        if i != p {
            lemma_lookup(e, lt, i);
            lemma_sorted_distinct(e, lt, i, p);
        }
    }
    assert(entries_map(n) =~= entries_map(e).insert(k, v));
}

} // verus!
