//! A stable order for hardware entities that the system lists in no fixed
//! order: names sorted as strings sort, so that an entity keeps its position
//! from one listing to the next.

use crate::text::{chars_of, string_views, views};
use vstd::prelude::*;
use vstd::relations::{sorted_by, total_ordering};
use vstd::seq_lib::{lemma_sorted_unique, to_multiset_insert};

verus! {

/// Whether `a[from..]` comes before `b[from..]` or equals it, character by
/// character, a name that ends first coming first.
pub open spec fn name_le_from(a: Seq<char>, b: Seq<char>, from: int) -> bool
    decreases a.len() - from,
{
    if from < 0 || from >= a.len() {
        true
    } else if from >= b.len() {
        false
    } else if a[from] != b[from] {
        (a[from] as u32) < (b[from] as u32)
    } else {
        name_le_from(a, b, from + 1)
    }
}

/// Whether the name `a` comes before the name `b` or equals it, in the order
/// in which strings sort.
pub open spec fn name_le(a: Seq<char>, b: Seq<char>) -> bool {
    name_le_from(a, b, 0)
}

/// The order of names as a relation.
pub open spec fn name_order() -> spec_fn(Seq<char>, Seq<char>) -> bool {
    |a: Seq<char>, b: Seq<char>| name_le(a, b)
}

/// The names of `names`, sorted.
pub open spec fn sorted_names(names: Seq<Seq<char>>) -> Seq<Seq<char>> {
    names.sort_by(name_order())
}

/// `keys` taken in the order that `positions` gives.
pub open spec fn arranged(keys: Seq<Seq<char>>, positions: Seq<usize>) -> Seq<Seq<char>> {
    Seq::new(positions.len(), |i: int| keys[positions[i] as int])
}

/// Whether `position` stands somewhere in `positions`.
pub open spec fn lists(positions: Seq<usize>, position: int) -> bool {
    exists|i: int| 0 <= i < positions.len() && #[trigger] positions[i] == position
}

/// Whether `positions` lists every position of `keys` once, by ascending
/// key, positions with equal keys in ascending order.
pub open spec fn is_stable_order(keys: Seq<Seq<char>>, positions: Seq<usize>) -> bool {
    &&& positions.len() == keys.len()
    &&& forall|x: int| 0 <= x < keys.len() ==> #[trigger] lists(positions, x)
    &&& forall|i: int| 0 <= i < positions.len() ==> (#[trigger] positions[i]) < keys.len()
    &&& forall|i: int, j: int|
        0 <= i < j < positions.len() ==> (#[trigger] positions[i]) != (#[trigger] positions[j])
    &&& forall|i: int, j: int|
        0 <= i < j < positions.len() ==> name_le(
            keys[(#[trigger] positions[i]) as int],
            keys[(#[trigger] positions[j]) as int],
        )
    &&& forall|i: int, j: int|
        0 <= i < j < positions.len() && keys[(#[trigger] positions[i]) as int] == keys[(
        #[trigger] positions[j]) as int] ==> positions[i] < positions[j]
}

/// Whether `out` holds the items of `items` once each, by ascending key,
/// items of one key in the order they have in `items`. `keys[i]` is the key
/// of `items[i]`.
pub open spec fn is_sorted_by_key<T>(out: Seq<T>, items: Seq<T>, keys: Seq<Seq<char>>) -> bool {
    exists|positions: Seq<usize>|
        {
            &&& #[trigger] is_stable_order(keys, positions)
            &&& out == Seq::new(items.len(), |i: int| items[positions[i] as int])
        }
}

proof fn lemma_code_points_differ(x: char, y: char)
    requires
        x != y,
    ensures
        x as u32 != y as u32,
{
}

proof fn lemma_le_total(a: Seq<char>, b: Seq<char>, from: int)
    requires
        0 <= from,
    ensures
        name_le_from(a, b, from) || name_le_from(b, a, from),
    decreases a.len() - from,
{
    if from < a.len() && from < b.len() {
        if a[from] == b[from] {
            lemma_le_total(a, b, from + 1);
        } else {
            lemma_code_points_differ(a[from], b[from]);
        }
    }
}

proof fn lemma_le_reflexive(a: Seq<char>, from: int)
    requires
        0 <= from,
    ensures
        name_le_from(a, a, from),
    decreases a.len() - from,
{
    if from < a.len() {
        lemma_le_reflexive(a, from + 1);
    }
}

proof fn lemma_le_antisymmetric(a: Seq<char>, b: Seq<char>, from: int)
    requires
        0 <= from <= a.len(),
        from <= b.len(),
        a.subrange(0, from) == b.subrange(0, from),
        name_le_from(a, b, from),
        name_le_from(b, a, from),
    ensures
        a == b,
    decreases a.len() - from,
{
    if from >= a.len() {
        assert(from >= b.len());
        assert(a.subrange(0, from) == a);
        assert(b.subrange(0, from) == b);
    } else {
        assert(a[from] == b[from]);
        assert(a.subrange(0, from + 1) == a.subrange(0, from).push(a[from]));
        assert(b.subrange(0, from + 1) == b.subrange(0, from).push(b[from]));
        lemma_le_antisymmetric(a, b, from + 1);
    }
}

proof fn lemma_le_transitive(a: Seq<char>, b: Seq<char>, c: Seq<char>, from: int)
    requires
        0 <= from,
        name_le_from(a, b, from),
        name_le_from(b, c, from),
    ensures
        name_le_from(a, c, from),
    decreases a.len() - from,
{
    if from < a.len() && a[from] == b[from] && b[from] == c[from] {
        lemma_le_transitive(a, b, c, from + 1);
    }
}

/// The order of names is a total order.
pub proof fn lemma_name_order_total()
    ensures
        total_ordering(name_order()),
{
    let r = name_order();
    assert forall|x: Seq<char>| #[trigger] r(x, x) by {
        lemma_le_reflexive(x, 0);
    }
    assert forall|x: Seq<char>, y: Seq<char>| #[trigger] r(x, y) && #[trigger] r(y, x) implies x
        == y by {
        assert(x.subrange(0, 0) == y.subrange(0, 0));
        lemma_le_antisymmetric(x, y, 0);
    }
    assert forall|x: Seq<char>, y: Seq<char>, z: Seq<char>| #[trigger]
        r(x, y) && #[trigger] r(y, z) implies r(x, z) by {
        lemma_le_transitive(x, y, z, 0);
    }
    assert forall|x: Seq<char>, y: Seq<char>| #[trigger] r(x, y) || #[trigger] r(y, x) by {
        lemma_le_total(x, y, 0);
    }
}

/// Sorting gives names in ascending order, and the same names as went in.
pub proof fn lemma_sorted_names(names: Seq<Seq<char>>)
    ensures
        sorted_by(sorted_names(names), name_order()),
        sorted_names(names).to_multiset() == names.to_multiset(),
        sorted_names(names).len() == names.len(),
{
    lemma_name_order_total();
    names.lemma_sort_by_ensures(name_order());
    vstd::seq_lib::to_multiset_len(names);
    vstd::seq_lib::to_multiset_len(sorted_names(names));
}

/// The sorted order does not depend on the order in which the names are
/// given: two listings of the same names sort to the same sequence.
pub proof fn lemma_order_independent(a: Seq<Seq<char>>, b: Seq<Seq<char>>)
    requires
        a.to_multiset() == b.to_multiset(),
    ensures
        sorted_names(a) == sorted_names(b),
{
    lemma_sorted_names(a);
    lemma_sorted_names(b);
    lemma_name_order_total();
    lemma_sorted_unique(sorted_names(a), sorted_names(b), name_order());
}

/// Sorting is determined by the names alone: a sequence in ascending order
/// that holds the same names is the sorted sequence.
pub proof fn lemma_sorted_is_unique(names: Seq<Seq<char>>, sorted: Seq<Seq<char>>)
    requires
        sorted_by(sorted, name_order()),
        sorted.to_multiset() == names.to_multiset(),
    ensures
        sorted == sorted_names(names),
{
    lemma_sorted_names(names);
    lemma_name_order_total();
    lemma_sorted_unique(sorted, sorted_names(names), name_order());
}

/// Whether `positions` lists every position of the set `among` once, and
/// no other, by ascending key, positions with equal keys in ascending order.
spec fn orders(keys: Seq<Seq<char>>, positions: Seq<usize>, among: Set<int>) -> bool {
    &&& forall|i: int|
        0 <= i < positions.len() ==> among.contains((#[trigger] positions[i]) as int)
            && positions[i] < keys.len()
    &&& forall|x: int| among.contains(x) ==> #[trigger] lists(positions, x)
    &&& forall|i: int, j: int|
        0 <= i < j < positions.len() ==> (#[trigger] positions[i]) != (#[trigger] positions[j])
    &&& forall|i: int, j: int|
        0 <= i < j < positions.len() ==> name_le(
            keys[(#[trigger] positions[i]) as int],
            keys[(#[trigger] positions[j]) as int],
        )
    &&& forall|i: int, j: int|
        0 <= i < j < positions.len() && keys[(#[trigger] positions[i]) as int] == keys[(
        #[trigger] positions[j]) as int] ==> positions[i] < positions[j]
}

proof fn lemma_last_comes_last(
    keys: Seq<Seq<char>>,
    p: Seq<usize>,
    q: Seq<usize>,
    among: Set<int>,
)
    requires
        orders(keys, p, among),
        orders(keys, q, among),
        p.len() > 0,
        q.len() > 0,
    ensures
        name_le(keys[q.last() as int], keys[p.last() as int]),
        keys[q.last() as int] == keys[p.last() as int] ==> q.last() <= p.last(),
{
    let m = q.last();
    assert(among.contains(q[q.len() - 1] as int));
    assert(lists(p, m as int));
    let i = choose|i: int| 0 <= i < p.len() && #[trigger] p[i] == m;
    if i < p.len() - 1 {
        assert(name_le(keys[p[i] as int], keys[p[p.len() - 1] as int]));
    } else {
        lemma_le_reflexive(keys[m as int], 0);
    }
}

proof fn lemma_orders_unique(keys: Seq<Seq<char>>, p: Seq<usize>, q: Seq<usize>, among: Set<int>)
    requires
        orders(keys, p, among),
        orders(keys, q, among),
    ensures
        p == q,
    decreases p.len(),
{
    if p.len() == 0 {
        if q.len() > 0 {
            assert(among.contains(q[0] as int));
            assert(lists(p, q[0] as int));
        }
        assert(p =~= q);
    } else {
        assert(among.contains(p[0] as int));
        assert(lists(q, p[0] as int));
        lemma_last_comes_last(keys, p, q, among);
        lemma_last_comes_last(keys, q, p, among);
        let m = p.last();
        assert(name_le(keys[q.last() as int], keys[m as int]) && name_le(
            keys[m as int],
            keys[q.last() as int],
        ));
        assert(keys[q.last() as int] == keys[m as int]) by {
            assert(keys[q.last() as int].subrange(0, 0) == keys[m as int].subrange(0, 0));
            lemma_le_antisymmetric(keys[q.last() as int], keys[m as int], 0);
        }
        assert(q.last() == m);
        let rest = among.remove(m as int);
        let pr = p.drop_last();
        let qr = q.drop_last();
        assert forall|x: int| rest.contains(x) implies #[trigger] lists(pr, x) by {
            assert(lists(p, x));
            let i = choose|i: int| 0 <= i < p.len() && #[trigger] p[i] == x;
            assert(pr[i] == x);
        }
        assert forall|x: int| rest.contains(x) implies #[trigger] lists(qr, x) by {
            assert(lists(q, x));
            let i = choose|i: int| 0 <= i < q.len() && #[trigger] q[i] == x;
            assert(qr[i] == x);
        }
        assert forall|i: int| 0 <= i < pr.len() implies rest.contains((#[trigger] pr[i]) as int)
            && pr[i] < keys.len() by {
            assert(pr[i] == p[i]);
            assert(p[i] != p[p.len() - 1]);
        }
        assert forall|i: int| 0 <= i < qr.len() implies rest.contains((#[trigger] qr[i]) as int)
            && qr[i] < keys.len() by {
            assert(qr[i] == q[i]);
            assert(q[i] != q[q.len() - 1]);
        }
        assert(orders(keys, pr, rest)) by {
            assert forall|i: int, j: int| 0 <= i < j < pr.len() implies (#[trigger] pr[i]) != (
            #[trigger] pr[j]) && name_le(keys[pr[i] as int], keys[pr[j] as int]) && (keys[pr[i] as int]
                == keys[pr[j] as int] ==> pr[i] < pr[j]) by {
                assert(pr[i] == p[i] && pr[j] == p[j]);
            }
        }
        assert(orders(keys, qr, rest)) by {
            assert forall|i: int, j: int| 0 <= i < j < qr.len() implies (#[trigger] qr[i]) != (
            #[trigger] qr[j]) && name_le(keys[qr[i] as int], keys[qr[j] as int]) && (keys[qr[i] as int]
                == keys[qr[j] as int] ==> qr[i] < qr[j]) by {
                assert(qr[i] == q[i] && qr[j] == q[j]);
            }
        }
        lemma_orders_unique(keys, pr, qr, rest);
        assert(p =~= pr.push(m));
        assert(q =~= qr.push(m));
    }
}

/// There is one stable order of the positions of `keys`, and no other.
pub proof fn lemma_stable_order_unique(keys: Seq<Seq<char>>, p: Seq<usize>, q: Seq<usize>)
    requires
        is_stable_order(keys, p),
        is_stable_order(keys, q),
    ensures
        p == q,
{
    let among = Set::new(|x: int| 0 <= x < keys.len());
    assert(orders(keys, p, among));
    assert(orders(keys, q, among));
    lemma_orders_unique(keys, p, q, among);
}

/// Sorting by key gives one result, and no other.
pub proof fn lemma_sorted_by_key_unique<T>(
    first: Seq<T>,
    second: Seq<T>,
    items: Seq<T>,
    keys: Seq<Seq<char>>,
)
    requires
        is_sorted_by_key(first, items, keys),
        is_sorted_by_key(second, items, keys),
    ensures
        first == second,
{
    let p = choose|positions: Seq<usize>|
        {
            &&& #[trigger] is_stable_order(keys, positions)
            &&& first == Seq::new(items.len(), |i: int| items[positions[i] as int])
        };
    let q = choose|positions: Seq<usize>|
        {
            &&& #[trigger] is_stable_order(keys, positions)
            &&& second == Seq::new(items.len(), |i: int| items[positions[i] as int])
        };
    lemma_stable_order_unique(keys, p, q);
}

/// Whether the name `a` comes before the name `b` or equals it.
pub fn name_comes_first(a: &Vec<char>, b: &Vec<char>) -> (r: bool)
    ensures
        r == name_le(a@, b@),
{
    let mut i: usize = 0;
    while i < a.len()
        invariant
            i <= a.len(),
            name_le(a@, b@) == name_le_from(a@, b@, i as int),
        decreases a.len() - i,
    {
        if i >= b.len() {
            return false;
        }
        if a[i] != b[i] {
            return (a[i] as u32) < (b[i] as u32);
        }
        i = i + 1;
    }
    true
}

/// The positions of `keys` by ascending key, positions with equal keys in
/// ascending order.
pub fn sorted_positions(keys: &Vec<Vec<char>>) -> (positions: Vec<usize>)
    ensures
        is_stable_order(views(keys@), positions@),
        arranged(views(keys@), positions@).to_multiset() == views(keys@).to_multiset(),
{
    let ghost k = views(keys@);
    let mut positions: Vec<usize> = Vec::new();
    let mut n: usize = 0;
    assert(arranged(k, positions@) == k.subrange(0, 0));
    while n < keys.len()
        invariant
            n <= keys.len(),
            k == views(keys@),
            is_stable_order(k.subrange(0, n as int), positions@),
            arranged(k, positions@).to_multiset() == k.subrange(0, n as int).to_multiset(),
        decreases keys.len() - n,
    {
        let mut at: usize = positions.len();
        while at > 0 && !name_comes_first(&keys[positions[at - 1]], &keys[n])
            invariant
                n < keys.len(),
                k == views(keys@),
                at <= positions.len(),
                is_stable_order(k.subrange(0, n as int), positions@),
                forall|j: int|
                    at <= j < positions.len() ==> !name_le(
                        k[(#[trigger] positions[j]) as int],
                        k[n as int],
                    ),
            decreases at,
        {
            at = at - 1;
        }
        let ghost old_positions = positions@;
        let ghost old_arranged = arranged(k, positions@);
        positions.insert(at, n);
        proof {
            let p = positions@;
            let kn = k.subrange(0, n + 1);
            let ko = k.subrange(0, n as int);
            assert forall|i: int| 0 <= i < old_positions.len() implies ko[(
            #[trigger] old_positions[i]) as int] == k[old_positions[i] as int] by {}
            lemma_name_order_total();
            assert forall|j: int| at <= j < old_positions.len() implies name_le(
                k[n as int],
                k[(#[trigger] old_positions[j]) as int],
            ) && k[old_positions[j] as int] != k[n as int] by {
                lemma_le_total(k[n as int], k[old_positions[j] as int], 0);
                lemma_le_reflexive(k[n as int], 0);
            }
            assert forall|i: int| 0 <= i < at implies name_le(
                k[(#[trigger] old_positions[i]) as int],
                k[n as int],
            ) by {
                if at > 0 {
                    assert(name_le(k[old_positions[at - 1] as int], k[n as int]));
                    if i < at - 1 {
                        assert(name_le(
                            ko[old_positions[i] as int],
                            ko[old_positions[at - 1] as int],
                        ));
                        lemma_le_transitive(
                            k[old_positions[i] as int],
                            k[old_positions[at - 1] as int],
                            k[n as int],
                            0,
                        );
                    }
                }
            }
            assert forall|i: int| 0 <= i < p.len() implies (#[trigger] p[i]) < kn.len() by {
                if i < at {
                    assert(p[i] == old_positions[i]);
                } else if i > at {
                    assert(p[i] == old_positions[i - 1]);
                }
            }
            assert forall|i: int, j: int| 0 <= i < j < p.len() implies (#[trigger] p[i]) != (
            #[trigger] p[j]) && name_le(kn[p[i] as int], kn[p[j] as int]) && (kn[p[i] as int]
                == kn[p[j] as int] ==> p[i] < p[j]) by {
                let oi = if i < at {
                    i
                } else {
                    i - 1
                };
                let oj = if j < at {
                    j
                } else {
                    j - 1
                };
                if i != at {
                    assert(p[i] == old_positions[oi]);
                    assert(old_positions[oi] < n);
                }
                if j != at {
                    assert(p[j] == old_positions[oj]);
                    assert(old_positions[oj] < n);
                }
                if i != at && j != at {
                    assert(name_le(ko[old_positions[oi] as int], ko[old_positions[oj] as int]));
                }
            }
            assert forall|x: int| 0 <= x < kn.len() implies #[trigger] lists(p, x) by {
                if x == n {
                    assert(p[at as int] == x);
                } else {
                    assert(lists(old_positions, x));
                    let i = choose|i: int|
                        0 <= i < old_positions.len() && #[trigger] old_positions[i] == x;
                    if i < at {
                        assert(p[i] == x);
                    } else {
                        assert(p[i + 1] == x);
                    }
                }
            }
            assert(arranged(k, p) =~= old_arranged.insert(at as int, k[n as int]));
            to_multiset_insert(old_arranged, at as int, k[n as int]);
            assert(kn == ko.push(k[n as int]));
            vstd::seq_lib::to_multiset_build(ko, k[n as int]);
        }
        n = n + 1;
    }
    assert(k.subrange(0, keys.len() as int) == k);
    positions
}

/// The stable index of a family of entities: their names in ascending
/// order. It is the same for every order in which the names are listed.
pub fn stable_index(names: &Vec<String>) -> (index: Vec<String>)
    ensures
        string_views(index@) == sorted_names(string_views(names@)),
{
    let mut keys: Vec<Vec<char>> = Vec::new();
    let mut i: usize = 0;
    while i < names.len()
        invariant
            i <= names.len(),
            views(keys@) == string_views(names@).subrange(0, i as int),
        decreases names.len() - i,
    {
        let ghost before = views(keys@);
        keys.push(chars_of(names[i].as_str()));
        assert(views(keys@) =~= before.push(names@[i as int]@));
        i = i + 1;
    }
    assert(string_views(names@).subrange(0, names.len() as int) == string_views(names@));
    let positions = sorted_positions(&keys);
    let ghost k = string_views(names@);
    let mut index: Vec<String> = Vec::new();
    let mut j: usize = 0;
    while j < positions.len()
        invariant
            j <= positions.len(),
            k == string_views(names@),
            is_stable_order(k, positions@),
            string_views(index@) == arranged(k, positions@).subrange(0, j as int),
        decreases positions.len() - j,
    {
        let ghost before = string_views(index@);
        index.push(names[positions[j]].clone());
        assert(string_views(index@) =~= before.push(k[positions@[j as int] as int]));
        j = j + 1;
    }
    proof {
        let sorted = arranged(k, positions@);
        assert(sorted.subrange(0, positions.len() as int) == sorted);
        assert(sorted_by(sorted, name_order()));
        lemma_sorted_is_unique(k, sorted);
    }
    index
}

} // verus!
