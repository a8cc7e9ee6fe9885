//! Listings: entries put in the order of their keys, with entries of equal
//! key left in the order in which they came.

use vstd::prelude::*;
use crate::text::{
    lemma_text_le_antisymmetric, lemma_text_le_reflexive, lemma_text_le_total,
    lemma_text_le_transitive, precedes_or_equals, text_le, text_lt,
};

verus! {

/// An entry of a listing, ordered by a text of its own.
pub trait Listed {
    /// The text by which the entry is ordered.
    spec fn listing_key(&self) -> Seq<char>;

    /// The text by which the entry is ordered.
    fn key(&self) -> (key: &str)
        ensures
            key@ == self.listing_key(),
    ;
}

/// The key of an entry, as a function.
pub open spec fn key_of<T: Listed>() -> spec_fn(T) -> Seq<char> {
    |entry: T| entry.listing_key()
}

/// Whether an entry with key `a` that came at position `at_a` is listed
/// before one with key `b` that came at position `at_b`: the smaller key
/// first, and of equal keys the one that came first.
pub open spec fn listed_before(a: Seq<char>, at_a: int, b: Seq<char>, at_b: int) -> bool {
    text_lt(a, b) || (a == b && at_a < at_b)
}

/// Whether `after` holds the entries of `before`, each once, so that
/// `after[i]` is the entry that came at position `order[i]` and each entry is
/// listed before the ones behind it.
pub open spec fn arranges<A>(
    order: Seq<int>,
    before: Seq<A>,
    after: Seq<A>,
    key: spec_fn(A) -> Seq<char>,
) -> bool {
    &&& order.len() == after.len()
    &&& forall|i: int|
        0 <= i < after.len() ==> 0 <= #[trigger] order[i] < before.len() && after[i]
            == before[order[i]]
    &&& forall|i: int, j: int|
        0 <= i < j < after.len() ==> listed_before(
            key(after[i]),
            #[trigger] order[i],
            key(after[j]),
            #[trigger] order[j],
        )
    &&& forall|p: int| 0 <= p < before.len() ==> #[trigger] order.contains(p)
}

/// Whether `after` is `before` sorted by key, entries of equal key in the
/// order in which they stand in `before`.
pub open spec fn is_stable_sort_of<A>(
    after: Seq<A>,
    before: Seq<A>,
    key: spec_fn(A) -> Seq<char>,
) -> bool {
    &&& after.len() == before.len()
    &&& exists|order: Seq<int>| arranges(order, before, after, key)
}

/// Whether the keys of `entries` never go down from one entry to the next.
pub open spec fn keys_ascend<A>(entries: Seq<A>, key: spec_fn(A) -> Seq<char>) -> bool {
    forall|i: int, j: int|
        0 <= i < j < entries.len() ==> text_le(
            key(#[trigger] entries[i]),
            key(#[trigger] entries[j]),
        )
}

/// A stable sort leaves the keys ascending.
pub proof fn lemma_stable_sort_ascends<A>(
    after: Seq<A>,
    before: Seq<A>,
    key: spec_fn(A) -> Seq<char>,
)
    requires
        is_stable_sort_of(after, before, key),
    ensures
        keys_ascend(after, key),
{
    let order = choose|order: Seq<int>| arranges(order, before, after, key);
    assert forall|i: int, j: int| 0 <= i < j < after.len() implies text_le(
        key(#[trigger] after[i]),
        key(#[trigger] after[j]),
    ) by {
        assert(listed_before(key(after[i]), order[i], key(after[j]), order[j]));
        lemma_text_le_reflexive(key(after[i]));
    }
}

/// A stable sort neither drops an entry nor makes one up.
pub proof fn lemma_stable_sort_same_entries<A>(
    after: Seq<A>,
    before: Seq<A>,
    key: spec_fn(A) -> Seq<char>,
)
    requires
        is_stable_sort_of(after, before, key),
    ensures
        forall|entry: A| after.contains(entry) <==> before.contains(entry),
{
    let order = choose|order: Seq<int>| arranges(order, before, after, key);
    assert forall|entry: A| after.contains(entry) <==> before.contains(entry) by {
        if after.contains(entry) {
            let i = choose|i: int| 0 <= i < after.len() && after[i] == entry;
            assert(before[order[i]] == entry);
        }
        if before.contains(entry) {
            let p = choose|p: int| 0 <= p < before.len() && before[p] == entry;
            assert(order.contains(p));
            let i = choose|i: int| 0 <= i < order.len() && order[i] == p;
            assert(after[i] == entry);
        }
    }
}

/// Entries that are stably sorted stay so when each is replaced by what
/// stands for it, as long as that keeps the keys.
pub proof fn lemma_stable_sort_carries_over<A, B>(
    after: Seq<A>,
    before: Seq<A>,
    key: spec_fn(A) -> Seq<char>,
    stand_for: spec_fn(A) -> B,
    key_there: spec_fn(B) -> Seq<char>,
)
    requires
        is_stable_sort_of(after, before, key),
        forall|entry: A| key_there(#[trigger] stand_for(entry)) == key(entry),
    ensures
        is_stable_sort_of(after.map_values(stand_for), before.map_values(stand_for), key_there),
{
    let order = choose|order: Seq<int>| arranges(order, before, after, key);
    let after2 = after.map_values(stand_for);
    let before2 = before.map_values(stand_for);
    assert forall|i: int, j: int| 0 <= i < j < after2.len() implies listed_before(
        key_there(after2[i]),
        #[trigger] order[i],
        key_there(after2[j]),
        #[trigger] order[j],
    ) by {
        assert(listed_before(key(after[i]), order[i], key(after[j]), order[j]));
    }
    assert(arranges(order, before2, after2, key_there));
}

/// Two entries at different places are listed one before the other, and
/// never both ways.
proof fn lemma_listed_one_way(a: Seq<char>, at_a: int, b: Seq<char>, at_b: int)
    ensures
        at_a != at_b ==> listed_before(a, at_a, b, at_b) || listed_before(b, at_b, a, at_a),
        !(listed_before(a, at_a, b, at_b) && listed_before(b, at_b, a, at_a)),
{
    lemma_text_le_total(a, b);
    if text_le(a, b) && text_le(b, a) {
        lemma_text_le_antisymmetric(a, b);
    }
}

/// Two arrangements of the same entries agree on their first `n` places.
proof fn lemma_arrangements_agree<A>(
    first: Seq<int>,
    second: Seq<int>,
    before: Seq<A>,
    one: Seq<A>,
    other: Seq<A>,
    key: spec_fn(A) -> Seq<char>,
    n: int,
)
    requires
        arranges(first, before, one, key),
        arranges(second, before, other, key),
        one.len() == before.len(),
        other.len() == before.len(),
        0 <= n <= before.len(),
    ensures
        forall|i: int| 0 <= i < n ==> first[i] == second[i],
    decreases n,
{
    if n > 0 {
        lemma_arrangements_agree(first, second, before, one, other, key, n - 1);
        let i = n - 1;
        let p = first[i];
        let q = second[i];
        if p != q {
            lemma_listed_one_way(key(before[p]), p, key(before[q]), q);
            if listed_before(key(before[p]), p, key(before[q]), q) {
                // `p` comes first, so `second` holds it before `q`, where
                // `first` holds it too: twice in `first`.
                assert(second.contains(p));
                let m = choose|m: int| 0 <= m < second.len() && second[m] == p;
                if m < i {
                    assert(first[m] == p);
                    assert(listed_before(key(one[m]), first[m], key(one[i]), first[i]));
                } else {
                    assert(listed_before(key(other[i]), second[i], key(other[m]), second[m]));
                }
            } else {
                assert(first.contains(q));
                let m = choose|m: int| 0 <= m < first.len() && first[m] == q;
                if m < i {
                    assert(second[m] == q);
                    assert(listed_before(key(other[m]), second[m], key(other[i]), second[i]));
                } else {
                    assert(listed_before(key(one[i]), first[i], key(one[m]), first[m]));
                }
            }
        }
    }
}

/// Entries have one stable sort and no other: the order of a listing is
/// fixed by its entries.
pub proof fn lemma_stable_sort_is_unique<A>(
    one: Seq<A>,
    other: Seq<A>,
    before: Seq<A>,
    key: spec_fn(A) -> Seq<char>,
)
    requires
        is_stable_sort_of(one, before, key),
        is_stable_sort_of(other, before, key),
    ensures
        one == other,
{
    let first = choose|order: Seq<int>| arranges(order, before, one, key);
    let second = choose|order: Seq<int>| arranges(order, before, other, key);
    lemma_arrangements_agree(first, second, before, one, other, key, before.len() as int);
    assert forall|i: int| 0 <= i < one.len() implies one[i] == other[i] by {
        assert(one[i] == before[first[i]]);
        assert(other[i] == before[second[i]]);
    }
    assert(one =~= other);
}

/// Putting a new entry behind the last entry whose key is not greater keeps
/// the arrangement.
proof fn lemma_insert_keeps_arrangement<A>(
    order: Seq<int>,
    before: Seq<A>,
    after: Seq<A>,
    key: spec_fn(A) -> Seq<char>,
    entry: A,
    pos: int,
)
    requires
        arranges(order, before, after, key),
        after.len() == before.len(),
        0 <= pos <= after.len(),
        pos > 0 ==> text_le(key(after[pos - 1]), key(entry)),
        forall|j: int| pos <= j < after.len() ==> !text_le(key(#[trigger] after[j]), key(entry)),
    ensures
        arranges(
            order.insert(pos, before.len() as int),
            before.push(entry),
            after.insert(pos, entry),
            key,
        ),
{
    let order2 = order.insert(pos, before.len() as int);
    let before2 = before.push(entry);
    let after2 = after.insert(pos, entry);
    assert forall|i: int| 0 <= i < after2.len() implies 0 <= #[trigger] order2[i] < before2.len()
        && after2[i] == before2[order2[i]] by {
        if i < pos {
            assert(order2[i] == order[i]);
        } else if i > pos {
            assert(order2[i] == order[i - 1]);
        }
    }
    assert forall|i: int, j: int| 0 <= i < j < after2.len() implies listed_before(
        key(after2[i]),
        #[trigger] order2[i],
        key(after2[j]),
        #[trigger] order2[j],
    ) by {
        if j < pos {
            assert(order2[i] == order[i] && order2[j] == order[j]);
        } else if i > pos {
            assert(order2[i] == order[i - 1] && order2[j] == order[j - 1]);
        } else if i < pos && j > pos {
            assert(order2[i] == order[i] && order2[j] == order[j - 1]);
        } else if j == pos {
            // An entry that stays in front of the new one.
            assert(order2[i] == order[i]);
            let last = key(after[pos - 1]);
            if i < pos - 1 {
                assert(listed_before(key(after[i]), order[i], last, order[pos - 1]));
            }
            lemma_text_le_reflexive(last);
            lemma_text_le_transitive(key(after[i]), last, key(entry));
        } else {
            // An entry that moves behind the new one.
            assert(order2[j] == order[j - 1]);
            assert(!text_le(key(after[j - 1]), key(entry)));
            lemma_text_le_total(key(entry), key(after[j - 1]));
        }
    }
    assert forall|p: int| 0 <= p < before2.len() implies #[trigger] order2.contains(p) by {
        if p < before.len() {
            assert(order.contains(p));
            let i = choose|i: int| 0 <= i < order.len() && order[i] == p;
            if i < pos {
                assert(order2[i] == p);
            } else {
                assert(order2[i + 1] == p);
            }
        } else {
            assert(order2[pos] == p);
        }
    }
}

/// Sorts `entries` by key. Entries of equal key keep the order in which they
/// were handed in.
pub fn sort_by_key<T: Listed>(entries: Vec<T>) -> (sorted: Vec<T>)
    ensures
        is_stable_sort_of(sorted@, entries@, key_of::<T>()),
{
    let mut sorted: Vec<T> = Vec::new();
    let ghost mut order: Seq<int> = Seq::empty();
    let ghost all = entries@;
    for entry in iter: entries
        invariant
            iter.seq() == all,
            sorted@.len() == iter.index(),
            arranges(order, all.take(iter.index() as int), sorted@, key_of::<T>()),
    {
        let ghost seen = all.take(iter.index() as int);
        let mut pos: usize = sorted.len();
        while pos > 0 && !precedes_or_equals(sorted[pos - 1].key(), entry.key())
            invariant
                pos <= sorted@.len(),
                forall|j: int|
                    pos <= j < sorted@.len() ==> !text_le(
                        key_of::<T>()(#[trigger] sorted@[j]),
                        entry.listing_key(),
                    ),
            decreases pos,
        {
            pos = pos - 1;
        }
        proof {
            lemma_insert_keeps_arrangement(order, seen, sorted@, key_of::<T>(), entry, pos as int);
            order = order.insert(pos as int, seen.len() as int);
            assert(all.take(iter.index() + 1) == seen.push(entry));
        }
        sorted.insert(pos, entry);
    }
    proof {
        assert(all.take(all.len() as int) == all);
    }
    sorted
}

} // verus!
