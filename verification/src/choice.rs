//! What the three stages of a run share: a list of entries, of which one is
//! taken either by what was asked for or by the operator's choice among
//! their labels.

use vstd::prelude::*;

verus! {

/// An entry that can be offered to the operator.
pub trait Choice {
    /// The label under which the entry is offered.
    spec fn label_text(&self) -> Seq<char>;

    /// The label under which the entry is offered.
    fn label(&self) -> (label: String)
        ensures
            label@ == self.label_text(),
    ;
}

/// An entry that can be asked for by a text.
pub trait Sought {
    /// Whether the entry is one that `wanted` asks for.
    spec fn answers_to(&self, wanted: Seq<char>) -> bool;

    /// Whether the entry is one that `wanted` asks for.
    fn answers(&self, wanted: &str) -> (yes: bool)
        ensures
            yes == self.answers_to(wanted@),
    ;
}

/// The label of an entry, as a function.
pub open spec fn label_of<T: Choice>() -> spec_fn(T) -> Seq<char> {
    |entry: T| entry.label_text()
}

/// Whether an entry answers to `wanted`, as a function.
pub open spec fn answering<T: Sought>(wanted: Seq<char>) -> spec_fn(T) -> bool {
    |entry: T| entry.answers_to(wanted)
}

/// The labels to offer for `entries`: one for each, in the same order.
pub fn labels<T: Choice>(entries: &Vec<T>) -> (labels: Vec<String>)
    ensures
        labels.deep_view() == entries@.map_values(label_of::<T>()),
{
    let mut labels: Vec<String> = Vec::new();
    let mut i: usize = 0;
    while i < entries.len()
        invariant
            i <= entries@.len(),
            labels.deep_view() == entries@.take(i as int).map_values(label_of::<T>()),
        decreases entries@.len() - i,
    {
        let label = entries[i].label();
        proof {
            assert(labels.deep_view().push(label@) == entries@.take(i + 1).map_values(
                label_of::<T>(),
            ));
        }
        labels.push(label);
        i = i + 1;
    }
    proof {
        assert(entries@.take(i as int) == entries@);
    }
    labels
}

/// Whether the entry at `at` is the first of `entries` that is wanted.
pub open spec fn is_first_where<A>(entries: Seq<A>, wanted: spec_fn(A) -> bool, at: int) -> bool {
    &&& 0 <= at < entries.len()
    &&& wanted(entries[at])
    &&& forall|j: int| 0 <= j < at ==> !wanted(#[trigger] entries[j])
}

/// The place of the first of `entries` that is wanted, if any is.
pub open spec fn first_where<A>(entries: Seq<A>, wanted: spec_fn(A) -> bool) -> Option<int> {
    if exists|at: int| is_first_where(entries, wanted, at) {
        Some(choose|at: int| is_first_where(entries, wanted, at))
    } else {
        None
    }
}

/// There is one first place at most.
pub proof fn lemma_first_where_is<A>(entries: Seq<A>, wanted: spec_fn(A) -> bool, at: int)
    requires
        is_first_where(entries, wanted, at),
    ensures
        first_where(entries, wanted) == Some(at),
{
    let chosen = choose|at: int| is_first_where(entries, wanted, at);
    assert(is_first_where(entries, wanted, chosen));
    if chosen < at {
        assert(!wanted(entries[chosen]));
    }
    if at < chosen {
        assert(!wanted(entries[at]));
    }
}

/// Where no entry is wanted there is no first place, and the other way
/// round.
pub proof fn lemma_first_where_none<A>(entries: Seq<A>, wanted: spec_fn(A) -> bool)
    ensures
        first_where(entries, wanted) is None <==> forall|j: int|
            0 <= j < entries.len() ==> !wanted(#[trigger] entries[j]),
{
    if first_where(entries, wanted) is None {
        assert forall|j: int| 0 <= j < entries.len() implies !wanted(#[trigger] entries[j]) by {
            if wanted(entries[j]) {
                lemma_some_is_first(entries, wanted, j);
            }
        }
    } else {
        let chosen = choose|at: int| is_first_where(entries, wanted, at);
        assert(wanted(entries[chosen]));
    }
}

/// Before every wanted entry stands a first one.
proof fn lemma_some_is_first<A>(entries: Seq<A>, wanted: spec_fn(A) -> bool, at: int)
    requires
        0 <= at < entries.len(),
        wanted(entries[at]),
    ensures
        exists|first: int| is_first_where(entries, wanted, first),
    decreases at,
{
    if exists|j: int| 0 <= j < at && wanted(#[trigger] entries[j]) {
        let j = choose|j: int| 0 <= j < at && wanted(#[trigger] entries[j]);
        lemma_some_is_first(entries, wanted, j);
    } else {
        assert(is_first_where(entries, wanted, at));
    }
}

/// The first place stays the first when each entry is replaced by what
/// stands for it, as long as the same entries are wanted.
pub proof fn lemma_first_where_carries_over<A, B>(
    entries: Seq<A>,
    wanted: spec_fn(A) -> bool,
    stand_for: spec_fn(A) -> B,
    wanted_there: spec_fn(B) -> bool,
)
    requires
        forall|entry: A| wanted_there(#[trigger] stand_for(entry)) == wanted(entry),
    ensures
        first_where(entries.map_values(stand_for), wanted_there) == first_where(entries, wanted),
{
    let there = entries.map_values(stand_for);
    if first_where(entries, wanted) is Some {
        let at = first_where(entries, wanted)->0;
        assert(is_first_where(entries, wanted, at));
        assert forall|j: int| 0 <= j < at implies !wanted_there(#[trigger] there[j]) by {
            assert(!wanted(entries[j]));
        }
        lemma_first_where_is(there, wanted_there, at);
    } else {
        lemma_first_where_none(entries, wanted);
        assert forall|j: int| 0 <= j < there.len() implies !wanted_there(#[trigger] there[j]) by {
            assert(!wanted(entries[j]));
        }
        lemma_first_where_none(there, wanted_there);
    }
}

/// The place of an entry in a list, as a number.
pub open spec fn place_of(found: Option<usize>) -> Option<int> {
    match found {
        Some(at) => Some(at as int),
        None => None,
    }
}

/// The place of the first entry that `wanted` asks for. Where several
/// entries answer, the first in the list is taken and the others are passed
/// over without complaint.
pub fn first_answer<T: Sought>(entries: &Vec<T>, wanted: &str) -> (found: Option<usize>)
    ensures
        place_of(found) == first_where(entries@, answering::<T>(wanted@)),
{
    let mut i: usize = 0;
    while i < entries.len()
        invariant
            i <= entries@.len(),
            forall|j: int| 0 <= j < i ==> !(#[trigger] entries@[j]).answers_to(wanted@),
        decreases entries@.len() - i,
    {
        if entries[i].answers(wanted) {
            proof {
                lemma_first_where_is(entries@, answering::<T>(wanted@), i as int);
            }
            return Some(i);
        }
        i = i + 1;
    }
    proof {
        lemma_first_where_none(entries@, answering::<T>(wanted@));
    }
    None
}

} // verus!
