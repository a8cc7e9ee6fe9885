//! The order in which names are listed: by code point, position by position.

use vstd::prelude::*;
use vstd::std_specs::iter::IteratorSpec;

verus! {

/// The text of a string that may be absent.
pub open spec fn text_of(text: Option<String>) -> Option<Seq<char>> {
    match text {
        Some(text) => Some(text@),
        None => None,
    }
}

/// Whether `a` comes before `b` or equals it, reading both from the front:
/// the first position at which they differ decides, by code point, and a
/// text comes before every text that extends it.
pub open spec fn text_le(a: Seq<char>, b: Seq<char>) -> bool
    decreases a.len(),
{
    if a.len() == 0 {
        true
    } else if b.len() == 0 {
        false
    } else if a[0] == b[0] {
        text_le(a.drop_first(), b.drop_first())
    } else {
        a[0] < b[0]
    }
}

/// Whether `a` comes strictly before `b`.
pub open spec fn text_lt(a: Seq<char>, b: Seq<char>) -> bool {
    text_le(a, b) && a != b
}

/// Every text is at most itself.
pub proof fn lemma_text_le_reflexive(a: Seq<char>)
    ensures
        text_le(a, a),
    decreases a.len(),
{
    if a.len() > 0 {
        lemma_text_le_reflexive(a.drop_first());
    }
}

/// Of two texts, one is at most the other.
pub proof fn lemma_text_le_total(a: Seq<char>, b: Seq<char>)
    ensures
        text_le(a, b) || text_le(b, a),
    decreases a.len(),
{
    if a.len() > 0 && b.len() > 0 {
        if a[0] == b[0] {
            lemma_text_le_total(a.drop_first(), b.drop_first());
        }
    }
}

/// Two texts that are each at most the other are the same text.
pub proof fn lemma_text_le_antisymmetric(a: Seq<char>, b: Seq<char>)
    requires
        text_le(a, b),
        text_le(b, a),
    ensures
        a == b,
    decreases a.len(),
{
    if a.len() == 0 || b.len() == 0 {
        assert(a =~= b);
    } else {
        lemma_text_le_antisymmetric(a.drop_first(), b.drop_first());
        assert(a =~= seq![a[0]] + a.drop_first());
        assert(b =~= seq![b[0]] + b.drop_first());
    }
}

/// The order passes along a chain.
pub proof fn lemma_text_le_transitive(a: Seq<char>, b: Seq<char>, c: Seq<char>)
    requires
        text_le(a, b),
        text_le(b, c),
    ensures
        text_le(a, c),
    decreases a.len(),
{
    if a.len() > 0 && b.len() > 0 && c.len() > 0 && a[0] == b[0] && b[0] == c[0] {
        lemma_text_le_transitive(a.drop_first(), b.drop_first(), c.drop_first());
    }
}

/// Compares two texts in the listing order.
pub fn precedes_or_equals(a: &str, b: &str) -> (le: bool)
    ensures
        le == text_le(a@, b@),
{
    let mut left = a.chars();
    let mut right = b.chars();
    loop
        invariant
            left.obeys_prophetic_iter_laws(),
            right.obeys_prophetic_iter_laws(),
            left.decrease() is Some,
            text_le(a@, b@) == text_le(left.remaining(), right.remaining()),
        decreases left.decrease()->0,
    {
        let ghost rest_a = left.remaining();
        let ghost rest_b = right.remaining();
        match left.next() {
            None => {
                return true;
            },
            Some(x) => {
                match right.next() {
                    None => {
                        return false;
                    },
                    Some(y) => {
                        assert(x == rest_a[0] && y == rest_b[0]);
                        if x != y {
                            return x < y;
                        }
                    },
                }
            },
        }
    }
}

/// Whether two texts are the same, letter for letter.
pub fn same_text(a: &str, b: &str) -> (same: bool)
    ensures
        same == (a@ == b@),
{
    let mut left = a.chars();
    let mut right = b.chars();
    let ghost mut read: int = 0;
    loop
        invariant
            left.obeys_prophetic_iter_laws(),
            right.obeys_prophetic_iter_laws(),
            left.decrease() is Some,
            0 <= read <= a@.len(),
            read <= b@.len(),
            left.remaining() == a@.skip(read),
            right.remaining() == b@.skip(read),
            a@.take(read) == b@.take(read),
        decreases left.decrease()->0,
    {
        match left.next() {
            None => {
                let rest = right.next();
                proof {
                    if rest is None {
                        assert(a@.take(read) == a@ && b@.take(read) == b@);
                    }
                }
                return rest.is_none();
            },
            Some(x) => {
                match right.next() {
                    None => {
                        return false;
                    },
                    Some(y) => {
                        assert(x == a@[read] && y == b@[read]);
                        if x != y {
                            return false;
                        }
                        proof {
                            assert(a@.take(read + 1) == a@.take(read).push(x));
                            assert(b@.take(read + 1) == b@.take(read).push(y));
                            assert(a@.skip(read).drop_first() == a@.skip(read + 1));
                            assert(b@.skip(read).drop_first() == b@.skip(read + 1));
                            read = read + 1;
                        }
                    },
                }
            },
        }
    }
}

} // verus!
