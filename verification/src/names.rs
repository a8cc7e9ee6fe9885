//! Identifiers and the display names derived from them.

use vstd::prelude::*;

verus! {

/// The separator between the segments of an identifier.
pub open spec fn is_separator(c: char) -> bool {
    c == '/'
}

/// Where the final segment of `id` starts: just behind the last separator,
/// or at the front where `id` holds none.
pub open spec fn final_segment_start(id: Seq<char>) -> int
    decreases id.len(),
{
    if id.len() == 0 {
        0
    } else if is_separator(id.last()) {
        id.len() as int
    } else {
        final_segment_start(id.drop_last())
    }
}

/// The final segment of `id`: all that follows its last separator, and the
/// whole of `id` where it holds none.
pub open spec fn final_segment(id: Seq<char>) -> Seq<char> {
    id.subrange(final_segment_start(id), id.len() as int)
}

/// The final segment starts within the identifier, just behind a
/// separator unless it starts at the front, and no separator follows.
pub proof fn lemma_final_segment_start(id: Seq<char>)
    ensures
        0 <= final_segment_start(id) <= id.len(),
        final_segment_start(id) > 0 ==> is_separator(id[final_segment_start(id) - 1]),
        forall|i: int| final_segment_start(id) <= i < id.len() ==> !is_separator(#[trigger] id[i]),
    decreases id.len(),
{
    if id.len() > 0 && !is_separator(id.last()) {
        let front = id.drop_last();
        lemma_final_segment_start(front);
        assert forall|i: int| final_segment_start(id) <= i < id.len() implies !is_separator(
            #[trigger] id[i],
        ) by {
            if i < front.len() {
                assert(front[i] == id[i]);
            }
        }
    }
}

/// The final segment holds no separator, and with what stands before it
/// makes up the identifier.
pub proof fn lemma_final_segment_ends_identifier(id: Seq<char>)
    ensures
        forall|i: int|
            0 <= i < final_segment(id).len() ==> !is_separator(#[trigger] final_segment(id)[i]),
        id == id.take(final_segment_start(id)) + final_segment(id),
{
    lemma_final_segment_start(id);
    assert(id =~= id.take(final_segment_start(id)) + final_segment(id));
}

/// An identifier without a separator is its own final segment.
pub proof fn lemma_final_segment_without_separator(id: Seq<char>)
    requires
        forall|i: int| 0 <= i < id.len() ==> !is_separator(#[trigger] id[i]),
    ensures
        final_segment(id) == id,
{
    lemma_final_segment_start(id);
    assert(final_segment(id) =~= id);
}

/// The final segment is empty only for the empty identifier and for one
/// that ends in a separator.
pub proof fn lemma_final_segment_is_empty(id: Seq<char>)
    ensures
        final_segment(id).len() == 0 <==> (id.len() == 0 || is_separator(id.last())),
{
    lemma_final_segment_start(id);
}

/// The short name of an identifier.
pub fn short_name(id: &str) -> (name: String)
    ensures
        name@ == final_segment(id@),
{
    let n: usize = id.unicode_len();
    let mut start: usize = 0;
    let mut i: usize = 0;
    for c in iter: id.chars()
        invariant
            iter.seq() == id@,
            n == id@.len(),
            i == iter.index(),
            start as int == final_segment_start(id@.take(i as int)),
            start <= i,
    {
        assert(id@.take(i + 1).drop_last() == id@.take(i as int));
        i = i + 1;
        if c == '/' {
            start = i;
        }
    }
    assert(id@.take(i as int) == id@);
    id.substring_char(start, n).to_owned()
}

/// Whether `part` stands in `text` at position `at`.
pub open spec fn occurs_at(text: Seq<char>, part: Seq<char>, at: int) -> bool {
    &&& 0 <= at
    &&& at + part.len() <= text.len()
    &&& text.subrange(at, at + part.len()) == part
}

/// Whether `part` stands somewhere in `text`, letter for letter. The empty
/// text stands in every text.
pub open spec fn contains_text(text: Seq<char>, part: Seq<char>) -> bool {
    exists|at: int| occurs_at(text, part, at)
}

/// The characters of `text`, one by one.
pub fn to_chars(text: &str) -> (chars: Vec<char>)
    ensures
        chars@ == text@,
{
    let mut chars: Vec<char> = Vec::new();
    for c in iter: text.chars()
        invariant
            iter.seq() == text@,
            chars@ == text@.take(iter.index() as int),
    {
        chars.push(c);
    }
    chars
}

/// Whether `part` stands in `text` at position `at`, given that it fits.
fn matches_at(text: &Vec<char>, part: &Vec<char>, at: usize) -> (found: bool)
    requires
        at + part@.len() <= text@.len() <= usize::MAX,
    ensures
        found == occurs_at(text@, part@, at as int),
{
    let mut k: usize = 0;
    while k < part.len()
        invariant
            k <= part@.len(),
            at + part@.len() <= text@.len() <= usize::MAX,
            text@.subrange(at as int, at + k) == part@.take(k as int),
        decreases part@.len() - k,
    {
        if text[at + k] != part[k] {
            assert(text@.subrange(at as int, at + part@.len())[k as int] != part@[k as int]);
            return false;
        }
        assert(text@.subrange(at as int, at + k + 1) == text@.subrange(at as int, at + k).push(
            text@[at + k],
        ));
        assert(part@.take(k + 1) == part@.take(k as int).push(part@[k as int]));
        k = k + 1;
    }
    assert(part@.take(k as int) == part@);
    true
}

/// Whether `part` stands somewhere in `text`.
pub fn has_part(text: &str, part: &str) -> (found: bool)
    ensures
        found == contains_text(text@, part@),
{
    let text_chars = to_chars(text);
    let part_chars = to_chars(part);
    if part_chars.len() > text_chars.len() {
        return false;
    }
    let last: usize = text_chars.len() - part_chars.len();
    let mut at: usize = 0;
    loop
        invariant
            text_chars@ == text@,
            part_chars@ == part@,
            last + part@.len() == text@.len() <= usize::MAX,
            at <= last,
            forall|j: int| 0 <= j < at ==> !occurs_at(text@, part@, j),
        decreases last - at,
    {
        if matches_at(&text_chars, &part_chars, at) {
            return true;
        }
        if at == last {
            return false;
        }
        at = at + 1;
    }
}

} // verus!
