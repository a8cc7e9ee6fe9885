//! Collecting a listing that a remote service hands out page by page, each
//! page naming the next by a continuation token.

use vstd::prelude::*;
use crate::text::text_of;

verus! {

/// One answer of a listing operation.
pub struct Page<T> {
    /// The entries of this page, where the answer carries any.
    pub items: Option<Vec<T>>,
    /// The token that asks for the next page; absent on the last page.
    pub next_token: Option<String>,
}

impl<T> Page<T> {
    /// The entries of the page, in the order in which the service gave them.
    pub open spec fn entries(self) -> Seq<T> {
        match self.items {
            Some(items) => items@,
            None => Seq::empty(),
        }
    }

    /// The token of the page, as text.
    pub open spec fn token(self) -> Option<Seq<char>> {
        text_of(self.next_token)
    }
}

/// How far a collection has come.
pub struct Progress<T> {
    /// The entries gathered so far, in page order and, within a page, in the
    /// order of the page.
    pub gathered: Seq<T>,
    /// The token to ask the next page with; absent before the first page.
    pub cursor: Option<Seq<char>>,
    /// Whether the last page has been read.
    pub exhausted: bool,
}

/// A collection before its first page.
pub open spec fn start<T>() -> Progress<T> {
    Progress { gathered: Seq::empty(), cursor: None, exhausted: false }
}

/// The collection after one more page. A page that comes after the last one
/// changes nothing.
pub open spec fn advance<T>(progress: Progress<T>, page: Page<T>) -> Progress<T> {
    if progress.exhausted {
        progress
    } else {
        Progress {
            gathered: progress.gathered + page.entries(),
            cursor: page.token(),
            exhausted: page.next_token is None,
        }
    }
}

/// The collection after the pages of `pages`, read in turn from the start.
pub open spec fn replay<T>(pages: Seq<Page<T>>) -> Progress<T>
    decreases pages.len(),
{
    if pages.len() == 0 {
        start()
    } else {
        advance(replay(pages.drop_last()), pages.last())
    }
}

/// The entries of all of `pages`, one page after the other.
pub open spec fn all_entries<T>(pages: Seq<Page<T>>) -> Seq<T>
    decreases pages.len(),
{
    if pages.len() == 0 {
        Seq::empty()
    } else {
        all_entries(pages.drop_last()) + pages.last().entries()
    }
}

/// Whether `pages` is one whole listing: every page but the last carries a
/// token, and the last carries none.
pub open spec fn is_whole_listing<T>(pages: Seq<Page<T>>) -> bool {
    &&& pages.len() > 0
    &&& forall|i: int| 0 <= i < pages.len() - 1 ==> (#[trigger] pages[i]).next_token is Some
    &&& pages.last().next_token is None
}

/// While every page read carries a token, nothing is lost and the collection
/// goes on.
pub proof fn lemma_replay_unfinished<T>(pages: Seq<Page<T>>)
    requires
        forall|i: int| 0 <= i < pages.len() ==> (#[trigger] pages[i]).next_token is Some,
    ensures
        !replay(pages).exhausted,
        replay(pages).gathered == all_entries(pages),
    decreases pages.len(),
{
    if pages.len() > 0 {
        let front = pages.drop_last();
        assert forall|i: int| 0 <= i < front.len() implies (#[trigger] front[i]).next_token
            is Some by {
            assert(front[i] == pages[i]);
        }
        lemma_replay_unfinished(front);
    }
}

/// A whole listing is collected whole: the collection ends with its last
/// page and holds every entry of every page, page by page and each page in
/// its own order.
pub proof fn lemma_whole_listing_collected<T>(pages: Seq<Page<T>>)
    requires
        is_whole_listing(pages),
    ensures
        replay(pages).exhausted,
        replay(pages).gathered == all_entries(pages),
{
    let front = pages.drop_last();
    assert forall|i: int| 0 <= i < front.len() implies (#[trigger] front[i]).next_token
        is Some by {
        assert(front[i] == pages[i]);
    }
    lemma_replay_unfinished(front);
}

/// The place, in the row of all entries, of entry `j` of page `i`, where
/// each page holds `k` entries.
pub open spec fn place(i: int, k: nat, j: int) -> int {
    i * k + j
}

/// Of pages that hold `k` entries each, the entries of all stand in one row
/// of `k` times the number of pages, entry `j` of page `i` at its place.
pub proof fn lemma_all_entries_of_even_pages<T>(pages: Seq<Page<T>>, k: nat)
    requires
        forall|i: int| 0 <= i < pages.len() ==> (#[trigger] pages[i]).entries().len() == k,
    ensures
        all_entries(pages).len() == pages.len() * k,
        forall|i: int, j: int|
            0 <= i < pages.len() && 0 <= j < k ==> 0 <= #[trigger] place(i, k, j) < all_entries(
                pages,
            ).len() && all_entries(pages)[place(i, k, j)] == pages[i].entries()[j],
    decreases pages.len(),
{
    if pages.len() == 0 {
        assert(pages.len() * k == 0) by (nonlinear_arith)
            requires
                pages.len() == 0,
        ;
    } else {
        let front = pages.drop_last();
        let n = front.len();
        assert forall|i: int| 0 <= i < front.len() implies (#[trigger] front[i]).entries().len()
            == k by {
            assert(front[i] == pages[i]);
        }
        lemma_all_entries_of_even_pages(front, k);
        assert(pages.len() * k == n * k + k) by (nonlinear_arith)
            requires
                pages.len() == n + 1,
        ;
        assert(pages[n as int].entries().len() == k);
        assert forall|i: int, j: int| 0 <= i < pages.len() && 0 <= j < k implies 0
            <= #[trigger] place(i, k, j) < all_entries(pages).len() && all_entries(pages)[place(
            i,
            k,
            j,
        )] == pages[i].entries()[j] by {
            let at = place(i, k, j);
            assert(0 <= at < n * k + k) by (nonlinear_arith)
                requires
                    0 <= i <= n,
                    0 <= j < k,
                    at == i * k + j,
            ;
            if i < n {
                assert(front[i] == pages[i]);
                assert(0 <= place(i, k, j) < all_entries(front).len());
                assert(all_entries(pages)[at] == all_entries(front)[at]);
            } else {
                assert(at == n * k + j) by (nonlinear_arith)
                    requires
                        i == n,
                        at == i * k + j,
                ;
                assert(all_entries(pages)[at] == pages.last().entries()[at - n * k]);
            }
        }
    }
}

/// A whole listing whose pages hold `k` entries each is collected to its
/// end, into a row of `k` times the number of pages in which entry `j` of
/// page `i` stands at its place: page after page, each in its own order.
pub proof fn lemma_even_listing_collected<T>(pages: Seq<Page<T>>, k: nat)
    requires
        is_whole_listing(pages),
        forall|i: int| 0 <= i < pages.len() ==> (#[trigger] pages[i]).entries().len() == k,
    ensures
        replay(pages).exhausted,
        replay(pages).gathered.len() == pages.len() * k,
        forall|i: int, j: int|
            0 <= i < pages.len() && 0 <= j < k ==> 0 <= #[trigger] place(i, k, j) < replay(
                pages,
            ).gathered.len() && replay(pages).gathered[place(i, k, j)] == pages[i].entries()[j],
{
    lemma_whole_listing_collected(pages);
    lemma_all_entries_of_even_pages(pages, k);
}

/// A first page without entries and without a token ends the listing with
/// nothing gathered.
pub proof fn lemma_empty_listing_collected<T>(page: Page<T>)
    requires
        page.entries().len() == 0,
        page.next_token is None,
    ensures
        replay(seq![page]).exhausted,
        replay(seq![page]).gathered == Seq::<T>::empty(),
{
    let front = seq![page].drop_last();
    assert(front.len() == 0);
    assert(replay(front) == start::<T>());
    assert(replay(seq![page]) == advance(replay(front), page));
    assert(replay(seq![page]).gathered =~= Seq::<T>::empty());
}

/// Gathers the pages of one listing.
///
/// The collector names the token to ask each page with and takes the answer;
/// it hands the entries out only once the last page has been read, so that a
/// listing broken off on the way leaves nothing behind.
pub struct Collector<T> {
    gathered: Vec<T>,
    cursor: Option<String>,
    exhausted: bool,
}

impl<T> View for Collector<T> {
    type V = Progress<T>;

    closed spec fn view(&self) -> Progress<T> {
        Progress {
            gathered: self.gathered@,
            cursor: text_of(self.cursor),
            exhausted: self.exhausted,
        }
    }
}

impl<T> Collector<T> {
    /// A collector that has read no page yet.
    pub fn new() -> (collector: Self)
        ensures
            collector@ == start::<T>(),
    {
        Collector { gathered: Vec::new(), cursor: None, exhausted: false }
    }

    /// Whether the last page has been read.
    pub fn is_exhausted(&self) -> (exhausted: bool)
        ensures
            exhausted == self@.exhausted,
    {
        self.exhausted
    }

    /// The token to ask the next page with: none before the first page.
    pub fn cursor(&self) -> (token: Option<String>)
        ensures
            text_of(token) == self@.cursor,
    {
        match &self.cursor {
            Some(token) => Some(token.clone()),
            None => None,
        }
    }

    /// Takes the next page of the listing.
    pub fn accept(&mut self, page: Page<T>)
        ensures
            final(self)@ == advance(old(self)@, page),
    {
        if self.exhausted {
            return ;
        }
        let Page { items, next_token } = page;
        match items {
            Some(mut items) => {
                self.gathered.append(&mut items);
            },
            None => {
                assert(self.gathered@ + Seq::<T>::empty() == self.gathered@);
            },
        }
        self.exhausted = next_token.is_none();
        self.cursor = next_token;
    }

    /// The entries of the whole listing, once its last page has been read;
    /// before that, the collector as it is.
    pub fn finish_or_go_on(self) -> (outcome: Result<Vec<T>, Self>)
        ensures
            match outcome {
                Ok(all) => self@.exhausted && all@ == self@.gathered,
                Err(collector) => !self@.exhausted && collector@ == self@,
            },
    {
        if self.exhausted {
            Ok(self.gathered)
        } else {
            Err(self)
        }
    }

    /// The entries of the whole listing, once its last page has been read;
    /// nothing before that.
    pub fn finish(self) -> (entries: Option<Vec<T>>)
        ensures
            entries is Some == self@.exhausted,
            entries matches Some(all) ==> all@ == self@.gathered,
    {
        if self.exhausted {
            Some(self.gathered)
        } else {
            None
        }
    }
}

/// Collects a listing from answers that are all at hand, read in turn.
/// Answers behind the last page of the listing are left unread; where the
/// answers end before the listing does, nothing is returned.
pub fn collect_pages<T>(pages: Vec<Page<T>>) -> (entries: Option<Vec<T>>)
    ensures
        entries is Some == replay(pages@).exhausted,
        entries matches Some(all) ==> all@ == replay(pages@).gathered,
{
    let mut collector: Collector<T> = Collector::new();
    let ghost all = pages@;
    assert(all.take(0) == Seq::<Page<T>>::empty());
    for page in iter: pages
        invariant
            iter.seq() == all,
            collector@ == replay(all.take(iter.index() as int)),
    {
        assert(all.take(iter.index() + 1).drop_last() == all.take(iter.index() as int));
        collector.accept(page);
    }
    assert(all.take(all.len() as int) == all);
    collector.finish()
}

} // verus!
