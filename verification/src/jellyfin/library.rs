//! A library that is fetched page by page.

use vstd::prelude::*;

use crate::backend::BackendError;
use crate::jellyfin::api::{MusicDtoList, MusicDtoListView, MusicDtoView};
use crate::jellyfin::Jellyfin;

verus! {

broadcast use vstd::string::group_string_axioms;

/// How many songs are on a page of a library.
pub const LIMIT: u64 = 250;

/// How many pages are fetched at a time.
pub const MAX_CONCURRENT_REQUESTS: usize = 4;

/// From how many seconds on an answer counts as slow.
pub const SLOW_LOAD_THRESHOLD_SECONDS: u64 = 1;

/// How many pages of a library there are after the first.
pub open spec fn pages_after_first(total_count: u64) -> int {
    if total_count > LIMIT {
        (total_count - LIMIT + LIMIT - 1) / (LIMIT as int)
    } else {
        0
    }
}

/// How many pages of a library there are after the first.
pub fn additional_pages(total_count: u64) -> (r: u64)
    ensures
        r == pages_after_first(total_count),
{
    if total_count > LIMIT {
        let remaining: u64 = total_count - LIMIT;
        if remaining % LIMIT == 0 {
            remaining / LIMIT
        } else {
            remaining / LIMIT + 1
        }
    } else {
        0
    }
}

/// The index that a page of a library starts at. The first page is page zero.
pub fn page_start(total_count: u64, page: u64) -> (r: u64)
    requires
        page <= pages_after_first(total_count),
    ensures
        r == page * LIMIT,
{
    assert(page * LIMIT <= u64::MAX) by {
        if total_count > LIMIT {
            assert(page * LIMIT <= total_count);
        }
    }
    page * LIMIT
}

/// How many pages are fetched at a time, given how many whole seconds the first one took. A server
/// that is slow is asked for one page at a time.
pub fn concurrent_requests(first_page_seconds: u64) -> (r: usize)
    ensures
        r == if first_page_seconds >= SLOW_LOAD_THRESHOLD_SECONDS {
            1
        } else {
            MAX_CONCURRENT_REQUESTS
        },
{
    if first_page_seconds >= SLOW_LOAD_THRESHOLD_SECONDS {
        1
    } else {
        MAX_CONCURRENT_REQUESTS
    }
}

/// The pages of a library hold each of its songs once: the song at an index is on one page that is
/// fetched, and on no other.
pub proof fn law_pages_cover_library(total_count: u64, index: int)
    requires
        0 <= index < total_count,
    ensures
        exists|page: int| #[trigger] on_page(total_count, page, index),
        forall|page: int, other: int| #[trigger]
            on_page(total_count, page, index) && #[trigger] on_page(total_count, other, index)
                ==> page == other,
{
    let page = index / (LIMIT as int);
    assert(on_page(total_count, page, index));
}

/// Whether the song at an index is on a page that is fetched.
pub open spec fn on_page(total_count: u64, page: int, index: int) -> bool {
    0 <= page <= pages_after_first(total_count) && page * LIMIT <= index < page * LIMIT + LIMIT
}

/// Every page that is fetched starts within the library.
pub proof fn law_pages_start_in_library(total_count: u64, page: int)
    requires
        total_count > 0,
        0 <= page <= pages_after_first(total_count),
    ensures
        page * LIMIT < total_count,
{
}

/// The songs of those pages that arrived, one page after the other.
pub open spec fn arrived_songs(pages: Seq<Result<MusicDtoList, BackendError>>) -> Seq<MusicDtoView>
    decreases pages.len(),
{
    if pages.len() == 0 {
        seq![]
    } else {
        let front = arrived_songs(pages.drop_last());
        match pages.last() {
            Ok(page) => front + page.deep_view().items,
            Err(_) => front,
        }
    }
}

/// The songs of pages in two runs are those of the first run followed by those of the second.
proof fn lemma_arrived_songs_of_runs(
    first: Seq<Result<MusicDtoList, BackendError>>,
    second: Seq<Result<MusicDtoList, BackendError>>,
)
    ensures
        arrived_songs(first + second) == arrived_songs(first) + arrived_songs(second),
    decreases second.len(),
{
    if second.len() == 0 {
        assert(first + second =~= first);
    } else {
        assert((first + second).drop_last() =~= first + second.drop_last());
        lemma_arrived_songs_of_runs(first, second.drop_last());
    }
}

/// The order in which pages arrive makes no difference to which songs a library holds, and how
/// often.
pub proof fn law_arrival_order_does_not_matter(
    pages: Seq<Result<MusicDtoList, BackendError>>,
    other: Seq<Result<MusicDtoList, BackendError>>,
)
    requires
        pages.to_multiset() == other.to_multiset(),
    ensures
        arrived_songs(pages).to_multiset() == arrived_songs(other).to_multiset(),
    decreases pages.len(),
{
    broadcast use vstd::seq_lib::group_to_multiset_ensures;

    if pages.len() == 0 {
        assert(pages.to_multiset().len() == 0);
        assert(other.to_multiset().len() == other.len());
    } else {
        let page = pages.last();
        assert(other.contains(page)) by {
            assert(pages.contains(page));
            assert(pages.to_multiset().contains(page));
        }
        let i = choose|i: int| 0 <= i < other.len() && other[i] == page;
        let before = other.take(i);
        let after = other.skip(i + 1);
        let rest = other.remove(i);
        assert(other =~= before + (seq![page] + after));
        assert(rest =~= before + after);
        assert(pages =~= pages.drop_last() + seq![page]);
        assert(pages.drop_last() =~= pages.remove(pages.len() - 1));
        law_arrival_order_does_not_matter(pages.drop_last(), rest);
        lemma_arrived_songs_of_runs(before, seq![page] + after);
        lemma_arrived_songs_of_runs(seq![page], after);
        lemma_arrived_songs_of_runs(before, after);
        lemma_arrived_songs_of_runs(pages.drop_last(), seq![page]);
        let a = arrived_songs(before);
        let b = arrived_songs(seq![page]);
        let c = arrived_songs(after);
        vstd::seq_lib::lemma_multiset_commutative(a, b + c);
        vstd::seq_lib::lemma_multiset_commutative(b, c);
        vstd::seq_lib::lemma_multiset_commutative(a, c);
        vstd::seq_lib::lemma_multiset_commutative(arrived_songs(pages.drop_last()), b);
    }
}

/// How many songs there are on a page of a library that is fetched.
pub open spec fn page_songs(total_count: u64, page: int) -> int {
    if total_count - page * LIMIT < LIMIT {
        total_count - page * LIMIT
    } else {
        LIMIT as int
    }
}

/// Where every page arrives with all its songs, the library holds as many songs as the server
/// counts.
pub proof fn law_whole_library_is_counted(
    total_count: u64,
    first_page: Seq<MusicDtoView>,
    pages: Seq<Result<MusicDtoList, BackendError>>,
)
    requires
        first_page.len() == page_songs(total_count, 0),
        pages.len() == pages_after_first(total_count),
        forall|i: int|
            0 <= i < pages.len() ==> (#[trigger] pages[i] matches Ok(page)
                && page.deep_view().items.len() == page_songs(total_count, i + 1)),
    ensures
        (first_page + arrived_songs(pages)).len() == total_count,
{
    lemma_songs_of_first_pages(total_count, pages, pages.len() as int);
    assert(pages.take(pages.len() as int) =~= pages);
}

/// The first `n` pages after the first one hold as many songs as fit, or all that are left.
proof fn lemma_songs_of_first_pages(
    total_count: u64,
    pages: Seq<Result<MusicDtoList, BackendError>>,
    n: int,
)
    requires
        0 <= n <= pages.len(),
        pages.len() == pages_after_first(total_count),
        forall|i: int|
            0 <= i < pages.len() ==> (#[trigger] pages[i] matches Ok(page)
                && page.deep_view().items.len() == page_songs(total_count, i + 1)),
    ensures
        arrived_songs(pages.take(n)).len() == if n * LIMIT < total_count - LIMIT {
            n * LIMIT
        } else if total_count > LIMIT {
            total_count - LIMIT
        } else {
            0
        },
    decreases n,
{
    if n > 0 {
        lemma_songs_of_first_pages(total_count, pages, n - 1);
        assert(pages.take(n).drop_last() =~= pages.take(n - 1));
        assert(pages[n - 1] is Ok);
    }
}

impl Jellyfin {
    /// The library that is made of its first page and of the other pages in the order in which
    /// they arrived. A page that did not arrive is left out, but its songs still count.
    pub fn get_library(
        &self,
        first_page: MusicDtoList,
        pages: Vec<Result<MusicDtoList, BackendError>>,
    ) -> (r: MusicDtoList)
        ensures
            r.deep_view() == (MusicDtoListView {
                items: first_page.deep_view().items + arrived_songs(pages@),
                total_record_count: first_page.total_record_count,
            }),
    {
        let ghost first = first_page.deep_view().items;
        let ghost all = pages@;
        let mut items = first_page.items;
        assert(items.deep_view() =~= first + arrived_songs(all.take(0)));
        for page in it: pages
            invariant
                it.seq() == all,
                items.deep_view() == first + arrived_songs(all.take(it.index() as int)),
        {
            let ghost before = items.deep_view();
            assert(all.take(it.index() + 1).drop_last() =~= all.take(it.index() as int));
            if let Ok(page) = page {
                let mut songs = page.items;
                let ghost added = songs.deep_view();
                items.append(&mut songs);
                assert(items.deep_view() =~= before + added);
                assert(items.deep_view() =~= first + arrived_songs(all.take(it.index() + 1)));
            }
        }
        assert(all.take(all.len() as int) =~= all);
        MusicDtoList { items, total_record_count: first_page.total_record_count }
    }
}

} // verus!
