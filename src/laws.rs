//! Properties of the cursored listing, proved over its state model.
use vstd::prelude::*;
use crate::cursor::{
    CursorState, MAX_EMPTY_PAGES, PageView, Response, after_page, after_pages, after_take, awaiting_fetch,
    exhausted, lemma_after_pages_push, produced_by,
};
use crate::error::{FetchError, ListingError};
use crate::search::{SearchState, search_after_page, search_after_take, search_awaiting, search_exhausted};
use crate::cursor::RateLimit;

verus! {

/// The items of several pages, one page after another.
pub open spec fn page_items<T>(pages: Seq<PageView<T>>) -> Seq<T>
    decreases pages.len(),
{
    if pages.len() == 0 {
        Seq::empty()
    } else {
        pages[0].items + page_items(pages.drop_first())
    }
}

/// Drives a listing by `next_step` and `accept_page`, answering each request
/// with the next of `pages`, until it reports its end or asks for more than
/// `pages` holds. Gives the items handed out, the state reached, and how many
/// pages were taken.
pub open spec fn drive<T>(s: CursorState<T>, pages: Seq<PageView<T>>) -> (Seq<T>, CursorState<T>, nat)
    decreases pages.len(), s.buffer.len(),
{
    if s.buffer.len() > 0 {
        let (out, t, n) = drive(after_take(s), pages);
        (seq![s.buffer[0]] + out, t, n)
    } else if exhausted(s) || pages.len() == 0 {
        (Seq::empty(), s, 0)
    } else {
        let (out, t, n) = drive(after_page(s, pages[0]), pages.drop_first());
        (out, t, n + 1)
    }
}

proof fn lemma_drive_buffer<T>(s: CursorState<T>, pages: Seq<PageView<T>>)
    ensures
        drive(s, pages).0 == s.buffer + drive(CursorState { buffer: Seq::empty(), ..s }, pages).0,
        drive(s, pages).1 == drive(CursorState { buffer: Seq::empty(), ..s }, pages).1,
        drive(s, pages).2 == drive(CursorState { buffer: Seq::empty(), ..s }, pages).2,
    decreases s.buffer.len(),
{
    if s.buffer.len() > 0 {
        let next = after_take(s);
        lemma_drive_buffer(next, pages);
        assert(CursorState { buffer: Seq::empty(), ..next } == CursorState { buffer: Seq::<T>::empty(), ..s });
        assert(seq![s.buffer[0]] + next.buffer =~= s.buffer);
        assert(seq![s.buffer[0]] + (next.buffer + drive(CursorState { buffer: Seq::empty(), ..s }, pages).0)
            =~= s.buffer + drive(CursorState { buffer: Seq::empty(), ..s }, pages).0);
    } else {
        assert(s.buffer =~= Seq::<T>::empty());
        assert(CursorState { buffer: Seq::<T>::empty(), ..s } == s);
    }
}

/// A listing that waits for its next page, fed pages whose next cursors are
/// all non-zero but the last, which is zero, hands out exactly the items of
/// those pages in order, takes every page, and ends. Once ended, it hands out
/// nothing more and asks for no further page.
pub proof fn lemma_drains_all_pages<T>(s: CursorState<T>, pages: Seq<PageView<T>>, more: Seq<PageView<T>>)
    requires
        awaiting_fetch(s),
        pages.len() > 0,
        forall|i: int| 0 <= i < pages.len() - 1 ==> #[trigger] pages[i].next_cursor != 0,
        pages.last().next_cursor == 0,
    ensures
        drive(s, pages).0 == page_items(pages),
        drive(s, pages).2 == pages.len(),
        exhausted(drive(s, pages).1),
        drive(drive(s, pages).1, more) == (Seq::<T>::empty(), drive(s, pages).1, 0nat),
    decreases pages.len(),
{
    let first = after_page(s, pages[0]);
    let rest = pages.drop_first();
    let emptied = CursorState { buffer: Seq::<T>::empty(), ..first };
    if pages.len() == 1 {
        assert(rest.len() == 0);
        lemma_drive_buffer(first, rest);
        assert(page_items(rest) =~= Seq::<T>::empty());
        assert(first.buffer + Seq::<T>::empty() =~= first.buffer);
    } else {
        assert(pages[0].next_cursor != 0);
        lemma_drive_buffer(first, rest);
        assert forall|i: int| 0 <= i < rest.len() - 1 implies #[trigger] rest[i].next_cursor != 0 by {
            assert(0 <= i + 1 < pages.len() - 1);
            assert(rest[i] == pages[i + 1]);
        }
        lemma_drains_all_pages(emptied, rest, more);
    }
}

/// A page that comes back empty with a non-zero next cursor does not end the
/// listing: it hands out nothing for that page and asks at once for the page
/// at that cursor.
pub proof fn lemma_empty_page_continues<T>(s: CursorState<T>, p: PageView<T>, rest: Seq<PageView<T>>)
    requires
        awaiting_fetch(s),
        p.items.len() == 0,
        p.next_cursor != 0,
    ensures
        awaiting_fetch(after_page(s, p)),
        after_page(s, p).cursor == p.next_cursor,
        after_page(s, p).started,
        drive(s, seq![p] + rest) == {
            let (out, t, n) = drive(after_page(s, p), rest);
            (out, t, n + 1)
        },
{
    let all = seq![p] + rest;
    assert(all[0] == p);
    assert(all.drop_first() =~= rest);
}

/// A page that comes back empty with a zero next cursor ends the listing,
/// with no item handed out for it.
pub proof fn lemma_empty_last_page_ends<T>(s: CursorState<T>, p: PageView<T>, rest: Seq<PageView<T>>)
    requires
        awaiting_fetch(s),
        p.items.len() == 0,
        p.next_cursor == 0,
    ensures
        exhausted(after_page(s, p)),
        drive(s, seq![p] + rest) == (Seq::<T>::empty(), after_page(s, p), 1nat),
{
    let all = seq![p] + rest;
    assert(all[0] == p);
    assert(all.drop_first() =~= rest);
    assert(drive(after_page(s, p), rest) == (Seq::<T>::empty(), after_page(s, p), 0nat));
}

proof fn lemma_after_pages_append<T>(s: CursorState<T>, a: Seq<PageView<T>>, b: Seq<PageView<T>>)
    ensures
        after_pages(s, a + b) == after_pages(after_pages(s, a), b),
    decreases a.len(),
{
    if a.len() > 0 {
        lemma_after_pages_append(after_page(s, a[0]), a.drop_first(), b);
        assert((a + b).drop_first() =~= a.drop_first() + b);
        assert((a + b)[0] == a[0]);
    } else {
        assert(a + b =~= b);
    }
}

/// A call of `produce_next` on which the page source failed leaves the
/// listing waiting for the page it asked for, where the pages received so
/// far led it. A further call then has the same outcome as a single call
/// that received the pages of both, as if the failed fetch had succeeded,
/// as long as the two together stay within the limit of empty pages.
pub proof fn lemma_retry_after_failure<T>(
    s: CursorState<T>,
    failed: Seq<PageView<T>>,
    e: FetchError,
    t: CursorState<T>,
    retried: Seq<PageView<T>>,
    r: Option<Result<Response<T>, ListingError>>,
    u: CursorState<T>,
)
    requires
        produced_by(s, failed, Some(Err(ListingError::Fetch(e))), t),
        produced_by(t, retried, r, u),
        failed.len() + retried.len() < MAX_EMPTY_PAGES,
    ensures
        awaiting_fetch(t),
        t == after_pages(s, failed),
        produced_by(s, failed + retried, r, u),
{
    let all = failed + retried;
    lemma_after_pages_append(s, failed, retried);
    if failed.len() > 0 {
        lemma_after_pages_last(s, failed);
        lemma_after_pages_push(s, failed.drop_last(), failed.last());
        assert(failed.drop_last().push(failed.last()) =~= failed);
    }
    assert forall|i: int| 0 <= i < all.len() - 1 implies #[trigger] all[i].items.len() == 0
        && all[i].next_cursor != 0 by {
        if i < failed.len() - 1 {
            assert(all[i] == failed[i]);
        } else if i == failed.len() - 1 {
            assert(all[i] == failed.last());
        } else {
            assert(all[i] == retried[i - failed.len()]);
        }
    }
    if failed.len() == 0 {
        assert(all =~= retried);
    }
}

/// Once a listing has ended, `produce_next` receives no page, hands out
/// nothing and leaves the listing as it is.
pub proof fn lemma_ended_stays_ended<T>(
    s: CursorState<T>,
    pages: Seq<PageView<T>>,
    r: Option<Result<Response<T>, ListingError>>,
    t: CursorState<T>,
)
    requires
        exhausted(s),
        produced_by(s, pages, r, t),
    ensures
        pages.len() == 0,
        r is None,
        t == s,
{
}

/// A call of `produce_next` on a listing that has not ended reports the end
/// only after receiving a page that is empty and has a zero next cursor; an
/// empty page with a non-zero cursor never ends the listing.
pub proof fn lemma_ends_only_on_last_page<T>(
    s: CursorState<T>,
    pages: Seq<PageView<T>>,
    t: CursorState<T>,
)
    requires
        !exhausted(s),
        produced_by(s, pages, None, t),
    ensures
        pages.len() > 0,
        pages.last().items.len() == 0,
        pages.last().next_cursor == 0,
{
    if pages.len() > 0 {
        lemma_after_pages_push(s, pages.drop_last(), pages.last());
        assert(pages.drop_last().push(pages.last()) =~= pages);
    }
}

proof fn lemma_after_pages_last<T>(s: CursorState<T>, pages: Seq<PageView<T>>)
    requires
        pages.len() > 0,
    ensures
        after_pages(s, pages).buffer == pages.last().items,
    decreases pages.len(),
{
    if pages.len() > 1 {
        lemma_after_pages_last(after_page(s, pages[0]), pages.drop_first());
        assert(pages.drop_first().last() == pages.last());
    } else {
        assert(pages.drop_first().len() == 0);
        assert(after_pages(after_page(s, pages[0]), pages.drop_first()) == after_page(s, pages[0]));
    }
}

/// The items of several search pages, one page after another.
pub open spec fn batch_items<T>(batches: Seq<(Seq<T>, RateLimit)>) -> Seq<T>
    decreases batches.len(),
{
    if batches.len() == 0 {
        Seq::empty()
    } else {
        batches[0].0 + batch_items(batches.drop_first())
    }
}

/// Drives a search by `next_step` and `accept_page`, answering each request
/// with the next of `batches`, until it reports its end or asks for more than
/// `batches` holds. Gives the items handed out, the state reached, and how
/// many batches were taken.
pub open spec fn drive_search<T>(s: SearchState<T>, batches: Seq<(Seq<T>, RateLimit)>) -> (Seq<T>, SearchState<T>, nat)
    decreases batches.len(), s.buffer.len(),
{
    if s.buffer.len() > 0 {
        let (out, t, n) = drive_search(search_after_take(s), batches);
        (seq![s.buffer[0]] + out, t, n)
    } else if s.last_page || batches.len() == 0 {
        (Seq::empty(), s, 0)
    } else {
        let (out, t, n) = drive_search(search_after_page(s, batches[0].0, batches[0].1), batches.drop_first());
        (out, t, n + 1)
    }
}

proof fn lemma_drive_search_buffer<T>(s: SearchState<T>, batches: Seq<(Seq<T>, RateLimit)>)
    ensures
        drive_search(s, batches).0 == s.buffer + drive_search(SearchState { buffer: Seq::empty(), ..s }, batches).0,
        drive_search(s, batches).1 == drive_search(SearchState { buffer: Seq::empty(), ..s }, batches).1,
        drive_search(s, batches).2 == drive_search(SearchState { buffer: Seq::empty(), ..s }, batches).2,
    decreases s.buffer.len(),
{
    if s.buffer.len() > 0 {
        let next = search_after_take(s);
        lemma_drive_search_buffer(next, batches);
        assert(SearchState { buffer: Seq::empty(), ..next } == SearchState { buffer: Seq::<T>::empty(), ..s });
        assert(seq![s.buffer[0]] + (next.buffer + drive_search(SearchState { buffer: Seq::empty(), ..s }, batches).0)
            =~= s.buffer + drive_search(SearchState { buffer: Seq::empty(), ..s }, batches).0);
    } else {
        assert(s.buffer =~= Seq::<T>::empty());
        assert(SearchState { buffer: Seq::<T>::empty(), ..s } == s);
    }
}

/// A search that waits for its next page, fed non-empty pages and then an
/// empty one, hands out exactly the items of those pages in order, asks for
/// consecutive page numbers, takes every page, and ends.
pub proof fn lemma_search_drains_all_pages<T>(s: SearchState<T>, batches: Seq<(Seq<T>, RateLimit)>)
    requires
        search_awaiting(s),
        batches.len() > 0,
        forall|i: int| 0 <= i < batches.len() - 1 ==> #[trigger] batches[i].0.len() > 0,
        batches.last().0.len() == 0,
        s.page_number + batches.len() <= u32::MAX,
    ensures
        drive_search(s, batches).0 == batch_items(batches),
        drive_search(s, batches).2 == batches.len(),
        search_exhausted(drive_search(s, batches).1),
        drive_search(s, batches).1.page_number == s.page_number + batches.len() - 1,
    decreases batches.len(),
{
    let first = search_after_page(s, batches[0].0, batches[0].1);
    let rest = batches.drop_first();
    if batches.len() == 1 {
        assert(rest.len() == 0);
        assert(batch_items(rest) =~= Seq::<T>::empty());
        assert(batches[0].0 + Seq::<T>::empty() =~= batches[0].0);
        assert(drive_search(first, rest) == (Seq::<T>::empty(), first, 0nat));
    } else {
        assert(batches[0].0.len() > 0);
        lemma_drive_search_buffer(first, rest);
        assert forall|i: int| 0 <= i < rest.len() - 1 implies #[trigger] rest[i].0.len() > 0 by {
            assert(0 <= i + 1 < batches.len() - 1);
            assert(rest[i] == batches[i + 1]);
        }
        lemma_search_drains_all_pages(SearchState { buffer: Seq::<T>::empty(), ..first }, rest);
    }
}

} // verus!
