//! The cursor-linked listing engine.
//!
//! A `CursorIter` walks a listing that the service hands out one page at a
//! time, each page naming the cursor of the next; a next cursor of zero ends
//! the listing. Items are handed out one at a time, in the order the service
//! gave them, and a page is fetched only when the previous one is drained.
use vstd::prelude::*;
use crate::error::{ConfigError, FetchError, ListingError};
use crate::params::{Param, decimal, decimal_string, param};
use crate::request::{Endpoint, Method, Request, RequestView, UserID, account_params, add_name_param};

verus! {

/// The rate-limit counters that the service reported with a response.
#[derive(Clone, Copy, Debug, PartialEq, Eq, Structural)]
pub struct RateLimit {
    pub limit: i32,
    pub remaining: i32,
    pub reset: i32,
}

/// A decoded value together with the rate-limit counters of the response it
/// came from.
#[derive(Clone, Debug)]
pub struct Response<T> {
    pub rate_limit: RateLimit,
    pub response: T,
}

/// One page of a cursored listing.
pub struct Page<T> {
    pub items: Vec<T>,
    pub previous_cursor: i64,
    pub next_cursor: i64,
    pub rate_limit: RateLimit,
}

/// The contents of a page.
pub ghost struct PageView<T> {
    pub items: Seq<T>,
    pub previous_cursor: i64,
    pub next_cursor: i64,
    pub rate_limit: RateLimit,
}

impl<T> View for Page<T> {
    type V = PageView<T>;

    open spec fn view(&self) -> PageView<T> {
        PageView {
            items: self.items@,
            previous_cursor: self.previous_cursor,
            next_cursor: self.next_cursor,
            rate_limit: self.rate_limit,
        }
    }
}

/// The state of a cursored listing.
pub ghost struct CursorState<T> {
    pub endpoint: Endpoint,
    pub account: Option<UserID>,
    pub page_size: Option<u32>,
    /// The cursor of the next page to fetch.
    pub cursor: i64,
    pub previous_cursor: i64,
    /// Whether a page has been received.
    pub started: bool,
    /// Items of the last page not handed out yet, front first.
    pub buffer: Seq<T>,
    /// The counters of the response that the buffered items came from.
    pub rate_limit: RateLimit,
}

/// What one call of `next_step` asks of its caller.
pub enum Step<T> {
    /// The next item, with no request made.
    Item(Response<T>),
    /// Send this request, and hand the page that comes back to
    /// `accept_page`. On failure, call `next_step` again to retry.
    Fetch(Request),
    /// The listing has ended.
    Exhausted,
}

/// Performs one request for one page. The listing engine decides what to
/// ask for; an implementation sends it and decodes the answer.
pub trait PageSource<T> {
    fn fetch(&mut self, request: &Request) -> Result<Page<T>, FetchError>;
}

/// How many pages in a row may come back empty, with a non-zero cursor,
/// within one call of `produce_next`.
pub const MAX_EMPTY_PAGES: u32 = 100;

/// The counters of a listing that has received no response yet.
pub open spec fn no_limits() -> RateLimit {
    RateLimit { limit: 0, remaining: 0, reset: 0 }
}

/// A listing on which nothing has been fetched yet.
pub open spec fn fresh_state<T>(endpoint: Endpoint, account: Option<UserID>, page_size: Option<u32>) -> CursorState<T> {
    CursorState {
        endpoint,
        account,
        page_size,
        cursor: 0,
        previous_cursor: 0,
        started: false,
        buffer: Seq::empty(),
        rate_limit: no_limits(),
    }
}

/// The listing has ended: a page said that nothing follows, and its items
/// have all been handed out.
pub open spec fn exhausted<T>(s: CursorState<T>) -> bool {
    s.buffer.len() == 0 && s.started && s.cursor == 0
}

/// The next step needs a page from the service.
pub open spec fn awaiting_fetch<T>(s: CursorState<T>) -> bool {
    s.buffer.len() == 0 && !exhausted(s)
}

/// The state after the front item is handed out.
pub open spec fn after_take<T>(s: CursorState<T>) -> CursorState<T> {
    CursorState { buffer: s.buffer.drop_first(), ..s }
}

/// The state after a page has been received.
pub open spec fn after_page<T>(s: CursorState<T>, p: PageView<T>) -> CursorState<T> {
    CursorState {
        cursor: p.next_cursor,
        previous_cursor: p.previous_cursor,
        started: true,
        buffer: p.items,
        rate_limit: p.rate_limit,
        ..s
    }
}

/// The state after several pages have been received in turn.
pub open spec fn after_pages<T>(s: CursorState<T>, pages: Seq<PageView<T>>) -> CursorState<T>
    decreases pages.len(),
{
    if pages.len() == 0 {
        s
    } else {
        after_pages(after_page(s, pages[0]), pages.drop_first())
    }
}

/// The request for the next page: the account, if the listing has one; the
/// cursor, except on the first request; the page size, if one is set.
pub open spec fn page_request<T>(s: CursorState<T>) -> RequestView {
    RequestView {
        method: Method::Get,
        endpoint: s.endpoint,
        params: (match s.account {
            Some(a) => account_params(a),
            None => Seq::empty(),
        }) + (if s.started {
            seq![("cursor"@, decimal(s.cursor as int))]
        } else {
            Seq::empty()
        }) + (match s.page_size {
            Some(n) => seq![("count"@, decimal(n as int))],
            None => Seq::empty(),
        }),
    }
}

/// The item handed out from the front of the buffer.
pub open spec fn front_item<T>(s: CursorState<T>) -> Response<T> {
    Response { rate_limit: s.rate_limit, response: s.buffer[0] }
}

/// What one call of `produce_next` did: it received `pages` in turn, at
/// most `MAX_EMPTY_PAGES` of them, fetching only while a page was awaited, so
/// that every page but perhaps the last was empty and named a next page.
/// Then it handed out the front item, reported the end, or stopped on an
/// error with a page still to fetch: the limit error exactly when it had
/// received `MAX_EMPTY_PAGES` pages, else an error of the page source.
pub open spec fn produced_by<T>(
    s: CursorState<T>,
    pages: Seq<PageView<T>>,
    r: Option<Result<Response<T>, ListingError>>,
    t: CursorState<T>,
) -> bool {
    let reached = after_pages(s, pages);
    &&& pages.len() <= MAX_EMPTY_PAGES
    &&& pages.len() > 0 ==> awaiting_fetch(s)
    &&& forall|i: int| 0 <= i < pages.len() - 1
        ==> #[trigger] pages[i].items.len() == 0 && pages[i].next_cursor != 0
    &&& match r {
        Some(Ok(resp)) => reached.buffer.len() > 0 && resp == front_item(reached) && t == after_take(reached),
        Some(Err(e)) => awaiting_fetch(reached) && t == reached
            && ((e is TooManyEmptyPages) <==> pages.len() == MAX_EMPTY_PAGES),
        None => exhausted(reached) && t == reached,
    }
}

/// Receiving one page more is one more step from where the others led.
pub proof fn lemma_after_pages_push<T>(s: CursorState<T>, pages: Seq<PageView<T>>, p: PageView<T>)
    ensures
        after_pages(s, pages.push(p)) == after_page(after_pages(s, pages), p),
    decreases pages.len(),
{
    let longer = pages.push(p);
    assert(longer.drop_first().len() == pages.len());
    if pages.len() > 0 {
        lemma_after_pages_push(after_page(s, pages[0]), pages.drop_first(), p);
        assert(longer.drop_first() =~= pages.drop_first().push(p));
        assert(longer[0] == pages[0]);
    } else {
        assert(longer.drop_first() =~= Seq::<PageView<T>>::empty());
        assert(after_pages(after_page(s, p), longer.drop_first()) == after_page(s, p));
    }
}

/// Walks a cursored listing one item at a time.
pub struct CursorIter<T> {
    endpoint: Endpoint,
    account: Option<UserID>,
    page_size: Option<u32>,
    next_cursor: i64,
    previous_cursor: i64,
    started: bool,
    buffer: Vec<T>,
    rate_limit: RateLimit,
}

impl<T> View for CursorIter<T> {
    type V = CursorState<T>;

    closed spec fn view(&self) -> CursorState<T> {
        CursorState {
            endpoint: self.endpoint,
            account: self.account,
            page_size: self.page_size,
            cursor: self.next_cursor,
            previous_cursor: self.previous_cursor,
            started: self.started,
            buffer: self.buffer@,
            rate_limit: self.rate_limit,
        }
    }
}

impl<T> CursorIter<T> {
    /// A listing of `endpoint`, about `account` where the endpoint takes
    /// one, asking for `page_size` items per page where given.
    pub fn new(endpoint: Endpoint, account: Option<UserID>, page_size: Option<u32>) -> (r: Self)
        ensures
            r@ == fresh_state::<T>(endpoint, account, page_size),
    {
        CursorIter {
            endpoint,
            account,
            page_size,
            next_cursor: 0,
            previous_cursor: 0,
            started: false,
            buffer: Vec::new(),
            rate_limit: RateLimit { limit: 0, remaining: 0, reset: 0 },
        }
    }

    /// Sets the page size. Refused once a page has been received, as the
    /// listing is then mid-way and its cursors belong to the old size.
    pub fn with_page_size(&mut self, page_size: u32) -> (r: Result<(), ConfigError>)
        ensures
            old(self)@.started ==> r == Err::<(), ConfigError>(ConfigError::AlreadyStarted)
                && final(self)@ == old(self)@,
            !old(self)@.started ==> r is Ok
                && final(self)@ == (CursorState { page_size: Some(page_size), ..old(self)@ }),
    {
        if self.started {
            Err(ConfigError::AlreadyStarted)
        } else {
            self.page_size = Some(page_size);
            Ok(())
        }
    }

    /// The page size asked for, if any.
    pub fn page_size(&self) -> (r: Option<u32>)
        ensures
            r == self@.page_size,
    {
        self.page_size
    }

    /// The cursor of the next page; zero before the first page and after
    /// the last.
    pub fn next_cursor(&self) -> (r: i64)
        ensures
            r == self@.cursor,
    {
        self.next_cursor
    }

    /// The previous cursor of the last page received.
    pub fn previous_cursor(&self) -> (r: i64)
        ensures
            r == self@.previous_cursor,
    {
        self.previous_cursor
    }

    /// The request for the next page.
    pub fn page_request(&self) -> (r: Request)
        ensures
            r@ == page_request(self@),
    {
        let mut params: Vec<Param> = Vec::new();
        match &self.account {
            Some(acct) => add_name_param(&mut params, acct),
            None => {},
        }
        if self.started {
            params.push(param("cursor", decimal_string(self.next_cursor)));
        }
        match self.page_size {
            Some(n) => params.push(param("count", decimal_string(n as i64))),
            None => {},
        }
        let r = Request { method: Method::Get, endpoint: self.endpoint, params };
        assert(r@.params =~= page_request(self@).params);
        r
    }

    fn take_front(&mut self) -> (r: Response<T>)
        requires
            old(self)@.buffer.len() > 0,
        ensures
            r == front_item(old(self)@),
            final(self)@ == after_take(old(self)@),
    {
        let item = self.buffer.remove(0);
        assert(self.buffer@ =~= old(self)@.buffer.drop_first());
        Response { rate_limit: self.rate_limit, response: item }
    }

    /// Decides the next step: hand out a buffered item, ask for a page, or
    /// report the end of the listing. Only handing out an item changes the
    /// listing, so after a failed request the same request comes again.
    pub fn next_step(&mut self) -> (r: Step<T>)
        ensures
            old(self)@.buffer.len() > 0 ==> r == Step::Item(front_item(old(self)@))
                && final(self)@ == after_take(old(self)@),
            exhausted(old(self)@) ==> r is Exhausted && final(self)@ == old(self)@,
            awaiting_fetch(old(self)@) ==> (r matches Step::Fetch(req) && req@ == page_request(old(self)@))
                && final(self)@ == old(self)@,
    {
        if self.buffer.len() > 0 {
            Step::Item(self.take_front())
        } else if self.started && self.next_cursor == 0 {
            Step::Exhausted
        } else {
            Step::Fetch(self.page_request())
        }
    }

    /// Takes in the page that answered the last request. Its items become
    /// the buffer, and its next cursor the position of the listing.
    pub fn accept_page(&mut self, page: Page<T>)
        requires
            awaiting_fetch(old(self)@),
        ensures
            final(self)@ == after_page(old(self)@, page@),
    {
        self.next_cursor = page.next_cursor;
        self.previous_cursor = page.previous_cursor;
        self.started = true;
        self.rate_limit = page.rate_limit;
        self.buffer = page.items;
    }

    /// Produces the next item of the listing, fetching pages from `source`
    /// as needed: `None` once the listing has ended, an error when a fetch
    /// failed. A page that comes back empty with a non-zero cursor is not an
    /// end: the next page is fetched at once, up to `MAX_EMPTY_PAGES` in a
    /// row, after which `ListingError::TooManyEmptyPages` comes back. An
    /// error leaves the listing waiting for the page it asked for, so calling
    /// again retries the same request.
    pub fn produce_next<S: PageSource<T>>(&mut self, source: &mut S) -> (r: Option<Result<Response<T>, ListingError>>)
        ensures
            old(self)@.buffer.len() > 0 ==> r == Some(Ok::<Response<T>, ListingError>(front_item(old(self)@)))
                && final(self)@ == after_take(old(self)@),
            exhausted(old(self)@) ==> r is None && final(self)@ == old(self)@,
            exists|pages: Seq<PageView<T>>| produced_by(old(self)@, pages, r, final(self)@),
    {
        let ghost start = self@;
        let ghost mut pages: Seq<PageView<T>> = Seq::empty();
        let mut fetched: u32 = 0;
        loop
            invariant
                start == old(self)@,
                fetched <= MAX_EMPTY_PAGES,
                exhausted(start) ==> fetched == 0,
                pages.len() == fetched,
                self@ == after_pages(start, pages),
                forall|i: int| 0 <= i < pages.len() ==> #[trigger] pages[i].items.len() == 0,
                forall|i: int| 0 <= i < pages.len() - 1 ==> #[trigger] pages[i].next_cursor != 0,
                fetched > 0 ==> awaiting_fetch(start) && self@.buffer.len() == 0
                    && self@.started && self@.cursor == pages.last().next_cursor,
            decreases MAX_EMPTY_PAGES - fetched,
        {
            if self.buffer.len() > 0 {
                let resp = self.take_front();
                assert(produced_by(start, pages, Some(Ok(resp)), self@));
                return Some(Ok(resp));
            }
            if self.started && self.next_cursor == 0 {
                assert(produced_by(start, pages, None, self@));
                return None;
            }
            if fetched >= MAX_EMPTY_PAGES {
                assert(produced_by(start, pages, Some(Err(ListingError::TooManyEmptyPages)), self@));
                return Some(Err(ListingError::TooManyEmptyPages));
            }
            let request = self.page_request();
            match source.fetch(&request) {
                Err(e) => {
                    assert(awaiting_fetch(self@));
                    assert(produced_by(start, pages, Some(Err(ListingError::Fetch(e))), self@));
                    return Some(Err(ListingError::Fetch(e)));
                },
                Ok(page) => {
                    let empty = page.items.len() == 0;
                    proof {
                        lemma_after_pages_push(start, pages, page@);
                    }
                    let ghost before = pages;
                    proof {
                        pages = pages.push(page@);
                        assert forall|i: int| 0 <= i < pages.len() - 1 implies #[trigger] pages[i].items.len() == 0
                            && pages[i].next_cursor != 0 by {
                            assert(pages[i] == before[i]);
                            if i == before.len() - 1 {
                                assert(before[i] == before.last());
                            }
                        }
                    }
                    self.accept_page(page);
                    if !empty {
                        let resp = self.take_front();
                        assert(produced_by(start, pages, Some(Ok(resp)), self@));
                        return Some(Ok(resp));
                    }
                    fetched = fetched + 1;
                }
            }
        }
    }
}

} // verus!
