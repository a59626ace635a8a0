//! The page-numbered listing engine, used by user search.
//!
//! Pages are numbered from one; a page that comes back empty ends the
//! listing. Items are handed out one at a time in the order the service gave
//! them, and a page is fetched only when the previous one is drained.
use vstd::prelude::*;
use crate::cursor::{RateLimit, Response, no_limits};
use crate::error::{ConfigError, FetchError};
use crate::params::{Param, decimal, decimal_string, param};
use crate::request::{Endpoint, Method, Request, RequestView};

verus! {

/// The page size of a search that sets none.
pub const DEFAULT_SEARCH_PAGE_SIZE: u32 = 10;

/// The state of a page-numbered search.
pub ghost struct SearchState<T> {
    pub query: Seq<char>,
    /// The number of the next page to fetch.
    pub page_number: u32,
    pub page_size: u32,
    /// Whether a page has been received.
    pub started: bool,
    /// Whether no page follows the buffered items.
    pub last_page: bool,
    /// Items of the last page not handed out yet, front first.
    pub buffer: Seq<T>,
    pub rate_limit: RateLimit,
}

/// What one call of `next_step` asks of its caller.
pub enum SearchStep<T> {
    /// The next item, with no request made.
    Item(Response<T>),
    /// Send this request, and hand the items that come back to
    /// `accept_page`. On failure, call `next_step` again to retry.
    Fetch(Request),
    /// The search has ended.
    Exhausted,
}

/// Performs one request for one page of search results.
pub trait SearchSource<T> {
    fn fetch(&mut self, request: &Request) -> Result<Response<Vec<T>>, FetchError>;
}

/// A search on which nothing has been fetched yet.
pub open spec fn fresh_search<T>(query: Seq<char>) -> SearchState<T> {
    SearchState {
        query,
        page_number: 1,
        page_size: DEFAULT_SEARCH_PAGE_SIZE,
        started: false,
        last_page: false,
        buffer: Seq::empty(),
        rate_limit: no_limits(),
    }
}

pub open spec fn search_exhausted<T>(s: SearchState<T>) -> bool {
    s.buffer.len() == 0 && s.last_page
}

pub open spec fn search_awaiting<T>(s: SearchState<T>) -> bool {
    s.buffer.len() == 0 && !s.last_page
}

/// The request for the next page: the query, the page number and the page
/// size.
pub open spec fn search_request<T>(s: SearchState<T>) -> RequestView {
    RequestView {
        method: Method::Get,
        endpoint: Endpoint::UsersSearch,
        params: seq![
            ("q"@, s.query),
            ("page"@, decimal(s.page_number as int)),
            ("count"@, decimal(s.page_size as int)),
        ],
    }
}

pub open spec fn search_after_take<T>(s: SearchState<T>) -> SearchState<T> {
    SearchState { buffer: s.buffer.drop_first(), ..s }
}

/// The state after a page of `items` has been received. An empty page ends
/// the search; otherwise the page number moves on by one. The largest page
/// number has no successor, so a page received under it is the last.
pub open spec fn search_after_page<T>(s: SearchState<T>, items: Seq<T>, rate_limit: RateLimit) -> SearchState<T> {
    if items.len() == 0 {
        SearchState { started: true, last_page: true, ..s }
    } else if s.page_number == u32::MAX {
        SearchState { started: true, last_page: true, buffer: items, rate_limit, ..s }
    } else {
        SearchState {
            started: true,
            page_number: (s.page_number + 1) as u32,
            buffer: items,
            rate_limit,
            ..s
        }
    }
}

pub open spec fn search_front<T>(s: SearchState<T>) -> Response<T> {
    Response { rate_limit: s.rate_limit, response: s.buffer[0] }
}

/// What one call of `produce_next` did, given the page it received if it
/// made a request.
pub open spec fn search_produced<T>(
    s: SearchState<T>,
    page: Option<Response<Seq<T>>>,
    r: Option<Result<Response<T>, FetchError>>,
    t: SearchState<T>,
) -> bool {
    match page {
        None => match r {
            Some(Ok(resp)) => s.buffer.len() > 0 && resp == search_front(s) && t == search_after_take(s),
            Some(Err(_)) => search_awaiting(s) && t == s,
            None => search_exhausted(s) && t == s,
        },
        Some(p) => {
            let reached = search_after_page(s, p.response, p.rate_limit);
            &&& search_awaiting(s)
            &&& match r {
                Some(Ok(resp)) => p.response.len() > 0 && resp == search_front(reached)
                    && t == search_after_take(reached),
                Some(Err(_)) => false,
                None => p.response.len() == 0 && t == reached,
            }
        },
    }
}

/// Walks the results of a user search one item at a time.
pub struct UserSearch<T> {
    query: String,
    page_num: u32,
    page_size: u32,
    started: bool,
    last_page: bool,
    buffer: Vec<T>,
    rate_limit: RateLimit,
}

impl<T> View for UserSearch<T> {
    type V = SearchState<T>;

    closed spec fn view(&self) -> SearchState<T> {
        SearchState {
            query: self.query@,
            page_number: self.page_num,
            page_size: self.page_size,
            started: self.started,
            last_page: self.last_page,
            buffer: self.buffer@,
            rate_limit: self.rate_limit,
        }
    }
}

impl<T> UserSearch<T> {
    /// A search for `query`, from its first page.
    pub fn new(query: &str) -> (r: Self)
        ensures
            r@ == fresh_search::<T>(query@),
    {
        UserSearch {
            query: String::from_str(query),
            page_num: 1,
            page_size: DEFAULT_SEARCH_PAGE_SIZE,
            started: false,
            last_page: false,
            buffer: Vec::new(),
            rate_limit: RateLimit { limit: 0, remaining: 0, reset: 0 },
        }
    }

    /// Sets the page size. Refused once a page has been received.
    pub fn with_page_size(&mut self, page_size: u32) -> (r: Result<(), ConfigError>)
        ensures
            old(self)@.started ==> r == Err::<(), ConfigError>(ConfigError::AlreadyStarted)
                && final(self)@ == old(self)@,
            !old(self)@.started ==> r is Ok
                && final(self)@ == (SearchState { page_size, ..old(self)@ }),
    {
        if self.started {
            Err(ConfigError::AlreadyStarted)
        } else {
            self.page_size = page_size;
            Ok(())
        }
    }

    /// The number of the next page to fetch.
    pub fn page_num(&self) -> (r: u32)
        ensures
            r == self@.page_number,
    {
        self.page_num
    }

    /// The number of results asked for per page.
    pub fn page_size(&self) -> (r: u32)
        ensures
            r == self@.page_size,
    {
        self.page_size
    }

    /// The request for the next page.
    pub fn page_request(&self) -> (r: Request)
        ensures
            r@ == search_request(self@),
    {
        let mut params: Vec<Param> = Vec::new();
        params.push(param("q", self.query.clone()));
        params.push(param("page", decimal_string(self.page_num as i64)));
        params.push(param("count", decimal_string(self.page_size as i64)));
        let r = Request { method: Method::Get, endpoint: Endpoint::UsersSearch, params };
        assert(r@.params =~= search_request(self@).params);
        r
    }

    fn take_front(&mut self) -> (r: Response<T>)
        requires
            old(self)@.buffer.len() > 0,
        ensures
            r == search_front(old(self)@),
            final(self)@ == search_after_take(old(self)@),
    {
        let item = self.buffer.remove(0);
        assert(self.buffer@ =~= old(self)@.buffer.drop_first());
        Response { rate_limit: self.rate_limit, response: item }
    }

    /// Decides the next step: hand out a buffered item, ask for a page, or
    /// report the end of the search.
    pub fn next_step(&mut self) -> (r: SearchStep<T>)
        ensures
            old(self)@.buffer.len() > 0 ==> r == SearchStep::Item(search_front(old(self)@))
                && final(self)@ == search_after_take(old(self)@),
            search_exhausted(old(self)@) ==> r is Exhausted && final(self)@ == old(self)@,
            search_awaiting(old(self)@) ==> (r matches SearchStep::Fetch(req) && req@ == search_request(old(self)@))
                && final(self)@ == old(self)@,
    {
        if self.buffer.len() > 0 {
            SearchStep::Item(self.take_front())
        } else if self.last_page {
            SearchStep::Exhausted
        } else {
            SearchStep::Fetch(self.page_request())
        }
    }

    /// Takes in the items that answered the last request.
    pub fn accept_page(&mut self, items: Vec<T>, rate_limit: RateLimit)
        requires
            search_awaiting(old(self)@),
        ensures
            final(self)@ == search_after_page(old(self)@, items@, rate_limit),
    {
        self.started = true;
        if items.len() == 0 {
            self.last_page = true;
        } else {
            if self.page_num == u32::MAX {
                self.last_page = true;
            } else {
                self.page_num = self.page_num + 1;
            }
            self.buffer = items;
            self.rate_limit = rate_limit;
        }
    }

    /// Produces the next search result, fetching a page from `source` when
    /// the buffered ones are used up: `None` once the search has ended, an
    /// error when the fetch failed, which leaves the search where it was.
    pub fn produce_next<S: SearchSource<T>>(&mut self, source: &mut S) -> (r: Option<Result<Response<T>, FetchError>>)
        ensures
            old(self)@.buffer.len() > 0 ==> r == Some(Ok::<Response<T>, FetchError>(search_front(old(self)@)))
                && final(self)@ == search_after_take(old(self)@),
            search_exhausted(old(self)@) ==> r is None && final(self)@ == old(self)@,
            search_awaiting(old(self)@) && (r matches Some(Err(_))) ==> final(self)@ == old(self)@,
            exists|page: Option<Response<Seq<T>>>| search_produced(old(self)@, page, r, final(self)@),
    {
        let ghost start = self@;
        if self.buffer.len() > 0 {
            let resp = self.take_front();
            assert(search_produced(start, None, Some(Ok(resp)), self@));
            return Some(Ok(resp));
        }
        if self.last_page {
            assert(search_produced(start, None, None, self@));
            return None;
        }
        let request = self.page_request();
        match source.fetch(&request) {
            Err(e) => {
                assert(search_produced(start, None, Some(Err(e)), self@));
                Some(Err(e))
            },
            Ok(page) => {
                let ghost got = Response { rate_limit: page.rate_limit, response: page.response@ };
                let empty = page.response.len() == 0;
                self.accept_page(page.response, page.rate_limit);
                if empty {
                    assert(search_produced(start, Some(got), None, self@));
                    None
                } else {
                    let resp = self.take_front();
                    assert(search_produced(start, Some(got), Some(Ok(resp)), self@));
                    Some(Ok(resp))
                }
            },
        }
    }
}

} // verus!
