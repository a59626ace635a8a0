use egg_mode_user::cursor::{CursorIter, Page, PageSource, RateLimit, Step, MAX_EMPTY_PAGES};
use egg_mode_user::error::{ConfigError, FetchError, ListingError};
use egg_mode_user::request::{Endpoint, Method, Request, UserID};
use egg_mode_user::user::{blocks, blocks_ids, followers_of, friends_ids, friends_of};

fn pairs(req: &Request) -> Vec<(String, String)> {
    req.params.iter().map(|p| (p.key.clone(), p.value.clone())).collect()
}

fn kv(k: &str, v: &str) -> (String, String) {
    (k.to_string(), v.to_string())
}

fn limits(n: i32) -> RateLimit {
    RateLimit { limit: 15, remaining: n, reset: 1000 }
}

fn page(items: &[&str], next: i64) -> Page<String> {
    Page {
        items: items.iter().map(|s| s.to_string()).collect(),
        previous_cursor: 0,
        next_cursor: next,
        rate_limit: limits(items.len() as i32),
    }
}

/// Answers each request with the next scripted outcome and records it.
struct Script {
    outcomes: Vec<Result<Page<String>, FetchError>>,
    requests: Vec<Request>,
}

impl Script {
    fn new(outcomes: Vec<Result<Page<String>, FetchError>>) -> Script {
        Script { outcomes, requests: Vec::new() }
    }
}

impl PageSource<String> for Script {
    fn fetch(&mut self, request: &Request) -> Result<Page<String>, FetchError> {
        self.requests.push(request.clone());
        if self.outcomes.is_empty() {
            panic!("no page was expected");
        }
        self.outcomes.remove(0)
    }
}

fn cursor_of(req: &Request) -> Option<String> {
    req.params.iter().find(|p| p.key == "cursor").map(|p| p.value.clone())
}

fn next_item(it: &mut CursorIter<String>, src: &mut Script) -> Option<String> {
    match it.produce_next(src) {
        Some(Ok(r)) => Some(r.response),
        Some(Err(e)) => panic!("unexpected error {:?}", e),
        None => None,
    }
}

#[test]
fn three_pages_with_an_empty_middle_page() {
    let mut it: CursorIter<String> = CursorIter::new(Endpoint::FollowersList, None, None);
    assert_eq!(it.with_page_size(2), Ok(()));
    let mut src = Script::new(vec![Ok(page(&["a", "b"], 10)), Ok(page(&[], 20)), Ok(page(&["c"], 0))]);
    assert_eq!(next_item(&mut it, &mut src), Some("a".to_string()));
    assert_eq!(next_item(&mut it, &mut src), Some("b".to_string()));
    assert_eq!(next_item(&mut it, &mut src), Some("c".to_string()));
    assert_eq!(next_item(&mut it, &mut src), None);
    assert_eq!(next_item(&mut it, &mut src), None);
    assert_eq!(src.requests.len(), 3);
    let cursors: Vec<Option<String>> = src.requests.iter().map(cursor_of).collect();
    assert_eq!(cursors, vec![None, Some("10".to_string()), Some("20".to_string())]);
    for req in &src.requests {
        assert!(pairs(req).contains(&kv("count", "2")));
        assert_eq!(req.method, Method::Get);
        assert_eq!(req.endpoint, Endpoint::FollowersList);
    }
}

#[test]
fn three_pages_through_steps() {
    let mut it: CursorIter<String> = CursorIter::new(Endpoint::FollowersList, None, Some(2));
    let mut pages = vec![page(&["a", "b"], 10), page(&[], 20), page(&["c"], 0)];
    let mut out = Vec::new();
    let mut cursors = Vec::new();
    loop {
        match it.next_step() {
            Step::Item(r) => out.push(r.response),
            Step::Fetch(req) => {
                cursors.push(cursor_of(&req));
                it.accept_page(pages.remove(0));
            }
            Step::Exhausted => break,
        }
    }
    assert_eq!(out, vec!["a", "b", "c"]);
    assert_eq!(cursors, vec![None, Some("10".to_string()), Some("20".to_string())]);
    assert!(matches!(it.next_step(), Step::Exhausted));
}

#[test]
fn all_pages_concatenated_in_order() {
    let mut it: CursorIter<String> = CursorIter::new(Endpoint::FriendsList, None, None);
    let mut src = Script::new(vec![
        Ok(page(&["1", "2", "3"], 7)),
        Ok(page(&["4"], 8)),
        Ok(page(&["5", "6"], 0)),
    ]);
    let mut out = Vec::new();
    while let Some(item) = next_item(&mut it, &mut src) {
        out.push(item);
    }
    assert_eq!(out, vec!["1", "2", "3", "4", "5", "6"]);
    assert_eq!(next_item(&mut it, &mut src), None);
    assert_eq!(src.requests.len(), 3);
}

#[test]
fn failed_fetch_is_retried_with_the_same_request() {
    let mut it = friends_of::<String>(UserID::ID(42));
    let mut src = Script::new(vec![
        Ok(page(&["a"], 55)),
        Err(FetchError::Transport("timeout".to_string())),
        Ok(page(&["b", "c"], 0)),
    ]);
    assert_eq!(next_item(&mut it, &mut src), Some("a".to_string()));
    let failed = it.produce_next(&mut src);
    assert!(matches!(failed, Some(Err(ListingError::Fetch(FetchError::Transport(_))))));
    assert_eq!(it.next_cursor(), 55);
    assert_eq!(next_item(&mut it, &mut src), Some("b".to_string()));
    assert_eq!(next_item(&mut it, &mut src), Some("c".to_string()));
    assert_eq!(next_item(&mut it, &mut src), None);
    assert_eq!(src.requests.len(), 3);
    assert_eq!(pairs(&src.requests[1]), pairs(&src.requests[2]));
    assert_eq!(
        pairs(&src.requests[2]),
        vec![kv("user_id", "42"), kv("cursor", "55"), kv("count", "20")]
    );
}

#[test]
fn failed_first_fetch_keeps_listing_unstarted() {
    let mut it: CursorIter<String> = CursorIter::new(Endpoint::BlocksList, None, None);
    let mut src = Script::new(vec![Err(FetchError::Decode("bad envelope".to_string())), Ok(page(&["x"], 0))]);
    assert!(matches!(it.produce_next(&mut src), Some(Err(ListingError::Fetch(FetchError::Decode(_))))));
    assert_eq!(it.with_page_size(3), Ok(()));
    assert_eq!(next_item(&mut it, &mut src), Some("x".to_string()));
    assert_eq!(cursor_of(&src.requests[1]), None);
    assert_eq!(pairs(&src.requests[1]), vec![kv("count", "3")]);
}

#[test]
fn page_size_fixed_after_first_page() {
    let mut it: CursorIter<String> = CursorIter::new(Endpoint::FriendsList, None, Some(20));
    assert_eq!(it.with_page_size(5), Ok(()));
    assert_eq!(it.page_size(), Some(5));
    let mut src = Script::new(vec![Ok(page(&["a", "b"], 3))]);
    assert_eq!(next_item(&mut it, &mut src), Some("a".to_string()));
    assert_eq!(it.with_page_size(9), Err(ConfigError::AlreadyStarted));
    assert_eq!(it.page_size(), Some(5));
    assert_eq!(next_item(&mut it, &mut src), Some("b".to_string()));
}

#[test]
fn empty_page_with_cursor_continues() {
    let mut it: CursorIter<String> = CursorIter::new(Endpoint::FollowersList, None, None);
    let mut src = Script::new(vec![Ok(page(&[], 4)), Ok(page(&[], 6)), Ok(page(&["z"], 0))]);
    assert_eq!(next_item(&mut it, &mut src), Some("z".to_string()));
    assert_eq!(src.requests.len(), 3);
    assert_eq!(cursor_of(&src.requests[2]), Some("6".to_string()));
}

#[test]
fn empty_page_with_zero_cursor_ends() {
    let mut it: CursorIter<String> = CursorIter::new(Endpoint::MutesList, None, None);
    let mut src = Script::new(vec![Ok(page(&[], 0))]);
    assert_eq!(next_item(&mut it, &mut src), None);
    assert_eq!(next_item(&mut it, &mut src), None);
    assert_eq!(src.requests.len(), 1);
}

#[test]
fn endless_empty_pages_are_cut_off() {
    let mut it: CursorIter<String> = CursorIter::new(Endpoint::FollowersList, None, None);
    let mut outcomes = Vec::new();
    for _ in 0..MAX_EMPTY_PAGES {
        outcomes.push(Ok(page(&[], 9)));
    }
    outcomes.push(Ok(page(&["late"], 0)));
    let mut src = Script::new(outcomes);
    assert!(matches!(it.produce_next(&mut src), Some(Err(ListingError::TooManyEmptyPages))));
    assert_eq!(src.requests.len(), MAX_EMPTY_PAGES as usize);
    assert_eq!(next_item(&mut it, &mut src), Some("late".to_string()));
    assert_eq!(next_item(&mut it, &mut src), None);
}

#[test]
fn items_carry_their_page_rate_limit() {
    let mut it: CursorIter<String> = CursorIter::new(Endpoint::FollowersList, None, None);
    let mut src = Script::new(vec![Ok(page(&["a", "b"], 1)), Ok(page(&["c"], 0))]);
    let first = it.produce_next(&mut src).unwrap().unwrap();
    assert_eq!(first.rate_limit, limits(2));
    let _ = it.produce_next(&mut src);
    let third = it.produce_next(&mut src).unwrap().unwrap();
    assert_eq!(third.response, "c");
    assert_eq!(third.rate_limit, limits(1));
}

#[test]
fn screen_name_selector_sends_only_screen_name() {
    let it = friends_of::<String>(UserID::ScreenName("rustlang".to_string()));
    let req = it.page_request();
    assert_eq!(pairs(&req), vec![kv("screen_name", "rustlang"), kv("count", "20")]);
    assert!(!pairs(&req).iter().any(|(k, _)| k == "user_id"));
    assert_eq!(req.endpoint.url(), "https://api.twitter.com/1.1/friends/list.json");
}

#[test]
fn numeric_selector_sends_only_user_id() {
    let it = friends_ids(UserID::ID(12345));
    let req = it.page_request();
    assert_eq!(pairs(&req), vec![kv("user_id", "12345"), kv("count", "500")]);
    assert!(!pairs(&req).iter().any(|(k, _)| k == "screen_name"));
    let it: CursorIter<String> = followers_of(UserID::ID(-3));
    assert_eq!(pairs(&it.page_request()), vec![kv("user_id", "-3"), kv("count", "20")]);
}

#[test]
fn listing_without_selector_omits_it() {
    let mut it: CursorIter<String> = blocks();
    let mut src = Script::new(vec![Ok(page(&["a"], 31)), Ok(page(&["b"], 0))]);
    assert_eq!(next_item(&mut it, &mut src), Some("a".to_string()));
    assert_eq!(next_item(&mut it, &mut src), Some("b".to_string()));
    assert_eq!(next_item(&mut it, &mut src), None);
    for req in &src.requests {
        assert!(!pairs(req).iter().any(|(k, _)| k == "user_id" || k == "screen_name"));
        assert!(!pairs(req).iter().any(|(k, _)| k == "count"));
    }
    assert_eq!(pairs(&src.requests[0]), Vec::<(String, String)>::new());
    assert_eq!(pairs(&src.requests[1]), vec![kv("cursor", "31")]);
    let ids = blocks_ids();
    assert_eq!(ids.page_size(), None);
    assert_eq!(ids.page_request().endpoint, Endpoint::BlocksIds);
}

#[test]
fn cursors_are_recorded() {
    let mut it: CursorIter<String> = CursorIter::new(Endpoint::FollowersIds, None, None);
    assert_eq!(it.next_cursor(), 0);
    it.accept_page(Page { items: vec!["a".to_string()], previous_cursor: 17, next_cursor: 18, rate_limit: limits(0) });
    assert_eq!(it.previous_cursor(), 17);
    assert_eq!(it.next_cursor(), 18);
}

#[test]
fn source_error_passed_on_unchanged() {
    let mut it: CursorIter<String> = CursorIter::new(Endpoint::FollowersIds, None, None);
    let mut src = Script::new(vec![Ok(page(&[], 8)), Err(FetchError::Transport("503".to_string()))]);
    assert_eq!(
        it.produce_next(&mut src).map(|r| r.map(|x| x.response)),
        Some(Err(ListingError::Fetch(FetchError::Transport("503".to_string()))))
    );
    assert_eq!(it.next_cursor(), 8);
    assert_eq!(cursor_of(&it.page_request()), Some("8".to_string()));
}
