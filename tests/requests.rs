use egg_mode_user::cursor::{RateLimit, Response};
use egg_mode_user::error::{ConfigError, FetchError};
use egg_mode_user::params::{bool_string, decimal_string, join_ids, join_names};
use egg_mode_user::request::{Endpoint, Method, Request, UserID};
use egg_mode_user::search::{SearchSource, SearchStep, UserSearch};
use egg_mode_user::user::{
    follow, followers_ids, friends_no_retweets, incoming_requests, lookup, lookup_ids, lookup_names, mutes,
    mutes_ids, outgoing_requests, relation, relation_lookup, search, show, unfollow, update_follow,
};

fn pairs(req: &Request) -> Vec<(String, String)> {
    req.params.iter().map(|p| (p.key.clone(), p.value.clone())).collect()
}

fn kv(k: &str, v: &str) -> (String, String) {
    (k.to_string(), v.to_string())
}

#[test]
fn decimal_rendering() {
    assert_eq!(decimal_string(0), "0");
    assert_eq!(decimal_string(7), "7");
    assert_eq!(decimal_string(-42), "-42");
    assert_eq!(decimal_string(1234567890), "1234567890");
    assert_eq!(decimal_string(i64::MAX), "9223372036854775807");
    assert_eq!(decimal_string(i64::MIN), "-9223372036854775808");
    assert_eq!(bool_string(true), "true");
    assert_eq!(bool_string(false), "false");
}

#[test]
fn joining_with_commas() {
    assert_eq!(join_ids(&[]), "");
    assert_eq!(join_ids(&[5]), "5");
    assert_eq!(join_ids(&[1, -2, 30]), "1,-2,30");
    assert_eq!(join_names(&["a", "bc"]), "a,bc");
    assert_eq!(join_names(&[]), "");
}

#[test]
fn lookup_by_ids_and_names() {
    let r = lookup_ids(&[10, 20]);
    assert_eq!(r.method, Method::Post);
    assert_eq!(r.endpoint, Endpoint::UsersLookup);
    assert_eq!(pairs(&r), vec![kv("user_id", "10,20")]);
    let r = lookup_names(&["rustlang", "verus"]);
    assert_eq!(pairs(&r), vec![kv("screen_name", "rustlang,verus")]);
    assert_eq!(r.endpoint.url(), "https://api.twitter.com/1.1/users/lookup.json");
}

#[test]
fn mixed_lookup_splits_ids_and_names() {
    let accts = vec![
        UserID::ID(1),
        UserID::ScreenName("a".to_string()),
        UserID::ID(2),
        UserID::ScreenName("b".to_string()),
    ];
    let r = lookup(&accts);
    assert_eq!(r.method, Method::Post);
    assert_eq!(pairs(&r), vec![kv("user_id", "1,2"), kv("screen_name", "a,b")]);
    let r = relation_lookup(&accts);
    assert_eq!(r.method, Method::Get);
    assert_eq!(r.endpoint, Endpoint::FriendshipLookup);
    assert_eq!(pairs(&r), vec![kv("user_id", "1,2"), kv("screen_name", "a,b")]);
    let only_names = lookup(&[UserID::ScreenName("x".to_string())]);
    assert_eq!(pairs(&only_names), vec![kv("user_id", ""), kv("screen_name", "x")]);
}

#[test]
fn single_account_requests() {
    let r = show(UserID::ScreenName("rustlang".to_string()));
    assert_eq!((r.method, r.endpoint), (Method::Get, Endpoint::UsersShow));
    assert_eq!(pairs(&r), vec![kv("screen_name", "rustlang")]);
    let r = unfollow(UserID::ID(99));
    assert_eq!((r.method, r.endpoint), (Method::Post, Endpoint::FriendshipDestroy));
    assert_eq!(pairs(&r), vec![kv("user_id", "99")]);
    let r = follow(UserID::ID(5), true);
    assert_eq!((r.method, r.endpoint), (Method::Post, Endpoint::FriendshipCreate));
    assert_eq!(pairs(&r), vec![kv("user_id", "5"), kv("follow", "true")]);
    let r = friends_no_retweets();
    assert_eq!((r.method, r.endpoint), (Method::Get, Endpoint::FriendsNoRetweets));
    assert!(r.params.is_empty());
    assert_eq!(r.endpoint.url(), "https://api.twitter.com/1.1/friendships/no_retweets/ids.json");
}

#[test]
fn relation_between_two_accounts() {
    let r = relation(UserID::ID(1), UserID::ScreenName("b".to_string()));
    assert_eq!((r.method, r.endpoint), (Method::Get, Endpoint::FriendshipShow));
    assert_eq!(pairs(&r), vec![kv("source_id", "1"), kv("target_screen_name", "b")]);
    let r = relation(UserID::ScreenName("a".to_string()), UserID::ID(2));
    assert_eq!(pairs(&r), vec![kv("source_screen_name", "a"), kv("target_id", "2")]);
}

#[test]
fn update_follow_sends_given_settings_only() {
    let r = update_follow(UserID::ID(3), None, None);
    assert_eq!(pairs(&r), vec![kv("user_id", "3")]);
    let r = update_follow(UserID::ID(3), Some(true), Some(false));
    assert_eq!(pairs(&r), vec![kv("user_id", "3"), kv("device", "true"), kv("retweets", "false")]);
    let r = update_follow(UserID::ScreenName("n".to_string()), None, Some(true));
    assert_eq!(pairs(&r), vec![kv("screen_name", "n"), kv("retweets", "true")]);
    assert_eq!(r.endpoint, Endpoint::FriendshipUpdate);
}

#[test]
fn listing_constructors() {
    let it = followers_ids(UserID::ScreenName("q".to_string()));
    assert_eq!(pairs(&it.page_request()), vec![kv("screen_name", "q"), kv("count", "500")]);
    assert_eq!(it.page_request().endpoint, Endpoint::FollowersIds);
    assert_eq!(mutes::<String>().page_request().endpoint, Endpoint::MutesList);
    assert_eq!(mutes_ids().page_request().endpoint, Endpoint::MutesIds);
    assert_eq!(incoming_requests().page_request().endpoint, Endpoint::FriendshipsIncoming);
    assert_eq!(outgoing_requests().page_request().endpoint, Endpoint::FriendshipsOutgoing);
    assert!(pairs(&incoming_requests().page_request()).is_empty());
}

struct Results {
    pages: Vec<Vec<String>>,
    fail_next: bool,
    requests: Vec<Request>,
}

impl SearchSource<String> for Results {
    fn fetch(&mut self, request: &Request) -> Result<Response<Vec<String>>, FetchError> {
        self.requests.push(request.clone());
        if self.fail_next {
            self.fail_next = false;
            return Err(FetchError::Transport("reset".to_string()));
        }
        let items = self.pages.remove(0);
        Ok(Response { rate_limit: RateLimit { limit: 900, remaining: 5, reset: 0 }, response: items })
    }
}

fn strings(v: &[&str]) -> Vec<String> {
    v.iter().map(|s| s.to_string()).collect()
}

#[test]
fn search_walks_numbered_pages() {
    let mut s: UserSearch<String> = search("rust");
    assert_eq!(s.page_num(), 1);
    assert_eq!(s.page_size(), 10);
    assert_eq!(pairs(&s.page_request()), vec![kv("q", "rust"), kv("page", "1"), kv("count", "10")]);
    assert_eq!(s.with_page_size(2), Ok(()));
    let mut src = Results { pages: vec![strings(&["a", "b"]), strings(&["c"]), vec![]], fail_next: false, requests: vec![] };
    let mut out = Vec::new();
    while let Some(r) = s.produce_next(&mut src) {
        out.push(r.unwrap().response);
    }
    assert_eq!(out, vec!["a", "b", "c"]);
    assert!(s.produce_next(&mut src).is_none());
    let pages: Vec<Vec<(String, String)>> = src.requests.iter().map(pairs).collect();
    assert_eq!(pages, vec![
        vec![kv("q", "rust"), kv("page", "1"), kv("count", "2")],
        vec![kv("q", "rust"), kv("page", "2"), kv("count", "2")],
        vec![kv("q", "rust"), kv("page", "3"), kv("count", "2")],
    ]);
    assert_eq!(s.with_page_size(4), Err(ConfigError::AlreadyStarted));
    assert_eq!(s.page_size(), 2);
}

#[test]
fn search_retries_after_failure() {
    let mut s: UserSearch<String> = UserSearch::new("q");
    let mut src = Results { pages: vec![strings(&["x"]), vec![]], fail_next: true, requests: vec![] };
    assert!(matches!(s.produce_next(&mut src), Some(Err(FetchError::Transport(_)))));
    assert_eq!(s.page_num(), 1);
    assert_eq!(s.produce_next(&mut src).unwrap().unwrap().response, "x");
    assert_eq!(pairs(&src.requests[0]), pairs(&src.requests[1]));
    assert!(s.produce_next(&mut src).is_none());
}

#[test]
fn search_through_steps() {
    let mut s: UserSearch<String> = UserSearch::new("v");
    assert!(matches!(s.next_step(), SearchStep::Fetch(_)));
    s.accept_page(strings(&["p"]), RateLimit { limit: 1, remaining: 1, reset: 1 });
    assert_eq!(s.page_num(), 2);
    match s.next_step() {
        SearchStep::Item(r) => assert_eq!(r.response, "p"),
        _ => panic!("expected an item"),
    }
    s.accept_page(vec![], RateLimit { limit: 1, remaining: 0, reset: 1 });
    assert!(matches!(s.next_step(), SearchStep::Exhausted));
}
