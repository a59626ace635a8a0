//! Requests about accounts, and the listings of an account's relations.
//!
//! Each one-shot call builds the request to send; the caller signs it, sends
//! it and decodes the answer. Each listing is returned as a `CursorIter` set
//! up for its endpoint.
use vstd::prelude::*;
use crate::cursor::{CursorIter, fresh_state};
use crate::params::{
    Param, bool_string, bool_text, comma_joined, decimal, decimal_string, join_ids, join_names, param,
    params_view, push_part,
};
use crate::request::{
    Endpoint, Method, Request, RequestView, UserID, account_params, add_name_param,
    add_selector_param, selector_params,
};
use crate::search::{UserSearch, fresh_search};

verus! {

/// The page size that the full-record listings ask for unless told otherwise.
pub const USER_PAGE_SIZE: u32 = 20;

/// The page size that the identifier listings ask for unless told otherwise.
pub const ID_PAGE_SIZE: u32 = 500;

/// The identifiers among `accts`, rendered in decimal, in order.
pub open spec fn id_texts(accts: Seq<UserID>) -> Seq<Seq<char>>
    decreases accts.len(),
{
    if accts.len() == 0 {
        Seq::empty()
    } else {
        let rest = id_texts(accts.drop_last());
        match accts.last() {
            UserID::ID(id) => rest.push(decimal(id as int)),
            UserID::ScreenName(_) => rest,
        }
    }
}

/// The screen names among `accts`, in order.
pub open spec fn name_texts(accts: Seq<UserID>) -> Seq<Seq<char>>
    decreases accts.len(),
{
    if accts.len() == 0 {
        Seq::empty()
    } else {
        let rest = name_texts(accts.drop_last());
        match accts.last() {
            UserID::ID(_) => rest,
            UserID::ScreenName(name) => rest.push(name@),
        }
    }
}

/// The parameters of a lookup of several accounts: the identifiers and the
/// names, each joined with commas.
pub open spec fn lookup_params(accts: Seq<UserID>) -> Seq<(Seq<char>, Seq<char>)> {
    seq![("user_id"@, comma_joined(id_texts(accts))), ("screen_name"@, comma_joined(name_texts(accts)))]
}

fn join_account_ids(accts: &[UserID]) -> (r: String)
    ensures
        r@ == comma_joined(id_texts(accts@)),
{
    let mut out = String::new();
    let mut first = true;
    let mut i: usize = 0;
    while i < accts.len()
        invariant
            i <= accts@.len(),
            out@ == comma_joined(id_texts(accts@.subrange(0, i as int))),
            first == (id_texts(accts@.subrange(0, i as int)).len() == 0),
        decreases accts@.len() - i,
    {
        let ghost done = id_texts(accts@.subrange(0, i as int));
        let ghost next = accts@.subrange(0, i + 1);
        assert(next.drop_last() =~= accts@.subrange(0, i as int));
        match &accts[i] {
            UserID::ID(id) => {
                let text = decimal_string(*id);
                push_part(&mut out, first, text.as_str(), Ghost(done));
                first = false;
            },
            UserID::ScreenName(_) => {},
        }
        i = i + 1;
    }
    assert(accts@.subrange(0, accts@.len() as int) =~= accts@);
    out
}

fn join_account_names(accts: &[UserID]) -> (r: String)
    ensures
        r@ == comma_joined(name_texts(accts@)),
{
    let mut out = String::new();
    let mut first = true;
    let mut i: usize = 0;
    while i < accts.len()
        invariant
            i <= accts@.len(),
            out@ == comma_joined(name_texts(accts@.subrange(0, i as int))),
            first == (name_texts(accts@.subrange(0, i as int)).len() == 0),
        decreases accts@.len() - i,
    {
        let ghost done = name_texts(accts@.subrange(0, i as int));
        let ghost next = accts@.subrange(0, i + 1);
        assert(next.drop_last() =~= accts@.subrange(0, i as int));
        match &accts[i] {
            UserID::ID(_) => {},
            UserID::ScreenName(name) => {
                push_part(&mut out, first, name.as_str(), Ghost(done));
                first = false;
            },
        }
        i = i + 1;
    }
    assert(accts@.subrange(0, accts@.len() as int) =~= accts@);
    out
}

fn lookup_request(method: Method, endpoint: Endpoint, accts: &[UserID]) -> (r: Request)
    ensures
        r@ == (RequestView { method, endpoint, params: lookup_params(accts@) }),
{
    let mut params: Vec<Param> = Vec::new();
    params.push(param("user_id", join_account_ids(accts)));
    params.push(param("screen_name", join_account_names(accts)));
    let r = Request { method, endpoint, params };
    assert(r@.params =~= lookup_params(accts@));
    r
}

/// Looks up several accounts by numeric identifier.
pub fn lookup_ids(ids: &[i64]) -> (r: Request)
    ensures
        r@ == (RequestView {
            method: Method::Post,
            endpoint: Endpoint::UsersLookup,
            params: seq![("user_id"@, comma_joined(ids@.map_values(|id: i64| decimal(id as int))))],
        }),
{
    let mut params: Vec<Param> = Vec::new();
    params.push(param("user_id", join_ids(ids)));
    let r = Request { method: Method::Post, endpoint: Endpoint::UsersLookup, params };
    assert(r@.params =~= seq![("user_id"@, comma_joined(ids@.map_values(|id: i64| decimal(id as int))))]);
    r
}

/// Looks up several accounts by screen name.
pub fn lookup_names(names: &[&str]) -> (r: Request)
    ensures
        r@ == (RequestView {
            method: Method::Post,
            endpoint: Endpoint::UsersLookup,
            params: seq![("screen_name"@, comma_joined(names@.map_values(|n: &str| n@)))],
        }),
{
    let mut params: Vec<Param> = Vec::new();
    params.push(param("screen_name", join_names(names)));
    let r = Request { method: Method::Post, endpoint: Endpoint::UsersLookup, params };
    assert(r@.params =~= seq![("screen_name"@, comma_joined(names@.map_values(|n: &str| n@)))]);
    r
}

/// Looks up several accounts, each given by identifier or by name.
pub fn lookup(accts: &[UserID]) -> (r: Request)
    ensures
        r@ == (RequestView { method: Method::Post, endpoint: Endpoint::UsersLookup, params: lookup_params(accts@) }),
{
    lookup_request(Method::Post, Endpoint::UsersLookup, accts)
}

/// Looks up the relations between the authenticated account and several
/// accounts.
pub fn relation_lookup(accts: &[UserID]) -> (r: Request)
    ensures
        r@ == (RequestView { method: Method::Get, endpoint: Endpoint::FriendshipLookup, params: lookup_params(accts@) }),
{
    lookup_request(Method::Get, Endpoint::FriendshipLookup, accts)
}

fn single_account_request(method: Method, endpoint: Endpoint, acct: &UserID) -> (r: Request)
    ensures
        r@ == (RequestView { method, endpoint, params: account_params(*acct) }),
{
    let mut params: Vec<Param> = Vec::new();
    add_name_param(&mut params, acct);
    assert(params_view(params@) =~= account_params(*acct));
    Request { method, endpoint, params }
}

/// Looks up one account.
pub fn show(acct: UserID) -> (r: Request)
    ensures
        r@ == (RequestView { method: Method::Get, endpoint: Endpoint::UsersShow, params: account_params(acct) }),
{
    single_account_request(Method::Get, Endpoint::UsersShow, &acct)
}

/// Looks up the relation between two accounts.
pub fn relation(from: UserID, to: UserID) -> (r: Request)
    ensures
        r@ == (RequestView {
            method: Method::Get,
            endpoint: Endpoint::FriendshipShow,
            params: selector_params(from, "source_id"@, "source_screen_name"@)
                + selector_params(to, "target_id"@, "target_screen_name"@),
        }),
{
    let mut params: Vec<Param> = Vec::new();
    add_selector_param(&mut params, &from, "source_id", "source_screen_name");
    add_selector_param(&mut params, &to, "target_id", "target_screen_name");
    let r = Request { method: Method::Get, endpoint: Endpoint::FriendshipShow, params };
    assert(r@.params =~= selector_params(from, "source_id"@, "source_screen_name"@)
        + selector_params(to, "target_id"@, "target_screen_name"@));
    r
}

/// Lists the identifiers of the accounts whose retweets the authenticated
/// account has turned off.
pub fn friends_no_retweets() -> (r: Request)
    ensures
        r@ == (RequestView { method: Method::Get, endpoint: Endpoint::FriendsNoRetweets, params: Seq::empty() }),
{
    let r = Request { method: Method::Get, endpoint: Endpoint::FriendsNoRetweets, params: Vec::new() };
    assert(r@.params =~= Seq::empty());
    r
}

/// Follows an account, with device notifications on or off.
pub fn follow(acct: UserID, notifications: bool) -> (r: Request)
    ensures
        r@ == (RequestView {
            method: Method::Post,
            endpoint: Endpoint::FriendshipCreate,
            params: account_params(acct).push(("follow"@, bool_text(notifications))),
        }),
{
    let mut params: Vec<Param> = Vec::new();
    add_name_param(&mut params, &acct);
    params.push(param("follow", bool_string(notifications)));
    let r = Request { method: Method::Post, endpoint: Endpoint::FriendshipCreate, params };
    assert(r@.params =~= account_params(acct).push(("follow"@, bool_text(notifications))));
    r
}

/// Unfollows an account.
pub fn unfollow(acct: UserID) -> (r: Request)
    ensures
        r@ == (RequestView { method: Method::Post, endpoint: Endpoint::FriendshipDestroy, params: account_params(acct) }),
{
    single_account_request(Method::Post, Endpoint::FriendshipDestroy, &acct)
}

/// The optional settings of a follow update, each sent only when given.
pub open spec fn follow_settings(notifications: Option<bool>, retweets: Option<bool>) -> Seq<(Seq<char>, Seq<char>)> {
    (match notifications {
        Some(b) => seq![("device"@, bool_text(b))],
        None => Seq::empty(),
    }) + (match retweets {
        Some(b) => seq![("retweets"@, bool_text(b))],
        None => Seq::empty(),
    })
}

/// Changes the device notifications and retweet display for a followed
/// account; a setting that is `None` is left as it is.
pub fn update_follow(acct: UserID, notifications: Option<bool>, retweets: Option<bool>) -> (r: Request)
    ensures
        r@ == (RequestView {
            method: Method::Post,
            endpoint: Endpoint::FriendshipUpdate,
            params: account_params(acct) + follow_settings(notifications, retweets),
        }),
{
    let mut params: Vec<Param> = Vec::new();
    add_name_param(&mut params, &acct);
    match notifications {
        Some(b) => params.push(param("device", bool_string(b))),
        None => {},
    }
    match retweets {
        Some(b) => params.push(param("retweets", bool_string(b))),
        None => {},
    }
    let r = Request { method: Method::Post, endpoint: Endpoint::FriendshipUpdate, params };
    assert(r@.params =~= account_params(acct) + follow_settings(notifications, retweets));
    r
}

/// Searches accounts by a query.
pub fn search<T>(query: &str) -> (r: UserSearch<T>)
    ensures
        r@ == fresh_search::<T>(query@),
{
    UserSearch::new(query)
}

/// Lists the accounts that `acct` follows, as full records.
pub fn friends_of<T>(acct: UserID) -> (r: CursorIter<T>)
    ensures
        r@ == fresh_state::<T>(Endpoint::FriendsList, Some(acct), Some(USER_PAGE_SIZE)),
{
    CursorIter::new(Endpoint::FriendsList, Some(acct), Some(USER_PAGE_SIZE))
}

/// Lists the identifiers of the accounts that `acct` follows.
pub fn friends_ids(acct: UserID) -> (r: CursorIter<i64>)
    ensures
        r@ == fresh_state::<i64>(Endpoint::FriendsIds, Some(acct), Some(ID_PAGE_SIZE)),
{
    CursorIter::new(Endpoint::FriendsIds, Some(acct), Some(ID_PAGE_SIZE))
}

/// Lists the accounts that follow `acct`, as full records.
pub fn followers_of<T>(acct: UserID) -> (r: CursorIter<T>)
    ensures
        r@ == fresh_state::<T>(Endpoint::FollowersList, Some(acct), Some(USER_PAGE_SIZE)),
{
    CursorIter::new(Endpoint::FollowersList, Some(acct), Some(USER_PAGE_SIZE))
}

/// Lists the identifiers of the accounts that follow `acct`.
pub fn followers_ids(acct: UserID) -> (r: CursorIter<i64>)
    ensures
        r@ == fresh_state::<i64>(Endpoint::FollowersIds, Some(acct), Some(ID_PAGE_SIZE)),
{
    CursorIter::new(Endpoint::FollowersIds, Some(acct), Some(ID_PAGE_SIZE))
}

/// Lists the accounts that the authenticated account blocks. The endpoint
/// sets its own page size.
pub fn blocks<T>() -> (r: CursorIter<T>)
    ensures
        r@ == fresh_state::<T>(Endpoint::BlocksList, None, None),
{
    CursorIter::new(Endpoint::BlocksList, None, None)
}

/// Lists the identifiers of the accounts that the authenticated account
/// blocks.
pub fn blocks_ids() -> (r: CursorIter<i64>)
    ensures
        r@ == fresh_state::<i64>(Endpoint::BlocksIds, None, None),
{
    CursorIter::new(Endpoint::BlocksIds, None, None)
}

/// Lists the accounts that the authenticated account mutes.
pub fn mutes<T>() -> (r: CursorIter<T>)
    ensures
        r@ == fresh_state::<T>(Endpoint::MutesList, None, None),
{
    CursorIter::new(Endpoint::MutesList, None, None)
}

/// Lists the identifiers of the accounts that the authenticated account
/// mutes.
pub fn mutes_ids() -> (r: CursorIter<i64>)
    ensures
        r@ == fresh_state::<i64>(Endpoint::MutesIds, None, None),
{
    CursorIter::new(Endpoint::MutesIds, None, None)
}

/// Lists the identifiers of the accounts that asked to follow the
/// authenticated, protected account.
pub fn incoming_requests() -> (r: CursorIter<i64>)
    ensures
        r@ == fresh_state::<i64>(Endpoint::FriendshipsIncoming, None, None),
{
    CursorIter::new(Endpoint::FriendshipsIncoming, None, None)
}

/// Lists the identifiers of the accounts that the authenticated account has
/// asked to follow.
pub fn outgoing_requests() -> (r: CursorIter<i64>)
    ensures
        r@ == fresh_state::<i64>(Endpoint::FriendshipsOutgoing, None, None),
{
    CursorIter::new(Endpoint::FriendshipsOutgoing, None, None)
}

} // verus!
