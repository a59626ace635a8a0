//! Requests to the service: method, endpoint and parameters.
use vstd::prelude::*;
use crate::params::{Param, params_view, decimal, decimal_string, param};

verus! {

/// Designates an account, either by its numeric identifier or by its screen
/// name. Exactly one of the two is ever sent.
#[derive(Clone, Debug, PartialEq, Eq)]
pub enum UserID {
    ID(i64),
    ScreenName(String),
}

/// The HTTP method of a request.
#[derive(Clone, Copy, Debug, PartialEq, Eq, Structural)]
pub enum Method {
    Get,
    Post,
}

/// The fixed endpoints that this library addresses.
#[derive(Clone, Copy, Debug, PartialEq, Eq, Structural)]
pub enum Endpoint {
    UsersLookup,
    UsersShow,
    UsersSearch,
    FriendsList,
    FriendsIds,
    FollowersList,
    FollowersIds,
    BlocksList,
    BlocksIds,
    MutesList,
    MutesIds,
    FriendshipShow,
    FriendshipLookup,
    FriendshipsIncoming,
    FriendshipsOutgoing,
    FriendsNoRetweets,
    FriendshipCreate,
    FriendshipDestroy,
    FriendshipUpdate,
}

/// The address of each endpoint.
pub open spec fn endpoint_url(e: Endpoint) -> Seq<char> {
    match e {
        Endpoint::UsersLookup => "https://api.twitter.com/1.1/users/lookup.json"@,
        Endpoint::UsersShow => "https://api.twitter.com/1.1/users/show.json"@,
        Endpoint::UsersSearch => "https://api.twitter.com/1.1/users/search.json"@,
        Endpoint::FriendsList => "https://api.twitter.com/1.1/friends/list.json"@,
        Endpoint::FriendsIds => "https://api.twitter.com/1.1/friends/ids.json"@,
        Endpoint::FollowersList => "https://api.twitter.com/1.1/followers/list.json"@,
        Endpoint::FollowersIds => "https://api.twitter.com/1.1/followers/ids.json"@,
        Endpoint::BlocksList => "https://api.twitter.com/1.1/blocks/list.json"@,
        Endpoint::BlocksIds => "https://api.twitter.com/1.1/blocks/ids.json"@,
        Endpoint::MutesList => "https://api.twitter.com/1.1/mutes/users/list.json"@,
        Endpoint::MutesIds => "https://api.twitter.com/1.1/mutes/users/ids.json"@,
        Endpoint::FriendshipShow => "https://api.twitter.com/1.1/friendships/show.json"@,
        Endpoint::FriendshipLookup => "https://api.twitter.com/1.1/friendships/lookup.json"@,
        Endpoint::FriendshipsIncoming => "https://api.twitter.com/1.1/friendships/incoming.json"@,
        Endpoint::FriendshipsOutgoing => "https://api.twitter.com/1.1/friendships/outgoing.json"@,
        Endpoint::FriendsNoRetweets => "https://api.twitter.com/1.1/friendships/no_retweets/ids.json"@,
        Endpoint::FriendshipCreate => "https://api.twitter.com/1.1/friendships/create.json"@,
        Endpoint::FriendshipDestroy => "https://api.twitter.com/1.1/friendships/destroy.json"@,
        Endpoint::FriendshipUpdate => "https://api.twitter.com/1.1/friendships/update.json"@,
    }
}

impl Endpoint {
    /// The address of this endpoint.
    pub fn url(&self) -> (r: &'static str)
        ensures
            r@ == endpoint_url(*self),
    {
        match self {
            Endpoint::UsersLookup => "https://api.twitter.com/1.1/users/lookup.json",
            Endpoint::UsersShow => "https://api.twitter.com/1.1/users/show.json",
            Endpoint::UsersSearch => "https://api.twitter.com/1.1/users/search.json",
            Endpoint::FriendsList => "https://api.twitter.com/1.1/friends/list.json",
            Endpoint::FriendsIds => "https://api.twitter.com/1.1/friends/ids.json",
            Endpoint::FollowersList => "https://api.twitter.com/1.1/followers/list.json",
            Endpoint::FollowersIds => "https://api.twitter.com/1.1/followers/ids.json",
            Endpoint::BlocksList => "https://api.twitter.com/1.1/blocks/list.json",
            Endpoint::BlocksIds => "https://api.twitter.com/1.1/blocks/ids.json",
            Endpoint::MutesList => "https://api.twitter.com/1.1/mutes/users/list.json",
            Endpoint::MutesIds => "https://api.twitter.com/1.1/mutes/users/ids.json",
            Endpoint::FriendshipShow => "https://api.twitter.com/1.1/friendships/show.json",
            Endpoint::FriendshipLookup => "https://api.twitter.com/1.1/friendships/lookup.json",
            Endpoint::FriendshipsIncoming => "https://api.twitter.com/1.1/friendships/incoming.json",
            Endpoint::FriendshipsOutgoing => "https://api.twitter.com/1.1/friendships/outgoing.json",
            Endpoint::FriendsNoRetweets => "https://api.twitter.com/1.1/friendships/no_retweets/ids.json",
            Endpoint::FriendshipCreate => "https://api.twitter.com/1.1/friendships/create.json",
            Endpoint::FriendshipDestroy => "https://api.twitter.com/1.1/friendships/destroy.json",
            Endpoint::FriendshipUpdate => "https://api.twitter.com/1.1/friendships/update.json",
        }
    }
}

/// One request, ready to be signed and sent.
#[derive(Clone, Debug)]
pub struct Request {
    pub method: Method,
    pub endpoint: Endpoint,
    pub params: Vec<Param>,
}

/// What a request asks for: method, endpoint, and each parameter's key and
/// value in order.
pub ghost struct RequestView {
    pub method: Method,
    pub endpoint: Endpoint,
    pub params: Seq<(Seq<char>, Seq<char>)>,
}

impl View for Request {
    type V = RequestView;

    open spec fn view(&self) -> RequestView {
        RequestView { method: self.method, endpoint: self.endpoint, params: params_view(self.params@) }
    }
}

/// The one parameter that designates an account: keyed `id_key` with the
/// decimal identifier, or keyed `name_key` with the screen name.
pub open spec fn selector_params(acct: UserID, id_key: Seq<char>, name_key: Seq<char>) -> Seq<(Seq<char>, Seq<char>)> {
    match acct {
        UserID::ID(id) => seq![(id_key, decimal(id as int))],
        UserID::ScreenName(name) => seq![(name_key, name@)],
    }
}

/// The parameter that designates the subject account of a request.
pub open spec fn account_params(acct: UserID) -> Seq<(Seq<char>, Seq<char>)> {
    selector_params(acct, "user_id"@, "screen_name"@)
}

/// Appends the one parameter that designates `acct`, keyed `id_key` for an
/// identifier and `name_key` for a screen name.
pub fn add_selector_param(params: &mut Vec<Param>, acct: &UserID, id_key: &str, name_key: &str)
    ensures
        params_view(final(params)@) == params_view(old(params)@) + selector_params(*acct, id_key@, name_key@),
{
    let p = match acct {
        UserID::ID(id) => param(id_key, decimal_string(*id)),
        UserID::ScreenName(name) => param(name_key, name.clone()),
    };
    params.push(p);
    assert(params_view(params@) =~= params_view(old(params)@) + selector_params(*acct, id_key@, name_key@));
}

/// Appends the parameter that designates the subject account: `user_id` or
/// `screen_name`.
pub fn add_name_param(params: &mut Vec<Param>, acct: &UserID)
    ensures
        params_view(final(params)@) == params_view(old(params)@) + account_params(*acct),
{
    add_selector_param(params, acct, "user_id", "screen_name");
}

} // verus!
