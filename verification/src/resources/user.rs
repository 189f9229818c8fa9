//! Users: the entity and its public counters.

use vstd::prelude::*;
use vstd::string::StringExecFns;
use crate::client::{ApiRequest, Method, TwitterClient};

verus! {

/// A user account as the API reports it.
#[derive(Debug, Clone)]
pub struct User {
    pub id: String,
    pub name: String,
    pub username: String,
    pub public_metrics: Option<UserPublicMetrics>,
}

/// Public counters of a user account.
#[derive(Debug, Clone)]
pub struct UserPublicMetrics {
    pub followers_count: u64,
    pub following_count: u64,
    pub tweet_count: u64,
    pub listed_count: u64,
    pub like_count: Option<u64>,
    pub media_count: Option<u64>,
}

impl Default for UserPublicMetrics {
    fn default() -> (metrics: Self)
        ensures
            metrics.followers_count == 0,
            metrics.following_count == 0,
            metrics.tweet_count == 0,
            metrics.listed_count == 0,
            metrics.like_count is None,
            metrics.media_count is None,
    {
        UserPublicMetrics {
            followers_count: 0,
            following_count: 0,
            tweet_count: 0,
            listed_count: 0,
            like_count: None,
            media_count: None,
        }
    }
}

/// The user operations, bound to one client.
#[derive(Debug)]
pub struct UserHandler {
    client: TwitterClient,
}

impl Clone for UserHandler {
    fn clone(&self) -> (copy: Self)
        ensures
            copy == *self,
    {
        UserHandler { client: self.client.clone() }
    }
}

impl UserHandler {
    /// The client that the requests of this handler are made with.
    pub closed spec fn client(&self) -> TwitterClient {
        self.client
    }

    pub fn new(client: TwitterClient) -> (handler: Self)
        ensures
            handler.client() == client,
    {
        UserHandler { client }
    }

    /// The request that looks up the user whom the bearer token belongs to.
    /// Its response decodes into `TwitterApiResponse<User>`.
    pub fn get_me(&self) -> (request: ApiRequest)
        ensures
            self.client().issues(request, Method::Get, "/users/me"@),
    {
        self.client.request(Method::Get, "/users/me")
    }

    /// The request that looks up the user `id`. Its response decodes into
    /// `TwitterApiResponse<User>`.
    pub fn get(&self, id: &str) -> (request: ApiRequest)
        ensures
            self.client().issues(request, Method::Get, "/users/"@ + id@),
    {
        let mut endpoint = "/users/".to_owned();
        endpoint.append(id);
        self.client.request(Method::Get, endpoint.as_str())
    }

    /// The request that looks up the user with the handle `username`. Its
    /// response decodes into `TwitterApiResponse<User>`.
    pub fn get_by_username(&self, username: &str) -> (request: ApiRequest)
        ensures
            self.client().issues(request, Method::Get, "/users/by/username/"@ + username@),
    {
        let mut endpoint = "/users/by/username/".to_owned();
        endpoint.append(username);
        self.client.request(Method::Get, endpoint.as_str())
    }
}

} // verus!
