//! Tweets: the entity and its public counters.

use vstd::prelude::*;
use vstd::string::StringExecFns;
use crate::client::{ApiRequest, Method, TwitterClient};

verus! {

/// A tweet as the API reports it.
#[derive(Debug, Clone)]
pub struct Tweet {
    pub id: String,
    pub text: String,
    pub author_id: Option<String>,
    pub created_at: Option<String>,
    pub public_metrics: Option<TweetPublicMetrics>,
}

/// Public counters of a tweet.
#[derive(Debug, Clone)]
pub struct TweetPublicMetrics {
    pub retweet_count: u32,
    pub reply_count: u32,
    pub like_count: u32,
    pub quote_count: u32,
    pub impression_count: u32,
    pub bookmark_count: u32,
}

impl Default for TweetPublicMetrics {
    fn default() -> (metrics: Self)
        ensures
            metrics.retweet_count == 0,
            metrics.reply_count == 0,
            metrics.like_count == 0,
            metrics.quote_count == 0,
            metrics.impression_count == 0,
            metrics.bookmark_count == 0,
    {
        TweetPublicMetrics {
            retweet_count: 0,
            reply_count: 0,
            like_count: 0,
            quote_count: 0,
            impression_count: 0,
            bookmark_count: 0,
        }
    }
}

/// The tweet operations, bound to one client.
#[derive(Debug)]
pub struct TweetHandler {
    client: TwitterClient,
}

impl Clone for TweetHandler {
    fn clone(&self) -> (copy: Self)
        ensures
            copy == *self,
    {
        TweetHandler { client: self.client.clone() }
    }
}

impl TweetHandler {
    /// The client that the requests of this handler are made with.
    pub closed spec fn client(&self) -> TwitterClient {
        self.client
    }

    pub fn new(client: TwitterClient) -> (handler: Self)
        ensures
            handler.client() == client,
    {
        TweetHandler { client }
    }

    /// The request that looks up the tweet `id`. Its response decodes into
    /// `TwitterApiResponse<Tweet>`.
    pub fn get(&self, id: &str) -> (request: ApiRequest)
        ensures
            self.client().issues(request, Method::Get, "/tweets/"@ + id@),
    {
        let mut endpoint = "/tweets/".to_owned();
        endpoint.append(id);
        self.client.request(Method::Get, endpoint.as_str())
    }
}

} // verus!
