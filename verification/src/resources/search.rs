//! Tweet search: the parameters of a search and the query string they make.

use vstd::prelude::*;
use vstd::string::StringExecFns;
use crate::client::{ApiRequest, Method, TwitterClient};
use crate::resources::{
    join_query_param_enums_as_string, query_texts, AsQueryStr, TweetExpansion, TweetField,
    UserField,
};
use crate::text::{
    decimal, decimal_string, join, joined, percent_encode, text_of, texts, url_encoded,
};

verus! {

/// The order in which a search returns its results.
#[derive(Debug, Clone)]
pub enum SearchSortOrder {
    Recency,
    Relevancy,
}

impl AsQueryStr for SearchSortOrder {
    open spec fn query_text(&self) -> Seq<char> {
        match self {
            Self::Recency => "recency"@,
            Self::Relevancy => "relevancy"@,
        }
    }

    fn as_str(&self) -> (s: &'static str) {
        match self {
            Self::Recency => "recency",
            Self::Relevancy => "relevancy",
        }
    }
}

/// Pagination data of a search response.
#[derive(Debug, Clone)]
pub struct SearchMeta {
    pub result_count: Option<u32>,
    pub next_token: Option<String>,
    pub newest_id: Option<String>,
    pub oldest_id: Option<String>,
}

/// The parameters of a search. Only `query` is required.
#[derive(Debug, Clone)]
pub struct SearchParams {
    pub query: String,
    pub start_time: Option<String>,
    pub end_time: Option<String>,
    pub since_id: Option<String>,
    pub until_id: Option<String>,
    pub max_results: Option<u32>,
    pub next_token: Option<String>,
    pub sort_order: Option<SearchSortOrder>,
    pub tweet_fields: Option<Vec<TweetField>>,
    pub expansions: Option<Vec<TweetExpansion>>,
    pub user_fields: Option<Vec<UserField>>,
}

/// The comma-separated spellings of an optional list.
pub open spec fn list_of<T: AsQueryStr>(value: Option<Vec<T>>) -> Option<Seq<char>> {
    match value {
        Some(items) => Some(joined(query_texts(items@), ","@)),
        None => None,
    }
}

/// The `name=value` pair that a parameter contributes: one if it is set, none otherwise.
pub open spec fn pair_of(label: Seq<char>, value: Option<Seq<char>>) -> Seq<Seq<char>> {
    match value {
        Some(v) => seq![label + v],
        None => Seq::empty(),
    }
}

/// A query that matches tweets of any of `usernames`, narrowed by `keywords`
/// where they are given.
pub open spec fn whitelist_query(usernames: Seq<Seq<char>>, keywords: Option<Seq<char>>) -> Seq<
    char,
> {
    let authors = joined(
        Seq::new(usernames.len(), |i: int| "from:"@ + usernames[i]),
        " OR "@,
    );
    match keywords {
        Some(k) => "("@ + authors + ") "@ + k,
        None => authors,
    }
}

/// Parameters that carry nothing but the query text make the query string
/// `?query=` followed by the percent-encoded text.
pub proof fn lemma_bare_query_string(params: SearchParams)
    requires
        params.is_bare(),
    ensures
        params.query_string() == "?query="@ + url_encoded(params.query@),
{
    reveal_strlit("?");
    reveal_strlit("query=");
    reveal_strlit("?query=");
}

fn push_pair(params: &mut Vec<String>, label: &str, value: Option<&str>)
    ensures
        texts(final(params)@) == texts(old(params)@) + pair_of(
            label@,
            match value {
                Some(v) => Some(v@),
                None => None,
            },
        ),
{
    match value {
        Some(v) => {
            let mut pair = label.to_owned();
            pair.append(v);
            params.push(pair);
        },
        None => {},
    }
}

fn as_text(value: &Option<String>) -> (text: Option<&str>)
    ensures
        match text {
            Some(t) => value matches Some(s) && t@ == s@,
            None => value is None,
        },
{
    match value {
        Some(s) => Some(s.as_str()),
        None => None,
    }
}

impl SearchParams {
    /// Whether only the query text is set.
    pub open spec fn is_bare(&self) -> bool {
        &&& self.start_time is None
        &&& self.end_time is None
        &&& self.since_id is None
        &&& self.until_id is None
        &&& self.max_results is None
        &&& self.next_token is None
        &&& self.sort_order is None
        &&& self.tweet_fields is None
        &&& self.expansions is None
        &&& self.user_fields is None
    }

    /// The `name=value` pairs of the query string, in their fixed order. The
    /// query text is percent-encoded; every other value stands as it is.
    pub open spec fn pairs(&self) -> Seq<Seq<char>> {
        seq!["query="@ + url_encoded(self.query@)]
            + pair_of("start_time="@, text_of(self.start_time))
            + pair_of("end_time="@, text_of(self.end_time))
            + pair_of("since_id="@, text_of(self.since_id))
            + pair_of("until_id="@, text_of(self.until_id))
            + pair_of(
                "max_results="@,
                match self.max_results {
                    Some(n) => Some(decimal(n as nat)),
                    None => None,
                },
            )
            + pair_of("next_token="@, text_of(self.next_token))
            + pair_of(
                "sort_order="@,
                match self.sort_order {
                    Some(order) => Some(order.query_text()),
                    None => None,
                },
            )
            + pair_of("tweet.fields="@, list_of(self.tweet_fields))
            + pair_of("expansions="@, list_of(self.expansions))
            + pair_of("user.fields="@, list_of(self.user_fields))
    }

    /// The query string: `?` and the pairs joined by `&`.
    pub open spec fn query_string(&self) -> Seq<char> {
        "?"@ + joined(self.pairs(), "&"@)
    }

    /// Parameters that carry `query` and nothing else.
    pub fn new(query: &str) -> (params: Self)
        ensures
            params.query@ == query@,
            params.is_bare(),
    {
        SearchParams {
            query: query.to_owned(),
            start_time: None,
            end_time: None,
            since_id: None,
            until_id: None,
            max_results: None,
            next_token: None,
            sort_order: None,
            tweet_fields: None,
            expansions: None,
            user_fields: None,
        }
    }

    /// Parameters for a search restricted to the given authors: the query is
    /// `from:a OR from:b ...`, put in parentheses and followed by `keywords`
    /// where they are given.
    pub fn build_whitelist_query(usernames: &Vec<String>, keywords: Option<&str>) -> (params: Self)
        ensures
            params.query@ == whitelist_query(
                texts(usernames@),
                match keywords {
                    Some(k) => Some(k@),
                    None => None,
                },
            ),
            params.is_bare(),
    {
        let ghost wanted = Seq::new(usernames@.len(), |i: int| "from:"@ + texts(usernames@)[i]);
        let mut authors: Vec<String> = Vec::new();
        let mut i: usize = 0;
        while i < usernames.len()
            invariant
                i <= usernames.len(),
                wanted == Seq::new(usernames@.len(), |i: int| "from:"@ + texts(usernames@)[i]),
                texts(authors@) == wanted.take(i as int),
            decreases usernames.len() - i,
        {
            let ghost before = texts(authors@);
            let mut author = "from:".to_owned();
            author.append(usernames[i].as_str());
            authors.push(author);
            assert(texts(authors@) =~= before.push(wanted[i as int]));
            i += 1;
        }
        assert(wanted.take(usernames.len() as int) =~= wanted);
        let user_query = join(&authors, " OR ");
        let query = match keywords {
            Some(k) => {
                let mut q = "(".to_owned();
                q.append(user_query.as_str());
                q.append(") ");
                q.append(k);
                q
            },
            None => user_query,
        };
        SearchParams {
            query,
            start_time: None,
            end_time: None,
            since_id: None,
            until_id: None,
            max_results: None,
            next_token: None,
            sort_order: None,
            tweet_fields: None,
            expansions: None,
            user_fields: None,
        }
    }

    /// Writes the query string of these parameters.
    pub fn to_query_string(&self) -> (out: String)
        ensures
            out@ == self.query_string(),
    {
        let mut params: Vec<String> = Vec::new();
        let encoded = percent_encode(self.query.as_str());
        push_pair(&mut params, "query=", Some(encoded.as_str()));
        push_pair(&mut params, "start_time=", as_text(&self.start_time));
        push_pair(&mut params, "end_time=", as_text(&self.end_time));
        push_pair(&mut params, "since_id=", as_text(&self.since_id));
        push_pair(&mut params, "until_id=", as_text(&self.until_id));
        let max_results = match self.max_results {
            Some(n) => Some(decimal_string(n)),
            None => None,
        };
        push_pair(&mut params, "max_results=", as_text(&max_results));
        push_pair(&mut params, "next_token=", as_text(&self.next_token));
        let sort_order = match &self.sort_order {
            Some(order) => Some(order.as_str()),
            None => None,
        };
        push_pair(&mut params, "sort_order=", sort_order);
        let tweet_fields = match &self.tweet_fields {
            Some(items) => Some(join_query_param_enums_as_string(items.as_slice())),
            None => None,
        };
        push_pair(&mut params, "tweet.fields=", as_text(&tweet_fields));
        let expansions = match &self.expansions {
            Some(items) => Some(join_query_param_enums_as_string(items.as_slice())),
            None => None,
        };
        push_pair(&mut params, "expansions=", as_text(&expansions));
        let user_fields = match &self.user_fields {
            Some(items) => Some(join_query_param_enums_as_string(items.as_slice())),
            None => None,
        };
        push_pair(&mut params, "user.fields=", as_text(&user_fields));
        let mut out = "?".to_owned();
        out.append(join(&params, "&").as_str());
        out
    }
}

impl Default for SearchParams {
    fn default() -> (params: Self)
        ensures
            params.query@ == Seq::<char>::empty(),
            params.is_bare(),
    {
        SearchParams {
            query: String::new(),
            start_time: None,
            end_time: None,
            since_id: None,
            until_id: None,
            max_results: None,
            next_token: None,
            sort_order: None,
            tweet_fields: None,
            expansions: None,
            user_fields: None,
        }
    }
}

/// The search operations, bound to one client.
#[derive(Debug)]
pub struct SearchHandler {
    client: TwitterClient,
}

impl Clone for SearchHandler {
    fn clone(&self) -> (copy: Self)
        ensures
            copy == *self,
    {
        SearchHandler { client: self.client.clone() }
    }
}

impl SearchHandler {
    /// The client that the requests of this handler are made with.
    pub closed spec fn client(&self) -> TwitterClient {
        self.client
    }

    pub fn new(client: TwitterClient) -> (handler: Self)
        ensures
            handler.client() == client,
    {
        SearchHandler { client }
    }

    /// The request that searches the tweets of the last seven days. Its
    /// response decodes into `TwitterApiResponse<Vec<Tweet>>`.
    pub fn recent(&self, params: SearchParams) -> (request: ApiRequest)
        ensures
            self.client().issues(
                request,
                Method::Get,
                "/tweets/search/recent"@ + params.query_string(),
            ),
    {
        let mut endpoint = "/tweets/search/recent".to_owned();
        endpoint.append(params.to_query_string().as_str());
        self.client.request(Method::Get, endpoint.as_str())
    }

    /// The request that searches the full archive. Its response decodes into
    /// `TwitterApiResponse<Vec<Tweet>>`.
    pub fn all(&self, params: SearchParams) -> (request: ApiRequest)
        ensures
            self.client().issues(
                request,
                Method::Get,
                "/tweets/search/all"@ + params.query_string(),
            ),
    {
        let mut endpoint = "/tweets/search/all".to_owned();
        endpoint.append(params.to_query_string().as_str());
        self.client.request(Method::Get, endpoint.as_str())
    }
}

} // verus!
