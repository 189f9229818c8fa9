//! Provider endpoints and OAuth client credentials.

use vstd::prelude::*;

verus! {

/// The two fixed endpoints of the provider.
#[derive(Debug, Clone)]
pub struct XConfig {
    pub api_base: String,
    pub oauth_url: String,
}

/// Base URL under which every resource path and the token endpoint live.
pub open spec fn api_base_text() -> Seq<char> {
    "https://api.twitter.com/2"@
}

/// URL to which the user is redirected to grant authorization.
pub open spec fn oauth_url_text() -> Seq<char> {
    "https://twitter.com/i/oauth2/authorize"@
}

impl XConfig {
    /// The provider's endpoints. They are constants, not configuration.
    pub fn load() -> (config: Self)
        ensures
            config.api_base@ == api_base_text(),
            config.oauth_url@ == oauth_url_text(),
    {
        XConfig {
            api_base: "https://api.twitter.com/2".to_owned(),
            oauth_url: "https://twitter.com/i/oauth2/authorize".to_owned(),
        }
    }
}

/// Credentials of a registered OAuth client.
#[derive(Debug, Clone)]
pub struct OauthConfig {
    pub callback_url: String,
    pub client_id: String,
    pub client_secret: String,
}

} // verus!
