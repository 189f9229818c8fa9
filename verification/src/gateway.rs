//! The facade: one authorization flow and the resource handles, bound to one
//! bearer token.

use vstd::prelude::*;
use crate::auth::{
    config_fault, is_fresh_verifier, AuthSettings, PkceCodeVerifier, TokenExchange, TwitterAuth,
};
use crate::client::TwitterClient;
use crate::config::{api_base_text, OauthConfig};
use crate::error::{SdkError, SdkResult};
use crate::resources::tweet::TweetHandler;
use crate::resources::user::UserHandler;

verus! {

/// The facade over the authorization flow and the resource handles.
pub struct RusxGateway {
    auth: TwitterAuth,
    user_api: UserHandler,
    tweet_api: TweetHandler,
}

impl Clone for RusxGateway {
    fn clone(&self) -> (copy: Self)
        ensures
            copy.settings() == self.settings(),
            copy.user_api() == self.user_api(),
            copy.tweet_api() == self.tweet_api(),
    {
        RusxGateway {
            auth: self.auth.clone(),
            user_api: self.user_api.clone(),
            tweet_api: self.tweet_api.clone(),
        }
    }
}

impl RusxGateway {
    /// The settings of the authorization flow.
    pub closed spec fn settings(&self) -> AuthSettings {
        self.auth@
    }

    /// The handle on the user operations.
    pub closed spec fn user_api(&self) -> UserHandler {
        self.user_api
    }

    /// The handle on the tweet operations.
    pub closed spec fn tweet_api(&self) -> TweetHandler {
        self.tweet_api
    }

    /// Whether every resource handle sends `bearer` to the API's base URL.
    pub open spec fn bound_to(&self, bearer: Seq<char>) -> bool {
        &&& self.user_api().client().bearer() == bearer
        &&& self.user_api().client().base() == api_base_text()
        &&& self.tweet_api().client().bearer() == bearer
        &&& self.tweet_api().client().base() == api_base_text()
    }

    /// Sets up the flow for the given client and binds the resource handles
    /// to `token`, or to the empty token where none is given. Fails as
    /// `TwitterAuth::new` does.
    pub fn new(oauth_config: OauthConfig, token: Option<String>) -> (result: SdkResult<Self>)
        ensures
            match config_fault(oauth_config.callback_url@) {
                Some(message) => result matches Err(SdkError::AuthConfiguration(text)) && text@
                    == message,
                None => {
                    &&& result matches Ok(gateway)
                    &&& gateway.settings() == AuthSettings::of(oauth_config)
                    &&& gateway.bound_to(
                        match token {
                            Some(t) => t@,
                            None => Seq::empty(),
                        },
                    )
                },
            },
    {
        let auth = match TwitterAuth::new(oauth_config) {
            Ok(auth) => auth,
            Err(error) => {
                return Err(error);
            },
        };
        let bearer = match token {
            Some(t) => t,
            None => String::new(),
        };
        let client = TwitterClient::new(bearer);
        Ok(
            RusxGateway {
                auth,
                user_api: UserHandler::new(client.clone()),
                tweet_api: TweetHandler::new(client),
            },
        )
    }

    /// A new verifier and the authorization URL that goes with it.
    pub fn generate_auth_url(&self) -> (issued: (String, PkceCodeVerifier))
        ensures
            is_fresh_verifier(issued.1@),
            self.settings().issues(issued.0@, issued.1@),
    {
        self.auth.generate_auth_url()
    }

    /// The request that redeems `code`. The verifier is used up.
    pub fn exchange_code(&self, code: String, verifier: PkceCodeVerifier) -> (exchange:
        TokenExchange)
        ensures
            self.settings().redeems(exchange, code@, verifier@),
    {
        self.auth.exchange_code(code, verifier)
    }

    /// The handle on the user operations.
    pub fn users(&self) -> (handler: UserHandler)
        ensures
            handler == self.user_api(),
    {
        self.user_api.clone()
    }

    /// The handle on the tweet operations.
    pub fn tweets(&self) -> (handler: TweetHandler)
        ensures
            handler == self.tweet_api(),
    {
        self.tweet_api.clone()
    }

    /// A new gateway with the same authorization settings, whose resource
    /// handles are bound to `token`. This gateway is left as it is.
    pub fn with_token(&self, token: String) -> (result: SdkResult<RusxGateway>)
        ensures
            result matches Ok(gateway) && gateway.settings() == self.settings()
                && gateway.bound_to(token@),
    {
        let client = TwitterClient::new(token);
        Ok(
            RusxGateway {
                auth: self.auth.clone(),
                user_api: UserHandler::new(client.clone()),
                tweet_api: TweetHandler::new(client),
            },
        )
    }
}

} // verus!
