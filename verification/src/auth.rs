//! The OAuth2 authorization-code flow with PKCE: the authorization URL and
//! its verifier, and the exchange of an authorization code for a token.

use vstd::prelude::*;
use vstd::string::StringExecFns;
use vstd::utf8::{encode_utf8, is_ascii_chars, is_ascii_chars_encode_utf8};
use crate::config::{api_base_text, oauth_url_text, OauthConfig, XConfig};
use crate::error::{SdkError, SdkResult};
use crate::text::text_of;

verus! {

/// The message with which `Url::parse` of the `url` crate rejects a text, or
/// `None` for a text that it accepts.
pub uninterp spec fn url_parse_error(url: Seq<char>) -> Option<Seq<char>>;

/// The PKCE challenge that `oauth2` derives from a verifier: the SHA-256
/// digest of the verifier's bytes, written in unpadded URL-safe base64.
pub uninterp spec fn s256_challenge(verifier: Seq<char>) -> Seq<char>;

/// The authorization URL that `oauth2` writes for a client and a request with
/// one scope, a state value and an S256 challenge.
pub uninterp spec fn authorization_url(
    auth_url: Seq<char>,
    client_id: Seq<char>,
    redirect_url: Seq<char>,
    scope: Seq<char>,
    state: Seq<char>,
    challenge: Seq<char>,
) -> Seq<char>;

/// The scope that every authorization request asks for.
pub open spec fn scope_text() -> Seq<char> {
    "users.read"@
}

/// The token endpoint of the provider.
pub open spec fn token_url_text() -> Seq<char> {
    api_base_text() + "/oauth2/token"@
}

/// A character of the URL-safe base64 alphabet.
pub open spec fn is_url_safe_char(c: char) -> bool {
    ||| 'A' <= c <= 'Z'
    ||| 'a' <= c <= 'z'
    ||| '0' <= c <= '9'
    ||| c == '-'
    ||| c == '_'
}

/// A text of `len` characters of the URL-safe base64 alphabet.
pub open spec fn is_url_safe_text(text: Seq<char>, len: nat) -> bool {
    &&& text.len() == len
    &&& forall|i: int| 0 <= i < text.len() ==> is_url_safe_char(#[trigger] text[i])
}

/// The form of a newly generated verifier: 32 random bytes in base64.
pub open spec fn is_fresh_verifier(text: Seq<char>) -> bool {
    is_url_safe_text(text, 43)
}

/// The form of a newly generated state value: 16 random bytes in base64.
pub open spec fn is_fresh_state(text: Seq<char>) -> bool {
    is_url_safe_text(text, 22)
}

/// Whether a verifier has a length that PKCE admits: 43 to 128 bytes.
pub open spec fn has_pkce_length(verifier: Seq<char>) -> bool {
    43 <= encode_utf8(verifier).len() <= 128
}

/// A newly generated verifier has a length that PKCE admits.
pub proof fn lemma_fresh_verifier_has_pkce_length(text: Seq<char>)
    requires
        is_fresh_verifier(text),
    ensures
        has_pkce_length(text),
{
    assert(is_ascii_chars(text));
    is_ascii_chars_encode_utf8(text);
}

/// The tokens that a successful exchange returns.
#[derive(Debug, Clone)]
pub struct TwitterToken {
    pub access_token: String,
    pub refresh_token: Option<String>,
    pub expires_in: Option<u64>,
}

/// What the provider granted, as it answered: the access token, the refresh
/// token if it sent one, and the lifetime in seconds if it sent one.
pub struct TokenGrant {
    pub access_token: String,
    pub refresh_token: Option<String>,
    pub expires_in: Option<u64>,
}

/// The secret half of a PKCE pair. It is handed out with the authorization
/// URL, kept by the caller until the callback arrives, and given back for the
/// exchange, which consumes it. It cannot be copied.
pub struct PkceCodeVerifier {
    secret: String,
}

impl View for PkceCodeVerifier {
    type V = Seq<char>;

    closed spec fn view(&self) -> Seq<char> {
        self.secret@
    }
}

impl PkceCodeVerifier {
    /// Restores a verifier from its stored secret.
    pub fn new(secret: String) -> (verifier: Self)
        ensures
            verifier@ == secret@,
    {
        PkceCodeVerifier { secret }
    }

    /// The secret, for storing it until the callback arrives.
    pub fn secret(&self) -> (secret: &String)
        ensures
            secret@ == self@,
    {
        &self.secret
    }

    /// The challenge that belongs to this verifier, or `None` for a verifier
    /// whose length PKCE does not admit.
    pub fn challenge(&self) -> (challenge: Option<String>)
        ensures
            text_of(challenge) == if has_pkce_length(self@) {
                Some(s256_challenge(self@))
            } else {
                None::<Seq<char>>
            },
    {
        let len = self.secret.as_str().as_bytes().len();
        if 43 <= len && len <= 128 {
            Some(derive_challenge(self.secret.as_str()))
        } else {
            None
        }
    }
}

/// The request to the token endpoint that redeems an authorization code: a
/// POST to `token_url` with the code, the redirect URL and the verifier in
/// its form body, authenticated with the client's credentials.
pub struct TokenExchange {
    pub token_url: String,
    pub client_id: String,
    pub client_secret: String,
    pub redirect_url: String,
    pub code: String,
    pub code_verifier: String,
}

/// The settings of an authorization flow.
pub struct AuthSettings {
    pub client_id: Seq<char>,
    pub client_secret: Seq<char>,
    pub auth_url: Seq<char>,
    pub token_url: Seq<char>,
    pub redirect_url: Seq<char>,
}

impl AuthSettings {
    /// The settings that a client configuration leads to.
    pub open spec fn of(config: OauthConfig) -> AuthSettings {
        AuthSettings {
            client_id: config.client_id@,
            client_secret: config.client_secret@,
            auth_url: oauth_url_text(),
            token_url: token_url_text(),
            redirect_url: config.callback_url@,
        }
    }

    /// The authorization URL for a state value and a verifier.
    pub open spec fn url_for(self, state: Seq<char>, verifier: Seq<char>) -> Seq<char> {
        authorization_url(
            self.auth_url,
            self.client_id,
            self.redirect_url,
            scope_text(),
            state,
            s256_challenge(verifier),
        )
    }

    /// Whether `url` is an authorization URL for `verifier` with a state
    /// value of the form that newly generated ones have.
    pub open spec fn issues(self, url: Seq<char>, verifier: Seq<char>) -> bool {
        exists|state: Seq<char>|
            is_fresh_state(state) && url == #[trigger] self.url_for(state, verifier)
    }

    /// Whether `exchange` redeems `code` with `verifier` under these settings.
    pub open spec fn redeems(
        self,
        exchange: TokenExchange,
        code: Seq<char>,
        verifier: Seq<char>,
    ) -> bool {
        &&& exchange.token_url@ == self.token_url
        &&& exchange.client_id@ == self.client_id
        &&& exchange.client_secret@ == self.client_secret
        &&& exchange.redirect_url@ == self.redirect_url
        &&& exchange.code@ == code
        &&& exchange.code_verifier@ == verifier
    }
}

/// The first complaint about the URLs of a flow with this callback URL: the
/// authorization URL is looked at first, then the token URL, then the
/// callback URL. `None` where all three are well-formed.
pub open spec fn config_fault(callback_url: Seq<char>) -> Option<Seq<char>> {
    if url_parse_error(oauth_url_text()) is Some {
        url_parse_error(oauth_url_text())
    } else if url_parse_error(token_url_text()) is Some {
        url_parse_error(token_url_text())
    } else {
        url_parse_error(callback_url)
    }
}

/// Whether `result` is what the flow returns for the outcome of an exchange.
pub open spec fn concludes(
    outcome: Result<TokenGrant, String>,
    result: SdkResult<TwitterToken>,
) -> bool {
    match outcome {
        Ok(grant) => {
            &&& result matches Ok(token)
            &&& token.access_token@ == grant.access_token@
            &&& text_of(token.refresh_token) == text_of(grant.refresh_token)
            &&& token.expires_in == grant.expires_in
        },
        Err(message) => {
            &&& result matches Err(SdkError::AuthConfiguration(text))
            &&& text@ == message@
        },
    }
}

/// Calls `Url::parse` of the `url` crate, as `oauth2` exports it, and turns a
/// refusal into its message. The contract only names the outcome; that the
/// same text always gets the same answer is what is trusted.
#[verifier::external_body]
fn check_url(url: &str) -> (fault: Option<String>)
    ensures
        text_of(fault) == url_parse_error(url@),
{
    oauth2::url::Url::parse(url).err().map(|e| e.to_string())
}

/// Calls `PkceCodeChallenge::new_random_sha256` of `oauth2` and keeps the
/// verifier. The verifier is the unpadded URL-safe base64 text of 32 random
/// bytes, which makes 43 characters of that alphabet whatever the bytes are.
#[verifier::external_body]
fn fresh_verifier() -> (verifier: PkceCodeVerifier)
    ensures
        is_fresh_verifier(verifier@),
{
    let (_, verifier) = oauth2::PkceCodeChallenge::new_random_sha256();
    PkceCodeVerifier { secret: verifier.secret().clone() }
}

/// Calls `CsrfToken::new_random` of `oauth2`. The token is the unpadded
/// URL-safe base64 text of 16 random bytes, which makes 22 characters of that
/// alphabet whatever the bytes are.
#[verifier::external_body]
fn fresh_state() -> (state: String)
    ensures
        is_fresh_state(state@),
{
    oauth2::CsrfToken::new_random().secret().clone()
}

/// Calls `PkceCodeChallenge::from_code_verifier_sha256` of `oauth2`, which
/// panics on a verifier shorter than 43 or longer than 128 bytes.
#[verifier::external_body]
fn derive_challenge(secret: &str) -> (challenge: String)
    requires
        has_pkce_length(secret@),
    ensures
        challenge@ == s256_challenge(secret@),
{
    let verifier = oauth2::PkceCodeVerifier::new(secret.to_owned());
    oauth2::PkceCodeChallenge::from_code_verifier_sha256(&verifier).as_str().to_owned()
}

/// Calls `authorize_url`, `add_scope`, `set_pkce_challenge` and `url` on a
/// client of `oauth2` made from the given texts. The challenge handed to
/// `set_pkce_challenge` is the one that `oauth2` derives from `secret`, and
/// the URL is written from that challenge, not from the secret. `AuthUrl::new`
/// and `RedirectUrl::new` accept the texts that `Url::parse` accepts.
#[verifier::external_body]
fn write_authorization_url(
    auth_url: &str,
    client_id: &str,
    redirect_url: &str,
    scope: &str,
    state: &str,
    secret: &str,
) -> (url: String)
    requires
        url_parse_error(auth_url@) is None,
        url_parse_error(redirect_url@) is None,
        has_pkce_length(secret@),
    ensures
        url@ == authorization_url(
            auth_url@,
            client_id@,
            redirect_url@,
            scope@,
            state@,
            s256_challenge(secret@),
        ),
{
    let verifier = oauth2::PkceCodeVerifier::new(secret.to_owned());
    let id = oauth2::ClientId::new(client_id.to_owned());
    let auth = oauth2::AuthUrl::new(auth_url.to_owned()).unwrap();
    let client = oauth2::basic::BasicClient::new(id, None, auth, None)
        .set_redirect_uri(oauth2::RedirectUrl::new(redirect_url.to_owned()).unwrap());
    let request = client
        .authorize_url(|| oauth2::CsrfToken::new(state.to_owned()))
        .add_scope(oauth2::Scope::new(scope.to_owned()))
        .set_pkce_challenge(oauth2::PkceCodeChallenge::from_code_verifier_sha256(&verifier));
    request.url().0.to_string()
}

/// An authorization flow for one registered client. Its URLs are well-formed.
pub struct TwitterAuth {
    client_id: String,
    client_secret: String,
    auth_url: String,
    token_url: String,
    redirect_url: String,
}

impl View for TwitterAuth {
    type V = AuthSettings;

    closed spec fn view(&self) -> AuthSettings {
        AuthSettings {
            client_id: self.client_id@,
            client_secret: self.client_secret@,
            auth_url: self.auth_url@,
            token_url: self.token_url@,
            redirect_url: self.redirect_url@,
        }
    }
}

impl Clone for TwitterAuth {
    fn clone(&self) -> (copy: Self)
        ensures
            copy@ == self@,
    {
        proof {
            use_type_invariant(self);
        }
        TwitterAuth {
            client_id: self.client_id.clone(),
            client_secret: self.client_secret.clone(),
            auth_url: self.auth_url.clone(),
            token_url: self.token_url.clone(),
            redirect_url: self.redirect_url.clone(),
        }
    }
}

impl TwitterAuth {
    #[verifier::type_invariant]
    spec fn well_formed(self) -> bool {
        &&& url_parse_error(self.auth_url@) is None
        &&& url_parse_error(self.token_url@) is None
        &&& url_parse_error(self.redirect_url@) is None
    }

    /// Sets up a flow for the given client. Fails with `AuthConfiguration`,
    /// carrying the parser's message, when one of the three URLs is malformed.
    pub fn new(oauth_config: OauthConfig) -> (result: SdkResult<Self>)
        ensures
            match config_fault(oauth_config.callback_url@) {
                Some(message) => result matches Err(SdkError::AuthConfiguration(text)) && text@
                    == message,
                None => result matches Ok(auth) && auth@ == AuthSettings::of(oauth_config),
            },
    {
        let x_config = XConfig::load();
        if let Some(message) = check_url(x_config.oauth_url.as_str()) {
            return Err(SdkError::AuthConfiguration(message));
        }
        let mut token_url = x_config.api_base;
        token_url.append("/oauth2/token");
        if let Some(message) = check_url(token_url.as_str()) {
            return Err(SdkError::AuthConfiguration(message));
        }
        if let Some(message) = check_url(oauth_config.callback_url.as_str()) {
            return Err(SdkError::AuthConfiguration(message));
        }
        Ok(
            TwitterAuth {
                client_id: oauth_config.client_id,
                client_secret: oauth_config.client_secret,
                auth_url: x_config.oauth_url,
                token_url,
                redirect_url: oauth_config.callback_url,
            },
        )
    }

    /// The authorization URL for a given state value and verifier, or `None`
    /// for a verifier whose length PKCE does not admit. The URL carries the
    /// challenge of the verifier, never the verifier.
    pub fn authorization_url_for(&self, state: &str, verifier: &PkceCodeVerifier) -> (url: Option<
        String,
    >)
        ensures
            text_of(url) == if has_pkce_length(verifier@) {
                Some(self@.url_for(state@, verifier@))
            } else {
                None::<Seq<char>>
            },
    {
        proof {
            use_type_invariant(self);
        }
        let len = verifier.secret().as_str().as_bytes().len();
        if 43 <= len && len <= 128 {
            Some(
                write_authorization_url(
                    self.auth_url.as_str(),
                    self.client_id.as_str(),
                    self.redirect_url.as_str(),
                    "users.read",
                    state,
                    verifier.secret().as_str(),
                ),
            )
        } else {
            None
        }
    }

    /// Generates a new verifier and the authorization URL that goes with it.
    /// The URL also carries a new random state value, which is not handed
    /// out. The verifier has to be kept until the callback arrives.
    pub fn generate_auth_url(&self) -> (issued: (String, PkceCodeVerifier))
        ensures
            is_fresh_verifier(issued.1@),
            self@.issues(issued.0@, issued.1@),
    {
        proof {
            use_type_invariant(self);
        }
        let verifier = fresh_verifier();
        let state = fresh_state();
        proof {
            lemma_fresh_verifier_has_pkce_length(verifier@);
        }
        let url = write_authorization_url(
            self.auth_url.as_str(),
            self.client_id.as_str(),
            self.redirect_url.as_str(),
            "users.read",
            state.as_str(),
            verifier.secret().as_str(),
        );
        assert(is_fresh_state(state@) && url@ == self@.url_for(state@, verifier@));
        (url, verifier)
    }

    /// Describes the request that redeems `code`. The verifier is used up.
    pub fn exchange_code(&self, code: String, pkce_verifier: PkceCodeVerifier) -> (exchange:
        TokenExchange)
        ensures
            self@.redeems(exchange, code@, pkce_verifier@),
    {
        TokenExchange {
            token_url: self.token_url.clone(),
            client_id: self.client_id.clone(),
            client_secret: self.client_secret.clone(),
            redirect_url: self.redirect_url.clone(),
            code,
            code_verifier: pkce_verifier.secret,
        }
    }

    /// Turns the outcome of the exchange into the result of the flow: a grant
    /// becomes a token with the same three values, and any failure becomes
    /// `AuthConfiguration` with the failure's message.
    pub fn complete_exchange(outcome: Result<TokenGrant, String>) -> (result: SdkResult<
        TwitterToken,
    >)
        ensures
            concludes(outcome, result),
    {
        match outcome {
            Ok(grant) => Ok(
                TwitterToken {
                    access_token: grant.access_token,
                    refresh_token: grant.refresh_token,
                    expires_in: grant.expires_in,
                },
            ),
            Err(message) => Err(SdkError::AuthConfiguration(message)),
        }
    }
}

} // verus!
