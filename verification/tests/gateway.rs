use rusx::auth::PkceCodeVerifier;
use rusx::config::OauthConfig;
use rusx::error::SdkError;
use rusx::gateway::RusxGateway;

fn config(callback_url: &str) -> OauthConfig {
    OauthConfig {
        callback_url: callback_url.to_string(),
        client_id: "my-client".to_string(),
        client_secret: "my-secret".to_string(),
    }
}

fn gateway(token: Option<&str>) -> RusxGateway {
    match RusxGateway::new(config("https://example.com/callback"), token.map(str::to_string)) {
        Ok(gateway) => gateway,
        Err(_) => panic!("a well-formed configuration must be accepted"),
    }
}

#[test]
fn gateway_binds_its_handles_to_the_token() {
    let gateway = gateway(Some("first"));
    assert_eq!(gateway.users().get_me().bearer_token, "first");
    assert_eq!(gateway.tweets().get("1").bearer_token, "first");
    assert_eq!(gateway.users().get_me().url, "https://api.twitter.com/2/users/me");
    assert_eq!(gateway.tweets().get("1").url, "https://api.twitter.com/2/tweets/1");
}

#[test]
fn gateway_without_a_token_uses_the_empty_token() {
    let gateway = gateway(None);
    assert_eq!(gateway.users().get_me().bearer_token, "");
    assert_eq!(gateway.tweets().get("1").bearer_token, "");
}

#[test]
fn gateway_rejects_a_malformed_callback() {
    match RusxGateway::new(config("no scheme"), Some("t".to_string())) {
        Err(SdkError::AuthConfiguration(message)) => {
            assert_eq!(message, "relative URL without a base")
        }
        _ => panic!("expected an AuthConfiguration error"),
    }
}

#[test]
fn with_token_rebinds_and_leaves_the_first_gateway_alone() {
    let first = gateway(Some("first"));
    let second = match first.with_token("second".to_string()) {
        Ok(gateway) => gateway,
        Err(_) => panic!("rebinding cannot fail"),
    };
    assert_eq!(second.users().get_me().bearer_token, "second");
    assert_eq!(second.tweets().get("1").bearer_token, "second");
    assert_eq!(first.users().get_me().bearer_token, "first");
    assert_eq!(first.tweets().get("1").bearer_token, "first");
}

#[test]
fn with_token_keeps_the_authorization_settings() {
    let first = gateway(Some("first"));
    let second = match first.with_token("second".to_string()) {
        Ok(gateway) => gateway,
        Err(_) => panic!("rebinding cannot fail"),
    };
    let a = first.exchange_code("c".to_string(), PkceCodeVerifier::new("v".to_string()));
    let b = second.exchange_code("c".to_string(), PkceCodeVerifier::new("v".to_string()));
    assert_eq!(a.token_url, b.token_url);
    assert_eq!(a.client_id, b.client_id);
    assert_eq!(a.client_secret, b.client_secret);
    assert_eq!(a.redirect_url, b.redirect_url);
    assert_eq!(b.client_id, "my-client");
    assert_eq!(b.redirect_url, "https://example.com/callback");
}

#[test]
fn gateway_generates_a_url_for_its_client() {
    let (url, verifier) = gateway(None).generate_auth_url();
    assert!(url.starts_with(
        "https://twitter.com/i/oauth2/authorize?response_type=code&client_id=my-client&state="
    ));
    let challenge = verifier.challenge().unwrap();
    assert!(url.contains(&format!("&code_challenge={}&code_challenge_method=S256", challenge)));
    assert!(url.ends_with("&redirect_uri=https%3A%2F%2Fexample.com%2Fcallback&scope=users.read"));
}

#[test]
fn gateway_describes_the_exchange() {
    let verifier = PkceCodeVerifier::new("v".repeat(43));
    let exchange = gateway(None).exchange_code("code".to_string(), verifier);
    assert_eq!(exchange.token_url, "https://api.twitter.com/2/oauth2/token");
    assert_eq!(exchange.code, "code");
    assert_eq!(exchange.code_verifier, "v".repeat(43));
}

#[test]
fn a_copied_gateway_is_bound_like_the_first() {
    let first = gateway(Some("first"));
    let copy = first.clone();
    assert_eq!(copy.users().get_me().bearer_token, "first");
    assert_eq!(copy.tweets().get("1").url, "https://api.twitter.com/2/tweets/1");
    let exchange = copy.exchange_code("c".to_string(), PkceCodeVerifier::new("v".to_string()));
    assert_eq!(exchange.client_id, "my-client");
}
