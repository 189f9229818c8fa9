use rusx::config::{OauthConfig, XConfig};

#[test]
fn load_gives_the_provider_endpoints() {
    let config = XConfig::load();
    assert_eq!(config.api_base, "https://api.twitter.com/2");
    assert_eq!(config.oauth_url, "https://twitter.com/i/oauth2/authorize");
}

#[test]
fn oauth_config_keeps_its_fields() {
    let config = OauthConfig {
        callback_url: "https://example.com/callback".to_string(),
        client_id: "id".to_string(),
        client_secret: "secret".to_string(),
    };
    let copy = config.clone();
    assert_eq!(copy.callback_url, "https://example.com/callback");
    assert_eq!(copy.client_id, "id");
    assert_eq!(copy.client_secret, "secret");
}
