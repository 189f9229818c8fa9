use oauth2::basic::BasicTokenResponse;
use oauth2::TokenResponse;
use rusx::auth::{TokenGrant, TwitterAuth};
use rusx::client::{BodyShape, DecodedBody, Reply, TwitterClient};
use rusx::error::{SdkError, TwitterApiErrorData};
use rusx::resources::tweet::{Tweet, TweetHandler};
use rusx::resources::TwitterApiResponse;

fn text(value: &serde_json::Value, key: &str) -> Option<String> {
    value.get(key).and_then(|v| v.as_str()).map(str::to_string)
}

fn grant_in(body: &str) -> TokenGrant {
    let response: BasicTokenResponse = match serde_json::from_str(body) {
        Ok(response) => response,
        Err(error) => panic!("the token response must decode: {}", error),
    };
    TokenGrant {
        access_token: response.access_token().secret().to_string(),
        refresh_token: response.refresh_token().map(|t| t.secret().to_string()),
        expires_in: response.expires_in().map(|d| d.as_secs()),
    }
}

fn tweet_envelope_in(body: &str) -> Result<TwitterApiResponse<Tweet>, serde_json::Error> {
    let value = serde_json::from_str::<serde_json::Value>(body)?;
    let data = value.get("data").map(|data| Tweet {
        id: text(data, "id").unwrap_or_default(),
        text: text(data, "text").unwrap_or_default(),
        author_id: text(data, "author_id"),
        created_at: text(data, "created_at"),
        public_metrics: None,
    });
    Ok(TwitterApiResponse { data, includes: None, meta: None })
}

fn error_data_in(body: &str) -> Result<TwitterApiErrorData, serde_json::Error> {
    let value = serde_json::from_str::<serde_json::Value>(body)?;
    Ok(TwitterApiErrorData {
        title: text(&value, "title").unwrap_or_default(),
        detail: text(&value, "detail"),
        error_type: text(&value, "type"),
        errors: None,
    })
}

fn answer(status: u16, body: &str) -> Reply<TwitterApiResponse<Tweet>> {
    let body = match TwitterClient::expected_shape(status) {
        BodyShape::Payload => DecodedBody::Payload(tweet_envelope_in(body)),
        BodyShape::ApiError => DecodedBody::ApiError(error_data_in(body)),
    };
    Reply::Answered { status, body }
}

#[test]
fn token_response_with_all_three_values() {
    let grant = grant_in(
        "{\"access_token\":\"T\",\"token_type\":\"bearer\",\"refresh_token\":\"R\",\"expires_in\":7200}",
    );
    let token = TwitterAuth::complete_exchange(Ok(grant)).unwrap();
    assert_eq!(token.access_token, "T");
    assert_eq!(token.refresh_token, Some("R".to_string()));
    assert_eq!(token.expires_in, Some(7200));
}

#[test]
fn token_response_without_refresh_token() {
    let grant = grant_in("{\"access_token\":\"T\",\"token_type\":\"bearer\",\"expires_in\":60}");
    let token = TwitterAuth::complete_exchange(Ok(grant)).unwrap();
    assert_eq!(token.access_token, "T");
    assert!(token.refresh_token.is_none());
    assert_ne!(token.refresh_token, Some(String::new()));
    assert_eq!(token.expires_in, Some(60));
}

#[test]
fn token_response_without_expiry() {
    let grant = grant_in("{\"access_token\":\"T\",\"token_type\":\"bearer\"}");
    let token = TwitterAuth::complete_exchange(Ok(grant)).unwrap();
    assert_eq!(token.access_token, "T");
    assert!(token.refresh_token.is_none());
    assert!(token.expires_in.is_none());
}

#[test]
fn ok_response_to_get_gives_the_tweet() {
    let request = TweetHandler::new(TwitterClient::new("t".to_string())).get("1");
    assert_eq!(request.url, "https://api.twitter.com/2/tweets/1");
    let reply = answer(200, "{\"data\":{\"id\":\"1\",\"text\":\"hi\"}}");
    let envelope = TwitterClient::settle(reply).unwrap();
    assert_eq!(envelope.data.unwrap().id, "1");
}

#[test]
fn ok_response_without_data_is_still_a_success() {
    let reply = answer(200, "{\"meta\":{\"result_count\":0}}");
    let envelope = TwitterClient::settle(reply).unwrap();
    assert!(envelope.data.is_none());
}

#[test]
fn ok_response_that_is_not_json_is_a_json_error() {
    let reply = answer(200, "<html>hello</html>");
    assert!(matches!(TwitterClient::settle(reply), Err(SdkError::Json(_))));
}

#[test]
fn not_found_response_gives_title_and_detail_of_the_body() {
    let reply = answer(
        404,
        "{\"title\":\"Not Found Error\",\"detail\":\"Could not find tweet with id: [1].\",\
         \"type\":\"https://api.twitter.com/2/problems/resource-not-found\"}",
    );
    match TwitterClient::settle(reply) {
        Err(SdkError::Api { status, data }) => {
            assert_eq!(status, 404);
            assert_eq!(data.title, "Not Found Error");
            assert_eq!(data.detail, Some("Could not find tweet with id: [1].".to_string()));
        }
        _ => panic!("expected an Api error"),
    }
}

#[test]
fn server_error_that_is_not_json_is_unknown() {
    let reply = answer(500, "<html>Internal Server Error</html>");
    match TwitterClient::settle(reply) {
        Err(SdkError::Unknown(message)) => {
            assert_eq!(message, "Failed to parse error body from Twitter")
        }
        Err(SdkError::Api { .. }) => panic!("a body that is not JSON must not give an Api error"),
        _ => panic!("expected an Unknown error"),
    }
}

#[test]
fn redirect_status_is_read_as_a_failure() {
    let reply = answer(301, "{\"title\":\"Moved\"}");
    match TwitterClient::settle(reply) {
        Err(SdkError::Api { status, data }) => {
            assert_eq!(status, 301);
            assert_eq!(data.title, "Moved");
            assert!(data.detail.is_none());
        }
        _ => panic!("expected an Api error"),
    }
}
