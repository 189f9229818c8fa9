//! The request pipeline: the one place where a resource path becomes a
//! request, and where the outcome of a round trip becomes a typed result.

use vstd::prelude::*;
use vstd::string::StringExecFns;
use crate::config::{api_base_text, XConfig};
use crate::error::{SdkError, SdkResult, TwitterApiErrorData};
use crate::resources::tweet::TweetHandler;
use crate::resources::user::UserHandler;

verus! {

/// An HTTP request method.
#[derive(Debug, Clone, Copy, PartialEq, Eq, Structural)]
pub enum Method {
    Get,
    Post,
    Put,
    Delete,
    Patch,
    Head,
    Options,
}

/// A request, ready to be sent: nothing is added to it on the way out but the
/// bearer token as an `Authorization` header.
#[derive(Debug)]
pub struct ApiRequest {
    pub method: Method,
    pub url: String,
    pub bearer_token: String,
}

/// The shape in which the body of a response is to be decoded.
#[derive(Debug, Clone, Copy, PartialEq, Eq, Structural)]
pub enum BodyShape {
    /// The payload that the caller expects.
    Payload,
    /// The error body of the API.
    ApiError,
}

/// The body of a response after the attempt to decode it.
pub enum DecodedBody<T> {
    Payload(Result<T, serde_json::Error>),
    ApiError(Result<TwitterApiErrorData, serde_json::Error>),
}

/// What one round trip produced.
pub enum Reply<T> {
    /// The transport failed; no response was received.
    Failed(reqwest::Error),
    /// A response with this status was received, and its body was decoded in
    /// the shape that `expected_shape` names for the status.
    Answered { status: u16, body: DecodedBody<T> },
}

/// Whether a status code reports success.
pub open spec fn is_success(status: u16) -> bool {
    200 <= status < 300
}

/// The shape of the body that a response with `status` carries.
pub open spec fn shape_for(status: u16) -> BodyShape {
    if is_success(status) {
        BodyShape::Payload
    } else {
        BodyShape::ApiError
    }
}

/// The message of the error that stands for an unreadable error body.
pub open spec fn unreadable_error_text() -> Seq<char> {
    "Failed to parse error body from Twitter"@
}

impl<T> DecodedBody<T> {
    /// The shape in which the body was decoded.
    pub open spec fn shape(&self) -> BodyShape {
        match self {
            DecodedBody::Payload(_) => BodyShape::Payload,
            DecodedBody::ApiError(_) => BodyShape::ApiError,
        }
    }
}

/// Whether `result` is what the pipeline returns for `reply`.
pub open spec fn settles<T>(reply: Reply<T>, result: SdkResult<T>) -> bool {
    match reply {
        Reply::Failed(error) => result == Err::<T, SdkError>(SdkError::Http(error)),
        Reply::Answered { status, body } => match body {
            DecodedBody::Payload(Ok(payload)) => result == Ok::<T, SdkError>(payload),
            DecodedBody::Payload(Err(error)) => result == Err::<T, SdkError>(SdkError::Json(error)),
            DecodedBody::ApiError(Ok(data)) => result == Err::<T, SdkError>(
                SdkError::Api { status, data },
            ),
            DecodedBody::ApiError(Err(_)) => result matches Err(SdkError::Unknown(message))
                && message@ == unreadable_error_text(),
        },
    }
}

/// A response is classified by its status alone. When the body was decoded in
/// the shape that the status calls for, the call succeeds exactly when the
/// status reports success and the payload decoded; a success status can fail
/// only as `Json`; any other status gives `Api` with that status and the
/// decoded body, or `Unknown` with its fixed message, and nothing else.
pub proof fn lemma_classified_by_status<T>(status: u16, body: DecodedBody<T>, result: SdkResult<T>)
    requires
        body.shape() == shape_for(status),
        settles(Reply::Answered { status, body }, result),
    ensures
        result is Ok <==> is_success(status) && body matches DecodedBody::Payload(Ok(_)),
        is_success(status) ==> result is Ok || result matches Err(SdkError::Json(_)),
        !is_success(status) ==> {
            ||| result matches Err(SdkError::Api { status: reported, data })
                && reported == status && body == DecodedBody::<T>::ApiError(Ok(data))
            ||| result matches Err(SdkError::Unknown(message))
                && message@ == unreadable_error_text() && body matches DecodedBody::ApiError(
                Err(_),
            )
        },
{
}

/// A client bound to one bearer token and to the base URL of the API. Neither
/// changes after construction.
#[derive(Debug)]
pub struct TwitterClient {
    bearer_token: String,
    base_url: String,
}

impl Clone for TwitterClient {
    fn clone(&self) -> (copy: Self)
        ensures
            copy == *self,
    {
        TwitterClient { bearer_token: self.bearer_token.clone(), base_url: self.base_url.clone() }
    }
}

impl TwitterClient {
    /// The bearer token that every request of this client carries.
    pub closed spec fn bearer(&self) -> Seq<char> {
        self.bearer_token@
    }

    /// The URL that every path of this client is appended to.
    pub closed spec fn base(&self) -> Seq<char> {
        self.base_url@
    }

    /// Whether `request` is the request of this client for `endpoint`.
    pub open spec fn issues(&self, request: ApiRequest, method: Method, endpoint: Seq<char>) -> bool {
        &&& request.method == method
        &&& request.url@ == self.base() + endpoint
        &&& request.bearer_token@ == self.bearer()
    }

    pub fn new(bearer_token: String) -> (client: Self)
        ensures
            client.bearer() == bearer_token@,
            client.base() == api_base_text(),
    {
        let x_config = XConfig::load();
        TwitterClient { bearer_token, base_url: x_config.api_base }
    }

    /// A handle on the tweet operations, bound to this client's token.
    pub fn tweets(&self) -> (handler: TweetHandler)
        ensures
            handler.client() == *self,
    {
        TweetHandler::new(self.clone())
    }

    /// A handle on the user operations, bound to this client's token.
    pub fn users(&self) -> (handler: UserHandler)
        ensures
            handler.client() == *self,
    {
        UserHandler::new(self.clone())
    }

    /// The request for `endpoint`: the base URL with `endpoint` appended as it
    /// stands, and the bearer token. The endpoint is not escaped.
    pub fn request(&self, method: Method, endpoint: &str) -> (request: ApiRequest)
        ensures
            self.issues(request, method, endpoint@),
    {
        let mut url = self.base_url.clone();
        url.append(endpoint);
        ApiRequest { method, url, bearer_token: self.bearer_token.clone() }
    }

    /// Tells in which shape the body of a response is to be decoded: as the
    /// payload for a status from 200 to 299, as an error body for any other.
    pub fn expected_shape(status: u16) -> (shape: BodyShape)
        ensures
            shape == shape_for(status),
    {
        if 200 <= status && status < 300 {
            BodyShape::Payload
        } else {
            BodyShape::ApiError
        }
    }

    /// Turns the outcome of a round trip into the result of the call. A
    /// transport failure becomes `Http`; a payload that did not decode becomes
    /// `Json`; a decoded error body becomes `Api`, with the status and the
    /// body as they came; an error body that did not decode becomes `Unknown`.
    pub fn settle<T>(reply: Reply<T>) -> (result: SdkResult<T>)
        ensures
            settles(reply, result),
    {
        match reply {
            Reply::Failed(error) => Err(SdkError::from(error)),
            Reply::Answered { status, body } => match body {
                DecodedBody::Payload(Ok(payload)) => Ok(payload),
                DecodedBody::Payload(Err(error)) => Err(SdkError::from(error)),
                DecodedBody::ApiError(Ok(data)) => Err(SdkError::Api { status, data }),
                DecodedBody::ApiError(Err(_)) => Err(
                    SdkError::Unknown("Failed to parse error body from Twitter".to_owned()),
                ),
            },
        }
    }
}

} // verus!
