//! A typed client for the Twitter v2 REST API.
//!
//! The crate covers the OAuth2 authorization-code flow with PKCE and the
//! construction and classification of authenticated resource requests. It
//! performs no network traffic itself: every operation that needs a round trip
//! yields a description of the request to send, and a second function turns
//! what came back into a typed result or a classified error.

pub mod auth;
pub mod client;
pub mod config;
pub mod error;
pub mod gateway;
pub mod resources;
pub mod text;

pub use auth::{PkceCodeVerifier, TwitterAuth};
pub use client::TwitterClient;
pub use gateway::RusxGateway;
