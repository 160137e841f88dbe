//! A client-side engine for a rate-limited, OAuth2-protected REST API.
//!
//! The crate holds the decision logic of such a client: acquiring and
//! refreshing bearer tokens for the script and installed-app grant flows,
//! pacing requests against a server-declared rate budget, and classifying
//! failures. All I/O (HTTP transport, the local callback server, opening a
//! browser) is left to the embedding application, which drives the state
//! machines defined here and hands their decisions to the network.

pub mod callback;
pub mod codec;
pub mod credential;
pub mod engine;
pub mod errors;
pub mod listing;
pub mod outside;
pub mod pipeline;
pub mod rate;
pub mod scopes;
pub mod store;
pub mod sub;
