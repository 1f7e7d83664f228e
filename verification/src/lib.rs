//! An authenticated client core for a social-network HTTP API: it owns a
//! credential session (access token, decoded expiry, refresh token), decides
//! when the session must be refreshed, drives a two-step post lookup
//! (profile resolution, then post fetch by canonical address), and renders a
//! fetched post together with its embedded content as plain text.
//!
//! All network calls are performed by the embedding program, which feeds
//! their outcomes back into the verified state machine exposed here.

pub mod client;
pub mod formatters;
pub mod session;
pub mod textfmt;
