//! Client library for a network where each user is a public key: it finds a user's
//! homeserver through signed, cached records and authenticates against it with a
//! challenge-response signature.
pub mod challenge;
pub mod crypto;
pub mod error;
pub mod helpers;
pub mod http;
pub mod auth;
pub mod cache;
pub mod paykit;
pub mod records;
pub mod resolver;
pub mod text;
pub mod urls;
pub mod utils;
pub mod zbase32;
