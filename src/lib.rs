//! Credential and session core of an authentication service: a credential
//! store, a session store, an authenticator that orchestrates them, and a
//! service façade that turns results into status responses.

pub mod error;
pub mod keyed;
pub mod hashing;
pub mod ids;
pub mod users;
pub mod sessions;
pub mod auth;
pub mod service;
pub mod laws;
