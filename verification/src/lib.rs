//! Client-side core of an authenticated upload protocol for a remote web
//! service that requires a session cookie plus a rotating anti-forgery token
//! on state-changing requests.
//!
//! The verified core covers: the session state holding the two credentials,
//! the construction of the wire request (query parameters, headers, body),
//! the classification of transport outcomes, and the refresh-and-retry
//! protocol that recovers exactly once from a stale token. Performing the
//! actual HTTP exchange is left to an unverified driver, which feeds each
//! response back into the step functions of [`protocol`].

pub mod asset;
pub mod error;
pub mod laws;
pub mod protocol;
pub mod session;
pub mod wire;
