//! A typed client library for a vendor's SMS-sending HTTP API.
//!
//! The library builds an authenticated POST request carrying a serialized
//! message payload and classifies transport/HTTP outcomes into a small
//! domain error taxonomy. The network call itself is left to the caller;
//! everything that can be computed from plain values — the wire-format
//! serialization of a message, URL composition, header and credential
//! attachment, and outcome classification — lives here, with contracts.

pub mod account;
pub mod address;
pub mod auth;
pub mod error;
pub mod json;
pub mod request;
pub mod rest_api;
pub mod ty;
