//! A typed client for the Paddle billing API.
//!
//! The library builds requests and reads responses; it does not send
//! anything. An operation of [`Client`] returns a [`Request`] that says what
//! to send, and the response types turn a status code and a body into typed
//! results. Every function here is verified against its contract, and the
//! few statements about `serde_json`, `url` and `reqwest` that the proofs
//! rest on are collected in [`json`], [`endpoint`], [`query`] and
//! [`request`].

pub mod client;
pub mod decode;
pub mod encode;
pub mod endpoint;
pub mod entities;
pub mod error;
pub mod json;
pub mod query;
pub mod request;
pub mod text;

pub use client::{Client, Config};
pub use error::{AuthFailure, ClientError, DecodeError, PaddleError};
pub use request::{Header, Method, Request};
