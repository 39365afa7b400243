//! Request-execution core of a client for the osu! API v2.
//!
//! The crate holds the decisions of the client as plain, verified functions:
//! how a token request and an API request are assembled, how a response is
//! classified, when a timed-out attempt is repeated, when the token is renewed,
//! and that a request object is started at most once. Network, clock and
//! runtime stay with the caller, who performs the actions these functions
//! hand out and reports back what happened.

pub mod cache;
pub mod client;
pub mod error;
pub mod foreign;
pub mod model;
pub mod request;
pub mod response;
pub mod routing;
pub mod text;
pub mod transport;
