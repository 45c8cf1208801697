//! Session handling for the UniFi controller API, without the network.
//!
//! The crate holds the decisions of a UniFi client: how the controller flavour
//! is told apart, what a login must look like to count, how the session's CSRF
//! token and epoch move, when a request is retried after re-authentication, how
//! an endpoint becomes an absolute URL and how the controller's envelope is
//! opened. Every function is a plain computation on values; whoever owns the
//! sockets sends what the functions describe and hands back what came in.

pub mod api;
pub mod client;
pub mod endpoint;
pub mod error;
pub mod headers;
pub mod links;
pub mod models;
pub mod secret;
pub mod session;
pub mod status;
pub mod text;

pub use crate::api::guest;
pub use crate::client::{UniFiClient, UniFiClientBuilder};
pub use crate::error::{UniFiError, UniFiResult};
pub use url::ParseError as UrlParseError;
