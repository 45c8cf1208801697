//! The calls that manage guests, vouchers and sites.
//!
//! Each handler says what to send, as an `ApiCall`, and takes what the
//! controller gave. The call goes out by `UniFiClient::request`, and its answer
//! comes in by `UniFiClient::get` or `UniFiClient::post`.

pub mod guest;
pub mod guests;
pub mod site;
pub mod voucher;

use crate::error::{api_error, UniFiError};
use vstd::prelude::*;

verus! {

/// The two methods by which the controller is called.
#[derive(Clone, Copy, Debug, PartialEq, Eq, Structural)]
pub enum Method {
    Get,
    Post,
}

/// A call: the method, the endpoint, and the body, sent as JSON, if there is one.
#[derive(Debug)]
pub struct ApiCall<B> {
    pub method: Method,
    pub endpoint: String,
    pub body: Option<B>,
}

impl<B> ApiCall<B> {
    /// Whether the call is of that method, to that endpoint.
    pub open spec fn goes(&self, method: Method, endpoint: Seq<char>) -> bool {
        self.method == method && self.endpoint@ == endpoint
    }
}

/// The endpoint of a site: `/api/s/`, the site, and what follows it.
pub open spec fn site_path(site: Seq<char>, rest: Seq<char>) -> Seq<char> {
    "/api/s/"@ + site + rest
}

/// The endpoint of a site.
pub fn site_endpoint(site: &str, rest: &str) -> (endpoint: String)
    ensures
        endpoint@ == site_path(site@, rest@),
{
    let mut endpoint = "/api/s/".to_owned();
    endpoint.append(site);
    endpoint.append(rest);
    endpoint
}

/// The first of what the controller gave, or an `ApiError` that says `otherwise`
/// if it gave nothing.
pub fn first_or<T>(items: Vec<T>, otherwise: &str) -> (first: Result<T, UniFiError>)
    ensures
        items.len() > 0 ==> first == Ok::<T, UniFiError>(items[0]),
        items.len() == 0 ==> api_error(first, otherwise@),
{
    let mut items = items;
    if items.len() == 0 {
        Err(UniFiError::ApiError(otherwise.to_owned()))
    } else {
        Ok(items.swap_remove(0))
    }
}

} // verus!
