//! The values that travel to and from the controller.

pub mod api_response;
pub mod auth;
pub mod guest;
pub mod guests;
pub mod site;
pub mod voucher;

pub use self::api_response::{ApiMeta, ApiResponse, EmptyResponse};
pub use self::auth::LoginRequest;
