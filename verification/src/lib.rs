//! Client-side library for a GoTrue-compatible identity service.
//!
//! The library is the pure half of an HTTP client: it builds every outgoing
//! request (endpoint URL, headers, bearer token, JSON body) as a plain
//! value, and it interprets every transport outcome, mapping HTTP status
//! codes to the closed error set in [`error::Error`].  Performing the HTTP
//! round trip itself is left to the caller, who hands the outcome back.

mod api;
mod client;
mod decimal;
pub mod error;
pub mod http;
mod json;
pub mod redirect;
mod session;
mod split;
mod user;
mod user_attributes;
mod user_list;
mod user_update;

pub use api::Api;
pub use api::EmailOrPhone;
pub use client::Client;
pub use http::ApiFailure;
pub use http::HttpMethod;
pub use http::HttpRequest;
pub use redirect::RedirectCapture;
pub use session::Session;
pub use user::User;
pub use user_attributes::AdminUserAttributes;
pub use user_attributes::UserAttributes;
pub use user_list::UserList;
pub use user_update::UserUpdate;
