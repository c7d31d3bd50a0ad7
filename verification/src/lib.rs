//! Client framework for a JSON-over-HTTPS REST API: how a request is built
//! from an endpoint description, and how a response is interpreted.

pub mod auth;
pub mod client;
pub mod endpoint;
pub mod environment;
pub mod json;
pub mod params;
pub mod query;
pub mod request;
pub mod response;
pub mod text;
