//! A typed client for JSON REST APIs: endpoints describe a call, clients
//! move bytes, and the query pipeline joins the two into a decoded value or
//! one error of a closed taxonomy.
pub mod address;
pub mod client;
pub mod endpoint;
pub mod error;
pub mod json;
pub mod outside;
pub mod params;
pub mod pipeline;
pub mod request;
pub mod types;
