//! A typed client library for the League of Legends REST API: routing values,
//! endpoint paths and query strings, request construction and response checks.
//!
//! Everything here computes; sending a request over the network is left to the
//! caller, which hands the status and body of the response back to
//! [`response::handle_response`].

pub mod api;
pub mod constants;
pub mod endpoints;
pub mod form;
pub mod models;
pub mod regions;
pub mod request;
pub mod response;
pub mod static_data;
pub mod text;

pub use self::regions::{Platforms, Regions, WithHosts};
