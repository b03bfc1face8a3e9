//! A typed, read-only client core for the JSONPlaceholder REST service.
//!
//! The crate performs no I/O. It builds request paths, decides how an HTTP
//! exchange proceeds from the events a transport reports, decodes response
//! bodies against the service's wire schema and maps them to domain entities.

pub mod decode;
pub mod endpoints;
pub mod entities;
pub mod fetch;
pub mod json;
pub mod mapper;
pub mod models;
pub mod query;
pub mod text;
pub mod wire;
