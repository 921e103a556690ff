//! A small HTTP API scaffold: the data records, the handlers that fabricate
//! responses, the route table and the API description built from it.
//! The HTTP server itself lives outside this library.

pub mod api;
pub mod clock;
pub mod config;
pub mod handlers;
pub mod models;
pub mod routes;
