//! Starter scaffolding for two small programs: a command-line greeting and a
//! server-rendered web page with one fragment endpoint.
//!
//! The crate holds the decisions of both programs as verified functions on
//! plain values. Writing to standard output, reading the process environment,
//! fetching and rendering templates, listening on a socket and serving files
//! are left to the program that links this library.

pub mod config;
pub mod engine;
pub mod greeting;
pub mod handlers;
pub mod page;
pub mod routes;
