//! The Discord REST API: typed routes, rate-limit bookkeeping, and the
//! decisions the HTTP client makes about each response.

pub mod routes;
pub mod ratelimit;
pub mod client;
