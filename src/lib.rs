//! Request and response plumbing for the Sdui school-management web API:
//! the response envelope, its projections into typed results, rate-limit
//! extraction from response headers, and the error kinds every endpoint
//! reports. The network transport itself lives outside this crate.

pub mod error;
pub mod rate_limit;
pub mod json;
pub mod envelope;
pub mod auth;
