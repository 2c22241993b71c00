//! The HTTP service's logic: scans of uploaded bundles, what an upload's
//! fields ask for, rate limiting and sign-in.
pub mod scan;
pub mod uploads;
pub mod keyed;
pub mod rate_limit;
pub mod auth;
