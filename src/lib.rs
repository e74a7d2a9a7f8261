//! Structured-log enrichment for a remote intake service.
//!
//! Records are turned into JSON envelopes that carry the service identity,
//! requests are decorated with the credentials of one of two schemes, and the
//! resulting dispatch is handed to the caller's transport.

pub mod level;
pub mod config;
pub mod auth;
pub mod envelope;
pub mod logger;
