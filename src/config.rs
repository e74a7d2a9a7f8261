use vstd::prelude::*;

verus! {

/// Identity of the logging service, stamped on every envelope.
#[derive(Clone)]
pub struct LoggerConfig {
    pub service: String,
    pub environment: String,
    pub default_type: Option<String>,
}

/// Credentials a logger authenticates with: exactly one of two schemes.
#[derive(Clone)]
pub enum LogConfig {
    /// Authentication by client and build identifiers.
    ClientBuild { client_id: String, build_id: String, logger_config: LoggerConfig },
    /// Authentication by an access key and its secret.
    AccessKeys { access_key: String, secret_key: String, logger_config: LoggerConfig },
}

} // verus!
