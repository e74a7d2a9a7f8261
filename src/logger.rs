use vstd::prelude::*;

use crate::auth::{auth_headers, auth_headers_spec, headers_view, Header};
use crate::config::{LogConfig, LoggerConfig};
use crate::envelope::{event_fields, record_fields, Envelope};
use crate::level::{passes, Level, LevelFilter};

verus! {

#[verifier::external_type_specification]
#[verifier::external_body]
pub struct ExClient(reqwest::Client);

/// Intake endpoint used when neither the caller nor the environment names one.
pub const DEFAULT_API_URL: &'static str = "https://api.pogr.io/v1/intake/logs";

/// Destination chosen from an explicit URL, then one from the environment,
/// then the default endpoint.
pub open spec fn resolved_url(api_url: Option<String>, env_url: Option<String>) -> Seq<char> {
    match api_url {
        Some(u) => u@,
        None => match env_url {
            Some(u) => u@,
            None => DEFAULT_API_URL@,
        },
    }
}

/// Picks the intake URL: an explicit one wins over one taken from the
/// environment, which wins over the default endpoint.
pub fn resolve_api_url(api_url: Option<String>, env_url: Option<String>) -> (r: String)
    ensures
        r@ == resolved_url(api_url, env_url),
{
    match api_url {
        Some(u) => u,
        None => match env_url {
            Some(u) => u,
            None => String::from_str(DEFAULT_API_URL),
        },
    }
}

/// One request to ship: where it goes, the envelope it carries as its JSON
/// body, and the authentication headers it bears.
pub struct Dispatch {
    pub url: String,
    pub body: Envelope,
    pub headers: Vec<Header>,
}

/// A sink that turns records into requests for a remote intake service.
pub struct POGRLogger {
    client: Option<reqwest::Client>,
    api_url: Option<String>,
    auth_config: LogConfig,
    logger_config: LoggerConfig,
    threshold: LevelFilter,
}

impl POGRLogger {
    pub closed spec fn spec_client(&self) -> Option<reqwest::Client> {
        self.client
    }

    pub closed spec fn spec_api_url(&self) -> Option<String> {
        self.api_url
    }

    pub closed spec fn spec_auth_config(&self) -> LogConfig {
        self.auth_config
    }

    pub closed spec fn spec_logger_config(&self) -> LoggerConfig {
        self.logger_config
    }

    pub closed spec fn spec_threshold(&self) -> LevelFilter {
        self.threshold
    }

    /// URL every request of this logger is sent to.
    pub open spec fn spec_url(&self) -> Seq<char> {
        match self.spec_api_url() {
            Some(u) => u@,
            None => DEFAULT_API_URL@,
        }
    }

    /// A logger for the given credentials and identity. The destination is
    /// `api_url` if given, else `env_url` (the value of the intake URL
    /// variable, if set), else the default endpoint. Records at `Info` and
    /// more severe are let through.
    pub fn new(
        client: reqwest::Client,
        api_url: Option<String>,
        env_url: Option<String>,
        auth_config: LogConfig,
        logger_config: LoggerConfig,
    ) -> (r: Self)
        ensures
            r.spec_client() == Some(client),
            r.spec_api_url() is Some,
            r.spec_url() == resolved_url(api_url, env_url),
            r.spec_auth_config() == auth_config,
            r.spec_logger_config() == logger_config,
            r.spec_threshold() == LevelFilter::Info,
    {
        let url = resolve_api_url(api_url, env_url);
        POGRLogger {
            client: Some(client),
            api_url: Some(url),
            auth_config,
            logger_config,
            threshold: LevelFilter::Info,
        }
    }

    pub fn set_client(&mut self, client: reqwest::Client)
        ensures
            final(self).spec_client() == Some(client),
            final(self).spec_api_url() == old(self).spec_api_url(),
            final(self).spec_auth_config() == old(self).spec_auth_config(),
            final(self).spec_logger_config() == old(self).spec_logger_config(),
            final(self).spec_threshold() == old(self).spec_threshold(),
    {
        self.client = Some(client);
    }

    pub fn set_api_url(&mut self, api_url: String)
        ensures
            final(self).spec_api_url() == Some(api_url),
            final(self).spec_url() == api_url@,
            final(self).spec_client() == old(self).spec_client(),
            final(self).spec_auth_config() == old(self).spec_auth_config(),
            final(self).spec_logger_config() == old(self).spec_logger_config(),
            final(self).spec_threshold() == old(self).spec_threshold(),
    {
        self.api_url = Some(api_url);
    }

    /// Sets the minimum severity that `log` lets through.
    pub fn set_threshold(&mut self, threshold: LevelFilter)
        ensures
            final(self).spec_threshold() == threshold,
            final(self).spec_client() == old(self).spec_client(),
            final(self).spec_api_url() == old(self).spec_api_url(),
            final(self).spec_auth_config() == old(self).spec_auth_config(),
            final(self).spec_logger_config() == old(self).spec_logger_config(),
    {
        self.threshold = threshold;
    }

    /// The HTTP client requests are sent with, once one is set.
    pub fn client(&self) -> (r: &Option<reqwest::Client>)
        ensures
            *r == self.spec_client(),
    {
        &self.client
    }

    /// Whether a record at `level` is at least as severe as the threshold.
    pub fn enabled(&self, level: Level) -> (r: bool)
        ensures
            r == passes(level, self.spec_threshold()),
    {
        self.threshold.allows(level)
    }

    fn url(&self) -> (r: String)
        ensures
            r@ == self.spec_url(),
    {
        match &self.api_url {
            Some(u) => u.clone(),
            None => String::from_str(DEFAULT_API_URL),
        }
    }

    /// The request for a record at `level` with message `msg`, or `None`
    /// when the level is below the threshold, in which case nothing is sent.
    pub fn log(&self, level: Level, msg: &str) -> (r: Option<Dispatch>)
        ensures
            r is None <==> !passes(level, self.spec_threshold()),
            r matches Some(d) ==> {
                &&& d.url@ == self.spec_url()
                &&& d.body.wf()
                &&& d.body@ == record_fields(self.spec_logger_config(), level, msg@)
                &&& headers_view(d.headers@) == auth_headers_spec(self.spec_auth_config())
            },
    {
        if !self.enabled(level) {
            return None;
        }
        let body = Envelope::from_record(&self.logger_config, level, msg);
        Some(Dispatch { url: self.url(), body, headers: auth_headers(&self.auth_config) })
    }

    /// The request for an explicit structured event. It is built whatever
    /// the threshold: the call is deliberate, not a passive hook.
    pub fn custom_log(
        &self,
        level: Level,
        msg: &str,
        log_type: &str,
        data: serde_json::Value,
        tags: serde_json::Value,
    ) -> (r: Dispatch)
        ensures
            r.url@ == self.spec_url(),
            r.body@ == event_fields(self.spec_logger_config(), level, msg@, log_type@, data, tags),
            headers_view(r.headers@) == auth_headers_spec(self.spec_auth_config()),
    {
        let body = Envelope::from_event(&self.logger_config, level, msg, log_type, data, tags);
        Dispatch { url: self.url(), body, headers: auth_headers(&self.auth_config) }
    }
}

} // verus!
