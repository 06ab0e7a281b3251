//! Start-up configuration and its validation.

use vstd::prelude::*;
use vstd::string::*;
use crate::errors::PluginError;

verus! {

/// The exporter port used when the configuration names none.
pub open spec fn spec_default_metrics_port() -> u16 {
    3030
}

/// The exporter port used when the configuration names none.
#[verifier::when_used_as_spec(spec_default_metrics_port)]
pub fn default_metrics_port() -> (port: u16)
    ensures
        port == spec_default_metrics_port(),
{
    3030
}

/// Everything the bridge is told at start-up. It is loaded once and never
/// changed afterwards.
#[derive(Clone, Debug)]
pub struct Config {
    /// Where the scraping agent lives. Informational: the bridge never calls it.
    pub prometheus_endpoint: String,
    /// Where log records are posted.
    pub loki_endpoint: String,
    /// The credential the bot logs in with.
    pub bot_token: String,
    /// The game server the bot joins.
    pub server_address: String,
    /// The port the exporter listens on.
    pub metrics_port: u16,
}

impl Config {
    /// All four required fields have a value.
    pub open spec fn is_complete(self) -> bool {
        &&& self.prometheus_endpoint@.len() > 0
        &&& self.loki_endpoint@.len() > 0
        &&& self.bot_token@.len() > 0
        &&& self.server_address@.len() > 0
    }

    /// The complaint about the first required field that is empty, in the
    /// order the fields are declared.
    pub open spec fn first_complaint(self) -> Seq<char> {
        if self.prometheus_endpoint@.len() == 0 {
            "Prometheus endpoint cannot be empty"@
        } else if self.loki_endpoint@.len() == 0 {
            "Loki endpoint cannot be empty"@
        } else if self.bot_token@.len() == 0 {
            "Bot token cannot be empty"@
        } else {
            "Server address cannot be empty"@
        }
    }

    /// Accepts a configuration whose required fields are all non-empty, and
    /// otherwise names the first one that is empty.
    pub fn validate(&self) -> (outcome: Result<(), PluginError>)
        ensures
            outcome is Ok <==> self.is_complete(),
            outcome matches Err(e) ==> e is Config && e.detail() == self.first_complaint(),
    {
        if self.prometheus_endpoint.as_str().is_empty() {
            return Err(PluginError::Config("Prometheus endpoint cannot be empty".to_owned()));
        }
        if self.loki_endpoint.as_str().is_empty() {
            return Err(PluginError::Config("Loki endpoint cannot be empty".to_owned()));
        }
        if self.bot_token.as_str().is_empty() {
            return Err(PluginError::Config("Bot token cannot be empty".to_owned()));
        }
        if self.server_address.as_str().is_empty() {
            return Err(PluginError::Config("Server address cannot be empty".to_owned()));
        }
        Ok(())
    }

    /// The error reported when the configuration file cannot be read; `cause`
    /// is what the file system said.
    pub fn unreadable(cause: &str) -> (error: PluginError)
        ensures
            error is Config,
            error.detail() == "Failed to read config file: "@ + cause@,
    {
        PluginError::Config("Failed to read config file: ".to_owned().concat(cause))
    }

    /// The error reported when the configuration file is not a valid
    /// configuration; `cause` is what the parser said.
    pub fn malformed(cause: &str) -> (error: PluginError)
        ensures
            error is Config,
            error.detail() == "Failed to parse config: "@ + cause@,
    {
        PluginError::Config("Failed to parse config: ".to_owned().concat(cause))
    }
}

} // verus!
