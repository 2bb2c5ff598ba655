//! Why no endpoint could be settled on.

use crate::endpoint::UrlError;
use vstd::prelude::*;

verus! {

/// A failure to resolve the endpoint. Each is fatal: the caller reports it
/// and exits with [`EXIT_FAILURE`].
#[derive(Debug)]
pub enum ResolveError {
    /// The configuration path starts at the home directory and the user has
    /// none.
    NoHome,
    /// The configuration file could not be read or parsed; `detail` says
    /// why.
    Unreadable { detail: String },
    /// The value under `key` in the configuration file is no endpoint.
    InvalidUrl { key: String, error: UrlError },
    /// No name was asked for and the configuration has no default webhook.
    MissingDefault,
    /// The configuration has no webhook of this name.
    UnknownHook { name: String },
}

/// The exit code after a clean end of input.
pub const EXIT_SUCCESS: i32 = 0;

/// The exit code after a fatal error.
pub const EXIT_FAILURE: i32 = 1;

/// The diagnostic for a configuration that could not be read.
pub open spec fn config_failure(detail: Seq<char>) -> Seq<char> {
    "Failed to read config ("@ + detail + ")"@
}

fn config_failure_message(detail: &str) -> (message: String)
    ensures
        message@ == config_failure(detail@),
{
    let mut message = String::from_str("Failed to read config (");
    message.append(detail);
    message.append(")");
    message
}

impl ResolveError {
    /// The line that reports this error.
    pub open spec fn text(self) -> Seq<char> {
        match self {
            ResolveError::NoHome => config_failure("Home directory not found"@),
            ResolveError::Unreadable { detail } => config_failure(detail@),
            ResolveError::InvalidUrl { key, error } => config_failure(
                "invalid URL for "@ + key@ + ": "@ + error.text(),
            ),
            ResolveError::MissingDefault => "Missing default Slack Webhook"@,
            ResolveError::UnknownHook { name } => "Could not find Slack Webhook '"@ + name@ + "'"@,
        }
    }

    /// The line to write to standard error for this error.
    pub fn message(&self) -> (message: String)
        ensures
            message@ == self.text(),
    {
        match self {
            ResolveError::NoHome => config_failure_message("Home directory not found"),
            ResolveError::Unreadable { detail } => config_failure_message(detail.as_str()),
            ResolveError::InvalidUrl { key, error } => {
                let mut detail = String::from_str("invalid URL for ");
                detail.append(key.as_str());
                detail.append(": ");
                detail.append(error.message().as_str());
                config_failure_message(detail.as_str())
            },
            ResolveError::MissingDefault => String::from_str("Missing default Slack Webhook"),
            ResolveError::UnknownHook { name } => {
                let mut message = String::from_str("Could not find Slack Webhook '");
                message.append(name.as_str());
                message.append("'");
                message
            },
        }
    }
}

} // verus!
