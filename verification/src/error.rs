//! The errors a request can end in.

use vstd::prelude::*;
use vstd::string::*;

verus! {

/// A configuration value that the backend calls need.
#[derive(Debug, Clone, Copy, PartialEq, Eq, Structural)]
pub enum ConfigKey {
    /// The bearer token.
    Token,
    /// The backend's host.
    Endpoint,
}

/// How a call to the backend failed.
#[derive(Debug, PartialEq)]
pub enum BackendFailure {
    /// A fetch got no answer; the text says why.
    Fetch(String),
    /// A command could not be sent or got no answer; the text says why.
    Send(String),
    /// The backend answered with a status outside 200..=299: the status
    /// code, and the status as the transport prints it.
    Status(u16, String),
}

/// Why a request was not served.
#[derive(Debug, PartialEq)]
pub enum ServerError {
    /// A required configuration value is absent.
    ConfigurationError(ConfigKey),
    /// The backend could not be reached or refused the call.
    BackendError(BackendFailure),
    /// The backend's answer was not in the expected shape.
    ParseError(String),
    /// No prompt has the requested name.
    PromptNotFound,
    /// A required prompt argument was not supplied.
    MissingArgument(String),
    /// No tool has the requested name.
    UnknownTool(String),
    /// A tool was called without the named parameter, which it needs.
    MissingParameter(String),
}

/// How an error is reported to the caller.
#[derive(Debug, Clone, Copy, PartialEq, Eq, Structural)]
pub enum ErrorKind {
    /// The request named something that does not exist or left something
    /// out.
    InvalidParams,
    /// The server could not do its part.
    Internal,
}

impl ServerError {
    /// How the error is reported: what the caller asked for wrongly is an
    /// invalid parameter, everything else an internal error.
    pub open spec fn kind_of(&self) -> ErrorKind {
        match self {
            ServerError::PromptNotFound => ErrorKind::InvalidParams,
            ServerError::MissingArgument(_) => ErrorKind::InvalidParams,
            ServerError::UnknownTool(_) => ErrorKind::InvalidParams,
            ServerError::MissingParameter(_) => ErrorKind::InvalidParams,
            _ => ErrorKind::Internal,
        }
    }

    /// The text that tells the caller what went wrong.
    pub open spec fn message_text(&self) -> Seq<char> {
        match self {
            ServerError::ConfigurationError(ConfigKey::Token) =>
                "HASS_TOKEN environment variable has not been set"@,
            ServerError::ConfigurationError(ConfigKey::Endpoint) =>
                "HASS_ENDPOINT environment variable has not been set"@,
            ServerError::BackendError(BackendFailure::Fetch(reason)) =>
                "Failed to fetch data from Home Assistant: "@ + reason@,
            ServerError::BackendError(BackendFailure::Send(reason)) =>
                "Failed to send request to Home Assistant: "@ + reason@,
            ServerError::BackendError(BackendFailure::Status(_, status)) =>
                "Home Assistant API returned error status: "@ + status@,
            ServerError::ParseError(reason) => "Failed to parse entities: "@ + reason@,
            ServerError::PromptNotFound => "prompt_not_found"@,
            ServerError::MissingArgument(name) => "Required argument '"@ + name@ + "' missing"@,
            ServerError::UnknownTool(name) => "Unknown tool '"@ + name@ + "'"@,
            ServerError::MissingParameter(name) => "Required parameter '"@ + name@ + "' missing"@,
        }
    }

    /// How the error is reported.
    pub fn kind(&self) -> (k: ErrorKind)
        ensures
            k == self.kind_of(),
    {
        match self {
            ServerError::PromptNotFound => ErrorKind::InvalidParams,
            ServerError::MissingArgument(_) => ErrorKind::InvalidParams,
            ServerError::UnknownTool(_) => ErrorKind::InvalidParams,
            ServerError::MissingParameter(_) => ErrorKind::InvalidParams,
            _ => ErrorKind::Internal,
        }
    }

    /// The text that tells the caller what went wrong.
    pub fn message(&self) -> (m: String)
        ensures
            m@ == self.message_text(),
    {
        match self {
            ServerError::ConfigurationError(ConfigKey::Token) => String::from_str(
                "HASS_TOKEN environment variable has not been set",
            ),
            ServerError::ConfigurationError(ConfigKey::Endpoint) => String::from_str(
                "HASS_ENDPOINT environment variable has not been set",
            ),
            ServerError::BackendError(BackendFailure::Fetch(reason)) => String::from_str(
                "Failed to fetch data from Home Assistant: ",
            ).concat(reason.as_str()),
            ServerError::BackendError(BackendFailure::Send(reason)) => String::from_str(
                "Failed to send request to Home Assistant: ",
            ).concat(reason.as_str()),
            ServerError::BackendError(BackendFailure::Status(_, status)) => String::from_str(
                "Home Assistant API returned error status: ",
            ).concat(status.as_str()),
            ServerError::ParseError(reason) => String::from_str("Failed to parse entities: ").concat(
                reason.as_str(),
            ),
            ServerError::PromptNotFound => String::from_str("prompt_not_found"),
            ServerError::MissingArgument(name) => String::from_str("Required argument '").concat(
                name.as_str(),
            ).concat("' missing"),
            ServerError::UnknownTool(name) => String::from_str("Unknown tool '").concat(
                name.as_str(),
            ).concat("'"),
            ServerError::MissingParameter(name) => String::from_str(
                "Required parameter '",
            ).concat(name.as_str()).concat("' missing"),
        }
    }
}

} // verus!
