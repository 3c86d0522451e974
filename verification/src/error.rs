//! Why no launch command could be given.

use vstd::prelude::*;
use crate::settings::{key_name, DecodeFault, SettingKey};

verus! {

/// The failures of resolution. Each ends the call: nothing is retried.
#[derive(Debug, Clone, PartialEq, Eq)]
pub enum ResolveError {
    /// The command was asked for a server that this extension does not run.
    UnrecognizedServerIdentity,
    /// The host holds no settings for the server.
    MissingConfiguration,
    /// The host holds settings, and they cannot be decoded.
    InvalidConfiguration(DecodeFault),
    /// The server's package was looked for and not found; with what the
    /// probe reported.
    DependencyMissing(String),
}

/// The mathematical value of a [`ResolveError`].
pub enum ErrorView {
    UnrecognizedServerIdentity,
    MissingConfiguration,
    InvalidConfiguration(DecodeFault),
    DependencyMissing(Seq<char>),
}

impl View for ResolveError {
    type V = ErrorView;

    open spec fn view(&self) -> ErrorView {
        match self {
            ResolveError::UnrecognizedServerIdentity => ErrorView::UnrecognizedServerIdentity,
            ResolveError::MissingConfiguration => ErrorView::MissingConfiguration,
            ResolveError::InvalidConfiguration(fault) => ErrorView::InvalidConfiguration(*fault),
            ResolveError::DependencyMissing(report) => ErrorView::DependencyMissing(report@),
        }
    }
}

/// What is said of a settings object that cannot be decoded.
pub open spec fn fault_message(fault: DecodeFault) -> Seq<char> {
    match fault {
        DecodeFault::MissingField(key) => "missing field `"@ + key_name(key) + "`"@,
        DecodeFault::NotAString(key) => "invalid type for `"@ + key_name(key)
            + "`, expected a string"@,
    }
}

/// What is said to the user of a failure.
pub open spec fn message_of(error: ErrorView) -> Seq<char> {
    match error {
        ErrorView::UnrecognizedServerIdentity => "unrecognized context server"@,
        ErrorView::MissingConfiguration => "missing `api_key` and `index_name` settings"@,
        ErrorView::InvalidConfiguration(fault) => fault_message(fault),
        ErrorView::DependencyMissing(report) =>
            "mcp-pinecone is not installed; install it with `pip install mcp-pinecone`: "@
            + report,
    }
}

impl DecodeFault {
    /// The key that the fault was found at.
    pub fn key(self) -> (key: SettingKey)
        ensures
            self == DecodeFault::MissingField(key) || self == DecodeFault::NotAString(key),
    {
        match self {
            DecodeFault::MissingField(key) => key,
            DecodeFault::NotAString(key) => key,
        }
    }

    /// What is said of the fault.
    pub fn message(self) -> (text: String)
        ensures
            text@ == fault_message(self),
    {
        match self {
            DecodeFault::MissingField(key) => "missing field `".to_owned().concat(
                key.name(),
            ).concat("`"),
            DecodeFault::NotAString(key) => "invalid type for `".to_owned().concat(
                key.name(),
            ).concat("`, expected a string"),
        }
    }
}

impl ResolveError {
    /// What is said to the user of the failure.
    pub fn message(&self) -> (text: String)
        ensures
            text@ == message_of(self@),
    {
        match self {
            ResolveError::UnrecognizedServerIdentity => "unrecognized context server".to_owned(),
            ResolveError::MissingConfiguration =>
                "missing `api_key` and `index_name` settings".to_owned(),
            ResolveError::InvalidConfiguration(fault) => fault.message(),
            ResolveError::DependencyMissing(report) =>
                "mcp-pinecone is not installed; install it with `pip install mcp-pinecone`: "
                    .to_owned().concat(report.as_str()),
        }
    }
}

} // verus!
