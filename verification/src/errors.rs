//! The error taxonomy of the gateway: client input errors, unknown
//! endpoints, upstream failures, configuration reload failures and internal
//! failures, each carrying the stable application-level error code that the
//! router maps to an HTTP status.

use vstd::prelude::*;
use vstd::string::StringExecFns;

verus! {

/// Why a configuration reload was rejected. The offending endpoint name (or
/// the parse diagnostic) is carried so the reload endpoint can report it.
#[derive(Debug)]
pub enum ConfigError {
    /// The configuration source could not be read or parsed.
    Unreadable { detail: String },
    /// An endpoint name was empty.
    EmptyName,
    /// An endpoint name contains a path separator.
    InvalidName { name: String },
    /// Two entries share the same endpoint name.
    DuplicateName { name: String },
    /// An endpoint's target is not a usable base URL.
    InvalidTarget { name: String, target: String },
}

/// The mathematical value of a `ConfigError`.
pub enum ConfigErrorView {
    Unreadable { detail: Seq<char> },
    EmptyName,
    InvalidName { name: Seq<char> },
    DuplicateName { name: Seq<char> },
    InvalidTarget { name: Seq<char>, target: Seq<char> },
}

impl View for ConfigError {
    type V = ConfigErrorView;

    open spec fn view(&self) -> ConfigErrorView {
        match self {
            ConfigError::Unreadable { detail } => ConfigErrorView::Unreadable { detail: detail@ },
            ConfigError::EmptyName => ConfigErrorView::EmptyName,
            ConfigError::InvalidName { name } => ConfigErrorView::InvalidName { name: name@ },
            ConfigError::DuplicateName { name } => ConfigErrorView::DuplicateName { name: name@ },
            ConfigError::InvalidTarget { name, target } => ConfigErrorView::InvalidTarget {
                name: name@,
                target: target@,
            },
        }
    }
}

/// The diagnostic text of a rejected reload, naming the offending entry.
pub open spec fn spec_config_message(e: ConfigErrorView) -> Seq<char> {
    match e {
        ConfigErrorView::Unreadable { detail } => "unreadable configuration source: "@ + detail,
        ConfigErrorView::EmptyName => "empty endpoint name"@,
        ConfigErrorView::InvalidName { name } => "endpoint name contains a path separator: "@
            + name,
        ConfigErrorView::DuplicateName { name } => "duplicate endpoint name: "@ + name,
        ConfigErrorView::InvalidTarget { name, target } => "invalid target for endpoint "@ + name
            + ": "@ + target,
    }
}

impl ConfigError {
    /// The diagnostic text of this reload failure.
    pub fn message(&self) -> (r: String)
        ensures
            r@ == spec_config_message(self@),
    {
        match self {
            ConfigError::Unreadable { detail } => String::from_str(
                "unreadable configuration source: ",
            ).concat(detail.as_str()),
            ConfigError::EmptyName => String::from_str("empty endpoint name"),
            ConfigError::InvalidName { name } => String::from_str(
                "endpoint name contains a path separator: ",
            ).concat(name.as_str()),
            ConfigError::DuplicateName { name } => String::from_str(
                "duplicate endpoint name: ",
            ).concat(name.as_str()),
            ConfigError::InvalidTarget { name, target } => String::from_str(
                "invalid target for endpoint ",
            ).concat(name.as_str()).concat(": ").concat(target.as_str()),
        }
    }
}

/// The gateway's error taxonomy. Every fallible operation returns one of
/// these; the router maps each variant to an HTTP status and a structured
/// JSON body.
#[derive(Debug)]
pub enum RestError {
    /// Malformed client input, such as a body that is not valid JSON.
    ClientInput { detail: String },
    /// The requested endpoint name is absent from the current snapshot.
    UnknownEndpoint { name: String },
    /// The upstream target could not be reached.
    UpstreamUnreachable,
    /// The upstream target did not answer within the configured timeout.
    UpstreamTimeout,
    /// A configuration reload failed; the old snapshot is retained.
    Config { error: ConfigError },
    /// The metrics registry was unavailable or another internal failure.
    Internal { detail: String },
}

/// The mathematical value of a `RestError`.
pub enum RestErrorView {
    ClientInput { detail: Seq<char> },
    UnknownEndpoint { name: Seq<char> },
    UpstreamUnreachable,
    UpstreamTimeout,
    Config { error: ConfigErrorView },
    Internal { detail: Seq<char> },
}

impl View for RestError {
    type V = RestErrorView;

    open spec fn view(&self) -> RestErrorView {
        match self {
            RestError::ClientInput { detail } => RestErrorView::ClientInput { detail: detail@ },
            RestError::UnknownEndpoint { name } => RestErrorView::UnknownEndpoint { name: name@ },
            RestError::UpstreamUnreachable => RestErrorView::UpstreamUnreachable,
            RestError::UpstreamTimeout => RestErrorView::UpstreamTimeout,
            RestError::Config { error } => RestErrorView::Config { error: error@ },
            RestError::Internal { detail } => RestErrorView::Internal { detail: detail@ },
        }
    }
}

/// The stable application-level error code of each error, distinct from
/// (but aligned with) the HTTP status the router sends.
pub open spec fn spec_error_code(e: RestErrorView) -> u16 {
    match e {
        RestErrorView::ClientInput { .. } => 400,
        RestErrorView::UnknownEndpoint { .. } => 404,
        RestErrorView::UpstreamUnreachable => 502,
        RestErrorView::UpstreamTimeout => 504,
        RestErrorView::Config { .. } => 400,
        RestErrorView::Internal { .. } => 500,
    }
}

/// The human-readable message of each error.
pub open spec fn spec_error_message(e: RestErrorView) -> Seq<char> {
    match e {
        RestErrorView::ClientInput { detail } => "invalid client input: "@ + detail,
        RestErrorView::UnknownEndpoint { name } => "unknown endpoint: "@ + name,
        RestErrorView::UpstreamUnreachable => "upstream unreachable"@,
        RestErrorView::UpstreamTimeout => "upstream timeout"@,
        RestErrorView::Config { error } => "configuration reload failed: "@ + spec_config_message(
            error,
        ),
        RestErrorView::Internal { detail } => "internal error: "@ + detail,
    }
}

impl RestError {
    /// Returns the stable error code: 4xx for client-side faults, 502/504
    /// for upstream faults, 500 for internal ones.
    pub fn error_code(&self) -> (code: u16)
        ensures
            code == spec_error_code(self@),
    {
        match self {
            RestError::ClientInput { .. } => 400,
            RestError::UnknownEndpoint { .. } => 404,
            RestError::UpstreamUnreachable => 502,
            RestError::UpstreamTimeout => 504,
            RestError::Config { .. } => 400,
            RestError::Internal { .. } => 500,
        }
    }

    /// Returns the human-readable message of this error.
    pub fn message(&self) -> (r: String)
        ensures
            r@ == spec_error_message(self@),
    {
        match self {
            RestError::ClientInput { detail } => String::from_str("invalid client input: ").concat(
                detail.as_str(),
            ),
            RestError::UnknownEndpoint { name } => String::from_str("unknown endpoint: ").concat(
                name.as_str(),
            ),
            RestError::UpstreamUnreachable => String::from_str("upstream unreachable"),
            RestError::UpstreamTimeout => String::from_str("upstream timeout"),
            RestError::Config { error } => String::from_str("configuration reload failed: ").concat(
                error.message().as_str(),
            ),
            RestError::Internal { detail } => String::from_str("internal error: ").concat(
                detail.as_str(),
            ),
        }
    }
}

} // verus!
