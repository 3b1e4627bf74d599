//! The errors of the library, by category.

use vstd::prelude::*;
use crate::metadata::models::ServiceType;
use crate::text::{decimal, decimal_string, joined};

verus! {

/// Why an operation of this library failed.
#[derive(Debug, Clone, PartialEq, Eq)]
pub enum AppError {
    /// The HTTP exchange itself could not complete: timeout, connection
    /// failure or a body that could not be read as the expected shape.
    TransportError(String),
    /// The provider answered, with a status outside the success range.
    MetadataError { provider: ServiceType, status: u16 },
    /// Authentication or login could not be established or verified.
    AuthError(String),
    /// The automation layer failed for a reason unrelated to authentication.
    BrowserError(String),
    /// The configuration cannot drive a run.
    ConfigError(String),
}

/// The mathematical value of an [`AppError`]: messages as character sequences.
pub enum AppErrorView {
    Transport(Seq<char>),
    Metadata { provider: ServiceType, status: u16 },
    Auth(Seq<char>),
    Browser(Seq<char>),
    Config(Seq<char>),
}

impl View for AppError {
    type V = AppErrorView;

    open spec fn view(&self) -> AppErrorView {
        match *self {
            AppError::TransportError(m) => AppErrorView::Transport(m@),
            AppError::MetadataError { provider, status } => AppErrorView::Metadata {
                provider,
                status,
            },
            AppError::AuthError(m) => AppErrorView::Auth(m@),
            AppError::BrowserError(m) => AppErrorView::Browser(m@),
            AppError::ConfigError(m) => AppErrorView::Config(m@),
        }
    }
}

/// The text that describes an error to the operator: its category, and the
/// message, or the provider and the status.
pub open spec fn spec_describe(e: AppErrorView) -> Seq<char> {
    match e {
        AppErrorView::Transport(m) => "Transport error: "@ + m,
        AppErrorView::Metadata { provider, status } => "Metadata error: "@ + provider.spec_name()
            + " API error: "@ + decimal(status as int),
        AppErrorView::Auth(m) => "Authentication error: "@ + m,
        AppErrorView::Browser(m) => "Browser error: "@ + m,
        AppErrorView::Config(m) => "Configuration error: "@ + m,
    }
}

impl AppError {
    /// The text that describes this error to the operator.
    pub fn describe(&self) -> (text: String)
        ensures
            text@ == spec_describe(self@),
    {
        match self {
            AppError::TransportError(m) => joined("Transport error: ", m.as_str()),
            AppError::MetadataError { provider, status } => {
                let mut text = joined("Metadata error: ", provider.name());
                text.append(" API error: ");
                let code: i32 = *status as i32;
                text.append(decimal_string(code).as_str());
                text
            },
            AppError::AuthError(m) => joined("Authentication error: ", m.as_str()),
            AppError::BrowserError(m) => joined("Browser error: ", m.as_str()),
            AppError::ConfigError(m) => joined("Configuration error: ", m.as_str()),
        }
    }

    /// A copy of this error.
    pub fn duplicate(&self) -> (out: AppError)
        ensures
            out@ == self@,
    {
        match self {
            AppError::TransportError(m) => AppError::TransportError(m.clone()),
            AppError::MetadataError { provider, status } => AppError::MetadataError {
                provider: *provider,
                status: *status,
            },
            AppError::AuthError(m) => AppError::AuthError(m.clone()),
            AppError::BrowserError(m) => AppError::BrowserError(m.clone()),
            AppError::ConfigError(m) => AppError::ConfigError(m.clone()),
        }
    }

    /// Whether the failure is fatal to the whole run. Session-level failures
    /// and configuration errors are; a failure of one provider is not.
    pub fn is_fatal(&self) -> (fatal: bool)
        ensures
            fatal == spec_is_fatal(self@),
    {
        match self {
            AppError::TransportError(_) => false,
            AppError::MetadataError { .. } => false,
            AppError::AuthError(_) => true,
            AppError::BrowserError(_) => true,
            AppError::ConfigError(_) => true,
        }
    }
}

/// Session-level and configuration failures end the run; provider failures
/// are absorbed.
pub open spec fn spec_is_fatal(e: AppErrorView) -> bool {
    match e {
        AppErrorView::Transport(_) => false,
        AppErrorView::Metadata { .. } => false,
        AppErrorView::Auth(_) => true,
        AppErrorView::Browser(_) => true,
        AppErrorView::Config(_) => true,
    }
}

} // verus!
