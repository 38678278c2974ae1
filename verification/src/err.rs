//! Error handling module.
//!
//! Defines the `AppError` struct and the `ErrorKind` enum that every
//! fallible operation of the library reports its failures through.

use vstd::prelude::*;
use vstd::string::StringExecFns;

verus! {

/// The category of an `AppError`.
#[derive(Debug, Clone, Copy, PartialEq, Eq, Structural)]
pub enum ErrorKind {
    /// General environment failure: a variable that should be present
    /// could not be fetched.
    Env,
    /// A value could not be parsed into the requested shape.
    Parse,
    /// The application configuration could not be loaded.
    InvalidConfig,
    /// The configuration file path could not be recorded.
    ConfigFilePath,
    /// A variable's value does not satisfy its declared type.
    InvalidValueType,
    /// The environment file could not be loaded.
    EnvironmentFile,
    /// Required variables are absent from the loaded environment.
    MissingVariable,
    /// Variables under the namespace prefix are not part of the schema.
    UnknownVariable,
}

/// An error of the application: its kind, a human-readable message,
/// and optionally the rendered message of the underlying failure.
#[derive(Debug, Clone, PartialEq, Eq)]
pub struct AppError {
    pub kind: ErrorKind,
    pub message: String,
    pub source: Option<String>,
}

/// The name of an `ErrorKind` variant, as a character sequence.
pub open spec fn spec_kind_name(k: ErrorKind) -> Seq<char> {
    match k {
        ErrorKind::Env => "Env"@,
        ErrorKind::Parse => "Parse"@,
        ErrorKind::InvalidConfig => "InvalidConfig"@,
        ErrorKind::ConfigFilePath => "ConfigFilePath"@,
        ErrorKind::InvalidValueType => "InvalidValueType"@,
        ErrorKind::EnvironmentFile => "EnvironmentFile"@,
        ErrorKind::MissingVariable => "MissingVariable"@,
        ErrorKind::UnknownVariable => "UnknownVariable"@,
    }
}

/// How an error's optional source is rendered inside the display form.
pub open spec fn spec_source_text(source: Option<String>) -> Seq<char> {
    match source {
        Option::None => "None"@,
        Option::Some(m) => "Some(\""@ + m@ + "\")"@,
    }
}

/// The display form of an `AppError`: every field spelled out.
pub open spec fn spec_display(e: AppError) -> Seq<char> {
    "AppError { kind: "@ + spec_kind_name(e.kind) + ", message: "@ + e.message@
        + ", source: "@ + spec_source_text(e.source) + " }"@
}

impl ErrorKind {
    /// The variant's name, e.g. for embedding in a rendered error.
    pub fn name(&self) -> (r: &'static str)
        ensures
            r@ == spec_kind_name(*self),
    {
        match self {
            ErrorKind::Env => "Env",
            ErrorKind::Parse => "Parse",
            ErrorKind::InvalidConfig => "InvalidConfig",
            ErrorKind::ConfigFilePath => "ConfigFilePath",
            ErrorKind::InvalidValueType => "InvalidValueType",
            ErrorKind::EnvironmentFile => "EnvironmentFile",
            ErrorKind::MissingVariable => "MissingVariable",
            ErrorKind::UnknownVariable => "UnknownVariable",
        }
    }
}

impl AppError {
    /// Creates a new `AppError` from its parts.
    pub fn new(kind: ErrorKind, message: String, source: Option<String>) -> (e: AppError)
        ensures
            e.kind == kind,
            e.message == message,
            e.source == source,
    {
        AppError { kind, message, source }
    }

    /// Renders the error for display, spelling out kind, message and
    /// source exactly as `spec_display` describes.
    pub fn display_string(&self) -> (s: String)
        ensures
            s@ == spec_display(*self),
    {
        let mut s = String::new();
        s.append("AppError { kind: ");
        s.append(self.kind.name());
        s.append(", message: ");
        s.append(self.message.as_str());
        s.append(", source: ");
        match &self.source {
            Option::None => {
                s.append("None");
            },
            Option::Some(m) => {
                s.append("Some(\"");
                s.append(m.as_str());
                s.append("\")");
            },
        }
        s.append(" }");
        s
    }
}

} // verus!
