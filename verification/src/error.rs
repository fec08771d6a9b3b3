//! Structured errors. Every error names the task or the tool it is about.

use crate::version_manager::VersionedCommand;
use vstd::prelude::*;

verus! {

/// What is wrong with one task's declaration. Each variant carries the name of
/// the task.
#[derive(Debug, Clone, PartialEq, Eq)]
pub enum ConfigValidationError {
    /// The task's command is the empty string.
    EmptyCommandError(String),
    /// The task names a working directory, and it is the empty string.
    EmptyDirError(String),
}

/// A `ConfigValidationError` with the task's name as a sequence of characters.
pub enum ConfigIssue {
    EmptyCommand(Seq<char>),
    EmptyDir(Seq<char>),
}

impl View for ConfigValidationError {
    type V = ConfigIssue;

    open spec fn view(&self) -> ConfigIssue {
        match self {
            ConfigValidationError::EmptyCommandError(name) => ConfigIssue::EmptyCommand(name@),
            ConfigValidationError::EmptyDirError(name) => ConfigIssue::EmptyDir(name@),
        }
    }
}

/// Why a `versions` section was rejected. Each variant carries the offending
/// key as it was written.
#[derive(Debug, Clone, PartialEq, Eq)]
pub enum VersionsError {
    /// The entry under this key has an empty version string.
    MissingVersion(String),
    /// The key names no known tool.
    UnknownCommand(String),
}

/// A `VersionsError` with the key as a sequence of characters.
pub enum VersionsIssue {
    MissingVersion(Seq<char>),
    UnknownCommand(Seq<char>),
}

impl View for VersionsError {
    type V = VersionsIssue;

    open spec fn view(&self) -> VersionsIssue {
        match self {
            VersionsError::MissingVersion(key) => VersionsIssue::MissingVersion(key@),
            VersionsError::UnknownCommand(key) => VersionsIssue::UnknownCommand(key@),
        }
    }
}

impl VersionsError {
    /// The text of the message, as a function of the error.
    pub open spec fn spec_message(issue: VersionsIssue) -> Seq<char> {
        match issue {
            VersionsIssue::MissingVersion(key) => "Missing version information for "@ + key,
            VersionsIssue::UnknownCommand(key) => "Unknown version command: "@ + key,
        }
    }

    /// The message shown to the operator: a fixed sentence followed by the key.
    pub fn message(&self) -> (text: String)
        ensures
            text@ == Self::spec_message(self@),
    {
        match self {
            VersionsError::MissingVersion(key) => {
                String::from_str("Missing version information for ").concat(key.as_str())
            },
            VersionsError::UnknownCommand(key) => {
                String::from_str("Unknown version command: ").concat(key.as_str())
            },
        }
    }
}

/// The root error of the task runner's core.
#[derive(Debug, Clone, PartialEq, Eq)]
pub enum Error {
    /// A task's declaration was rejected.
    ConfigValidationError(ConfigValidationError),
    /// A tool's validator did not recognise the pinned version.
    UnsupportedVersion { command: VersionedCommand, version: String },
}

impl From<ConfigValidationError> for Error {
    fn from(error: ConfigValidationError) -> (wrapped: Error) {
        Error::ConfigValidationError(error)
    }
}

impl vstd::std_specs::convert::FromSpecImpl<ConfigValidationError> for Error {
    open spec fn obeys_from_spec() -> bool {
        true
    }

    open spec fn from_spec(error: ConfigValidationError) -> Error {
        Error::ConfigValidationError(error)
    }
}

} // verus!
