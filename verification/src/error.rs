//! Failures that the configuration collaborator reports to the caller.

use vstd::prelude::*;

verus! {

/// Why reading or writing the configuration artifact failed.
#[derive(Clone, Copy, Debug, PartialEq, Eq, Structural)]
pub enum IoFailure {
    /// No artifact exists at the configured place.
    NotFound,
    /// Any other failure of the storage underneath.
    Other,
}

/// An error surfaced by the application.
#[derive(Clone, Debug, PartialEq, Eq)]
pub enum AppError {
    /// The configuration artifact could not be read or written.
    IO { source: IoFailure },
    /// The configuration could not be rendered as text.
    TomlSerialize,
    /// The artifact's contents are not a valid configuration.
    TomlDeserialize,
    /// A failure described only by its message.
    Custom { message: String },
}

pub type AppResult<T> = Result<T, AppError>;

impl AppError {
    /// The text that describes this error to a reader.
    pub open spec fn text(self) -> Seq<char> {
        match self {
            AppError::IO { .. } => "I/O Error"@,
            AppError::TomlSerialize => "TOML Serialize Error"@,
            AppError::TomlDeserialize => "TOML Deserialize Error"@,
            AppError::Custom { message } => message@,
        }
    }

    /// Renders the error as text.
    pub fn message(&self) -> (s: String)
        ensures
            s@ == self.text(),
    {
        match self {
            AppError::IO { .. } => "I/O Error".to_owned(),
            AppError::TomlSerialize => "TOML Serialize Error".to_owned(),
            AppError::TomlDeserialize => "TOML Deserialize Error".to_owned(),
            AppError::Custom { message } => message.clone(),
        }
    }
}

impl From<&str> for AppError {
    /// Wraps a bare message as a `Custom` error.
    fn from(err: &str) -> (e: AppError)
        ensures
            e matches AppError::Custom { message } && message@ == err@,
    {
        AppError::Custom { message: err.to_owned() }
    }
}

/// Two strings with the same text need not be the same value in a contract, so
/// what `from` returns is stated on `from` itself, over the message's text.
impl vstd::std_specs::convert::FromSpecImpl<&str> for AppError {
    open spec fn obeys_from_spec() -> bool {
        false
    }

    open spec fn from_spec(err: &str) -> AppError {
        AppError::Custom { message: choose|m: String| m@ == err@ }
    }
}

} // verus!
