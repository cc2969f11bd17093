//! The two ways in which binding a schema can fail.

use vstd::prelude::*;
use vstd::string::*;

verus! {

/// Why a bind call failed. `name` is always the fully qualified key: the
/// accumulated prefix followed by the field's key name.
#[derive(Debug, PartialEq, Eq)]
pub enum Error {
    /// A required key (not optional, no default) is absent from the source.
    EnvVarMissing { name: String },
    /// A value, read from the source or taken from a default literal, could
    /// not be parsed into the field's type.
    ParseError { name: String },
}

/// Mathematical model of an [`Error`].
pub enum ErrorView {
    EnvVarMissing { name: Seq<char> },
    ParseError { name: Seq<char> },
}

impl View for Error {
    type V = ErrorView;

    open spec fn view(&self) -> ErrorView {
        match self {
            Error::EnvVarMissing { name } => ErrorView::EnvVarMissing { name: name@ },
            Error::ParseError { name } => ErrorView::ParseError { name: name@ },
        }
    }
}

impl ErrorView {
    /// The text of the diagnostic for this error.
    pub open spec fn message(self) -> Seq<char> {
        match self {
            ErrorView::EnvVarMissing { name } => "Environment variable "@ + name + " is missing"@,
            ErrorView::ParseError { name } => "Failed to parse environment variable "@ + name,
        }
    }
}

impl Error {
    /// The fully qualified key that the error is about.
    pub fn name(&self) -> (r: &str)
        ensures
            r@ == match self@ {
                ErrorView::EnvVarMissing { name } => name,
                ErrorView::ParseError { name } => name,
            },
    {
        match self {
            Error::EnvVarMissing { name } => name.as_str(),
            Error::ParseError { name } => name.as_str(),
        }
    }

    /// Renders the diagnostic for this error.
    pub fn message(&self) -> (r: String)
        ensures
            r@ == self@.message(),
    {
        match self {
            Error::EnvVarMissing { name } => {
                let mut text = "Environment variable ".to_owned();
                text.append(name.as_str());
                text.append(" is missing");
                text
            },
            Error::ParseError { name } => {
                let mut text = "Failed to parse environment variable ".to_owned();
                text.append(name.as_str());
                text
            },
        }
    }
}

} // verus!
