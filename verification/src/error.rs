//! Crate-wide error type.

use vstd::prelude::*;
use vstd::string::StringExecFns;

verus! {

/// What can go wrong outside a single turn.
#[derive(Debug)]
pub enum Error {
    /// The loopback audio device is not present.
    AudioDeviceNotFound,
    /// A configuration value could not be used.
    InvalidConfig(String),
    /// A required environment variable is not set.
    MissingEnvVar(String),
    /// The model backend answered with something unusable.
    InvalidGeminiResponse(String),
    /// A failure reported by a lower-level library, kept as its message.
    External(String),
}

/// The mathematical content of an [`Error`].
pub enum ErrorView {
    AudioDeviceNotFound,
    InvalidConfig(Seq<char>),
    MissingEnvVar(Seq<char>),
    InvalidGeminiResponse(Seq<char>),
    External(Seq<char>),
}

impl View for Error {
    type V = ErrorView;

    open spec fn view(&self) -> ErrorView {
        match self {
            Error::AudioDeviceNotFound => ErrorView::AudioDeviceNotFound,
            Error::InvalidConfig(s) => ErrorView::InvalidConfig(s@),
            Error::MissingEnvVar(s) => ErrorView::MissingEnvVar(s@),
            Error::InvalidGeminiResponse(s) => ErrorView::InvalidGeminiResponse(s@),
            Error::External(s) => ErrorView::External(s@),
        }
    }
}

impl ErrorView {
    /// The text shown for an error: a fixed prefix followed by the detail.
    pub open spec fn message(self) -> Seq<char> {
        match self {
            ErrorView::AudioDeviceNotFound => "audio device \"BlackHole\" not found"@,
            ErrorView::InvalidConfig(s) => "invalid configuration: "@ + s,
            ErrorView::MissingEnvVar(s) => "missing environment variable: "@ + s,
            ErrorView::InvalidGeminiResponse(s) => "invalid gemini response: "@ + s,
            ErrorView::External(s) => s,
        }
    }
}

impl Error {
    /// Renders the error as text.
    pub fn message(&self) -> (text: String)
        ensures
            text@ == self@.message(),
    {
        match self {
            Error::AudioDeviceNotFound => String::from_str("audio device \"BlackHole\" not found"),
            Error::InvalidConfig(s) => String::from_str("invalid configuration: ").concat(
                s.as_str(),
            ),
            Error::MissingEnvVar(s) => String::from_str("missing environment variable: ").concat(
                s.as_str(),
            ),
            Error::InvalidGeminiResponse(s) => String::from_str("invalid gemini response: ").concat(
                s.as_str(),
            ),
            Error::External(s) => s.clone(),
        }
    }
}

} // verus!
