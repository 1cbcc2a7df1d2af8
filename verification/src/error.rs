//! The closed taxonomy of failures this layer reports.

use vstd::prelude::*;

use crate::text::push_str;

verus! {

/// A failure of one bridge operation.  Every variant carries the detail text
/// that [`JJError::message`] renders behind a fixed prefix per kind.
#[derive(Debug, Clone, PartialEq, Eq)]
pub enum JJError {
    /// The external tool could not be spawned, or exited with a non-zero status.
    CommandFailed(String),
    /// Decoded JSON lacked a required field or held one of the wrong type.
    ParseError(String),
    /// Reserved for pre-flight validation of a repository scope path.
    RepositoryNotFound(String),
    /// Reserved for pre-flight validation of a repository scope path.
    InvalidRepository(String),
    /// A low-level input/output failure distinct from a process exit.
    IoError(String),
    /// Captured text that is not valid JSON.
    JsonError(String),
    /// Captured bytes that are not valid text.
    Utf8Error(String),
}

/// The rendered diagnostic for an error value: a fixed prefix for its kind,
/// then the carried detail text.
pub open spec fn spec_message(e: JJError) -> Seq<char> {
    match e {
        JJError::CommandFailed(m) => "JJ command failed: "@ + m@,
        JJError::ParseError(m) => "Failed to parse JJ output: "@ + m@,
        JJError::RepositoryNotFound(m) => "Repository not found at path: "@ + m@,
        JJError::InvalidRepository(m) => "Invalid repository: "@ + m@,
        JJError::IoError(m) => "IO error: "@ + m@,
        JJError::JsonError(m) => "JSON error: "@ + m@,
        JJError::Utf8Error(m) => "UTF-8 error: "@ + m@,
    }
}

impl JJError {
    /// The human-readable diagnostic for this error.
    pub fn message(&self) -> (r: String)
        ensures
            r@ == spec_message(*self),
    {
        let mut s: String;
        match self {
            JJError::CommandFailed(m) => {
                s = "JJ command failed: ".to_owned();
                push_str(&mut s, m.as_str());
            },
            JJError::ParseError(m) => {
                s = "Failed to parse JJ output: ".to_owned();
                push_str(&mut s, m.as_str());
            },
            JJError::RepositoryNotFound(m) => {
                s = "Repository not found at path: ".to_owned();
                push_str(&mut s, m.as_str());
            },
            JJError::InvalidRepository(m) => {
                s = "Invalid repository: ".to_owned();
                push_str(&mut s, m.as_str());
            },
            JJError::IoError(m) => {
                s = "IO error: ".to_owned();
                push_str(&mut s, m.as_str());
            },
            JJError::JsonError(m) => {
                s = "JSON error: ".to_owned();
                push_str(&mut s, m.as_str());
            },
            JJError::Utf8Error(m) => {
                s = "UTF-8 error: ".to_owned();
                push_str(&mut s, m.as_str());
            },
        }
        s
    }
}

} // verus!
