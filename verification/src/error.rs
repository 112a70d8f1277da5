//! The ways in which parsing a run, a log or a path can fail.

use vstd::prelude::*;
use vstd::string::*;

verus! {

/// Why an operation of this library failed.
#[derive(Debug)]
pub enum ParseError {
    /// Input that does not have the form it must have; holds the offending
    /// text.
    MalformedInput(String),
    /// The summary of a run that reports no failed job.
    NoFailedJobs,
    /// A log without the marker that opens its error summary.
    MissingMarker,
    /// A log file name in which no known task is found; holds the name.
    ClassificationFailed(String),
    /// Text in which no path is found, or whose path leads to no file; holds
    /// the text.
    PathUnresolved(String),
    /// An error summary without a line that names a log file.
    NoLogfileReference,
    /// A tool in a version that is older than the one that is needed; holds
    /// the message that names both versions.
    UnsupportedVersion(String),
    /// A call to an outside service that failed; holds what the service
    /// said.
    ServiceFailed(String),
    /// A search pattern that the pattern engine does not accept; holds the
    /// pattern.
    InvalidPattern(String),
    /// An answer that was not asked for, handed to a run that waits for
    /// another one.
    UnexpectedEvent,
    /// Bytes that are no stream packed with bzip2.
    InvalidArchive,
}

/// What a [`ParseError`] holds.
pub enum ParseErrorView {
    MalformedInput(Seq<char>),
    NoFailedJobs,
    MissingMarker,
    ClassificationFailed(Seq<char>),
    PathUnresolved(Seq<char>),
    NoLogfileReference,
    UnsupportedVersion(Seq<char>),
    ServiceFailed(Seq<char>),
    InvalidPattern(Seq<char>),
    UnexpectedEvent,
    InvalidArchive,
}

impl View for ParseError {
    type V = ParseErrorView;

    open spec fn view(&self) -> ParseErrorView {
        match self {
            ParseError::MalformedInput(text) => ParseErrorView::MalformedInput(text@),
            ParseError::NoFailedJobs => ParseErrorView::NoFailedJobs,
            ParseError::MissingMarker => ParseErrorView::MissingMarker,
            ParseError::ClassificationFailed(name) => ParseErrorView::ClassificationFailed(name@),
            ParseError::PathUnresolved(text) => ParseErrorView::PathUnresolved(text@),
            ParseError::NoLogfileReference => ParseErrorView::NoLogfileReference,
            ParseError::UnsupportedVersion(message) => ParseErrorView::UnsupportedVersion(
                message@,
            ),
            ParseError::ServiceFailed(said) => ParseErrorView::ServiceFailed(said@),
            ParseError::InvalidPattern(pattern) => ParseErrorView::InvalidPattern(pattern@),
            ParseError::UnexpectedEvent => ParseErrorView::UnexpectedEvent,
            ParseError::InvalidArchive => ParseErrorView::InvalidArchive,
        }
    }
}

impl ParseError {
    /// The text of the message for this error.
    pub open spec fn message_text(self) -> Seq<char> {
        match self {
            ParseError::MalformedInput(text) => "Malformed input: "@ + text@,
            ParseError::NoFailedJobs => "No failed jobs found"@,
            ParseError::MissingMarker => "No error summary found"@,
            ParseError::ClassificationFailed(name) => "Could not determine task from input: "@
                + name@,
            ParseError::PathUnresolved(text) => "No file found at path: "@ + text@,
            ParseError::NoLogfileReference => "No log file line found"@,
            ParseError::UnsupportedVersion(message) => message@,
            ParseError::ServiceFailed(said) => said@,
            ParseError::InvalidPattern(pattern) => "Invalid search pattern: "@ + pattern@,
            ParseError::UnexpectedEvent => "An answer came that was not asked for"@,
            ParseError::InvalidArchive => "The bytes are no bzip2 stream"@,
        }
    }

    /// A line of text that says what went wrong.
    pub fn message(&self) -> (m: String)
        ensures
            m@ == self.message_text(),
    {
        match self {
            ParseError::MalformedInput(text) => {
                let mut m = String::from_str("Malformed input: ");
                m.append(text.as_str());
                m
            },
            ParseError::NoFailedJobs => String::from_str("No failed jobs found"),
            ParseError::MissingMarker => String::from_str("No error summary found"),
            ParseError::ClassificationFailed(name) => {
                let mut m = String::from_str("Could not determine task from input: ");
                m.append(name.as_str());
                m
            },
            ParseError::PathUnresolved(text) => {
                let mut m = String::from_str("No file found at path: ");
                m.append(text.as_str());
                m
            },
            ParseError::NoLogfileReference => String::from_str("No log file line found"),
            ParseError::UnsupportedVersion(message) => message.clone(),
            ParseError::ServiceFailed(said) => said.clone(),
            ParseError::InvalidPattern(pattern) => {
                let mut m = String::from_str("Invalid search pattern: ");
                m.append(pattern.as_str());
                m
            },
            ParseError::UnexpectedEvent => String::from_str("An answer came that was not asked for"),
            ParseError::InvalidArchive => String::from_str("The bytes are no bzip2 stream"),
        }
    }
}

} // verus!
