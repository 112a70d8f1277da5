//! The error message of a failed job, read according to the kind of workflow.

use crate::commands::WorkflowKind;
use crate::err_msg_parse::yocto_err::{
    parse_yocto_error, text_of, yocto_error_of, YoctoError, YoctoErrorView,
    YOCTO_ERROR_SUMMARY_SIGNATURE,
};
use crate::error::ParseError;
use crate::text::contains;
use vstd::prelude::*;
use vstd::string::*;

pub mod yocto_err;

verus! {

/// A log file is attached to a report only if it has at most this many chars.
pub const LOGFILE_MAX_LEN: usize = 5000;

/// What an [`ErrorMessageSummary`] holds.
pub enum ErrorMessageSummaryView {
    Yocto(YoctoErrorView),
    Other(Seq<char>),
}

/// What is reported of the error of a failed job.
#[derive(Debug)]
pub enum ErrorMessageSummary {
    Yocto(YoctoError),
    Other(String),
}

impl View for ErrorMessageSummary {
    type V = ErrorMessageSummaryView;

    open spec fn view(&self) -> ErrorMessageSummaryView {
        match self {
            ErrorMessageSummary::Yocto(e) => ErrorMessageSummaryView::Yocto(e@),
            ErrorMessageSummary::Other(text) => ErrorMessageSummaryView::Other(text@),
        }
    }
}

impl ErrorMessageSummaryView {
    /// The summary of the error.
    pub open spec fn summary(self) -> Seq<char> {
        match self {
            ErrorMessageSummaryView::Yocto(e) => e.summary,
            ErrorMessageSummaryView::Other(text) => text,
        }
    }

    /// What the log file of the failure holds, where there is one.
    pub open spec fn log(self) -> Option<Seq<char>> {
        match self {
            ErrorMessageSummaryView::Yocto(e) => match e.logfile {
                Some(log) => Some(log.contents),
                None => None,
            },
            ErrorMessageSummaryView::Other(_) => None,
        }
    }

    /// The name of the log file of the failure, where there is one.
    pub open spec fn logfile_name(self) -> Option<Seq<char>> {
        match self {
            ErrorMessageSummaryView::Yocto(e) => match e.logfile {
                Some(log) => Some(log.name),
                None => None,
            },
            ErrorMessageSummaryView::Other(_) => None,
        }
    }

    /// The label that the kind of failure gives the report, where the kind is
    /// known.
    pub open spec fn failure_label(self) -> Option<Seq<char>> {
        match self {
            ErrorMessageSummaryView::Yocto(e) => Some(e.kind.name()),
            ErrorMessageSummaryView::Other(_) => None,
        }
    }
}

impl ErrorMessageSummary {
    /// The summary of the error.
    pub fn summary(&self) -> (s: &str)
        ensures
            s@ == self@.summary(),
    {
        match self {
            ErrorMessageSummary::Yocto(err) => err.summary(),
            ErrorMessageSummary::Other(o) => o.as_str(),
        }
    }

    /// What the log file of the failure holds, where there is one.
    pub fn log(&self) -> (s: Option<&str>)
        ensures
            match s {
                Some(text) => self@.log() == Some(text@),
                None => self@.log() is None,
            },
    {
        match self {
            ErrorMessageSummary::Yocto(err) => match err.logfile() {
                Some(log) => Some(log.contents.as_str()),
                None => None,
            },
            ErrorMessageSummary::Other(_) => None,
        }
    }

    /// The name of the log file of the failure, where there is one.
    pub fn logfile_name(&self) -> (s: Option<&str>)
        ensures
            match s {
                Some(text) => self@.logfile_name() == Some(text@),
                None => self@.logfile_name() is None,
            },
    {
        match self {
            ErrorMessageSummary::Yocto(err) => match err.logfile() {
                Some(log) => Some(log.name.as_str()),
                None => None,
            },
            ErrorMessageSummary::Other(_) => None,
        }
    }

    /// The label that the kind of failure gives the report, where the kind is
    /// known.
    pub fn failure_label(&self) -> (label: Option<String>)
        ensures
            text_of(label) == self@.failure_label(),
    {
        match self {
            ErrorMessageSummary::Yocto(err) => Some(err.kind().to_string()),
            ErrorMessageSummary::Other(_) => None,
        }
    }
}

/// What is reported of an error message, given the kind of workflow and what
/// the log file that the message refers to holds.
pub open spec fn error_message_of(
    err_msg: Seq<char>,
    workflow: WorkflowKind,
    logfile_contents: Option<Seq<char>>,
) -> ErrorMessageSummaryView {
    match workflow {
        WorkflowKind::Yocto => ErrorMessageSummaryView::Yocto(
            yocto_error_of(err_msg, logfile_contents),
        ),
        WorkflowKind::Other => ErrorMessageSummaryView::Other(err_msg),
    }
}

/// Reads the error message of a failed job. For a Yocto workflow the message
/// is read as the log of a Yocto build, with `logfile_contents` the contents
/// of the log file that it refers to; a message without an error summary is
/// refused. For any other workflow the message is reported as it is.
pub fn parse_error_message(
    err_msg: &str,
    workflow: WorkflowKind,
    logfile_contents: Option<String>,
) -> (r: Result<ErrorMessageSummary, ParseError>)
    ensures
        if workflow == WorkflowKind::Yocto && !contains(err_msg@, YOCTO_ERROR_SUMMARY_SIGNATURE@) {
            r matches Err(ParseError::MissingMarker)
        } else {
            r matches Ok(summary) && summary@ == error_message_of(
                err_msg@,
                workflow,
                text_of(logfile_contents),
            )
        },
{
    match workflow {
        WorkflowKind::Yocto => match parse_yocto_error(err_msg, logfile_contents) {
            Ok(e) => Ok(ErrorMessageSummary::Yocto(e)),
            Err(e) => Err(e),
        },
        WorkflowKind::Other => Ok(ErrorMessageSummary::Other(String::from_str(err_msg))),
    }
}

} // verus!
