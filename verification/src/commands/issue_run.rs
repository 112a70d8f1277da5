//! Creating an issue from a failed run, step by step.
//!
//! The library asks for one thing at a time: the summary of the run, the log
//! of each failed job, the log file that each log names, the open issues.
//! Whoever runs it fetches what is asked for and hands it back. Each step is
//! a function of the state of the run and of the answer that came.

use crate::commands::create_issue_from_run::{
    all_have_summaries, classify_run_failure, decide_submission, error_log_of, error_logs_from,
    first_malformed, issue_of, log_views, logfile_paths_to_read, logfile_to_read, optional_texts,
    parse_to_gh_issue, submission_of, Submission,
};
use crate::commands::WorkflowKind;
use crate::err_msg_parse::yocto_err::text_of;
use crate::errlog::{first_line, ErrorLog, ErrorLogView};
use crate::error::{ParseError, ParseErrorView};
use crate::issue::{rendered_body, Issue, IssueView};
use crate::pattern::Patterns;
use crate::text::texts;
use crate::util::{failed_job_ids, first_line_without_id};
use vstd::prelude::*;
use vstd::string::*;

verus! {

/// What a [`RunRequest`] holds.
pub struct RunRequestView {
    pub repo: Seq<char>,
    pub run_id: Seq<char>,
    pub label: Seq<char>,
    pub kind: WorkflowKind,
    pub dry_run: bool,
    pub no_duplicate: bool,
}

/// What is asked for: the repository and the run, the label of the issue,
/// the kind of workflow, and whether the issue is only to be shown and
/// whether a failure that was reported before is to be left alone.
#[derive(Debug)]
pub struct RunRequest {
    pub repo: String,
    pub run_id: String,
    pub label: String,
    pub kind: WorkflowKind,
    pub dry_run: bool,
    pub no_duplicate: bool,
}

impl View for RunRequest {
    type V = RunRequestView;

    open spec fn view(&self) -> RunRequestView {
        RunRequestView {
            repo: self.repo@,
            run_id: self.run_id@,
            label: self.label@,
            kind: self.kind,
            dry_run: self.dry_run,
            no_duplicate: self.no_duplicate,
        }
    }
}

/// What a [`RunState`] holds.
pub enum RunStateView {
    Start,
    AwaitingSummary,
    AwaitingJobLog { job_ids: Seq<Seq<char>>, logs: Seq<Seq<char>> },
    AwaitingLogfile {
        errlogs: Seq<ErrorLogView>,
        paths: Seq<Option<Seq<char>>>,
        contents: Seq<Option<Seq<char>>>,
    },
    AwaitingIssues { issue: IssueView },
    Done,
}

/// How far a run has come, and what it has gathered.
#[derive(Debug)]
pub enum RunState {
    /// Nothing has been asked for yet.
    Start,
    /// The summary of the run has been asked for.
    AwaitingSummary,
    /// The log of the job after those whose logs are here has been asked
    /// for.
    AwaitingJobLog { job_ids: Vec<String>, logs: Vec<String> },
    /// The log file at the path after those whose contents are here has been
    /// asked for.
    AwaitingLogfile {
        errlogs: Vec<ErrorLog>,
        paths: Vec<Option<String>>,
        contents: Vec<Option<String>>,
    },
    /// The issue is made, and the open issues with its label have been asked
    /// for.
    AwaitingIssues { issue: Issue },
    /// The run has ended.
    Done,
}

impl View for RunState {
    type V = RunStateView;

    open spec fn view(&self) -> RunStateView {
        match self {
            RunState::Start => RunStateView::Start,
            RunState::AwaitingSummary => RunStateView::AwaitingSummary,
            RunState::AwaitingJobLog { job_ids, logs } => RunStateView::AwaitingJobLog {
                job_ids: texts(job_ids@),
                logs: texts(logs@),
            },
            RunState::AwaitingLogfile { errlogs, paths, contents } => RunStateView::AwaitingLogfile {
                errlogs: log_views(errlogs@),
                paths: optional_texts(paths@),
                contents: optional_texts(contents@),
            },
            RunState::AwaitingIssues { issue } => RunStateView::AwaitingIssues { issue: issue@ },
            RunState::Done => RunStateView::Done,
        }
    }
}

/// What a [`RunEvent`] holds.
pub enum RunEventView {
    Started,
    RunSummary(Seq<char>),
    JobLog(Seq<char>),
    Logfile(Option<Seq<char>>),
    OpenIssues(Seq<Seq<char>>),
}

/// An answer to what a run asked for.
#[derive(Debug)]
pub enum RunEvent {
    /// The run begins.
    Started,
    /// The summary of the run.
    RunSummary(String),
    /// The log of the job that was asked for.
    JobLog(String),
    /// What the log file that was asked for holds, or `None` where there is
    /// no such file.
    Logfile(Option<String>),
    /// The bodies of the open issues with the label of the request.
    OpenIssues(Vec<String>),
}

impl View for RunEvent {
    type V = RunEventView;

    open spec fn view(&self) -> RunEventView {
        match self {
            RunEvent::Started => RunEventView::Started,
            RunEvent::RunSummary(text) => RunEventView::RunSummary(text@),
            RunEvent::JobLog(text) => RunEventView::JobLog(text@),
            RunEvent::Logfile(contents) => RunEventView::Logfile(text_of(*contents)),
            RunEvent::OpenIssues(bodies) => RunEventView::OpenIssues(texts(bodies@)),
        }
    }
}

/// What a [`RunAction`] holds.
pub enum RunActionView {
    FetchRunSummary,
    FetchJobLog(Seq<char>),
    ReadLogfile(Seq<char>),
    ListOpenIssues,
    Finish(IssueView, Submission),
    Fail(ParseErrorView),
}

/// What a run asks for next, or how it ends.
#[derive(Debug)]
pub enum RunAction {
    /// The summary of the run of the request is wanted.
    FetchRunSummary,
    /// The log of the job with this identifier is wanted.
    FetchJobLog(String),
    /// The contents of the log file at this path are wanted.
    ReadLogfile(String),
    /// The bodies of the open issues with the label of the request are
    /// wanted.
    ListOpenIssues,
    /// The run ends with this issue, and this is to be done with it.
    Finish(Issue, Submission),
    /// The run ends without an issue.
    Fail(ParseError),
}

impl View for RunAction {
    type V = RunActionView;

    open spec fn view(&self) -> RunActionView {
        match self {
            RunAction::FetchRunSummary => RunActionView::FetchRunSummary,
            RunAction::FetchJobLog(id) => RunActionView::FetchJobLog(id@),
            RunAction::ReadLogfile(path) => RunActionView::ReadLogfile(path@),
            RunAction::ListOpenIssues => RunActionView::ListOpenIssues,
            RunAction::Finish(issue, submission) => RunActionView::Finish(issue@, *submission),
            RunAction::Fail(e) => RunActionView::Fail(e@),
        }
    }
}

/// The run fails.
pub open spec fn failed(e: ParseErrorView) -> (RunStateView, RunActionView) {
    (RunStateView::Done, RunActionView::Fail(e))
}

/// The step after the summary of the run has come: the log of the first
/// failed job is asked for. The run fails where the summary reports no failed
/// job, or reports one without an identifier.
pub open spec fn after_summary(summary: Seq<char>) -> (RunStateView, RunActionView) {
    match failed_job_ids(summary) {
        Some(ids) => if ids.len() == 0 {
            failed(ParseErrorView::NoFailedJobs)
        } else {
            (
                RunStateView::AwaitingJobLog { job_ids: ids, logs: Seq::empty() },
                RunActionView::FetchJobLog(ids[0]),
            )
        },
        None => failed(ParseErrorView::MalformedInput(first_line_without_id(summary)->Some_0)),
    }
}

/// The logs of the jobs, read, each with the identifier of its job.
pub open spec fn error_logs_of(job_ids: Seq<Seq<char>>, logs: Seq<Seq<char>>) -> Seq<ErrorLogView> {
    Seq::new(job_ids.len(), |i: int| error_log_of(job_ids[i], logs[i]))
}

/// For each log, the path of the log file that goes with it.
pub open spec fn logfiles_to_read(errlogs: Seq<ErrorLogView>, kind: WorkflowKind) -> Seq<
    Option<Seq<char>>,
> {
    Seq::new(errlogs.len(), |i: int| logfile_to_read(errlogs[i], kind))
}

/// The step after a log has come, `logs` being the logs that are here now:
/// the log of the next job is asked for while one is missing. Once all are
/// here they are read, and the run goes on to the log files; it fails where
/// a log has not the form that it must have.
pub open spec fn after_job_log(
    request: RunRequestView,
    job_ids: Seq<Seq<char>>,
    logs: Seq<Seq<char>>,
) -> (RunStateView, RunActionView) {
    if logs.len() < job_ids.len() {
        (
            RunStateView::AwaitingJobLog { job_ids, logs },
            RunActionView::FetchJobLog(job_ids[logs.len() as int]),
        )
    } else if logs.len() > job_ids.len() {
        failed(ParseErrorView::UnexpectedEvent)
    } else {
        match first_malformed(logs, logs.len() as int) {
            Some(at) => failed(ParseErrorView::MalformedInput(first_line(logs[at]))),
            None => {
                let errlogs = error_logs_of(job_ids, logs);
                read_next(request, errlogs, logfiles_to_read(errlogs, request.kind), Seq::empty())
            },
        }
    }
}

/// The step once the contents of some log files are here: the next log file
/// that a log names is asked for, the logs that name none being passed over.
/// Once no log file is missing the issue is made. The run fails where a log
/// of a Yocto workflow has no error summary. Where a failure that was
/// reported before is to be left alone the open issues are asked for;
/// otherwise the run ends with the issue.
pub open spec fn read_next(
    request: RunRequestView,
    errlogs: Seq<ErrorLogView>,
    paths: Seq<Option<Seq<char>>>,
    contents: Seq<Option<Seq<char>>>,
) -> (RunStateView, RunActionView)
    decreases paths.len() - contents.len(),
{
    if contents.len() < paths.len() {
        match paths[contents.len() as int] {
            Some(path) => (
                RunStateView::AwaitingLogfile { errlogs, paths, contents },
                RunActionView::ReadLogfile(path),
            ),
            None => read_next(request, errlogs, paths, contents.push(None)),
        }
    } else if contents.len() != errlogs.len() {
        failed(ParseErrorView::UnexpectedEvent)
    } else if !all_have_summaries(errlogs, request.kind) {
        failed(ParseErrorView::MissingMarker)
    } else {
        let issue = issue_of(
            errlogs,
            request.repo,
            request.run_id,
            request.label,
            request.kind,
            contents,
        );
        if request.no_duplicate {
            (RunStateView::AwaitingIssues { issue }, RunActionView::ListOpenIssues)
        } else {
            finished(request, issue, Seq::empty())
        }
    }
}

/// The run ends with the issue, and with what is to be done with it given
/// the bodies of the open issues.
pub open spec fn finished(request: RunRequestView, issue: IssueView, open_issues: Seq<Seq<char>>) -> (
    RunStateView,
    RunActionView,
) {
    (
        RunStateView::Done,
        RunActionView::Finish(
            issue,
            submission_of(
                rendered_body(issue.body),
                open_issues,
                request.no_duplicate,
                request.dry_run,
            ),
        ),
    )
}

/// The step that a run takes when an answer comes: the state after it, and
/// what is asked for next. An answer that the state does not wait for makes
/// the run fail.
pub open spec fn next_step_of(request: RunRequestView, state: RunStateView, event: RunEventView) -> (
    RunStateView,
    RunActionView,
) {
    match (state, event) {
        (RunStateView::Start, RunEventView::Started) => (
            RunStateView::AwaitingSummary,
            RunActionView::FetchRunSummary,
        ),
        (RunStateView::AwaitingSummary, RunEventView::RunSummary(summary)) => after_summary(
            summary,
        ),
        (RunStateView::AwaitingJobLog { job_ids, logs }, RunEventView::JobLog(log)) => after_job_log(
            request,
            job_ids,
            logs.push(log),
        ),
        (
            RunStateView::AwaitingLogfile { errlogs, paths, contents },
            RunEventView::Logfile(text),
        ) => if contents.len() < paths.len() {
            read_next(request, errlogs, paths, contents.push(text))
        } else {
            failed(ParseErrorView::UnexpectedEvent)
        },
        (RunStateView::AwaitingIssues { issue }, RunEventView::OpenIssues(bodies)) => finished(
            request,
            issue,
            bodies,
        ),
        _ => failed(ParseErrorView::UnexpectedEvent),
    }
}

/// Goes on to the log files once some of their contents are here.
#[verifier::loop_isolation(false)]
fn read_next_logfile(
    request: &RunRequest,
    patterns: &Patterns,
    errlogs: Vec<ErrorLog>,
    paths: Vec<Option<String>>,
    contents: Vec<Option<String>>,
) -> (r: (RunState, RunAction))
    requires
        contents@.len() <= paths@.len(),
    ensures
        (r.0@, r.1@) == read_next(
            request@,
            log_views(errlogs@),
            optional_texts(paths@),
            optional_texts(contents@),
        ),
{
    let ghost given = optional_texts(contents@);
    let mut contents = contents;
    while contents.len() < paths.len()
        invariant
            contents@.len() <= paths@.len(),
            read_next(
                request@,
                log_views(errlogs@),
                optional_texts(paths@),
                optional_texts(contents@),
            ) == read_next(
                request@,
                log_views(errlogs@),
                optional_texts(paths@),
                given,
            ),
        decreases paths@.len() - contents@.len(),
    {
        let at = contents.len();
        match &paths[at] {
            Some(path) => {
                let wanted = path.clone();
                return (
                    RunState::AwaitingLogfile { errlogs, paths, contents },
                    RunAction::ReadLogfile(wanted),
                );
            },
            None => {
                let ghost before = optional_texts(contents@);
                contents.push(None);
                assert(optional_texts(contents@) == before.push(None));
            },
        }
    }
    if contents.len() != errlogs.len() {
        return (RunState::Done, RunAction::Fail(ParseError::UnexpectedEvent));
    }
    match parse_to_gh_issue(
        errlogs,
        request.repo.as_str(),
        request.run_id.clone(),
        request.label.clone(),
        request.kind,
        contents,
    ) {
        Ok(issue) => if request.no_duplicate {
            (RunState::AwaitingIssues { issue }, RunAction::ListOpenIssues)
        } else {
            finish(request, patterns, issue, Vec::new())
        },
        Err(e) => (RunState::Done, RunAction::Fail(e)),
    }
}

/// Ends the run with the issue.
fn finish(request: &RunRequest, patterns: &Patterns, issue: Issue, open_issues: Vec<String>) -> (r: (
    RunState,
    RunAction,
))
    ensures
        (r.0@, r.1@) == finished(request@, issue@, texts(open_issues@)),
{
    let body = issue.body();
    let submission = decide_submission(
        patterns,
        body.as_str(),
        open_issues.as_slice(),
        request.no_duplicate,
        request.dry_run,
    );
    (RunState::Done, RunAction::Finish(issue, submission))
}

/// Takes the step that follows an answer: returns the state of the run after
/// it, and what the run asks for next or how it ends. It is begun in
/// [`RunState::Start`] with [`RunEvent::Started`].
pub fn next_step(request: &RunRequest, patterns: &Patterns, state: RunState, event: RunEvent) -> (r:
    (RunState, RunAction))
    ensures
        (r.0@, r.1@) == next_step_of(request@, state@, event@),
{
    match (state, event) {
        (RunState::Start, RunEvent::Started) => (
            RunState::AwaitingSummary,
            RunAction::FetchRunSummary,
        ),
        (RunState::AwaitingSummary, RunEvent::RunSummary(summary)) => {
            match classify_run_failure(patterns, summary.as_str()) {
                Ok(job_ids) => {
                    let first = job_ids[0].clone();
                    let logs: Vec<String> = Vec::new();
                    assert(texts(logs@) == Seq::<Seq<char>>::empty());
                    (RunState::AwaitingJobLog { job_ids, logs }, RunAction::FetchJobLog(first))
                },
                Err(e) => (RunState::Done, RunAction::Fail(e)),
            }
        },
        (RunState::AwaitingJobLog { job_ids, logs }, RunEvent::JobLog(log)) => {
            let mut logs = logs;
            let ghost before = texts(logs@);
            logs.push(log);
            assert(texts(logs@) == before.push(log@));
            if logs.len() < job_ids.len() {
                let wanted = job_ids[logs.len()].clone();
                (RunState::AwaitingJobLog { job_ids, logs }, RunAction::FetchJobLog(wanted))
            } else if logs.len() > job_ids.len() {
                (RunState::Done, RunAction::Fail(ParseError::UnexpectedEvent))
            } else {
                match error_logs_from(patterns, &job_ids, &logs) {
                    Ok(errlogs) => {
                        assert(log_views(errlogs@) == error_logs_of(
                            texts(job_ids@),
                            texts(logs@),
                        ));
                        let paths = logfile_paths_to_read(&errlogs, request.kind);
                        assert(optional_texts(paths@) == logfiles_to_read(
                            log_views(errlogs@),
                            request.kind,
                        ));
                        let contents: Vec<Option<String>> = Vec::new();
                        assert(optional_texts(contents@) == Seq::<Option<Seq<char>>>::empty());
                        read_next_logfile(request, patterns, errlogs, paths, contents)
                    },
                    Err(e) => {
                        assert(texts(logs@)[first_malformed(
                            texts(logs@),
                            logs@.len() as int,
                        )->Some_0] == logs@[first_malformed(
                            texts(logs@),
                            logs@.len() as int,
                        )->Some_0]@) by {
                            first_malformed_in_range(texts(logs@), logs@.len() as int);
                        }
                        (RunState::Done, RunAction::Fail(e))
                    },
                }
            }
        },
        (RunState::AwaitingLogfile { errlogs, paths, contents }, RunEvent::Logfile(text)) => {
            if contents.len() < paths.len() {
                let mut contents = contents;
                let ghost before = optional_texts(contents@);
                contents.push(text);
                assert(optional_texts(contents@) == before.push(text_of(text)));
                read_next_logfile(request, patterns, errlogs, paths, contents)
            } else {
                (RunState::Done, RunAction::Fail(ParseError::UnexpectedEvent))
            }
        },
        (RunState::AwaitingIssues { issue }, RunEvent::OpenIssues(bodies)) => finish(
            request,
            patterns,
            issue,
            bodies,
        ),
        _ => (RunState::Done, RunAction::Fail(ParseError::UnexpectedEvent)),
    }
}

/// The first log that is not well formed lies among the logs that were
/// looked at.
pub proof fn first_malformed_in_range(raw_logs: Seq<Seq<char>>, n: int)
    ensures
        first_malformed(raw_logs, n) matches Some(at) ==> 0 <= at < n,
    decreases n,
{
    if n > 0 {
        first_malformed_in_range(raw_logs, n - 1);
    }
}

} // verus!
