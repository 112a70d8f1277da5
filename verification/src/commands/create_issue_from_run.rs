//! From the logs of a failed run to the issue that reports it, and the test
//! that keeps the same failure from being reported twice.

use crate::commands::{WorkflowKind, LEVENSHTEIN_THRESHOLD};
use crate::err_msg_parse::yocto_err::{
    referenced_path, reported_summary, text_of, yocto_logfile_path, YOCTO_ERROR_SUMMARY_SIGNATURE,
};
use crate::err_msg_parse::{error_message_of, parse_error_message};
use crate::errlog::{
    first_line, log_prefix, stripped_log, ErrorLog, ErrorLogView,
};
use crate::error::ParseError;
use crate::gh::util::{job_url_of, repo_url_to_job_url, repo_url_to_run_url, run_url_of};
use crate::issue::{job_views, labels_of, FailedJob, FailedJobView, Issue, IssueBodyView, IssueView, ISSUE_TITLE};
use crate::pattern::Patterns;
use crate::text::{contains, texts};
use crate::util::{
    extract_failed_job_ids, failed_job_ids, first_line_without_id, normalized, remove_timestamps,
};
use vstd::prelude::*;
use vstd::string::*;

verus! {

/// The least of three numbers.
pub open spec fn min3(a: nat, b: nat, c: nat) -> nat {
    if a <= b && a <= c {
        a
    } else if b <= c {
        b
    } else {
        c
    }
}

/// The Levenshtein distance of two texts: the least number of chars to
/// insert, delete or replace by another so that `a` becomes `b`.
pub open spec fn edit_distance(a: Seq<char>, b: Seq<char>) -> nat
    decreases a.len() + b.len(),
{
    if a.len() == 0 {
        b.len()
    } else if b.len() == 0 {
        a.len()
    } else {
        min3(
            edit_distance(a.drop_last(), b) + 1,
            edit_distance(a, b.drop_last()) + 1,
            edit_distance(a.drop_last(), b.drop_last()) + if a.last() == b.last() {
                0nat
            } else {
                1nat
            },
        )
    }
}

/// `distance::levenshtein` fills the table of the distances between the
/// beginnings of the two texts, char by char, and returns its last entry:
/// the Levenshtein distance of the texts.
#[verifier::external_body]
fn levenshtein(a: &str, b: &str) -> (d: usize)
    ensures
        d == edit_distance(a@, b@),
{
    distance::levenshtein(a, b)
}

/// A text is at distance 0 from itself.
pub proof fn edit_distance_to_self(x: Seq<char>)
    ensures
        edit_distance(x, x) == 0,
    decreases x.len(),
{
    if x.len() > 0 {
        edit_distance_to_self(x.drop_last());
    }
}

/// The least distance between a body and each of the others, all of them
/// [`normalized`] first; `usize::MAX` where there is no other.
pub open spec fn smallest_distance(body: Seq<char>, others: Seq<Seq<char>>) -> nat
    decreases others.len(),
{
    if others.len() == 0 {
        usize::MAX as nat
    } else {
        let rest = smallest_distance(body, others.drop_last());
        let last = edit_distance(normalized(body), normalized(others.last()));
        if last < rest {
            last
        } else {
            rest
        }
    }
}

/// The least Levenshtein distance between the body of an issue and the
/// bodies of other issues, time stamps and long numbers left aside.
pub fn issue_text_similarity(patterns: &Patterns, issue_body: &str, other_issues: &[String]) -> (d:
    usize)
    ensures
        d == smallest_distance(issue_body@, texts(other_issues@)),
{
    let body = remove_timestamps(patterns, issue_body);
    let ghost others = texts(other_issues@);
    let mut smallest: usize = usize::MAX;
    let mut i: usize = 0;
    while i < other_issues.len()
        invariant
            i <= other_issues@.len(),
            body@ == normalized(issue_body@),
            others == texts(other_issues@),
            smallest == smallest_distance(issue_body@, others.subrange(0, i as int)),
        decreases other_issues@.len() - i,
    {
        let ghost upto = others.subrange(0, i + 1);
        assert(upto.drop_last() == others.subrange(0, i as int));
        let other = remove_timestamps(patterns, other_issues[i].as_str());
        let d = levenshtein(body.as_str(), other.as_str());
        if d < smallest {
            smallest = d;
        }
        i += 1;
    }
    assert(others.subrange(0, other_issues@.len() as int) == others);
    smallest
}

/// Whether an issue with this body has been reported before: one of the
/// earlier bodies is the same but for time stamps and long numbers, or is at
/// a distance below the threshold.
pub open spec fn reported_before(body: Seq<char>, earlier: Seq<Seq<char>>, threshold: nat) -> bool {
    smallest_distance(body, earlier) == 0 || smallest_distance(body, earlier) < threshold
}

/// Tells whether an issue with the body `candidate_body` has been reported
/// before, given the bodies of the open issues with the same label.
pub fn is_duplicate(
    patterns: &Patterns,
    candidate_body: &str,
    prior_bodies: &[String],
    threshold: usize,
) -> (b: bool)
    ensures
        b == reported_before(
            candidate_body@,
            texts(prior_bodies@),
            threshold as nat,
        ),
{
    let d = issue_text_similarity(patterns, candidate_body, prior_bodies);
    d == 0 || d < threshold
}

/// The least distance to the earlier bodies is at most the distance to any
/// one of them.
pub proof fn smallest_distance_is_least(body: Seq<char>, earlier: Seq<Seq<char>>, i: int)
    requires
        0 <= i < earlier.len(),
    ensures
        smallest_distance(body, earlier) <= edit_distance(normalized(body), normalized(earlier[i])),
    decreases earlier.len(),
{
    if i < earlier.len() - 1 {
        smallest_distance_is_least(body, earlier.drop_last(), i);
    }
}

/// A body counts as reported before whenever one of the earlier bodies
/// differs from it only in what normalising takes out, whatever the
/// threshold.
pub proof fn same_but_for_volatile_parts_is_duplicate(
    body: Seq<char>,
    earlier: Seq<Seq<char>>,
    i: int,
    threshold: nat,
)
    requires
        0 <= i < earlier.len(),
        normalized(earlier[i]) == normalized(body),
    ensures
        reported_before(body, earlier, threshold),
{
    smallest_distance_is_least(body, earlier, i);
    edit_distance_to_self(normalized(body));
}

/// With no earlier body nothing has been reported before, unless the
/// threshold is beyond every distance.
pub proof fn nothing_earlier_is_no_duplicate(body: Seq<char>, threshold: nat)
    requires
        threshold <= usize::MAX,
    ensures
        !reported_before(body, Seq::empty(), threshold),
{
}

/// The identifiers of the failed jobs of a run, in the order in which its
/// summary reports them. It fails where the summary reports no failed job,
/// and where a line that reports one holds no identifier.
pub fn classify_run_failure(patterns: &Patterns, run_summary: &str) -> (r: Result<
    Vec<String>,
    ParseError,
>)
    ensures
        match failed_job_ids(run_summary@) {
            Some(ids) => if ids.len() == 0 {
                r matches Err(ParseError::NoFailedJobs)
            } else {
                r matches Ok(found) && texts(found@) == ids
            },
            None => r matches Err(ParseError::MalformedInput(line)) && Some(line@)
                == first_line_without_id(run_summary@),
        },
{
    match extract_failed_job_ids(patterns, run_summary) {
        Ok(ids) => if ids.len() == 0 {
            Err(ParseError::NoFailedJobs)
        } else {
            Ok(ids)
        },
        Err(e) => Err(e),
    }
}

/// What each log of a list holds.
pub open spec fn log_views(logs: Seq<ErrorLog>) -> Seq<ErrorLogView> {
    Seq::new(logs.len(), |i: int| logs[i]@)
}

/// The first of the logs, among the first `n`, whose first line has not the
/// form that a log must have.
pub open spec fn first_malformed(raw_logs: Seq<Seq<char>>, n: int) -> Option<int>
    decreases n,
{
    if n <= 0 {
        None
    } else if first_malformed(raw_logs, n - 1) is Some {
        first_malformed(raw_logs, n - 1)
    } else if log_prefix(raw_logs[n - 1]) is None {
        Some(n - 1)
    } else {
        None
    }
}

/// The log that a job's identifier and its raw log give, for a raw log of
/// the form that it must have.
pub open spec fn error_log_of(job_id: Seq<char>, raw_log: Seq<char>) -> ErrorLogView {
    ErrorLogView {
        job_id,
        no_prefix_log: stripped_log(raw_log),
        prefix: log_prefix(raw_log)->Some_0,
    }
}

/// Reads the logs of the failed jobs, the `i`-th log being that of the
/// `i`-th job; where one list is longer, what has no partner is left out.
/// The first log that has not the form that it must have is refused, with
/// its first line.
pub fn error_logs_from(patterns: &Patterns, job_ids: &Vec<String>, raw_logs: &Vec<String>) -> (r:
    Result<Vec<ErrorLog>, ParseError>)
    ensures
        ({
            let n = if job_ids@.len() <= raw_logs@.len() {
                job_ids@.len() as int
            } else {
                raw_logs@.len() as int
            };
            match first_malformed(texts(raw_logs@), n) {
                Some(at) => r matches Err(ParseError::MalformedInput(line)) && line@ == first_line(
                    raw_logs@[at]@,
                ),
                None => r matches Ok(logs) && logs@.len() == n && forall|i: int|
                    0 <= i < n ==> (#[trigger] logs@[i])@ == error_log_of(
                        job_ids@[i]@,
                        raw_logs@[i]@,
                    ),
            }
        }),
{
    let n: usize = if job_ids.len() <= raw_logs.len() {
        job_ids.len()
    } else {
        raw_logs.len()
    };
    let mut logs: Vec<ErrorLog> = Vec::new();
    let mut i: usize = 0;
    while i < n
        invariant
            i <= n,
            n <= job_ids@.len(),
            n <= raw_logs@.len(),
            n == job_ids@.len() || n == raw_logs@.len(),
            logs@.len() == i,
            first_malformed(texts(raw_logs@), i as int) is None,
            forall|k: int|
                0 <= k < i ==> (#[trigger] logs@[k])@ == error_log_of(
                    job_ids@[k]@,
                    raw_logs@[k]@,
                ),
        decreases n - i,
    {
        match ErrorLog::new(patterns, job_ids[i].clone(), raw_logs[i].clone()) {
            Ok(log) => {
                logs.push(log);
            },
            Err(e) => {
                proof {
                    first_malformed_is_first(texts(raw_logs@), i + 1, n as int);
                }
                return Err(e);
            },
        }
        i += 1;
    }
    Ok(logs)
}

/// Once a log among the first `m` is found to be the first that is not
/// well formed, it is also the first among any `n >= m`.
pub proof fn first_malformed_is_first(raw_logs: Seq<Seq<char>>, m: int, n: int)
    requires
        0 <= m <= n,
        first_malformed(raw_logs, m) is Some,
    ensures
        first_malformed(raw_logs, n) == first_malformed(raw_logs, m),
    decreases n - m,
{
    if m < n {
        first_malformed_is_first(raw_logs, m, n - 1);
    }
}

/// The path of the log file that goes with a job's log, for a workflow of
/// the given kind: the file that the error summary of the log names, for a
/// Yocto workflow; none for any other.
pub open spec fn logfile_to_read(log: ErrorLogView, kind: WorkflowKind) -> Option<Seq<char>> {
    if kind == WorkflowKind::Yocto && contains(log.no_prefix_log, YOCTO_ERROR_SUMMARY_SIGNATURE@) {
        referenced_path(reported_summary(log.no_prefix_log))
    } else {
        None
    }
}

/// For each log, the path of the log file whose contents go into the report,
/// where there is one, for the caller to read them.
pub fn logfile_paths_to_read(errlogs: &Vec<ErrorLog>, kind: WorkflowKind) -> (paths: Vec<
    Option<String>,
>)
    ensures
        paths@.len() == errlogs@.len(),
        forall|i: int|
            0 <= i < paths@.len() ==> text_of(#[trigger] paths@[i]) == logfile_to_read(
                errlogs@[i]@,
                kind,
            ),
{
    let mut paths: Vec<Option<String>> = Vec::new();
    let mut i: usize = 0;
    while i < errlogs.len()
        invariant
            i <= errlogs.len(),
            paths@.len() == i,
            forall|k: int|
                0 <= k < i ==> text_of(#[trigger] paths@[k]) == logfile_to_read(
                    errlogs@[k]@,
                    kind,
                ),
        decreases errlogs.len() - i,
    {
        let path = match kind {
            WorkflowKind::Yocto => yocto_logfile_path(errlogs[i].no_prefix_log()),
            WorkflowKind::Other => None,
        };
        paths.push(path);
        i += 1;
    }
    paths
}

/// The report of one failed job, given what its log file holds.
pub open spec fn failed_job_of(
    log: ErrorLogView,
    repo: Seq<char>,
    run_id: Seq<char>,
    kind: WorkflowKind,
    logfile: Option<Seq<char>>,
) -> FailedJobView {
    FailedJobView {
        name: log.prefix.failed_job,
        id: log.job_id,
        url: job_url_of(run_url_of(repo, run_id), log.job_id),
        failed_step: log.prefix.failed_step,
        error_message: error_message_of(log.no_prefix_log, kind, logfile),
    }
}

/// The reports of the failed jobs, in the order of their logs.
pub open spec fn failed_jobs_of(
    logs: Seq<ErrorLogView>,
    repo: Seq<char>,
    run_id: Seq<char>,
    kind: WorkflowKind,
    logfiles: Seq<Option<Seq<char>>>,
) -> Seq<FailedJobView> {
    Seq::new(logs.len(), |i: int| failed_job_of(logs[i], repo, run_id, kind, logfiles[i]))
}

/// The log can be reported: for a Yocto workflow it must hold an error
/// summary.
pub open spec fn has_summary(log: ErrorLogView, kind: WorkflowKind) -> bool {
    kind != WorkflowKind::Yocto || contains(log.no_prefix_log, YOCTO_ERROR_SUMMARY_SIGNATURE@)
}

/// Every one of the logs can be reported.
pub open spec fn all_have_summaries(logs: Seq<ErrorLogView>, kind: WorkflowKind) -> bool {
    forall|i: int| 0 <= i < logs.len() ==> has_summary(#[trigger] logs[i], kind)
}

/// The text of each optional string of a list.
pub open spec fn optional_texts(strings: Seq<Option<String>>) -> Seq<Option<Seq<char>>> {
    Seq::new(strings.len(), |i: int| text_of(strings[i]))
}

/// The issue that reports a run, given the logs of its failed jobs and what
/// the log file of each holds.
pub open spec fn issue_of(
    logs: Seq<ErrorLogView>,
    repo: Seq<char>,
    run_id: Seq<char>,
    label: Seq<char>,
    kind: WorkflowKind,
    logfiles: Seq<Option<Seq<char>>>,
) -> IssueView {
    let jobs = failed_jobs_of(logs, repo, run_id, kind, logfiles);
    IssueView {
        title: ISSUE_TITLE@,
        labels: labels_of(label, jobs),
        body: IssueBodyView { run_id, run_link: run_url_of(repo, run_id), failed_jobs: jobs },
    }
}

/// A copy of an optional string.
fn copy_of(s: &Option<String>) -> (copy: Option<String>)
    ensures
        text_of(copy) == text_of(*s),
{
    match s {
        Some(text) => Some(text.clone()),
        None => None,
    }
}

/// Makes the issue that reports a run from the logs of its failed jobs.
/// `logfiles` holds, for each log, the contents of the log file at the path
/// that [`logfile_paths_to_read`] gives for it, or `None` where there is no
/// such file. The jobs are reported in the order of their logs. A log
/// without an error summary, in a Yocto workflow, is refused.
pub fn parse_to_gh_issue(
    errlogs: Vec<ErrorLog>,
    repo: &str,
    run_id: String,
    label: String,
    kind: WorkflowKind,
    logfiles: Vec<Option<String>>,
) -> (r: Result<Issue, ParseError>)
    requires
        logfiles@.len() == errlogs@.len(),
    ensures
        if all_have_summaries(log_views(errlogs@), kind) {
            r matches Ok(issue) && issue@ == issue_of(
                log_views(errlogs@),
                repo@,
                run_id@,
                label@,
                kind,
                optional_texts(logfiles@),
            )
        } else {
            r matches Err(ParseError::MissingMarker)
        },
{
    let ghost jobs = failed_jobs_of(
        log_views(errlogs@),
        repo@,
        run_id@,
        kind,
        optional_texts(logfiles@),
    );
    let mut failed_jobs: Vec<FailedJob> = Vec::new();
    let mut i: usize = 0;
    while i < errlogs.len()
        invariant
            i <= errlogs.len(),
            logfiles@.len() == errlogs@.len(),
            failed_jobs@.len() == i,
            jobs == failed_jobs_of(
                log_views(errlogs@),
                repo@,
                run_id@,
                kind,
                optional_texts(logfiles@),
            ),
            forall|k: int| 0 <= k < i ==> has_summary(#[trigger] log_views(errlogs@)[k], kind),
            forall|k: int| 0 <= k < i ==> (#[trigger] failed_jobs@[k])@ == jobs[k],
        decreases errlogs.len() - i,
    {
        let errlog = &errlogs[i];
        let err_summary = match parse_error_message(
            errlog.no_prefix_log(),
            kind,
            copy_of(&logfiles[i]),
        ) {
            Ok(summary) => summary,
            Err(e) => {
                assert(!has_summary(log_views(errlogs@)[i as int], kind));
                return Err(e);
            },
        };
        let job = FailedJob::new(
            String::from_str(errlog.failed_job()),
            String::from_str(errlog.job_id()),
            repo_url_to_job_url(repo, run_id.as_str(), errlog.job_id()),
            String::from_str(errlog.failed_step()),
            err_summary,
        );
        failed_jobs.push(job);
        i += 1;
    }
    assert(job_views(failed_jobs@) == jobs);
    let run_link = repo_url_to_run_url(repo, run_id.as_str());
    Ok(Issue::new(run_id, run_link, failed_jobs, label))
}

/// What is to be done with the issue that reports a run.
#[derive(Copy, Clone, Debug, PartialEq, Eq, Structural)]
pub enum Submission {
    /// Nothing: an open issue has the same body, but for time stamps and
    /// long numbers.
    AlreadyReported,
    /// Nothing: an open issue has a body that is nearly the same.
    SimilarReported,
    /// The issue is shown and not created.
    DryRun,
    /// The issue is created.
    Create,
}

/// What is to be done with an issue of the given body. Where duplicates are
/// to be avoided, an issue at distance 0 from an open one, or at a distance
/// below [`LEVENSHTEIN_THRESHOLD`], is not reported again. Any other issue is
/// shown in a dry run and created otherwise.
pub open spec fn submission_of(
    body: Seq<char>,
    similar_issues: Seq<Seq<char>>,
    no_duplicate: bool,
    dry_run: bool,
) -> Submission {
    if no_duplicate && smallest_distance(body, similar_issues) == 0 {
        Submission::AlreadyReported
    } else if no_duplicate && smallest_distance(body, similar_issues) < LEVENSHTEIN_THRESHOLD {
        Submission::SimilarReported
    } else if dry_run {
        Submission::DryRun
    } else {
        Submission::Create
    }
}

/// Decides what is to be done with an issue, given the bodies of the open
/// issues with the same label.
pub fn decide_submission(
    patterns: &Patterns,
    body: &str,
    similar_issues: &[String],
    no_duplicate: bool,
    dry_run: bool,
) -> (submission: Submission)
    ensures
        submission == submission_of(body@, texts(similar_issues@), no_duplicate, dry_run),
{
    if no_duplicate {
        let smallest = issue_text_similarity(patterns, body, similar_issues);
        if smallest == 0 {
            return Submission::AlreadyReported;
        }
        if smallest < LEVENSHTEIN_THRESHOLD {
            return Submission::SimilarReported;
        }
    }
    if dry_run {
        Submission::DryRun
    } else {
        Submission::Create
    }
}

} // verus!
