//! The issue that reports a failed run: its title, its labels, and its body
//! with one section for each failed job.

use crate::err_msg_parse::yocto_err::text_of;
use crate::err_msg_parse::{ErrorMessageSummary, ErrorMessageSummaryView};
use crate::text::{decimal, decimal_chars, string_of, texts};
use vstd::prelude::*;
use vstd::string::*;

verus! {

/// The title of every issue.
pub const ISSUE_TITLE: &'static str = "Scheduled run failed";

/// What a [`FailedJob`] holds.
pub struct FailedJobView {
    pub name: Seq<char>,
    pub id: Seq<char>,
    pub url: Seq<char>,
    pub failed_step: Seq<char>,
    pub error_message: ErrorMessageSummaryView,
}

/// A job that failed: its name and identifier, the address of its log, the
/// step that failed, and what is reported of the error.
#[derive(Debug)]
pub struct FailedJob {
    name: String,
    id: String,
    url: String,
    failed_step: String,
    error_message: ErrorMessageSummary,
}

impl View for FailedJob {
    type V = FailedJobView;

    closed spec fn view(&self) -> FailedJobView {
        FailedJobView {
            name: self.name@,
            id: self.id@,
            url: self.url@,
            failed_step: self.failed_step@,
            error_message: self.error_message@,
        }
    }
}

/// The block that shows the log file of a job, where it has one: the name of
/// the file as the heading of a block that is folded, and in it what the file
/// holds.
pub open spec fn rendered_logfile(job: FailedJobView) -> Seq<char> {
    match (job.error_message.logfile_name(), job.error_message.log()) {
        (Some(name), Some(contents)) => "\n<details>\n<summary>"@ + name
            + "</summary>\n<br>\n"@ + contents + "\n</details>"@,
        _ => Seq::empty(),
    }
}

/// The section of the body that reports one job.
pub open spec fn rendered_job(job: FailedJobView) -> Seq<char> {
    "\n### `"@ + job.name + "` (ID "@ + job.id + ")\n**Step failed:** `"@ + job.failed_step
        + "`\n\\\n**Log:** "@ + job.url + "\n\\\n*Best effort error summary*:\n```\n"@
        + job.error_message.summary() + "```"@ + rendered_logfile(job)
}

impl FailedJob {
    /// A failed job of the given name, identifier, address, step and error.
    pub fn new(
        name: String,
        id: String,
        url: String,
        failed_step: String,
        error_message: ErrorMessageSummary,
    ) -> (job: Self)
        ensures
            job@ == (FailedJobView {
                name: name@,
                id: id@,
                url: url@,
                failed_step: failed_step@,
                error_message: error_message@,
            }),
    {
        Self { name, id, url, failed_step, error_message }
    }

    /// The name of the job.
    pub fn name(&self) -> (s: &str)
        ensures
            s@ == self@.name,
    {
        self.name.as_str()
    }

    /// The identifier of the job.
    pub fn id(&self) -> (s: &str)
        ensures
            s@ == self@.id,
    {
        self.id.as_str()
    }

    /// The label that the kind of failure gives the issue, where the kind is
    /// known.
    pub fn failure_label(&self) -> (label: Option<String>)
        ensures
            text_of(label) == self@.error_message.failure_label(),
    {
        self.error_message.failure_label()
    }

    /// The section of the body that reports this job.
    pub fn to_string(&self) -> (s: String)
        ensures
            s@ == rendered_job(self@),
    {
        let mut s = String::from_str("\n### `");
        s.append(self.name.as_str());
        s.append("` (ID ");
        s.append(self.id.as_str());
        s.append(")\n**Step failed:** `");
        s.append(self.failed_step.as_str());
        s.append("`\n\\\n**Log:** ");
        s.append(self.url.as_str());
        s.append("\n\\\n*Best effort error summary*:\n```\n");
        s.append(self.error_message.summary());
        s.append("```");
        match (self.error_message.logfile_name(), self.error_message.log()) {
            (Some(name), Some(contents)) => {
                s.append("\n<details>\n<summary>");
                s.append(name);
                s.append("</summary>\n<br>\n");
                s.append(contents);
                s.append("\n</details>");
            },
            _ => {},
        }
        s
    }
}

/// What each job of a list holds.
pub open spec fn job_views(jobs: Seq<FailedJob>) -> Seq<FailedJobView> {
    Seq::new(jobs.len(), |i: int| jobs[i]@)
}

/// The list of the names of the jobs, one item for each, in their order.
pub open spec fn rendered_names(jobs: Seq<FailedJobView>) -> Seq<char>
    decreases jobs.len(),
{
    if jobs.len() == 0 {
        Seq::empty()
    } else {
        rendered_names(jobs.drop_last()) + "- **`"@ + jobs.last().name + "`**\n"@
    }
}

/// The sections of the jobs, in their order.
pub open spec fn rendered_jobs(jobs: Seq<FailedJobView>) -> Seq<char>
    decreases jobs.len(),
{
    if jobs.len() == 0 {
        Seq::empty()
    } else {
        rendered_jobs(jobs.drop_last()) + rendered_job(jobs.last())
    }
}

/// `job` for one, `jobs` for any other number.
pub open spec fn job_word(count: nat) -> Seq<char> {
    if count == 1 {
        "job"@
    } else {
        "jobs"@
    }
}

/// The body of an issue: the run and the link to it, how many jobs failed,
/// the list of their names, then the section of each job. The jobs stand in
/// the order in which they were found.
pub open spec fn rendered_body(body: IssueBodyView) -> Seq<char> {
    "**Run ID**: "@ + body.run_id + " [LINK TO RUN]("@ + body.run_link + ")\n\n**"@ + decimal(
        body.failed_jobs.len(),
    ) + " "@ + job_word(body.failed_jobs.len()) + " failed:**\n"@ + rendered_names(
        body.failed_jobs,
    ) + rendered_jobs(body.failed_jobs)
}

/// What an [`IssueBody`] holds.
pub struct IssueBodyView {
    pub run_id: Seq<char>,
    pub run_link: Seq<char>,
    pub failed_jobs: Seq<FailedJobView>,
}

/// What the body of an issue is made of: the run, the link to it, and the
/// jobs that failed, in the order in which they were found.
#[derive(Debug)]
pub struct IssueBody {
    run_id: String,
    run_link: String,
    failed_jobs: Vec<FailedJob>,
}

impl View for IssueBody {
    type V = IssueBodyView;

    closed spec fn view(&self) -> IssueBodyView {
        IssueBodyView {
            run_id: self.run_id@,
            run_link: self.run_link@,
            failed_jobs: job_views(self.failed_jobs@),
        }
    }
}

impl IssueBody {
    /// A body for the given run and failed jobs.
    pub fn new(run_id: String, run_link: String, failed_jobs: Vec<FailedJob>) -> (body: Self)
        ensures
            body@ == (IssueBodyView {
                run_id: run_id@,
                run_link: run_link@,
                failed_jobs: job_views(failed_jobs@),
            }),
    {
        Self { run_id, run_link, failed_jobs }
    }

    /// The jobs that failed.
    pub fn failed_jobs(&self) -> (jobs: &Vec<FailedJob>)
        ensures
            job_views(jobs@) == self@.failed_jobs,
    {
        &self.failed_jobs
    }

    /// The text of the body.
    pub fn to_string(&self) -> (s: String)
        ensures
            s@ == rendered_body(self@),
    {
        let ghost jobs = job_views(self.failed_jobs@);
        let count = self.failed_jobs.len();
        let mut s = String::from_str("**Run ID**: ");
        s.append(self.run_id.as_str());
        s.append(" [LINK TO RUN](");
        s.append(self.run_link.as_str());
        s.append(")\n\n**");
        s.append(string_of(&decimal_chars(count as u64)).as_str());
        s.append(" ");
        if count == 1 {
            s.append("job");
        } else {
            s.append("jobs");
        }
        s.append(" failed:**\n");
        let ghost head = s@;
        let mut i: usize = 0;
        while i < count
            invariant
                i <= count == self.failed_jobs.len(),
                jobs == job_views(self.failed_jobs@),
                s@ == head + rendered_names(jobs.subrange(0, i as int)),
            decreases count - i,
        {
            let ghost upto = jobs.subrange(0, i + 1);
            assert(upto.drop_last() == jobs.subrange(0, i as int));
            s.append("- **`");
            s.append(self.failed_jobs[i].name());
            s.append("`**\n");
            i += 1;
        }
        assert(jobs.subrange(0, count as int) == jobs);
        let ghost listed = s@;
        let mut k: usize = 0;
        while k < count
            invariant
                k <= count == self.failed_jobs.len(),
                jobs == job_views(self.failed_jobs@),
                s@ == listed + rendered_jobs(jobs.subrange(0, k as int)),
            decreases count - k,
        {
            let ghost upto = jobs.subrange(0, k + 1);
            assert(upto.drop_last() == jobs.subrange(0, k as int));
            s.append(self.failed_jobs[k].to_string().as_str());
            k += 1;
        }
        s
    }
}

/// The labels of an issue: the label that was asked for, then for each job,
/// in order, the label of its kind of failure where it has one.
pub open spec fn labels_of(label: Seq<char>, jobs: Seq<FailedJobView>) -> Seq<Seq<char>>
    decreases jobs.len(),
{
    if jobs.len() == 0 {
        seq![label]
    } else {
        match jobs.last().error_message.failure_label() {
            Some(kind) => labels_of(label, jobs.drop_last()).push(kind),
            None => labels_of(label, jobs.drop_last()),
        }
    }
}

/// The labels without those that stood in the list before.
pub open spec fn without_repeats(labels: Seq<Seq<char>>) -> Seq<Seq<char>>
    decreases labels.len(),
{
    if labels.len() == 0 {
        Seq::empty()
    } else if without_repeats(labels.drop_last()).contains(labels.last()) {
        without_repeats(labels.drop_last())
    } else {
        without_repeats(labels.drop_last()).push(labels.last())
    }
}

/// [`without_repeats`] keeps every label once: what it gives holds the same
/// labels as the list, and none of them twice.
pub proof fn without_repeats_keeps_each_once(labels: Seq<Seq<char>>)
    ensures
        forall|label: Seq<char>| #[trigger]
            labels.contains(label) ==> without_repeats(labels).contains(label),
        forall|label: Seq<char>| #[trigger]
            without_repeats(labels).contains(label) ==> labels.contains(label),
        without_repeats(labels).no_duplicates(),
    decreases labels.len(),
{
    if labels.len() > 0 {
        let rest = labels.drop_last();
        without_repeats_keeps_each_once(rest);
        let kept = without_repeats(labels);
        assert forall|label: Seq<char>| #[trigger]
            labels.contains(label) implies kept.contains(label) by {
            let i = choose|i: int| 0 <= i < labels.len() && labels[i] == label;
            if i < labels.len() - 1 {
                assert(rest[i] == label);
                assert(rest.contains(label));
                let j = choose|j: int|
                    0 <= j < without_repeats(rest).len() && without_repeats(rest)[j] == label;
                assert(kept[j] == label);
            } else if !without_repeats(rest).contains(label) {
                assert(kept[kept.len() - 1] == label);
            }
        }
        assert forall|label: Seq<char>| #[trigger]
            kept.contains(label) implies labels.contains(label) by {
            let j = choose|j: int| 0 <= j < kept.len() && kept[j] == label;
            if j < without_repeats(rest).len() {
                assert(without_repeats(rest).contains(label));
            }
        }
    }
}

/// What an [`Issue`] holds.
pub struct IssueView {
    pub title: Seq<char>,
    pub labels: Seq<Seq<char>>,
    pub body: IssueBodyView,
}

/// The issue that reports a failed run.
#[derive(Debug)]
pub struct Issue {
    title: String,
    labels: Vec<String>,
    body: IssueBody,
}

impl View for Issue {
    type V = IssueView;

    closed spec fn view(&self) -> IssueView {
        IssueView { title: self.title@, labels: texts(self.labels@), body: self.body@ }
    }
}

impl Issue {
    /// The issue for a run with the given failed jobs. Its title is
    /// [`ISSUE_TITLE`]; its labels are [`labels_of`] the label and the jobs.
    pub fn new(run_id: String, run_link: String, failed_jobs: Vec<FailedJob>, label: String) -> (issue:
        Self)
        ensures
            issue@ == (IssueView {
                title: ISSUE_TITLE@,
                labels: labels_of(label@, job_views(failed_jobs@)),
                body: IssueBodyView {
                    run_id: run_id@,
                    run_link: run_link@,
                    failed_jobs: job_views(failed_jobs@),
                },
            }),
    {
        let ghost jobs = job_views(failed_jobs@);
        let mut labels: Vec<String> = Vec::new();
        labels.push(label);
        let mut i: usize = 0;
        while i < failed_jobs.len()
            invariant
                i <= failed_jobs.len(),
                jobs == job_views(failed_jobs@),
                texts(labels@) == labels_of(label@, jobs.subrange(0, i as int)),
            decreases failed_jobs.len() - i,
        {
            let ghost upto = jobs.subrange(0, i + 1);
            assert(upto.drop_last() == jobs.subrange(0, i as int));
            match failed_jobs[i].failure_label() {
                Some(kind) => {
                    labels.push(kind);
                },
                None => {},
            }
            i += 1;
        }
        assert(jobs.subrange(0, failed_jobs.len() as int) == jobs);
        Self {
            title: String::from_str(ISSUE_TITLE),
            labels,
            body: IssueBody::new(run_id, run_link, failed_jobs),
        }
    }

    /// The title of the issue.
    pub fn title(&self) -> (s: &str)
        ensures
            s@ == self@.title,
    {
        self.title.as_str()
    }

    /// The labels of the issue, in the order in which they were added.
    pub fn labels(&self) -> (labels: &[String])
        ensures
            texts(labels@) == self@.labels,
    {
        self.labels.as_slice()
    }

    /// The labels of the issue, each of them once, in the order in which
    /// they first stand.
    pub fn unique_labels(&self) -> (labels: Vec<String>)
        ensures
            texts(labels@) == without_repeats(self@.labels),
    {
        let ghost all = texts(self.labels@);
        let mut kept: Vec<String> = Vec::new();
        let mut i: usize = 0;
        while i < self.labels.len()
            invariant
                i <= self.labels.len(),
                all == texts(self.labels@),
                texts(kept@) == without_repeats(all.subrange(0, i as int)),
            decreases self.labels.len() - i,
        {
            let ghost upto = all.subrange(0, i + 1);
            assert(upto.drop_last() == all.subrange(0, i as int));
            let mut seen = false;
            let mut k: usize = 0;
            while k < kept.len()
                invariant
                    k <= kept.len(),
                    i < self.labels.len(),
                    seen == texts(kept@).subrange(0, k as int).contains(self.labels@[i as int]@),
                decreases kept.len() - k,
            {
                let ghost before = texts(kept@).subrange(0, k as int);
                let ghost after = texts(kept@).subrange(0, k + 1);
                let same = kept[k] == self.labels[i];
                proof {
                    if same {
                        assert(after[k as int] == self.labels@[i as int]@);
                    } else if seen {
                        let w = choose|w: int|
                            0 <= w < before.len() && before[w] == self.labels@[i as int]@;
                        assert(after[w] == before[w]);
                    }
                }
                if same {
                    seen = true;
                }
                k += 1;
            }
            assert(texts(kept@).subrange(0, kept@.len() as int) == texts(kept@));
            if !seen {
                kept.push(self.labels[i].clone());
            }
            i += 1;
        }
        assert(all.subrange(0, self.labels.len() as int) == all);
        kept
    }

    /// The jobs that failed.
    pub fn failed_jobs(&self) -> (jobs: &Vec<FailedJob>)
        ensures
            job_views(jobs@) == self@.body.failed_jobs,
    {
        self.body.failed_jobs()
    }

    /// The text of the body.
    pub fn body(&self) -> (s: String)
        ensures
            s@ == rendered_body(self@.body),
    {
        self.body.to_string()
    }
}

} // verus!
