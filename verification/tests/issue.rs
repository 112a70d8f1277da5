use gh_workflow_parser::err_msg_parse::yocto_err::{YoctoError, YoctoFailureKind, YoctoFailureLog};
use gh_workflow_parser::err_msg_parse::ErrorMessageSummary;
use gh_workflow_parser::issue::{FailedJob, Issue, IssueBody};

const EXAMPLE_ISSUE_BODY: &str = r#"**Run ID**: 7858139663 [LINK TO RUN]( https://github.com/luftkode/distro-template/actions/runs/7850874958)

**2 jobs failed:**
- **`Test template xilinx`**
- **`Test template raspberry`**

### `Test template xilinx` (ID 21442749267)
**Step failed:** `ðŸ“¦ Build yocto image`
\
**Log:** https://github.com/luftkode/distro-template/actions/runs/7850874958/job/21442749267
\
*Best effort error summary*:
```
Yocto error: ERROR: No recipes available for: ...
```
### `Test template raspberry` (ID 21442749166)
**Step failed:** `ðŸ“¦ Build yocto image`
\
**Log:** https://github.com/luftkode/distro-template/actions/runs/7850874958/job/21442749166
\
*Best effort error summary*:
```
Yocto error: ERROR: No recipes available for: ...
```"#;

#[test]
fn test_issue_new() {
    let run_id = "7858139663".to_string();
    let run_link =
        "https://github.com/luftkode/distro-template/actions/runs/7850874958".to_string();
    let failed_jobs = vec![
        FailedJob::new(
            "Test template xilinx".to_string(),
            "21442749267".to_string(),
            "https://github.com/luftkode/distro-template/actions/runs/7850874958/job/21442749267".to_string(),
            "ðŸ“¦ Build yocto image".to_string(),
            ErrorMessageSummary::Other("Yocto error: ERROR: No recipes available for: ...
".to_string()),
        ),
        FailedJob::new(
            "Test template raspberry".to_string(),
            "21442749166".to_string(),
            "https://github.com/luftkode/distro-template/actions/runs/7850874958/job/21442749166".to_string(),
            "ðŸ“¦ Build yocto image".to_string(),
            ErrorMessageSummary::Other("Yocto error: ERROR: No recipes available for: ...
".to_string()),
        ),
    ];
    let label = "bug".to_string();
    let issue = Issue::new(run_id, run_link, failed_jobs, label);
    assert_eq!(issue.title(), "Scheduled run failed");
    assert_eq!(issue.labels(), ["bug"]);
    assert_eq!(issue.failed_jobs().len(), 2);
    assert_eq!(issue.failed_jobs()[0].id(), "21442749267");
}

#[test]
fn issue_test_issue_body_display() {
    let run_id = "7858139663".to_string();
    let run_link =
        " https://github.com/luftkode/distro-template/actions/runs/7850874958".to_string();
    let failed_jobs = vec![
        FailedJob::new(
            "Test template xilinx".to_string(),
            "21442749267".to_string(),
            "https://github.com/luftkode/distro-template/actions/runs/7850874958/job/21442749267".to_string(),
            "ðŸ“¦ Build yocto image".to_string(),
            ErrorMessageSummary::Other("Yocto error: ERROR: No recipes available for: ...
".to_string()),
        ),
        FailedJob::new(
            "Test template raspberry".to_string(),
            "21442749166".to_string(),
            "https://github.com/luftkode/distro-template/actions/runs/7850874958/job/21442749166".to_string(),
            "ðŸ“¦ Build yocto image".to_string(),
            ErrorMessageSummary::Other("Yocto error: ERROR: No recipes available for: ...
".to_string()),
        ),
        ];

    let issue_body = IssueBody::new(run_id, run_link, failed_jobs);
    assert_eq!(issue_body.to_string(), EXAMPLE_ISSUE_BODY);
}

fn yocto_job(name: &str, kind: YoctoFailureKind, logfile: Option<YoctoFailureLog>) -> FailedJob {
    FailedJob::new(
        name.to_string(),
        "1".to_string(),
        "url".to_string(),
        "step".to_string(),
        ErrorMessageSummary::Yocto(YoctoError::new("boom\n".to_string(), kind, logfile)),
    )
}

#[test]
fn body_of_one_job_says_job() {
    let body = IssueBody::new(
        "7".to_string(),
        "link".to_string(),
        vec![yocto_job("only", YoctoFailureKind::DoFetch, None)],
    );
    assert_eq!(
        body.to_string(),
        "**Run ID**: 7 [LINK TO RUN](link)\n\n**1 job failed:**\n- **`only`**\n\n### `only` (ID 1)\n**Step failed:** `step`\n\\\n**Log:** url\n\\\n*Best effort error summary*:\n```\nboom\n```"
    );
}

#[test]
fn body_without_jobs() {
    let body = IssueBody::new("7".to_string(), "link".to_string(), vec![]);
    assert_eq!(
        body.to_string(),
        "**Run ID**: 7 [LINK TO RUN](link)\n\n**0 jobs failed:**\n"
    );
}

#[test]
fn body_counts_in_decimal() {
    let jobs: Vec<FailedJob> = (0..12)
        .map(|_| yocto_job("j", YoctoFailureKind::Misc, None))
        .collect();
    let body = IssueBody::new("7".to_string(), "link".to_string(), jobs);
    assert!(body
        .to_string()
        .starts_with("**Run ID**: 7 [LINK TO RUN](link)\n\n**12 jobs failed:**\n- **`j`**\n"));
}

#[test]
fn job_with_logfile_gets_a_folded_block() {
    let job = yocto_job(
        "a",
        YoctoFailureKind::DoFetch,
        Some(YoctoFailureLog {
            name: "log.do_fetch".to_string(),
            contents: "file contents".to_string(),
        }),
    );
    assert_eq!(
        job.to_string(),
        "\n### `a` (ID 1)\n**Step failed:** `step`\n\\\n**Log:** url\n\\\n*Best effort error summary*:\n```\nboom\n```\n<details>\n<summary>log.do_fetch</summary>\n<br>\nfile contents\n</details>"
    );
    assert_eq!(job.name(), "a");
    assert_eq!(job.failure_label(), Some("do_fetch".to_string()));
}

#[test]
fn labels_follow_the_jobs_and_unique_labels_keep_each_once() {
    let jobs = vec![
        yocto_job("a", YoctoFailureKind::DoFetch, None),
        FailedJob::new(
            "b".to_string(),
            "2".to_string(),
            "url".to_string(),
            "step".to_string(),
            ErrorMessageSummary::Other("text".to_string()),
        ),
        yocto_job("c", YoctoFailureKind::DoBuild, None),
        yocto_job("d", YoctoFailureKind::DoFetch, None),
    ];
    let issue = Issue::new("7".to_string(), "link".to_string(), jobs, "do_build".to_string());
    assert_eq!(issue.labels(), ["do_build", "do_fetch", "do_build", "do_fetch"]);
    assert_eq!(issue.unique_labels(), ["do_build", "do_fetch"]);
    assert_eq!(issue.body(), IssueBody::new("7".to_string(), "link".to_string(), vec![
        yocto_job("a", YoctoFailureKind::DoFetch, None),
        FailedJob::new(
            "b".to_string(),
            "2".to_string(),
            "url".to_string(),
            "step".to_string(),
            ErrorMessageSummary::Other("text".to_string()),
        ),
        yocto_job("c", YoctoFailureKind::DoBuild, None),
        yocto_job("d", YoctoFailureKind::DoFetch, None),
    ]).to_string());
}

#[test]
fn error_message_summary_getters() {
    let other = ErrorMessageSummary::Other("text".to_string());
    assert_eq!(other.summary(), "text");
    assert_eq!(other.log(), None);
    assert_eq!(other.logfile_name(), None);
    assert_eq!(other.failure_label(), None);
    let yocto = ErrorMessageSummary::Yocto(YoctoError::new(
        "s".to_string(),
        YoctoFailureKind::DoCompile,
        Some(YoctoFailureLog {
            name: "n".to_string(),
            contents: "c".to_string(),
        }),
    ));
    assert_eq!(yocto.summary(), "s");
    assert_eq!(yocto.log(), Some("c"));
    assert_eq!(yocto.logfile_name(), Some("n"));
    assert_eq!(yocto.failure_label(), Some("do_compile".to_string()));
}
