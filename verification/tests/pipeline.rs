use gh_workflow_parser::commands::create_issue_from_run::{
    classify_run_failure, decide_submission, error_logs_from, logfile_paths_to_read,
    parse_to_gh_issue, Submission,
};
use gh_workflow_parser::commands::{BuildKind, WorkflowKind, LEVENSHTEIN_THRESHOLD};
use gh_workflow_parser::err_msg_parse::parse_error_message;
use gh_workflow_parser::error::ParseError;
use gh_workflow_parser::gh::gh_cli_fake::GitHubCliFake;
use gh_workflow_parser::gh::GitHub;
use gh_workflow_parser::pattern::Patterns;

#[test]
fn one_failed_job_in_the_summary() {
    let patterns = Patterns::new().unwrap();
    let summary = "X Test template xilinx in 5m41s (ID 21442749267)";
    assert_eq!(
        classify_run_failure(&patterns, summary).unwrap(),
        ["21442749267"]
    );
}

#[test]
fn a_summary_without_failed_jobs_is_refused() {
    let patterns = Patterns::new().unwrap();
    assert!(matches!(
        classify_run_failure(&patterns, "* all fine in 5m41s (ID 21442749267)"),
        Err(ParseError::NoFailedJobs)
    ));
    assert_eq!(
        ParseError::NoFailedJobs.message(),
        "No failed jobs found"
    );
}

fn yocto_log(job: &str, file: &str) -> String {
    let lines = [
        "building".to_string(),
        "--- Error summary ---".to_string(),
        format!("ERROR: Logfile of failure stored in: {}", file),
        "error: Recipe `build` failed with exit code 2".to_string(),
    ];
    lines
        .iter()
        .map(|l| format!("{}\tBuild image\t2024-02-10T00:03:45.5797561Z {}\n", job, l))
        .collect()
}

#[test]
fn error_logs_pair_identifiers_and_logs() {
    let patterns = Patterns::new().unwrap();
    let ids = vec!["1".to_string(), "2".to_string(), "3".to_string()];
    let logs = vec![yocto_log("a", "/x/log.do_fetch.1"), yocto_log("b", "/x/log.do_build.2")];
    let errlogs = error_logs_from(&patterns, &ids, &logs).unwrap();
    assert_eq!(errlogs.len(), 2);
    assert_eq!(errlogs[0].job_id(), "1");
    assert_eq!(errlogs[1].failed_job(), "b");
    assert_eq!(
        errlogs[1].no_prefix_log(),
        "building\n--- Error summary ---\nERROR: Logfile of failure stored in: /x/log.do_build.2\nerror: Recipe `build` failed with exit code 2\n"
    );
    let logs = vec![yocto_log("a", "/x"), "bad log".to_string(), "worse".to_string()];
    match error_logs_from(&patterns, &ids, &logs) {
        Err(ParseError::MalformedInput(line)) => assert_eq!(line, "bad log"),
        other => panic!("unexpected: {:?}", other),
    }
}

#[test]
fn report_of_two_jobs() {
    let patterns = Patterns::new().unwrap();
    let ids = vec!["11".to_string(), "22".to_string()];
    let logs = vec![
        yocto_log("first", "/x/temp/log.do_fetch.1"),
        yocto_log("second", "/x/temp/log.do_build.2 "),
    ];
    let errlogs = error_logs_from(&patterns, &ids, &logs).unwrap();
    let paths = logfile_paths_to_read(&errlogs, WorkflowKind::Yocto);
    assert_eq!(
        paths,
        [
            Some("/x/temp/log.do_fetch.1".to_string()),
            Some("/x/temp/log.do_build.2 ".to_string())
        ]
    );
    assert_eq!(
        logfile_paths_to_read(&errlogs, WorkflowKind::Other),
        [None, None]
    );
    let issue = parse_to_gh_issue(
        errlogs,
        "https://h/r",
        "77".to_string(),
        "bug".to_string(),
        WorkflowKind::Yocto,
        vec![None, Some("contents".to_string())],
    )
    .unwrap();
    assert_eq!(issue.title(), "Scheduled run failed");
    assert_eq!(issue.labels(), ["bug", "do_fetch", "do_build"]);
    assert_eq!(
        issue.body(),
        "**Run ID**: 77 [LINK TO RUN](https://h/r/actions/runs/77)\n\n**2 jobs failed:**\n- **`first`**\n- **`second`**\n\n### `first` (ID 11)\n**Step failed:** `Build image`\n\\\n**Log:** https://h/r/actions/runs/77/job/11\n\\\n*Best effort error summary*:\n```\nERROR: Logfile of failure stored in: /x/temp/log.do_fetch.1\n```\n### `second` (ID 22)\n**Step failed:** `Build image`\n\\\n**Log:** https://h/r/actions/runs/77/job/22\n\\\n*Best effort error summary*:\n```\nERROR: Logfile of failure stored in: /x/temp/log.do_build.2 \n```\n<details>\n<summary>log.do_build</summary>\n<br>\ncontents\n</details>"
    );
}

#[test]
fn report_of_another_workflow_shows_the_log_as_it_is() {
    let patterns = Patterns::new().unwrap();
    let ids = vec!["11".to_string()];
    let logs = vec!["job\tstep\t2024-02-10T00:03:45.5797561Z all of it\n".to_string()];
    let errlogs = error_logs_from(&patterns, &ids, &logs).unwrap();
    let issue = parse_to_gh_issue(
        errlogs,
        "https://h/r",
        "77".to_string(),
        "bug".to_string(),
        WorkflowKind::Other,
        vec![Some("not used".to_string())],
    )
    .unwrap();
    assert_eq!(issue.labels(), ["bug"]);
    assert!(issue.body().ends_with("*Best effort error summary*:\n```\nall of it\n```"));
}

#[test]
fn a_yocto_log_without_summary_stops_the_report() {
    let patterns = Patterns::new().unwrap();
    let cli = GitHubCliFake::new("https://github.com/fake-repo.com".to_string());
    let summary = cli.run_summary(None, "1337").unwrap();
    let ids = classify_run_failure(&patterns, &summary).unwrap();
    assert_eq!(ids, ["21442749267"]);
    let logs: Vec<String> = ids
        .iter()
        .map(|id| cli.failed_job_log(None, id).unwrap())
        .collect();
    let errlogs = error_logs_from(&patterns, &ids, &logs).unwrap();
    assert_eq!(errlogs[0].failed_job(), "Test template xilinx");
    assert_eq!(logfile_paths_to_read(&errlogs, WorkflowKind::Yocto), [None]);
    let report = parse_to_gh_issue(
        errlogs,
        cli.default_repo(),
        "1337".to_string(),
        "Random label".to_string(),
        WorkflowKind::Yocto,
        vec![None],
    );
    assert!(matches!(report, Err(ParseError::MissingMarker)));
    assert_eq!(ParseError::MissingMarker.message(), "No error summary found");
}

#[test]
fn the_fake_run_reported_as_another_workflow() {
    let patterns = Patterns::new().unwrap();
    let cli = GitHubCliFake::new("https://github.com/fake-repo.com".to_string());
    let summary = cli.run_summary(None, "1337").unwrap();
    let ids = classify_run_failure(&patterns, &summary).unwrap();
    let logs: Vec<String> = ids
        .iter()
        .map(|id| cli.failed_job_log(None, id).unwrap())
        .collect();
    let errlogs = error_logs_from(&patterns, &ids, &logs).unwrap();
    let issue = parse_to_gh_issue(
        errlogs,
        cli.default_repo(),
        "1337".to_string(),
        "Random label".to_string(),
        WorkflowKind::Other,
        vec![None],
    )
    .unwrap();
    let body = issue.body();
    assert!(body.starts_with(
        "**Run ID**: 1337 [LINK TO RUN](https://github.com/fake-repo.com/actions/runs/1337)"
    ));
    let similar = cli.issue_bodies_open_with_label(None, "Random label").unwrap();
    assert_eq!(
        decide_submission(&patterns, &body, &similar, true, false),
        Submission::Create
    );
    assert_eq!(LEVENSHTEIN_THRESHOLD, 100);
}

#[test]
fn parse_error_message_by_kind_of_workflow() {
    let message = "--- Error summary ---\nbroken\n";
    let other = parse_error_message(message, WorkflowKind::Other, None).unwrap();
    assert_eq!(other.summary(), message);
    assert_eq!(other.failure_label(), None);
    let yocto = parse_error_message(message, WorkflowKind::Yocto, None).unwrap();
    assert_eq!(yocto.summary(), "broken\n");
    assert_eq!(yocto.failure_label(), Some("misc".to_string()));
    assert!(matches!(
        parse_error_message("broken", WorkflowKind::Yocto, None),
        Err(ParseError::MissingMarker)
    ));
}

#[test]
fn kinds_have_names() {
    assert_eq!(WorkflowKind::Yocto.to_string(), "Yocto");
    assert_eq!(WorkflowKind::Other.to_string(), "Other");
    assert_eq!(BuildKind::Yocto.to_string(), "Yocto");
    assert_eq!(BuildKind::Other.to_string(), "Other");
}

#[test]
fn error_messages() {
    assert_eq!(
        ParseError::MalformedInput("x".to_string()).message(),
        "Malformed input: x"
    );
    assert_eq!(
        ParseError::ClassificationFailed("f".to_string()).message(),
        "Could not determine task from input: f"
    );
    assert_eq!(
        ParseError::PathUnresolved("p".to_string()).message(),
        "No file found at path: p"
    );
    assert_eq!(ParseError::NoLogfileReference.message(), "No log file line found");
    assert_eq!(ParseError::ServiceFailed("down".to_string()).message(), "down");
    assert_eq!(
        ParseError::InvalidPattern("(".to_string()).message(),
        "Invalid search pattern: ("
    );
    assert_eq!(
        ParseError::UnsupportedVersion("too old".to_string()).message(),
        "too old"
    );
    assert_eq!(
        ParseError::UnexpectedEvent.message(),
        "An answer came that was not asked for"
    );
}
