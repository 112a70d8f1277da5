use gh_workflow_parser::error::ParseError;
use gh_workflow_parser::pattern::{Pattern, Patterns, PATH_PATTERN};
use gh_workflow_parser::util::{
    canonicalize_repo_url, extract_failed_job_ids, first_abs_path_from_str, first_path_from_str,
    id_from_job_lines, job_id_of_line, remove_timestamps, take_lines_with_failed_jobs,
};

// Output from `gh run --repo=github.com/luftkode/distro-template view 7858139663`
const TEST_OUTPUT_VIEW_RUN: &str = r#"
    X master Use template and build image ¬∑ 7858139663
    Triggered via schedule about 10 hours ago

    JOBS
    ‚úì enable-ssh-agent in 5s (ID 21442747661)
    ‚úì Test template raspberry in 19m20s (ID 21442749166)
    X Test template xilinx in 5m41s (ID 21442749267)
      ‚úì Set up job
      ‚úì Log in to the Container registry
      ‚úì Cleanup build folder before start
      ‚úì Run actions/checkout@v4
      ‚úì Setup Rust and Just
      ‚úì üóª Make a templated project
      ‚úì ‚öôÔ∏è Run new project setup steps
      ‚úì ‚öíÔ∏è Build docker image
      X üì¶ Build yocto image
      - üì© Deploy image artifacts
      ‚úì Docker down
      ‚úì Cleanup build folder after done
      ‚úì Create issue on failure
      ‚úì Post Run actions/checkout@v4
      ‚úì Post Log in to the Container registry
      ‚úì Complete job

    ANNOTATIONS
    X Process completed with exit code 2.
    Test template xilinx: .github#3839


    To see what failed, try: gh run view 7858139663 --log-failed
    View this run on GitHub: https://github.com/luftkode/distro-template/actions/runs/7858139663
"#;

#[test]
fn test_take_lines_with_failed_jobs() {
    let patterns = Patterns::new().unwrap();
    let failed_jobs = take_lines_with_failed_jobs(&patterns, TEST_OUTPUT_VIEW_RUN.to_string());
    assert_eq!(failed_jobs.len(), 1, "Failed jobs: {:?}", failed_jobs);
    assert_eq!(
        failed_jobs[0],
        "X Test template xilinx in 5m41s (ID 21442749267)"
    );
}

#[test]
fn test_id_from_job_lines() {
    let patterns = Patterns::new().unwrap();
    let job_lines = vec![
            "‚úì Test template raspberry in 19m20s (ID 21442749166)".to_string(),
            "X Test template xilinx in 5m41s (ID 21442749267)".to_string(),
            "X Test template other in 5m1s (ID 01449267)".to_string(),
        ];
    let ids = id_from_job_lines(&patterns, &job_lines);
    assert_eq!(ids.len(), 3, "Job IDs: {:?}", ids);
    assert_eq!(ids[0], "21442749166");
    assert_eq!(ids[1], "21442749267");
    assert_eq!(ids[2], "01449267");
}

#[test]
fn test_absolute_path_from_str() {
    let test_str = r#" ERROR: Logfile of failure stored in: /app/yocto/build/tmp/work/x86_64-linux/sqlite3-native/3.43.2/temp/log.do_fetch.21616"#;
    let path = first_abs_path_from_str(test_str).unwrap();
    assert_eq!(
        std::path::PathBuf::from(path),
        std::path::PathBuf::from("/app/yocto/build/tmp/work/x86_64-linux/sqlite3-native/3.43.2/temp/log.do_fetch.21616")
    );
}

#[test]
fn test_canonicalize_repo_url() {
    let repo = "luftkode/distro-template";
    let canonicalized = canonicalize_repo_url(repo, "github.com");
    assert_eq!(canonicalized, "https://github.com/luftkode/distro-template");
}

#[test]
fn test_remove_timestamps() {
    let patterns = Patterns::new().unwrap();
    let test_str = "ID 8072883145 ";
    let modified = remove_timestamps(&patterns, test_str);
    assert_eq!(modified, "ID");
}

#[test]
fn test_remove_timestamps_log_text() {
    const LOG_TEXT: &'static str = r#"**Run ID**: 8072883145 [LINK TO RUN](https://github.com/luftkode/distro-template/actions/runs/8072883145)

        **1 job failed:**
        - **`Test template xilinx`**

        ### `Test template xilinx` (ID 22055505284)
        **Step failed:** `üì¶ Build yocto image`
        \
        **Log:** https://github.com/luftkode/distro-template/actions/runs/8072883145/job/22055505284
        "#;

    const EXPECTED_MODIFIED: &'static str = r#"**Run ID**:[LINK TO RUN](https://github.com/luftkode/distro-template/actions/runs

        **1 job failed:**
        - **`Test template xilinx`**

        ### `Test template xilinx` (ID
        **Step failed:** `üì¶ Build yocto image`
        \
        **Log:** https://github.com/luftkode/distro-template/actions/runsjob        "#;

    let patterns = Patterns::new().unwrap();
    let modified = remove_timestamps(&patterns, LOG_TEXT);
    assert_eq!(
        modified, EXPECTED_MODIFIED,
        "Expected: {EXPECTED_MODIFIED}\nGot: {modified}"
    );
}

#[test]
fn remove_timestamps_takes_out_time_stamps_and_long_numbers() {
    let patterns = Patterns::new().unwrap();
    assert_eq!(remove_timestamps(&patterns, "ID 21442749267 "), "ID");
    let test_str = "ID 21442749267\ndate: 2024-02-28 00:03:46\nother text";
    assert_eq!(
        remove_timestamps(&patterns, test_str),
        "IDdate: \nother text"
    );
}

#[test]
fn remove_timestamps_leaves_hashes_and_short_numbers() {
    let patterns = Patterns::new().unwrap();
    let text = "commit ac125d881f34ff356390e19e02964f8980d4ec38 run 123456789 x1234567890y";
    assert_eq!(remove_timestamps(&patterns, text), text);
    assert_eq!(remove_timestamps(&patterns, ""), "");
}

#[test]
fn remove_timestamps_again_changes_nothing_when_nothing_is_left() {
    let patterns = Patterns::new().unwrap();
    let once = remove_timestamps(&patterns, TEST_OUTPUT_VIEW_RUN);
    let twice = remove_timestamps(&patterns, &once);
    assert_eq!(once, twice);
}

#[test]
fn remove_timestamps_may_uncover_a_new_number() {
    let patterns = Patterns::new().unwrap();
    // Taking out the number in the middle joins two halves to a new one.
    let once = remove_timestamps(&patterns, " 12345 1234567890 67890 ");
    assert_eq!(once, " 1234567890 ");
    assert_eq!(remove_timestamps(&patterns, &once), "");
}

#[test]
fn first_path_from_str_finds_the_first_path() {
    let patterns = Patterns::new().unwrap();
    let haystack = "multi line\ntest string with/path/file.txt is\nvalid";
    assert_eq!(
        first_path_from_str(&patterns, haystack).unwrap(),
        "with/path/file.txt"
    );
    let haystack = "foo app/3-_2/t/3 bar";
    assert_eq!(first_path_from_str(&patterns, haystack).unwrap(), "app/3-_2/t/3");
    let haystack = r#" ERROR: Logfile of failure stored in: /app/yocto/build/tmp/work/x86_64-linux/sqlite3-native/3.43.2/temp/log.do_fetch.21616"#;
    assert_eq!(
        first_path_from_str(&patterns, haystack).unwrap(),
        "/app/yocto/build/tmp/work/x86_64-linux/sqlite3-native/3.43.2/temp/log.do_fetch.21616"
    );
}

#[test]
fn first_path_from_str_refuses_a_text_without_path() {
    let patterns = Patterns::new().unwrap();
    match first_path_from_str(&patterns, "Random string with no path") {
        Err(ParseError::PathUnresolved(text)) => assert_eq!(text, "Random string with no path"),
        other => panic!("unexpected: {:?}", other),
    }
}

#[test]
fn first_abs_path_from_str_refuses_a_text_without_slash() {
    match first_abs_path_from_str("no slash here") {
        Err(ParseError::PathUnresolved(text)) => assert_eq!(text, "no slash here"),
        other => panic!("unexpected: {:?}", other),
    }
    assert_eq!(first_abs_path_from_str("a/b c/d").unwrap(), "/b c/d");
    assert_eq!(first_abs_path_from_str("/").unwrap(), "/");
}

#[test]
fn canonicalize_repo_url_covers_each_form() {
    assert_eq!(
        canonicalize_repo_url("bob/bobbys-repo", "github.com"),
        "https://github.com/bob/bobbys-repo"
    );
    assert_eq!(
        canonicalize_repo_url("github.com/lisa/lisas-repo", "github.com"),
        "https://github.com/lisa/lisas-repo"
    );
    let repo = "https://gitlab.com/foo-org/foo-repo";
    assert_eq!(canonicalize_repo_url(repo, "gitlab.com"), repo);
    // Another host behind `https://`: the scheme is replaced by the prefix.
    assert_eq!(
        canonicalize_repo_url("https://example.org/a/b", "github.com"),
        "https://github.com/example.org/a/b"
    );
    // Every occurrence is replaced, not the first alone.
    assert_eq!(
        canonicalize_repo_url("h/x/h/y", "h"),
        "https://h/x/https://h/y"
    );
}

#[test]
fn extract_failed_job_ids_of_one_failed_job() {
    let patterns = Patterns::new().unwrap();
    let summary = "JOBS\nX Test template xilinx in 5m41s (ID 21442749267)\n";
    assert_eq!(
        extract_failed_job_ids(&patterns, summary).unwrap(),
        vec!["21442749267".to_string()]
    );
}

#[test]
fn extract_failed_job_ids_keeps_the_order_and_repeats() {
    let patterns = Patterns::new().unwrap();
    let summary = "X b in 1s (ID 2)\n* ok in 1s (ID 9)\nX a in 1s (ID 1)\nX c in 2s (ID 3)\n";
    let first = extract_failed_job_ids(&patterns, summary).unwrap();
    let second = extract_failed_job_ids(&patterns, summary).unwrap();
    assert_eq!(first, vec!["2".to_string(), "1".to_string(), "3".to_string()]);
    assert_eq!(first, second);
}

#[test]
fn extract_failed_job_ids_of_the_whole_run_summary() {
    let patterns = Patterns::new().unwrap();
    assert_eq!(
        extract_failed_job_ids(&patterns, TEST_OUTPUT_VIEW_RUN).unwrap(),
        vec!["21442749267".to_string()]
    );
    assert!(extract_failed_job_ids(&patterns, "nothing failed")
        .unwrap()
        .is_empty());
}

#[test]
fn job_id_of_line_finds_the_digits_after_id() {
    let patterns = Patterns::new().unwrap();
    assert_eq!(
        job_id_of_line(&patterns, "X job in 5m (ID 42)"),
        Some("42".to_string())
    );
    assert_eq!(job_id_of_line(&patterns, "ID "), Some(String::new()));
    assert_eq!(job_id_of_line(&patterns, "no identifier"), None);
}

#[test]
fn a_pattern_that_the_engine_refuses_comes_back_in_the_error() {
    match Pattern::new("foo(bar") {
        Err(ParseError::InvalidPattern(source)) => assert_eq!(source, "foo(bar"),
        Err(other) => panic!("unexpected: {:?}", other),
        Ok(_) => panic!("the pattern was accepted"),
    }
    match Pattern::new(PATH_PATTERN) {
        Ok(pattern) => assert_eq!(pattern.source(), PATH_PATTERN),
        Err(other) => panic!("unexpected: {:?}", other),
    }
}
