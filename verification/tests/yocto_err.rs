use gh_workflow_parser::err_msg_parse::yocto_err::{
    find_yocto_failure_log_str, parse_yocto_error, trim_trailing_just_recipes,
    yocto_error_summary, yocto_logfile_path, YoctoError, YoctoFailureKind, YoctoFailureLog,
};
use gh_workflow_parser::error::ParseError;

const ERROR_SUMMARY_TEST_STR: &str = r#"ERROR: sqlite3-native-3_3.43.2-r0 do_fetch: Bitbake Fetcher Error: MalformedUrl('${SOURCE_MIRROR_URL}')
    ERROR: Logfile of failure stored in: /app/yocto/build/tmp/work/x86_64-linux/sqlite3-native/3.43.2/temp/log.do_fetch.21616
    ERROR: Task (virtual:native:/app/yocto/build/../poky/meta/recipes-support/sqlite/sqlite3_3.43.2.bb:do_fetch) failed with exit code '1'

    2024-02-11 00:09:04 - ERROR    - Command "/app/yocto/poky/bitbake/bin/bitbake -c build test-template-ci-xilinx-image package-index" failed with error 1"#;

#[test]
fn yocto_err_test_determine_yocto_error_kind() {
    let task = "do_build";
    assert_eq!(
        YoctoFailureKind::from_str(task).unwrap(),
        YoctoFailureKind::DoBuild
    );
}

#[test]
fn util_test_determine_yocto_error_kind() {
    let task = "do_build";
    assert_eq!(
        YoctoFailureKind::from_str(task).unwrap(),
        YoctoFailureKind::DoBuild
    );
}

#[test]
fn yocto_err_test_yocto_error_from_error_message() {
    // find the part of the string after
    let log_file_line = ERROR_SUMMARY_TEST_STR
        .lines()
        .find(|line| line.contains("Logfile of failure stored in"))
        .ok_or("No log file line found")
        .unwrap();
    // Get the path stored after `Logfile of failure stored in: `
    let logfile_path = log_file_line
        .split("Logfile of failure stored in: ")
        .collect::<Vec<&str>>()
        .pop()
        .ok_or("No log file found");

    let path = std::path::PathBuf::from(logfile_path.unwrap());
    let fname = path.file_stem().unwrap().to_str().unwrap();

    let yocto_failure = YoctoFailureKind::parse_from_logfilename(fname).unwrap();
    assert_eq!(yocto_failure, YoctoFailureKind::DoFetch);
}

#[test]
fn util_test_yocto_error_from_error_message() {
    // find the part of the string after
    let log_file_line = ERROR_SUMMARY_TEST_STR
        .lines()
        .find(|line| line.contains("Logfile of failure stored in"))
        .ok_or("No log file line found")
        .unwrap();
    // Get the path stored after `Logfile of failure stored in: `
    let logfile_path = log_file_line
        .split("Logfile of failure stored in: ")
        .collect::<Vec<&str>>()
        .pop()
        .ok_or("No log file found");

    let path = std::path::PathBuf::from(logfile_path.unwrap());
    let fname = path.file_stem().unwrap().to_str().unwrap();

    let yocto_failure = YoctoFailureKind::parse_from_logfilename(fname).unwrap();
    assert_eq!(yocto_failure, YoctoFailureKind::DoFetch);
}

const TEST_NOT_TRIMMED_YOCTO_ERROR_SUMMARY: &str = r#"ERROR: sqlite3-native-3_3.43.2-r0 do_fetch: Bitbake Fetcher Error: MalformedUrl('${SOURCE_MIRROR_URL}')
ERROR: Logfile of failure stored in: /app/yocto/build/tmp/work/x86_64-linux/sqlite3-native/3.43.2/temp/log.do_fetch.21665
ERROR: Task (virtual:native:/app/yocto/build/../poky/meta/recipes-support/sqlite/sqlite3_3.43.2.bb:do_fetch) failed with exit code '1'

2024-02-16 12:45:43 - ERROR    - Command "/app/yocto/poky/bitbake/bin/bitbake -c build test-template-ci-xilinx-image package-index" failed with error 1
error: Recipe `in-container-build-ci-image` failed on line 31 with exit code 2
error: Recipe `run-in-docker` failed with exit code 2
error: Recipe `build-ci-image` failed with exit code 2"#;

const TEST_EXPECT_TRIMMED_YOCTO_ERROR_SUMMARY: &str = r#"ERROR: sqlite3-native-3_3.43.2-r0 do_fetch: Bitbake Fetcher Error: MalformedUrl('${SOURCE_MIRROR_URL}')
ERROR: Logfile of failure stored in: /app/yocto/build/tmp/work/x86_64-linux/sqlite3-native/3.43.2/temp/log.do_fetch.21665
ERROR: Task (virtual:native:/app/yocto/build/../poky/meta/recipes-support/sqlite/sqlite3_3.43.2.bb:do_fetch) failed with exit code '1'

2024-02-16 12:45:43 - ERROR    - Command "/app/yocto/poky/bitbake/bin/bitbake -c build test-template-ci-xilinx-image package-index" failed with error 1
"#;

#[test]
pub fn test_trim_yocto_error_summary() {
    let trimmed = trim_trailing_just_recipes(TEST_NOT_TRIMMED_YOCTO_ERROR_SUMMARY).unwrap();
    assert_eq!(trimmed, TEST_EXPECT_TRIMMED_YOCTO_ERROR_SUMMARY);
}

#[test]
fn trim_drops_only_the_noise_at_the_end() {
    let log = "error: Recipe `a` failed\nreal error\n##[error]Process completed with exit code 2.\nerror: Recipe `b` failed with exit code 2";
    assert_eq!(
        trim_trailing_just_recipes(log).unwrap(),
        "error: Recipe `a` failed\nreal error\n"
    );
    // `error: Recipe` without the space after it is no noise.
    assert_eq!(
        trim_trailing_just_recipes("x\nerror: Recipes").unwrap(),
        "x\nerror: Recipes\n"
    );
}

#[test]
fn trim_of_nothing_but_noise_is_empty() {
    let log = "error: Recipe `a` failed\nerror: Recipe `b` failed\n";
    assert_eq!(trim_trailing_just_recipes(log).unwrap(), "");
    assert_eq!(trim_trailing_just_recipes("").unwrap(), "");
}

#[test]
fn kind_names_and_default() {
    assert_eq!(YoctoFailureKind::default(), YoctoFailureKind::Misc);
    assert_eq!(YoctoFailureKind::DoFetch.to_string(), "do_fetch");
    assert_eq!(YoctoFailureKind::Misc.as_str(), "misc");
    assert_eq!(
        YoctoFailureKind::from_str("do_configure_ptest_base").unwrap(),
        YoctoFailureKind::DoConfigurePtestBase
    );
    match YoctoFailureKind::from_str("do_nothing") {
        Err(ParseError::ClassificationFailed(text)) => assert_eq!(text, "do_nothing"),
        other => panic!("unexpected: {:?}", other),
    }
}

#[test]
fn parse_from_logfilename_takes_the_first_kind_in_order() {
    assert_eq!(
        YoctoFailureKind::parse_from_logfilename("log.do_fetch.21616").unwrap(),
        YoctoFailureKind::DoFetch
    );
    // `do_compile` stands in `do_compile_ptest_base` and comes first.
    assert_eq!(
        YoctoFailureKind::parse_from_logfilename("log.do_compile_ptest_base.1").unwrap(),
        YoctoFailureKind::DoCompile
    );
    assert_eq!(
        YoctoFailureKind::parse_from_logfilename("log.do_deploy_and_do_build").unwrap(),
        YoctoFailureKind::DoBuild
    );
    assert_eq!(
        YoctoFailureKind::parse_from_logfilename("some.misc.file").unwrap(),
        YoctoFailureKind::Misc
    );
    match YoctoFailureKind::parse_from_logfilename("log.some_custom_task.21616") {
        Err(ParseError::ClassificationFailed(name)) => {
            assert_eq!(name, "log.some_custom_task.21616")
        }
        other => panic!("unexpected: {:?}", other),
    }
}

#[test]
fn yocto_error_summary_is_what_follows_the_last_marker() {
    let log = "a\n--- Error summary ---\nfirst\n--- Error summary ---\n  \n last one \n\n";
    assert_eq!(yocto_error_summary(log).unwrap(), "last one");
    assert_eq!(yocto_error_summary("--- Error summary ---").unwrap(), "");
}

#[test]
fn yocto_error_summary_needs_the_marker() {
    assert!(matches!(
        yocto_error_summary("no marker in here"),
        Err(ParseError::MissingMarker)
    ));
    assert!(matches!(
        parse_yocto_error("no marker in here", None),
        Err(ParseError::MissingMarker)
    ));
    assert_eq!(yocto_logfile_path("no marker in here"), None);
}

#[test]
fn find_yocto_failure_log_str_finds_the_first_such_line() {
    let log = "ERROR: Some error message\nERROR: Logfile of failure stored in: /app/yocto/build/tmp/work/x86_64-linux/sqlite3-native/3.43.2/temp/log.do_fetch.21616\nERROR: Logfile of failure stored in: /other\n";
    assert_eq!(
        find_yocto_failure_log_str(log).unwrap(),
        "ERROR: Logfile of failure stored in: /app/yocto/build/tmp/work/x86_64-linux/sqlite3-native/3.43.2/temp/log.do_fetch.21616"
    );
    assert!(matches!(
        find_yocto_failure_log_str("nothing here"),
        Err(ParseError::NoLogfileReference)
    ));
}

fn full_log() -> String {
    format!(
        "build output\n--- Error summary ---\n{}\n",
        TEST_NOT_TRIMMED_YOCTO_ERROR_SUMMARY
    )
}

#[test]
fn parse_yocto_error_reads_summary_kind_and_logfile() {
    let log = full_log();
    assert_eq!(
        yocto_logfile_path(&log).unwrap(),
        "/app/yocto/build/tmp/work/x86_64-linux/sqlite3-native/3.43.2/temp/log.do_fetch.21665"
    );
    let error = parse_yocto_error(&log, Some("what the file holds".to_string())).unwrap();
    assert_eq!(error.summary(), TEST_EXPECT_TRIMMED_YOCTO_ERROR_SUMMARY);
    assert_eq!(error.kind(), YoctoFailureKind::DoFetch);
    let logfile = error.logfile().unwrap();
    assert_eq!(logfile.name, "log.do_fetch");
    assert_eq!(logfile.contents, "what the file holds");
}

#[test]
fn parse_yocto_error_without_the_file() {
    let error = parse_yocto_error(&full_log(), None).unwrap();
    assert_eq!(error.kind(), YoctoFailureKind::DoFetch);
    assert!(error.logfile().is_none());
}

#[test]
fn parse_yocto_error_leaves_out_a_logfile_that_is_too_long() {
    let at_the_cap = "x".repeat(5000);
    let error = parse_yocto_error(&full_log(), Some(at_the_cap.clone())).unwrap();
    assert_eq!(error.logfile().unwrap().contents, at_the_cap);
    let over_the_cap = "x".repeat(5001);
    let error = parse_yocto_error(&full_log(), Some(over_the_cap)).unwrap();
    assert!(error.logfile().is_none());
    // The cap counts chars, not bytes.
    let wide = "\u{00e9}".repeat(5000);
    let error = parse_yocto_error(&full_log(), Some(wide)).unwrap();
    assert!(error.logfile().is_some());
}

#[test]
fn parse_yocto_error_falls_back_to_the_default_kind() {
    // No line names a log file.
    let error = parse_yocto_error("--- Error summary ---\nsomething broke\n", Some("c".into()))
        .unwrap();
    assert_eq!(error.summary(), "something broke\n");
    assert_eq!(error.kind(), YoctoFailureKind::Misc);
    assert!(error.logfile().is_none());
    // The file is of no known task.
    let log = "--- Error summary ---\nERROR: Logfile of failure stored in: /a/log.do_patch.1\n";
    let error = parse_yocto_error(log, Some("c".into())).unwrap();
    assert_eq!(error.kind(), YoctoFailureKind::Misc);
    assert_eq!(error.logfile().unwrap().name, "log.do_patch");
    // Nothing but noise after the marker.
    let log = "--- Error summary ---\nerror: Recipe `x` failed\n";
    let error = parse_yocto_error(log, None).unwrap();
    assert_eq!(error.summary(), "");
    assert_eq!(error.kind(), YoctoFailureKind::Misc);
}

#[test]
fn yocto_error_new_and_getters() {
    let error = YoctoError::new(
        "summary".to_string(),
        YoctoFailureKind::DoDeploy,
        Some(YoctoFailureLog {
            name: "n".to_string(),
            contents: "c".to_string(),
        }),
    );
    assert_eq!(error.summary(), "summary");
    assert_eq!(error.kind(), YoctoFailureKind::DoDeploy);
    assert_eq!(error.logfile().unwrap().name, "n");
}
