use gh_workflow_parser::commands::locate_failure_log::{
    failure_log_line, locate_yocto_failure_log, logfile_path_from_str, logfile_search_paths,
    FileListing, PathKind,
};
use gh_workflow_parser::error::ParseError;
use gh_workflow_parser::pattern::Patterns;

fn listing(entries: &[(&str, PathKind)]) -> FileListing {
    let mut files = FileListing::new();
    for (path, kind) in entries {
        files.record(path.to_string(), *kind);
    }
    files
}

#[test]
fn test_logfile_path_from_str_simple() {
    let patterns = Patterns::new().unwrap();
    // The file lies at `real_location`; the log names it below `/app`.
    let real_location = "/tmp/t1234/test.log";
    let files = listing(&[(real_location, PathKind::File), ("/tmp", PathKind::Other)]);
    let test_log_str = format!(
        "ERROR: Logfile of failure stored in: /app{real_location}",
        real_location = real_location
    );

    let path = logfile_path_from_str(&patterns, &test_log_str, &files).unwrap();

    assert_eq!(path, real_location);
}

#[test]
fn test_logfile_path_from_str() {
    let patterns = Patterns::new().unwrap();
    let real_path_str =
        r#"yocto/build/tmp/work/x86_64-linux/sqlite3-native/3.43.2/temp/log.do_fetch.21616"#;
    let path_to_log = format!("/tmp/t1234/{}", real_path_str);
    let files = listing(&[(&path_to_log, PathKind::File)]);
    let test_log_str = format!(
        r"other contents
ERROR: Logfile of failure stored in: /app{real_location} other contents
other contents",
        real_location = &path_to_log
    );

    let path = logfile_path_from_str(&patterns, &test_log_str, &files).unwrap();
    assert_eq!(path, path_to_log);
}

#[test]
fn a_shorter_relative_path_is_found() {
    let patterns = Patterns::new().unwrap();
    let files = listing(&[("b/c/d.txt", PathKind::File)]);
    let found = logfile_path_from_str(&patterns, "see /a/b/c/d.txt for more", &files).unwrap();
    assert_eq!(found, "b/c/d.txt");
}

#[test]
fn the_path_itself_comes_first() {
    let patterns = Patterns::new().unwrap();
    let files = listing(&[
        ("b/c/d.txt", PathKind::File),
        ("/a/b/c/d.txt", PathKind::File),
    ]);
    let found = logfile_path_from_str(&patterns, "/a/b/c/d.txt", &files).unwrap();
    assert_eq!(found, "/a/b/c/d.txt");
}

#[test]
fn the_relative_path_comes_before_the_rooted_one() {
    let patterns = Patterns::new().unwrap();
    let files = listing(&[
        ("/c/d.txt", PathKind::File),
        ("c/d.txt", PathKind::File),
        ("/d.txt", PathKind::File),
    ]);
    let found = logfile_path_from_str(&patterns, "x/b/c/d.txt", &files).unwrap();
    assert_eq!(found, "c/d.txt");
}

#[test]
fn a_path_that_is_no_file_is_refused() {
    let patterns = Patterns::new().unwrap();
    let files = listing(&[
        ("/a/b/c", PathKind::Other),
        ("b/c", PathKind::File),
    ]);
    match logfile_path_from_str(&patterns, "in /a/b/c today", &files) {
        Err(ParseError::PathUnresolved(text)) => assert_eq!(text, "/a/b/c"),
        other => panic!("unexpected: {:?}", other),
    }
}

#[test]
fn a_shorter_path_that_is_no_file_is_passed_over() {
    let patterns = Patterns::new().unwrap();
    let files = listing(&[
        ("a/b/c", PathKind::Other),
        ("b/c", PathKind::Other),
        ("/b/c", PathKind::File),
        ("/", PathKind::Other),
    ]);
    assert_eq!(
        logfile_path_from_str(&patterns, "/a/b/c", &files).unwrap(),
        "/b/c"
    );
}

#[test]
fn nothing_found_names_the_text() {
    let patterns = Patterns::new().unwrap();
    let files = listing(&[("/", PathKind::Other), ("elsewhere", PathKind::File)]);
    match logfile_path_from_str(&patterns, "in /a/b/c today", &files) {
        Err(ParseError::PathUnresolved(text)) => assert_eq!(text, "in /a/b/c today"),
        other => panic!("unexpected: {:?}", other),
    }
    match logfile_path_from_str(&patterns, "no path", &files) {
        Err(ParseError::PathUnresolved(text)) => assert_eq!(text, "no path"),
        other => panic!("unexpected: {:?}", other),
    }
}

#[test]
fn search_paths_in_the_order_in_which_they_are_tried() {
    let patterns = Patterns::new().unwrap();
    assert_eq!(
        logfile_search_paths(&patterns, "at /a/b/c.txt now").unwrap(),
        ["/a/b/c.txt", "a/b/c.txt", "/a/b/c.txt", "b/c.txt", "/b/c.txt", "c.txt", "/c.txt", "", "/"]
    );
    assert_eq!(
        logfile_search_paths(&patterns, "./a//b/./c/").unwrap(),
        ["./a//b/./c", "a/b/c", "/a/b/c", "b/c", "/b/c", "c", "/c", "", "/"]
    );
    assert!(matches!(
        logfile_search_paths(&patterns, "no path"),
        Err(ParseError::PathUnresolved(_))
    ));
}

#[test]
fn a_listing_answers_with_what_was_recorded_last() {
    let mut files = FileListing::new();
    assert_eq!(files.kind_of("a"), PathKind::Missing);
    files.record("a".to_string(), PathKind::Other);
    files.record("b".to_string(), PathKind::File);
    assert_eq!(files.kind_of("a"), PathKind::Other);
    files.record("a".to_string(), PathKind::File);
    assert_eq!(files.kind_of("a"), PathKind::File);
    assert_eq!(files.kind_of("b"), PathKind::File);
    files.record("b".to_string(), PathKind::Missing);
    assert_eq!(files.kind_of("b"), PathKind::Missing);
    assert_eq!(files.kind_of("ab"), PathKind::Missing);
}

const BUILD_LOG: &str = "building\n--- Error summary ---\nERROR: do_fetch failed\nERROR: Logfile of failure stored in: /app/yocto/build/temp/log.do_fetch.21616 and more\nerror: Recipe `build` failed with exit code 2\n";

#[test]
fn locate_yocto_failure_log_finds_the_file_of_the_summary() {
    let patterns = Patterns::new().unwrap();
    assert_eq!(
        failure_log_line(BUILD_LOG).unwrap(),
        "ERROR: Logfile of failure stored in: /app/yocto/build/temp/log.do_fetch.21616 and more"
    );
    let files = listing(&[("yocto/build/temp/log.do_fetch.21616", PathKind::File)]);
    assert_eq!(
        locate_yocto_failure_log(&patterns, BUILD_LOG, &files).unwrap(),
        "yocto/build/temp/log.do_fetch.21616"
    );
}

#[test]
fn locate_yocto_failure_log_says_what_is_missing() {
    let patterns = Patterns::new().unwrap();
    let files = FileListing::new();
    assert!(matches!(
        locate_yocto_failure_log(&patterns, "no summary", &files),
        Err(ParseError::MissingMarker)
    ));
    assert!(matches!(
        locate_yocto_failure_log(&patterns, "--- Error summary ---\nno file named", &files),
        Err(ParseError::NoLogfileReference)
    ));
    assert!(matches!(
        locate_yocto_failure_log(&patterns, BUILD_LOG, &files),
        Err(ParseError::PathUnresolved(_))
    ));
    assert!(matches!(
        locate_yocto_failure_log(
            &patterns,
            "--- Error summary ---\nLogfile of failure stored in: nowhere",
            &files
        ),
        Err(ParseError::PathUnresolved(_))
    ));
}
