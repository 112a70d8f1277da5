use gh_workflow_parser::error::ParseError;
use gh_workflow_parser::pattern::Patterns;
use gh_workflow_parser::version::{
    check_gh_cli_version_str, check_version, gh_cli_min_version, Version,
};

const GH_CLI_VERSION_OK_STR: &str = r#"gh version 2.43.1 (2024-01-31)
https://github.com/cli/cli/releases/tag/v2.43.1"#;
const GH_CLI_VERSION_BAD_STR: &str = r#"gh version 2.4.0 (2021-11-21)
https://github.com/cli/cli/releases/tag/v2.4.0"#;

#[test]
fn test_check_gh_cli_version_is_ok() {
    let patterns = Patterns::new().unwrap();
    let version =
        check_gh_cli_version_str(&patterns, gh_cli_min_version(), GH_CLI_VERSION_OK_STR);
    assert!(version.is_ok());
}

#[test]
fn test_check_gh_cli_version_bad() {
    let patterns = Patterns::new().unwrap();
    let version =
        check_gh_cli_version_str(&patterns, gh_cli_min_version(), GH_CLI_VERSION_BAD_STR);
    assert!(version.is_err());
}

#[test]
fn an_old_version_is_named_in_the_message() {
    let patterns = Patterns::new().unwrap();
    match check_gh_cli_version_str(&patterns, gh_cli_min_version(), GH_CLI_VERSION_BAD_STR) {
        Err(ParseError::UnsupportedVersion(message)) => assert_eq!(
            message,
            "GitHub CLI version 2.4.0 is not supported. Please install version 2.43.1 or higher"
        ),
        other => panic!("unexpected: {:?}", other),
    }
}

#[test]
fn text_without_version_is_malformed() {
    let patterns = Patterns::new().unwrap();
    for text in ["", "gh version 2.43", "version 2.43.1", "gh version 02.43.1", "gh version 99999999999999999999.0.0"] {
        match check_gh_cli_version_str(&patterns, gh_cli_min_version(), text) {
            Err(ParseError::MalformedInput(found)) => assert_eq!(found, text),
            other => panic!("unexpected for {:?}: {:?}", text, other),
        }
    }
}

#[test]
fn the_numbers_are_read_as_numbers() {
    let patterns = Patterns::new().unwrap();
    let needed = Version::new(2, 43, 1);
    assert!(check_gh_cli_version_str(&patterns, needed, "gh version 2.43.1").is_ok());
    assert!(check_gh_cli_version_str(&patterns, needed, "gh version 2.43.10-rc1").is_ok());
    assert!(check_gh_cli_version_str(&patterns, needed, "gh version 2.100.0").is_ok());
    assert!(check_gh_cli_version_str(&patterns, needed, "gh version 10.0.0").is_ok());
    assert!(check_gh_cli_version_str(&patterns, needed, "gh version 2.43.0").is_err());
    assert!(check_gh_cli_version_str(&patterns, needed, "gh version 2.9.9").is_err());
    assert!(check_gh_cli_version_str(&patterns, needed, "gh version 1.99.99").is_err());
}

#[test]
fn versions_compare_number_by_number() {
    let v = Version::new(2, 43, 1);
    assert_eq!(gh_cli_min_version(), v);
    assert!(!v.is_older_than(&v));
    assert!(Version::new(2, 43, 0).is_older_than(&v));
    assert!(Version::new(2, 42, 9).is_older_than(&v));
    assert!(Version::new(1, 99, 9).is_older_than(&v));
    assert!(!Version::new(3, 0, 0).is_older_than(&v));
    assert!(!Version::new(2, 44, 0).is_older_than(&v));
    assert_eq!(v.to_string(), "2.43.1");
    assert_eq!(Version::new(0, 0, u64::MAX).to_string(), "0.0.18446744073709551615");
    assert!(check_version(v, v).is_ok());
    assert!(check_version(Version::new(0, 0, 1), v).is_err());
}
