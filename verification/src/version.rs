//! Versions of three numbers, read by the `semver` crate and compared here.

use crate::error::ParseError;
use crate::pattern::{capture, captured, group_texts, Patterns, GH_CLI_VERSION_PATTERN};
use crate::text::{decimal, decimal_chars, string_of};
use vstd::prelude::*;
use vstd::string::*;

verus! {

/// `semver::Error`, why a text is no version; opaque here.
#[verifier::external_type_specification]
#[verifier::external_body]
pub struct ExSemverError(semver::Error);

/// A version: major, minor and patch number.
#[derive(Debug, Clone, Copy, PartialEq, Eq, Structural)]
pub struct Version {
    pub major: u64,
    pub minor: u64,
    pub patch: u64,
}

/// The version that a text stands for, as `semver::Version::parse` reads it:
/// its major, minor and patch number, or `None` where the text is no version.
pub uninterp spec fn parsed_version(text: Seq<char>) -> Option<(u64, u64, u64)>;

/// `semver::Version::parse` reads a version from a text or says why the text
/// is none. Of the version that it reads, the three numbers are handed out.
#[verifier::external_body]
fn parse_version(text: &str) -> (r: Result<Version, semver::Error>)
    ensures
        match parsed_version(text@) {
            Some(numbers) => r == Ok::<Version, semver::Error>(
                Version { major: numbers.0, minor: numbers.1, patch: numbers.2 },
            ),
            None => r is Err,
        },
{
    semver::Version::parse(text).map(
        |v| Version { major: v.major, minor: v.minor, patch: v.patch },
    )
}

impl Version {
    /// The version `major.minor.patch`.
    pub fn new(major: u64, minor: u64, patch: u64) -> (v: Self)
        ensures
            v == (Version { major, minor, patch }),
    {
        Version { major, minor, patch }
    }

    /// `self` is an older version than `other`: the first number in which
    /// they differ is less.
    pub open spec fn older_than(self, other: Version) -> bool {
        self.major < other.major || (self.major == other.major && (self.minor < other.minor || (
        self.minor == other.minor && self.patch < other.patch)))
    }

    /// Whether `self` is an older version than `other`.
    pub fn is_older_than(&self, other: &Version) -> (b: bool)
        ensures
            b == self.older_than(*other),
    {
        if self.major != other.major {
            self.major < other.major
        } else if self.minor != other.minor {
            self.minor < other.minor
        } else {
            self.patch < other.patch
        }
    }

    /// The version as text: the three numbers with a dot between.
    pub open spec fn text(self) -> Seq<char> {
        decimal(self.major as nat) + "."@ + decimal(self.minor as nat) + "."@ + decimal(
            self.patch as nat,
        )
    }

    /// The version as text.
    pub fn to_string(&self) -> (s: String)
        ensures
            s@ == self.text(),
    {
        let mut s = string_of(&decimal_chars(self.major));
        s.append(".");
        s.append(string_of(&decimal_chars(self.minor)).as_str());
        s.append(".");
        s.append(string_of(&decimal_chars(self.patch)).as_str());
        s
    }
}

/// The oldest version of the command-line tool of GitHub that will do.
pub open spec fn min_version() -> Version {
    Version { major: 2, minor: 43, patch: 1 }
}

/// The oldest version of the command-line tool of GitHub that will do.
pub fn gh_cli_min_version() -> (v: Version)
    ensures
        v == min_version(),
{
    Version::new(2, 43, 1)
}

/// The text of the version in what the tool prints: the one group of the
/// match of [`GH_CLI_VERSION_PATTERN`].
pub open spec fn version_text_of_groups(groups: Seq<Option<Seq<char>>>) -> Option<Seq<char>> {
    if groups.len() == 2 {
        groups[1]
    } else {
        None
    }
}

/// The version that the tool reports in what it prints, if it reports one.
pub open spec fn reported_version(version_str: Seq<char>) -> Option<Version> {
    match captured(GH_CLI_VERSION_PATTERN@, version_str) {
        Some(groups) => match version_text_of_groups(groups) {
            Some(text) => match parsed_version(text) {
                Some(numbers) => Some(
                    Version { major: numbers.0, minor: numbers.1, patch: numbers.2 },
                ),
                None => None,
            },
            None => None,
        },
        None => None,
    }
}

/// What is said of a version that is too old.
pub open spec fn unsupported_message(found: Version, required: Version) -> Seq<char> {
    "GitHub CLI version "@ + found.text() + " is not supported. Please install version "@
        + required.text() + " or higher"@
}

/// Holds the version that was found against the one that is needed: a version
/// that is older is refused, with the message that names both.
pub fn check_version(found: Version, min_required: Version) -> (r: Result<(), ParseError>)
    ensures
        if found.older_than(min_required) {
            r matches Err(ParseError::UnsupportedVersion(m)) && m@ == unsupported_message(
                found,
                min_required,
            )
        } else {
            r is Ok
        },
{
    if found.is_older_than(&min_required) {
        let mut m = String::from_str("GitHub CLI version ");
        m.append(found.to_string().as_str());
        m.append(" is not supported. Please install version ");
        m.append(min_required.to_string().as_str());
        m.append(" or higher");
        Err(ParseError::UnsupportedVersion(m))
    } else {
        Ok(())
    }
}

/// Picks the text of the version from the groups of a match of
/// [`GH_CLI_VERSION_PATTERN`].
pub fn version_text_from_groups(groups: &Vec<Option<String>>) -> (r: Option<String>)
    ensures
        match version_text_of_groups(group_texts(groups@)) {
            Some(text) => r matches Some(s) && s@ == text,
            None => r is None,
        },
{
    if groups.len() != 2 {
        return None;
    }
    match &groups[1] {
        Some(text) => Some(text.clone()),
        None => None,
    }
}

/// Checks what the command-line tool of GitHub prints of its version, such
/// as `gh version 2.43.1 (2024-01-31)`, against the version that is needed.
/// Text in which no version is found is refused as malformed; a version
/// older than `min_required` is refused as unsupported.
pub fn check_gh_cli_version_str(patterns: &Patterns, min_required: Version, version_str: &str) -> (r:
    Result<(), ParseError>)
    ensures
        match reported_version(version_str@) {
            Some(found) => if found.older_than(min_required) {
                r matches Err(ParseError::UnsupportedVersion(m)) && m@ == unsupported_message(
                    found,
                    min_required,
                )
            } else {
                r is Ok
            },
            None => r matches Err(ParseError::MalformedInput(text)) && text@ == version_str@,
        },
{
    let text = match capture(patterns.gh_cli_version(), version_str) {
        Some(groups) => match version_text_from_groups(&groups) {
            Some(text) => text,
            None => {
                return Err(ParseError::MalformedInput(String::from_str(version_str)));
            },
        },
        None => {
            return Err(ParseError::MalformedInput(String::from_str(version_str)));
        },
    };
    match parse_version(text.as_str()) {
        Ok(found) => check_version(found, min_required),
        Err(_) => Err(ParseError::MalformedInput(String::from_str(version_str))),
    }
}

} // verus!
