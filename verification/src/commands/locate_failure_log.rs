//! Finding the log file that a build log refers to, on a machine where the
//! path in the log may lead nowhere.
//!
//! The library does not touch the file system. It is told what kind of thing
//! lies at each path that matters, in a [`FileListing`], and decides from
//! that.

use crate::err_msg_parse::yocto_err::{
    find_yocto_failure_log_str, logfile_line_of, reported_summary, trim_trailing_just_recipes,
    yocto_error_summary, YOCTO_ERROR_SUMMARY_SIGNATURE,
};
use crate::error::ParseError;
use crate::path::{paths_to_search, search_paths};
use crate::pattern::{first_match, Patterns, PATH_PATTERN};
use crate::text::{chars_of, contains, texts};
use crate::util::first_path_from_str;
use vstd::prelude::*;
use vstd::string::*;

verus! {

/// What lies at a path.
#[derive(Copy, Clone, Debug, PartialEq, Eq, Structural)]
pub enum PathKind {
    /// Nothing.
    Missing,
    /// A regular file.
    File,
    /// Something that is not a regular file, such as a directory.
    Other,
}

/// What the entries of a listing say, a later entry before an earlier one of
/// the same path.
pub open spec fn listed(entries: Seq<(String, PathKind)>) -> Map<Seq<char>, PathKind>
    decreases entries.len(),
{
    if entries.len() == 0 {
        Map::empty()
    } else {
        listed(entries.drop_last()).insert(entries.last().0@, entries.last().1)
    }
}

/// What lies at a path according to a listing: nothing where the listing
/// does not speak of the path.
pub open spec fn kind_in(files: Map<Seq<char>, PathKind>, path: Seq<char>) -> PathKind {
    if files.contains_key(path) {
        files[path]
    } else {
        PathKind::Missing
    }
}

/// What is known of the file system: for each path that it speaks of, what
/// lies there.
#[derive(Debug)]
pub struct FileListing {
    entries: Vec<(String, PathKind)>,
}

impl View for FileListing {
    type V = Map<Seq<char>, PathKind>;

    closed spec fn view(&self) -> Map<Seq<char>, PathKind> {
        listed(self.entries@)
    }
}

impl FileListing {
    /// A listing that speaks of no path.
    pub fn new() -> (listing: Self)
        ensures
            listing@ == Map::<Seq<char>, PathKind>::empty(),
    {
        FileListing { entries: Vec::new() }
    }

    /// Records what lies at a path, in place of what was recorded for it
    /// before.
    pub fn record(&mut self, path: String, kind: PathKind)
        ensures
            final(self)@ == old(self)@.insert(path@, kind),
    {
        let ghost before = self.entries@;
        self.entries.push((path, kind));
        assert(self.entries@.drop_last() == before);
    }

    /// What lies at a path according to the listing.
    pub fn kind_of(&self, path: &str) -> (kind: PathKind)
        ensures
            kind == kind_in(self@, path@),
    {
        let mut i: usize = self.entries.len();
        assert(self.entries@.subrange(0, i as int) == self.entries@);
        while i > 0
            invariant
                i <= self.entries.len(),
                kind_in(self@, path@) == kind_in(listed(self.entries@.subrange(0, i as int)), path@),
            decreases i,
        {
            let ghost upto = self.entries@.subrange(0, i as int);
            assert(upto.drop_last() == self.entries@.subrange(0, i - 1));
            let entry = &self.entries[i - 1];
            if same_text(entry.0.as_str(), path) {
                return entry.1;
            }
            i -= 1;
        }
        PathKind::Missing
    }
}

/// Whether two strings hold the same text.
fn same_text(a: &str, b: &str) -> (same: bool)
    ensures
        same == (a@ == b@),
{
    let x = chars_of(a);
    let y = chars_of(b);
    if x.len() != y.len() {
        return false;
    }
    let mut i: usize = 0;
    while i < x.len()
        invariant
            i <= x.len() == y.len(),
            x@ == a@,
            y@ == b@,
            x@.subrange(0, i as int) == y@.subrange(0, i as int),
        decreases x.len() - i,
    {
        if x[i] != y[i] {
            return false;
        }
        i += 1;
    }
    assert(x@.subrange(0, x@.len() as int) == x@);
    assert(y@.subrange(0, y@.len() as int) == y@);
    true
}

/// The first of the paths, from the `from`-th on, at which a regular file
/// lies.
pub open spec fn first_file(files: Map<Seq<char>, PathKind>, paths: Seq<Seq<char>>, from: int) -> Option<
    Seq<char>,
>
    decreases paths.len() - from,
{
    if from < 0 || from >= paths.len() {
        None
    } else if kind_in(files, paths[from]) == PathKind::File {
        Some(paths[from])
    } else {
        first_file(files, paths, from + 1)
    }
}

/// Where the file of `path` is found. If something lies at the path itself,
/// that is the answer if it is a regular file, and there is none if it is
/// not. Otherwise the answer is the first of the [`search_paths`] after the
/// path itself at which a regular file lies.
pub open spec fn found_file(files: Map<Seq<char>, PathKind>, path: Seq<char>) -> Option<Seq<char>> {
    match kind_in(files, path) {
        PathKind::File => Some(path),
        PathKind::Other => None,
        PathKind::Missing => first_file(files, search_paths(path), 1),
    }
}

/// What [`first_file`] finds is one of the paths from the `from`-th on, a
/// regular file lies there, and at none of the paths before it.
pub proof fn first_file_is_first(files: Map<Seq<char>, PathKind>, paths: Seq<Seq<char>>, from: int)
    requires
        0 <= from,
    ensures
        match first_file(files, paths, from) {
            Some(found) => exists|at: int|
                from <= at < paths.len() && paths[at] == found && kind_in(files, found)
                    == PathKind::File && forall|k: int|
                    from <= k < at ==> kind_in(files, #[trigger] paths[k]) != PathKind::File,
            None => forall|k: int|
                from <= k < paths.len() ==> kind_in(files, #[trigger] paths[k]) != PathKind::File,
        },
    decreases paths.len() - from,
{
    if from < paths.len() {
        if kind_in(files, paths[from]) == PathKind::File {
            assert(paths[from] == first_file(files, paths, from)->Some_0);
        } else {
            first_file_is_first(files, paths, from + 1);
            if first_file(files, paths, from + 1) is Some {
                let at = choose|at: int|
                    from + 1 <= at < paths.len() && paths[at] == first_file(
                        files,
                        paths,
                        from + 1,
                    )->Some_0 && kind_in(files, paths[at]) == PathKind::File && forall|k: int|
                        from + 1 <= k < at ==> kind_in(files, #[trigger] paths[k])
                            != PathKind::File;
                assert(from <= at < paths.len() && paths[at] == first_file(files, paths, from)->Some_0
                    && forall|k: int|
                    from <= k < at ==> kind_in(files, #[trigger] paths[k]) != PathKind::File);
            }
        }
    }
}

/// The file that is found is a regular file, and it lies at one of the
/// [`search_paths`] of the path.
pub proof fn found_file_is_a_file(files: Map<Seq<char>, PathKind>, path: Seq<char>)
    ensures
        found_file(files, path) matches Some(found) ==> kind_in(files, found) == PathKind::File
            && search_paths(path).contains(found),
{
    assert(search_paths(path)[0] == path);
    first_file_is_first(files, search_paths(path), 1);
}

/// The paths at which the file that a text refers to is looked for, in the
/// order in which they are tried: the [`search_paths`] of the first path in
/// the text. A text without a path is refused.
pub fn logfile_search_paths(patterns: &Patterns, s: &str) -> (r: Result<Vec<String>, ParseError>)
    ensures
        match first_match(PATH_PATTERN@, s@) {
            Some(path) => r matches Ok(paths) && texts(paths@) == search_paths(path),
            None => r matches Err(ParseError::PathUnresolved(text)) && text@ == s@,
        },
{
    match first_path_from_str(patterns, s) {
        Ok(path) => Ok(paths_to_search(&chars_of(path.as_str()))),
        Err(e) => Err(e),
    }
}

/// Finds the file that a text refers to: the first path in the text, or the
/// first of the shorter paths made of its last components at which a regular
/// file lies. It fails, with the text, where the text holds no path or no
/// regular file lies at any of the paths; and with the path, where the path
/// leads to something that is not a regular file.
pub fn logfile_path_from_str(patterns: &Patterns, s: &str, files: &FileListing) -> (r: Result<
    String,
    ParseError,
>)
    ensures
        match first_match(PATH_PATTERN@, s@) {
            Some(path) => match found_file(files@, path) {
                Some(found) => r matches Ok(p) && p@ == found,
                None => r matches Err(ParseError::PathUnresolved(text)) && text@ == if kind_in(
                    files@,
                    path,
                ) == PathKind::Other {
                    path
                } else {
                    s@
                },
            },
            None => r matches Err(ParseError::PathUnresolved(text)) && text@ == s@,
        },
{
    let path = match first_path_from_str(patterns, s) {
        Ok(path) => path,
        Err(e) => {
            return Err(e);
        },
    };
    match files.kind_of(path.as_str()) {
        PathKind::File => {
            return Ok(path);
        },
        PathKind::Other => {
            return Err(ParseError::PathUnresolved(path));
        },
        PathKind::Missing => {},
    }
    let paths = paths_to_search(&chars_of(path.as_str()));
    let mut i: usize = 1;
    while i < paths.len()
        invariant
            1 <= i,
            first_match(PATH_PATTERN@, s@) == Some(path@),
            kind_in(files@, path@) == PathKind::Missing,
            texts(paths@) == search_paths(path@),
            first_file(files@, search_paths(path@), 1) == first_file(
                files@,
                search_paths(path@),
                i as int,
            ),
        decreases paths.len() - i,
    {
        if files.kind_of(paths[i].as_str()) == PathKind::File {
            let found = paths[i].clone();
            return Ok(found);
        }
        i += 1;
    }
    Err(ParseError::PathUnresolved(String::from_str(s)))
}

/// The line of a build log that names the log file of the failed task: the
/// line [`logfile_line_of`] the [`reported_summary`] of the log.
pub fn failure_log_line(logfile_content: &str) -> (r: Result<String, ParseError>)
    ensures
        if !contains(logfile_content@, YOCTO_ERROR_SUMMARY_SIGNATURE@) {
            r matches Err(ParseError::MissingMarker)
        } else {
            match logfile_line_of(reported_summary(logfile_content@)) {
                Some(line) => r matches Ok(found) && found@ == line,
                None => r matches Err(ParseError::NoLogfileReference),
            }
        },
{
    let summary = match yocto_error_summary(logfile_content) {
        Ok(summary) => summary,
        Err(e) => {
            return Err(e);
        },
    };
    let summary = match trim_trailing_just_recipes(summary.as_str()) {
        Ok(summary) => summary,
        Err(e) => {
            return Err(e);
        },
    };
    find_yocto_failure_log_str(summary.as_str())
}

/// Finds the log file of the failed task of a Yocto build from the log of
/// the build: the file that [`logfile_path_from_str`] finds for the line
/// that [`failure_log_line`] gives.
pub fn locate_yocto_failure_log(patterns: &Patterns, logfile_content: &str, files: &FileListing) -> (r:
    Result<String, ParseError>)
    ensures
        if !contains(logfile_content@, YOCTO_ERROR_SUMMARY_SIGNATURE@) {
            r matches Err(ParseError::MissingMarker)
        } else {
            match logfile_line_of(reported_summary(logfile_content@)) {
                Some(line) => match first_match(PATH_PATTERN@, line) {
                    Some(path) => match found_file(files@, path) {
                        Some(found) => r matches Ok(p) && p@ == found,
                        None => r matches Err(ParseError::PathUnresolved(text)) && text@
                            == if kind_in(files@, path) == PathKind::Other {
                            path
                        } else {
                            line
                        },
                    },
                    None => r matches Err(ParseError::PathUnresolved(text)) && text@ == line,
                },
                None => r matches Err(ParseError::NoLogfileReference),
            }
        },
{
    let line = match failure_log_line(logfile_content) {
        Ok(line) => line,
        Err(e) => {
            return Err(e);
        },
    };
    logfile_path_from_str(patterns, line.as_str(), files)
}

} // verus!
