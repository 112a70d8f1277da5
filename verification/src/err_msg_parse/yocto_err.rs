//! The error summary that ends the log of a failed Yocto build: where it
//! begins, which of its last lines are noise, which log file it refers to and
//! which task failed.

use crate::err_msg_parse::LOGFILE_MAX_LEN;
use crate::error::ParseError;
use crate::path::{file_stem, file_stem_of};
use crate::text::{
    after_last, chars_of, contains, find_after_last, has_substring, lines_of, matches_at, rows,
    split_lines, starts_with, string_of, string_of_range, trim_range, trimmed, unlines,
};
use crate::util::{first_abs_path_from_str, from_first};
use vstd::prelude::*;
use vstd::string::*;

verus! {

/// What opens the error summary of a log.
pub const YOCTO_ERROR_SUMMARY_SIGNATURE: &'static str = "--- Error summary ---";

/// What begins a line that only says that a recipe of the task runner
/// failed.
pub const RECIPE_FAILED_PREFIX: &'static str = "error: Recipe ";

/// What begins a line that only gives the exit code of the process.
pub const PROCESS_COMPLETED_PREFIX: &'static str = "##[error]Process completed with exit code";

/// What marks the line that names the log file of the failed task.
pub const LOGFILE_LINE_MARK: &'static str = "Logfile of failure stored in";

/// The task of a Yocto build that failed.
#[derive(Debug, Clone, Copy, PartialEq, Eq, Structural)]
pub enum YoctoFailureKind {
    DoBuild,
    DoCompile,
    DoCompilePtestBase,
    DoConfigure,
    DoConfigurePtestBase,
    DoDeploy,
    DoFetch,
    /// A failure of a kind that is not known.
    Misc,
}

impl Default for YoctoFailureKind {
    fn default() -> (kind: Self)
        ensures
            kind == YoctoFailureKind::Misc,
    {
        YoctoFailureKind::Misc
    }
}

impl YoctoFailureKind {
    /// The name of the task, as it stands in the names of log files.
    pub open spec fn name(self) -> Seq<char> {
        match self {
            YoctoFailureKind::DoBuild => "do_build"@,
            YoctoFailureKind::DoCompile => "do_compile"@,
            YoctoFailureKind::DoCompilePtestBase => "do_compile_ptest_base"@,
            YoctoFailureKind::DoConfigure => "do_configure"@,
            YoctoFailureKind::DoConfigurePtestBase => "do_configure_ptest_base"@,
            YoctoFailureKind::DoDeploy => "do_deploy"@,
            YoctoFailureKind::DoFetch => "do_fetch"@,
            YoctoFailureKind::Misc => "misc"@,
        }
    }

    /// The kinds in the order in which a name is held against them.
    pub open spec fn kind_at(i: int) -> YoctoFailureKind {
        if i == 0 {
            YoctoFailureKind::DoBuild
        } else if i == 1 {
            YoctoFailureKind::DoCompile
        } else if i == 2 {
            YoctoFailureKind::DoCompilePtestBase
        } else if i == 3 {
            YoctoFailureKind::DoConfigure
        } else if i == 4 {
            YoctoFailureKind::DoConfigurePtestBase
        } else if i == 5 {
            YoctoFailureKind::DoDeploy
        } else if i == 6 {
            YoctoFailureKind::DoFetch
        } else {
            YoctoFailureKind::Misc
        }
    }

    /// The first kind, from the `from`-th on, whose name is `text`.
    pub open spec fn named_from(text: Seq<char>, from: int) -> Option<YoctoFailureKind>
        decreases 8 - from,
    {
        if from < 0 || from >= 8 {
            None
        } else if Self::kind_at(from).name() == text {
            Some(Self::kind_at(from))
        } else {
            Self::named_from(text, from + 1)
        }
    }

    /// The first kind, from the `from`-th on, whose name stands somewhere in
    /// `fname`.
    pub open spec fn classified_from(fname: Seq<char>, from: int) -> Option<YoctoFailureKind>
        decreases 8 - from,
    {
        if from < 0 || from >= 8 {
            None
        } else if contains(fname, Self::kind_at(from).name()) {
            Some(Self::kind_at(from))
        } else {
            Self::classified_from(fname, from + 1)
        }
    }

    /// The kind that the name of a log file stands for: the first kind, in
    /// the fixed order, whose name stands somewhere in the file name.
    pub open spec fn classified(fname: Seq<char>) -> Option<YoctoFailureKind> {
        Self::classified_from(fname, 0)
    }

    /// The kind that a file name stands for is the first, in the fixed
    /// order, whose name stands in the file name: its name stands there, and
    /// the name of no kind before it does.
    pub proof fn classified_is_first(fname: Seq<char>, from: int)
        requires
            0 <= from,
        ensures
            match Self::classified_from(fname, from) {
                Some(kind) => exists|at: int|
                    from <= at < 8 && Self::kind_at(at) == kind && contains(fname, kind.name())
                        && forall|k: int|
                        from <= k < at ==> !contains(fname, #[trigger] Self::kind_at(k).name()),
                None => forall|k: int|
                    from <= k < 8 ==> !contains(fname, #[trigger] Self::kind_at(k).name()),
            },
        decreases 8 - from,
    {
        if from < 8 {
            if contains(fname, Self::kind_at(from).name()) {
                assert(Self::kind_at(from) == Self::classified_from(fname, from)->Some_0);
            } else {
                Self::classified_is_first(fname, from + 1);
                if Self::classified_from(fname, from + 1) is Some {
                    let kind = Self::classified_from(fname, from + 1)->Some_0;
                    let at = choose|at: int|
                        from + 1 <= at < 8 && Self::kind_at(at) == kind && contains(
                            fname,
                            kind.name(),
                        ) && forall|k: int|
                            from + 1 <= k < at ==> !contains(
                                fname,
                                #[trigger] Self::kind_at(k).name(),
                            );
                    assert(from <= at < 8 && Self::kind_at(at) == kind && forall|k: int|
                        from <= k < at ==> !contains(fname, #[trigger] Self::kind_at(k).name()));
                }
            }
        }
    }

    /// The `i`-th kind in the fixed order.
    fn nth(i: usize) -> (kind: YoctoFailureKind)
        requires
            i < 8,
        ensures
            kind == Self::kind_at(i as int),
    {
        if i == 0 {
            YoctoFailureKind::DoBuild
        } else if i == 1 {
            YoctoFailureKind::DoCompile
        } else if i == 2 {
            YoctoFailureKind::DoCompilePtestBase
        } else if i == 3 {
            YoctoFailureKind::DoConfigure
        } else if i == 4 {
            YoctoFailureKind::DoConfigurePtestBase
        } else if i == 5 {
            YoctoFailureKind::DoDeploy
        } else if i == 6 {
            YoctoFailureKind::DoFetch
        } else {
            YoctoFailureKind::Misc
        }
    }

    /// The name of the task.
    pub fn as_str(&self) -> (s: &'static str)
        ensures
            s@ == self.name(),
    {
        match self {
            YoctoFailureKind::DoBuild => "do_build",
            YoctoFailureKind::DoCompile => "do_compile",
            YoctoFailureKind::DoCompilePtestBase => "do_compile_ptest_base",
            YoctoFailureKind::DoConfigure => "do_configure",
            YoctoFailureKind::DoConfigurePtestBase => "do_configure_ptest_base",
            YoctoFailureKind::DoDeploy => "do_deploy",
            YoctoFailureKind::DoFetch => "do_fetch",
            YoctoFailureKind::Misc => "misc",
        }
    }

    /// The name of the task.
    pub fn to_string(&self) -> (s: String)
        ensures
            s@ == self.name(),
    {
        String::from_str(self.as_str())
    }

    /// The kind with the given name; a text that names none is refused.
    pub fn from_str(s: &str) -> (r: Result<Self, ParseError>)
        ensures
            match Self::named_from(s@, 0) {
                Some(kind) => r == Ok::<Self, ParseError>(kind),
                None => r matches Err(ParseError::ClassificationFailed(text)) && text@ == s@,
            },
    {
        let text = chars_of(s);
        let mut i: usize = 0;
        while i < 8
            invariant
                i <= 8,
                text@ == s@,
                Self::named_from(s@, 0) == Self::named_from(s@, i as int),
            decreases 8 - i,
        {
            let kind = Self::nth(i);
            let name = chars_of(kind.as_str());
            if name.len() == text.len() && matches_at(&text, &name, 0) {
                assert(text@.subrange(0, text@.len() as int) == text@);
                return Ok(kind);
            }
            i += 1;
        }
        Err(ParseError::ClassificationFailed(String::from_str(s)))
    }

    /// Tells from the name of a log file, such as `log.do_fetch.21616`, which
    /// task failed: the first kind, in the fixed order, whose name stands
    /// somewhere in the file name. A file name that holds none is refused.
    pub fn parse_from_logfilename(fname: &str) -> (r: Result<Self, ParseError>)
        ensures
            match Self::classified(fname@) {
                Some(kind) => r == Ok::<Self, ParseError>(kind),
                None => r matches Err(ParseError::ClassificationFailed(text)) && text@ == fname@,
            },
    {
        let text = chars_of(fname);
        let mut i: usize = 0;
        while i < 8
            invariant
                i <= 8,
                text@ == fname@,
                Self::classified(fname@) == Self::classified_from(fname@, i as int),
            decreases 8 - i,
        {
            let kind = Self::nth(i);
            let name = chars_of(kind.as_str());
            if has_substring(&text, &name) {
                return Ok(kind);
            }
            i += 1;
        }
        Err(ParseError::ClassificationFailed(String::from_str(fname)))
    }
}

/// What a [`YoctoFailureLog`] holds.
pub struct YoctoFailureLogView {
    pub name: Seq<char>,
    pub contents: Seq<char>,
}

/// The log file of the task that failed: its name and what it holds.
#[derive(Debug)]
pub struct YoctoFailureLog {
    pub name: String,
    pub contents: String,
}

impl View for YoctoFailureLog {
    type V = YoctoFailureLogView;

    open spec fn view(&self) -> YoctoFailureLogView {
        YoctoFailureLogView { name: self.name@, contents: self.contents@ }
    }
}

/// What an optional log file holds.
pub open spec fn logfile_view(logfile: Option<YoctoFailureLog>) -> Option<YoctoFailureLogView> {
    match logfile {
        Some(log) => Some(log@),
        None => None,
    }
}

/// What a [`YoctoError`] holds.
pub struct YoctoErrorView {
    pub summary: Seq<char>,
    pub kind: YoctoFailureKind,
    pub logfile: Option<YoctoFailureLogView>,
}

/// The failure of a Yocto build: the summary of the error, the task that
/// failed, and the log file of that task where it could be had.
#[derive(Debug)]
pub struct YoctoError {
    summary: String,
    kind: YoctoFailureKind,
    logfile: Option<YoctoFailureLog>,
}

impl View for YoctoError {
    type V = YoctoErrorView;

    closed spec fn view(&self) -> YoctoErrorView {
        YoctoErrorView {
            summary: self.summary@,
            kind: self.kind,
            logfile: logfile_view(self.logfile),
        }
    }
}

impl YoctoError {
    /// A failure with the given summary, kind and log file.
    pub fn new(summary: String, kind: YoctoFailureKind, logfile: Option<YoctoFailureLog>) -> (e:
        Self)
        ensures
            e@ == (YoctoErrorView { summary: summary@, kind, logfile: logfile_view(logfile) }),
    {
        YoctoError { summary, kind, logfile }
    }

    /// The summary of the error.
    pub fn summary(&self) -> (s: &str)
        ensures
            s@ == self@.summary,
    {
        self.summary.as_str()
    }

    /// The task that failed.
    pub fn kind(&self) -> (kind: YoctoFailureKind)
        ensures
            kind == self@.kind,
    {
        self.kind
    }

    /// The log file of the task that failed, where it could be had.
    pub fn logfile(&self) -> (log: Option<&YoctoFailureLog>)
        ensures
            match log {
                Some(l) => self@.logfile == Some(l@),
                None => self@.logfile is None,
            },
    {
        self.logfile.as_ref()
    }
}

/// The error summary of a log: what follows the last
/// [`YOCTO_ERROR_SUMMARY_SIGNATURE`], without the white space at its ends.
pub open spec fn summary_of(log: Seq<char>) -> Seq<char> {
    trimmed(after_last(log, YOCTO_ERROR_SUMMARY_SIGNATURE@))
}

/// Finds the error summary of a log. A log without
/// [`YOCTO_ERROR_SUMMARY_SIGNATURE`] is refused.
pub fn yocto_error_summary(log: &str) -> (r: Result<String, ParseError>)
    ensures
        if contains(log@, YOCTO_ERROR_SUMMARY_SIGNATURE@) {
            r matches Ok(summary) && summary@ == summary_of(log@)
        } else {
            r == Err::<String, ParseError>(ParseError::MissingMarker)
        },
{
    let chars = chars_of(log);
    let signature = chars_of(YOCTO_ERROR_SUMMARY_SIGNATURE);
    proof {
        reveal_strlit("--- Error summary ---");
    }
    match find_after_last(&chars, &signature) {
        Some(start) => {
            let (from, to) = trim_range(&chars, start, chars.len());
            Ok(string_of_range(&chars, from, to))
        },
        None => Err(ParseError::MissingMarker),
    }
}

/// A line that only repeats that the build failed: it begins with
/// [`RECIPE_FAILED_PREFIX`] or with [`PROCESS_COMPLETED_PREFIX`].
pub open spec fn is_noise_line(line: Seq<char>) -> bool {
    starts_with(line, RECIPE_FAILED_PREFIX@) || starts_with(line, PROCESS_COMPLETED_PREFIX@)
}

/// The lines without the noise lines that end them.
pub open spec fn without_trailing_noise(lines: Seq<Seq<char>>) -> Seq<Seq<char>>
    decreases lines.len(),
{
    if lines.len() > 0 && is_noise_line(lines.last()) {
        without_trailing_noise(lines.drop_last())
    } else {
        lines
    }
}

/// Dropping the noise at the end leaves the lines before it as they are:
/// what is kept is the beginning of the lines, every line after it is a
/// noise line, and the last line that is kept is none.
pub proof fn without_trailing_noise_keeps_the_beginning(lines: Seq<Seq<char>>)
    ensures
        without_trailing_noise(lines).len() <= lines.len(),
        without_trailing_noise(lines) == lines.take(without_trailing_noise(lines).len() as int),
        forall|i: int|
            without_trailing_noise(lines).len() <= i < lines.len() ==> is_noise_line(
                #[trigger] lines[i],
            ),
        without_trailing_noise(lines).len() > 0 ==> !is_noise_line(
            without_trailing_noise(lines).last(),
        ),
    decreases lines.len(),
{
    if lines.len() > 0 && is_noise_line(lines.last()) {
        without_trailing_noise_keeps_the_beginning(lines.drop_last());
        let kept = without_trailing_noise(lines);
        assert(lines.drop_last().take(kept.len() as int) == lines.take(kept.len() as int));
        assert forall|i: int| kept.len() <= i < lines.len() implies is_noise_line(
            #[trigger] lines[i],
        ) by {
            if i < lines.len() - 1 {
                assert(lines.drop_last()[i] == lines[i]);
            }
        }
    } else {
        assert(lines.take(lines.len() as int) == lines);
    }
}

/// A summary without the noise lines that end it: the lines before them, in
/// their order, each with a line feed after it.
pub open spec fn without_noise(summary: Seq<char>) -> Seq<char> {
    unlines(without_trailing_noise(lines_of(summary)))
}

/// Drops from the end of a summary the lines that only repeat that the build
/// failed. Nothing is left where every line is such a line.
pub fn trim_trailing_just_recipes(log: &str) -> (r: Result<String, ParseError>)
    ensures
        r matches Ok(kept) && kept@ == without_noise(log@),
{
    let chars = chars_of(log);
    let lines = split_lines(&chars);
    let recipe = chars_of(RECIPE_FAILED_PREFIX);
    let completed = chars_of(PROCESS_COMPLETED_PREFIX);
    let ghost all = rows(lines@);
    let mut keep: usize = lines.len();
    assert(all.subrange(0, keep as int) == all);
    while keep > 0 && (matches_at(&lines[keep - 1], &recipe, 0) || matches_at(
        &lines[keep - 1],
        &completed,
        0,
    ))
        invariant
            keep <= lines.len(),
            all == rows(lines@),
            recipe@ == RECIPE_FAILED_PREFIX@,
            completed@ == PROCESS_COMPLETED_PREFIX@,
            without_trailing_noise(all) == without_trailing_noise(all.subrange(0, keep as int)),
        decreases keep,
    {
        assert(all.subrange(0, keep as int).drop_last() == all.subrange(0, keep - 1));
        keep -= 1;
    }
    let ghost kept_lines = all.subrange(0, keep as int);
    let mut out: Vec<char> = Vec::new();
    let mut i: usize = 0;
    while i < keep
        invariant
            i <= keep <= lines.len(),
            all == rows(lines@),
            kept_lines == all.subrange(0, keep as int),
            out@ == unlines(kept_lines.subrange(0, i as int)),
        decreases keep - i,
    {
        let ghost upto = kept_lines.subrange(0, i + 1);
        assert(upto.drop_last() == kept_lines.subrange(0, i as int));
        out.extend_from_slice(lines[i].as_slice());
        out.push('\n');
        i += 1;
    }
    assert(kept_lines.subrange(0, keep as int) == kept_lines);
    Ok(string_of(&out))
}

/// The first of the lines, from the `from`-th on, in which `mark` stands.
pub open spec fn first_line_with(lines: Seq<Seq<char>>, mark: Seq<char>, from: int) -> Option<
    Seq<char>,
>
    decreases lines.len() - from,
{
    if from < 0 || from >= lines.len() {
        None
    } else if contains(lines[from], mark) {
        Some(lines[from])
    } else {
        first_line_with(lines, mark, from + 1)
    }
}

/// The line of a summary that names the log file of the failed task: the
/// first line in which [`LOGFILE_LINE_MARK`] stands.
pub open spec fn logfile_line_of(summary: Seq<char>) -> Option<Seq<char>> {
    first_line_with(lines_of(summary), LOGFILE_LINE_MARK@, 0)
}

/// Finds the line that names the log file of the failed task. A summary
/// without such a line is refused.
pub fn find_yocto_failure_log_str(log: &str) -> (r: Result<String, ParseError>)
    ensures
        match logfile_line_of(log@) {
            Some(line) => r matches Ok(found) && found@ == line,
            None => r == Err::<String, ParseError>(ParseError::NoLogfileReference),
        },
{
    let chars = chars_of(log);
    let lines = split_lines(&chars);
    let mark = chars_of(LOGFILE_LINE_MARK);
    let mut i: usize = 0;
    while i < lines.len()
        invariant
            i <= lines.len(),
            rows(lines@) == lines_of(log@),
            mark@ == LOGFILE_LINE_MARK@,
            logfile_line_of(log@) == first_line_with(lines_of(log@), LOGFILE_LINE_MARK@, i as int),
        decreases lines.len() - i,
    {
        if has_substring(&lines[i], &mark) {
            return Ok(string_of(&lines[i]));
        }
        i += 1;
    }
    Err(ParseError::NoLogfileReference)
}

/// The error summary of a log as it is reported: [`summary_of`] the log,
/// [`without_noise`].
pub open spec fn reported_summary(log: Seq<char>) -> Seq<char> {
    without_noise(summary_of(log))
}

/// The path of the log file that a summary names: in the line that names it,
/// all from the first `/` on.
pub open spec fn referenced_path(summary: Seq<char>) -> Option<Seq<char>> {
    match logfile_line_of(summary) {
        Some(line) => if line.contains('/') {
            Some(from_first(line, '/'))
        } else {
            None
        },
        None => None,
    }
}

/// The name under which the log file that a summary names is reported: the
/// name of the file without its extension.
pub open spec fn referenced_name(summary: Seq<char>) -> Option<Seq<char>> {
    match referenced_path(summary) {
        Some(path) => file_stem_of(path),
        None => None,
    }
}

/// The task that failed according to a summary: the kind that the name of
/// its log file stands for, and [`YoctoFailureKind::Misc`] where the summary
/// names no log file or the name stands for no kind.
pub open spec fn failure_kind_of(summary: Seq<char>) -> YoctoFailureKind {
    match referenced_name(summary) {
        Some(name) => match YoctoFailureKind::classified(name) {
            Some(kind) => kind,
            None => YoctoFailureKind::Misc,
        },
        None => YoctoFailureKind::Misc,
    }
}

/// The log file that goes with a summary, given what the file holds if it
/// could be read: the file is left out where the summary names none, where
/// it could not be read, and where it holds more than [`LOGFILE_MAX_LEN`]
/// chars.
pub open spec fn attached_logfile(summary: Seq<char>, contents: Option<Seq<char>>) -> Option<
    YoctoFailureLogView,
> {
    match (referenced_name(summary), contents) {
        (Some(name), Some(text)) => if text.len() <= LOGFILE_MAX_LEN {
            Some(YoctoFailureLogView { name, contents: text })
        } else {
            None
        },
        _ => None,
    }
}

/// The failure that a log reports, given what its log file holds.
pub open spec fn yocto_error_of(log: Seq<char>, contents: Option<Seq<char>>) -> YoctoErrorView {
    YoctoErrorView {
        summary: reported_summary(log),
        kind: failure_kind_of(reported_summary(log)),
        logfile: attached_logfile(reported_summary(log), contents),
    }
}

/// The text of an optional string.
pub open spec fn text_of(s: Option<String>) -> Option<Seq<char>> {
    match s {
        Some(text) => Some(text@),
        None => None,
    }
}

/// The path and the name of the log file that a summary names.
fn referenced_logfile(summary: &str) -> (r: (Option<String>, Option<String>))
    ensures
        text_of(r.0) == referenced_path(summary@),
        text_of(r.1) == referenced_name(summary@),
{
    let line = match find_yocto_failure_log_str(summary) {
        Ok(line) => line,
        Err(_) => {
            return (None, None);
        },
    };
    let path = match first_abs_path_from_str(line.as_str()) {
        Ok(path) => path,
        Err(_) => {
            return (None, None);
        },
    };
    let name = match file_stem(&chars_of(path.as_str())) {
        Some(stem) => Some(string_of(&stem)),
        None => None,
    };
    (Some(path), name)
}

/// The path of the log file that a log refers to, for the caller to read
/// it: `None` where the log has no error summary or the summary names no
/// file.
pub fn yocto_logfile_path(log: &str) -> (r: Option<String>)
    ensures
        text_of(r) == if contains(log@, YOCTO_ERROR_SUMMARY_SIGNATURE@) {
            referenced_path(reported_summary(log@))
        } else {
            None
        },
{
    let summary = match yocto_error_summary(log) {
        Ok(summary) => summary,
        Err(_) => {
            return None;
        },
    };
    let summary = match trim_trailing_just_recipes(summary.as_str()) {
        Ok(summary) => summary,
        Err(_) => {
            return None;
        },
    };
    referenced_logfile(summary.as_str()).0
}

/// Reads the failure that a log reports. `logfile_contents` is what the log
/// file at [`yocto_logfile_path`] holds, or `None` where there is no such
/// file. A log without [`YOCTO_ERROR_SUMMARY_SIGNATURE`] is refused; a
/// summary that names no log file, or a file of no known task, gives
/// [`YoctoFailureKind::Misc`].
pub fn parse_yocto_error(log: &str, logfile_contents: Option<String>) -> (r: Result<
    YoctoError,
    ParseError,
>)
    ensures
        if contains(log@, YOCTO_ERROR_SUMMARY_SIGNATURE@) {
            r matches Ok(e) && e@ == yocto_error_of(log@, text_of(logfile_contents))
        } else {
            r matches Err(ParseError::MissingMarker)
        },
{
    let summary = match yocto_error_summary(log) {
        Ok(summary) => summary,
        Err(e) => {
            return Err(e);
        },
    };
    let summary = match trim_trailing_just_recipes(summary.as_str()) {
        Ok(summary) => summary,
        Err(e) => {
            return Err(e);
        },
    };
    let (_, name) = referenced_logfile(summary.as_str());
    let kind = match &name {
        Some(name) => match YoctoFailureKind::parse_from_logfilename(name.as_str()) {
            Ok(kind) => kind,
            Err(_) => YoctoFailureKind::Misc,
        },
        None => YoctoFailureKind::Misc,
    };
    let logfile = match (name, logfile_contents) {
        (Some(name), Some(contents)) => if contents.as_str().unicode_len() <= LOGFILE_MAX_LEN {
            Some(YoctoFailureLog { name, contents })
        } else {
            None
        },
        _ => None,
    };
    Ok(YoctoError::new(summary, kind, logfile))
}

} // verus!
