//! The search patterns of this library, compiled and run by the `regex`
//! crate.
//!
//! What a search finds is not worked out here: it is named by a function
//! without a body, and the contracts of the rest of the library speak of
//! those names.

use crate::error::ParseError;
use crate::text::texts;
use vstd::prelude::*;
use vstd::string::*;

verus! {

/// `regex::Regex`, a compiled pattern; opaque here.
#[verifier::external_type_specification]
#[verifier::external_body]
pub struct ExRegex(regex::Regex);

/// `regex::Error`, why a pattern did not compile; opaque here.
#[verifier::external_type_specification]
#[verifier::external_body]
pub struct ExRegexError(regex::Error);

/// What begins a line of a job's log: the name of the job, a tab, the name
/// of the step, a tab, then date and time up to the first space after them.
/// The names hold no tab, so the prefix ends where the rest of the line
/// begins, whatever the rest holds.
pub const LOG_PREFIX_PATTERN: &'static str =
    r"^(?P<failed_job>[^\t]*)\t(?P<failed_step>[^\t]*)\t(?P<timestamp>[0-9]{4}-[0-9]{2}-[0-9]{2})T[0-9]{2}:[0-9]{2}:[0-9]{2}[^ ]*Z ";

/// A path: letters, digits, `-`, `_`, `.` and `/`, with at least one `/`.
pub const PATH_PATTERN: &'static str = r"[a-zA-Z0-9-_.\/]+\/[a-zA-Z0-9-_.]+";

/// The line of a run summary that reports a failed job.
pub const FAILED_JOB_PATTERN: &'static str = r"X.*ID [0-9]*\)";

/// The identifier of a job within such a line.
pub const JOB_ID_PATTERN: &'static str = r"ID (?<JOB_ID>[0-9]*)";

/// What changes from run to run: a time stamp `YYYY-MM-DD HH:MM:SS`, or a
/// number of ten or eleven digits between two chars that are not letters.
pub const VOLATILE_PATTERN: &'static str =
    r"([0-9]{4}-[0-9]{2}-[0-9]{2}\x20[0-9]{2}:[0-9]{2}:[0-9]{2})|(?:[^[a-zA-Z]])([0-9]{10,11})(?:[^[a-zA-Z]])";

/// What the command-line tool of GitHub prints of its version.
pub const GH_CLI_VERSION_PATTERN: &'static str = r"gh version (?P<version>[0-9]+\.[0-9]+\.[0-9]+)";

/// A search pattern together with its compiled form. The compiled form is
/// always the one that the `regex` crate made of `source`: only [`compile`]
/// makes a `Pattern`.
pub struct Pattern {
    source: String,
    compiled: regex::Regex,
}

impl View for Pattern {
    type V = Seq<char>;

    /// The text of the pattern.
    closed spec fn view(&self) -> Seq<char> {
        self.source@
    }
}

/// Whether the text is a pattern that the `regex` crate compiles: whether
/// `Regex::new` returns a pattern for it.
pub uninterp spec fn compiles(source: Seq<char>) -> bool;

/// The first match of a pattern in a text, if there is one: the text that
/// `Regex::find` of the `regex` crate returns.
pub uninterp spec fn first_match(pattern: Seq<char>, text: Seq<char>) -> Option<Seq<char>>;

/// The matches of a pattern in a text, from left to right and without
/// overlap, each as the positions where it starts and ends, counted in chars:
/// what `Regex::find_iter` of the `regex` crate yields.
pub uninterp spec fn all_matches(pattern: Seq<char>, text: Seq<char>) -> Seq<(int, int)>;

/// The groups of the first match of a pattern in a text, if there is a match:
/// for each group of the pattern, the whole match first, the text it took, or
/// `None` where it took no part. It is what `Regex::captures` of the `regex`
/// crate returns.
pub uninterp spec fn captured(pattern: Seq<char>, text: Seq<char>) -> Option<
    Seq<Option<Seq<char>>>,
>;

/// The ranges lie within a text of `len` chars, each before the next.
pub open spec fn ranges_in_order(ranges: Seq<(int, int)>, len: int) -> bool {
    &&& forall|i: int|
        0 <= i < ranges.len() ==> 0 <= (#[trigger] ranges[i]).0 <= ranges[i].1 <= len
    &&& forall|i: int, j: int|
        0 <= i < j < ranges.len() ==> (#[trigger] ranges[i]).1 <= (#[trigger] ranges[j]).0
}

/// `found` holds the parts of `text` that the ranges cover, and the ranges
/// lie within the text, each before the next.
pub open spec fn found_at(text: Seq<char>, ranges: Seq<(int, int)>, found: Seq<Seq<char>>) -> bool {
    &&& ranges_in_order(ranges, text.len() as int)
    &&& found.len() == ranges.len()
    &&& forall|i: int|
        0 <= i < found.len() ==> #[trigger] found[i] == text.subrange(ranges[i].0, ranges[i].1)
}

/// `text` from `from` on, with `rep` in place of each of the ranges.
pub open spec fn spliced(text: Seq<char>, ranges: Seq<(int, int)>, rep: Seq<char>, from: int) -> Seq<
    char,
>
    decreases ranges.len(),
{
    if ranges.len() == 0 {
        text.subrange(from, text.len() as int)
    } else {
        text.subrange(from, ranges[0].0) + rep + spliced(
            text,
            ranges.drop_first(),
            rep,
            ranges[0].1,
        )
    }
}

/// Cutting ranges out of a text puts nothing in: where the ranges lie in the
/// text, each before the next, and none begins before `from`, what is left
/// of the text from `from` on is no longer than that part of the text.
pub proof fn spliced_with_nothing_is_no_longer(text: Seq<char>, ranges: Seq<(int, int)>, from: int)
    requires
        ranges_in_order(ranges, text.len() as int),
        0 <= from <= text.len(),
        ranges.len() > 0 ==> from <= ranges[0].0,
    ensures
        spliced(text, ranges, Seq::empty(), from).len() <= text.len() - from,
    decreases ranges.len(),
{
    if ranges.len() > 0 {
        let rest = ranges.drop_first();
        assert forall|i: int| 0 <= i < rest.len() implies 0 <= (#[trigger] rest[i]).0 <= rest[i].1
            <= text.len() by {
            assert(rest[i] == ranges[i + 1]);
        }
        assert forall|i: int, j: int| 0 <= i < j < rest.len() implies (#[trigger] rest[i]).1 <= (
        #[trigger] rest[j]).0 by {
            assert(rest[i] == ranges[i + 1]);
            assert(rest[j] == ranges[j + 1]);
        }
        if rest.len() > 0 {
            assert(rest[0] == ranges[1]);
        }
        spliced_with_nothing_is_no_longer(text, rest, ranges[0].1);
    }
}

/// `text` with `rep` in place of the first match of `pattern`.
pub open spec fn first_replaced(pattern: Seq<char>, text: Seq<char>, rep: Seq<char>) -> Seq<char> {
    let found = all_matches(pattern, text);
    if found.len() == 0 {
        text
    } else {
        spliced(text, seq![found[0]], rep, 0)
    }
}

/// `text` with `rep` in place of every match of `pattern`.
pub open spec fn all_replaced(pattern: Seq<char>, text: Seq<char>, rep: Seq<char>) -> Seq<char> {
    spliced(text, all_matches(pattern, text), rep, 0)
}

/// `out` is `text` with `rep` in place of the first of the ranges, or `text`
/// where there is none; and the ranges lie in the text, each before the next.
pub open spec fn replaced_first_of(
    text: Seq<char>,
    ranges: Seq<(int, int)>,
    rep: Seq<char>,
    out: Seq<char>,
) -> bool {
    &&& ranges_in_order(ranges, text.len() as int)
    &&& out == if ranges.len() == 0 {
        text
    } else {
        spliced(text, seq![ranges[0]], rep, 0)
    }
}

/// `out` is `text` with `rep` in place of each of the ranges; and the ranges
/// lie in the text, each before the next.
pub open spec fn replaced_each_of(
    text: Seq<char>,
    ranges: Seq<(int, int)>,
    rep: Seq<char>,
    out: Seq<char>,
) -> bool {
    &&& ranges_in_order(ranges, text.len() as int)
    &&& out == spliced(text, ranges, rep, 0)
}

/// The text of each group of a list, where there is one.
pub open spec fn group_texts(groups: Seq<Option<String>>) -> Seq<Option<Seq<char>>> {
    Seq::new(
        groups.len(),
        |i: int|
            match groups[i] {
                Some(text) => Some(text@),
                None => None,
            },
    )
}

/// `Regex::new` compiles a pattern or says why it cannot; whether it can
/// depends on the text of the pattern alone and carries the name
/// [`compiles`]. A pattern that comes back holds the text it was made of.
#[verifier::external_body]
fn compile(source: &str) -> (r: Result<Pattern, regex::Error>)
    ensures
        r is Ok <==> compiles(source@),
        r matches Ok(p) ==> p@ == source@,
{
    regex::Regex::new(source).map(|re| Pattern { source: source.to_owned(), compiled: re })
}

/// `Regex::find` returns the leftmost match in the text; it is a part of
/// that text.
#[verifier::external_body]
pub(crate) fn find_first(pattern: &Pattern, text: &str) -> (r: Option<String>)
    ensures
        r is Some <==> first_match(pattern@, text@) is Some,
        r matches Some(m) ==> first_match(pattern@, text@) == Some(m@) && crate::text::contains(
            text@,
            m@,
        ),
{
    pattern.compiled.find(text).map(|m| m.as_str().to_owned())
}

/// `Regex::find_iter` yields the successive matches that do not overlap, from
/// left to right; each is handed out as the part of the text that it covers.
#[verifier::external_body]
pub(crate) fn find_all(pattern: &Pattern, text: &str) -> (r: Vec<String>)
    ensures
        found_at(text@, all_matches(pattern@, text@), texts(r@)),
{
    pattern.compiled.find_iter(text).map(|m| m.as_str().to_owned()).collect()
}

/// `Regex::captures` returns the groups of the leftmost match: one entry for
/// each group of the pattern, the first of them the whole match.
#[verifier::external_body]
pub(crate) fn capture(pattern: &Pattern, text: &str) -> (r: Option<Vec<Option<String>>>)
    ensures
        r is Some <==> captured(pattern@, text@) is Some,
        r matches Some(groups) ==> captured(pattern@, text@) == Some(group_texts(groups@)),
{
    pattern.compiled.captures(text).map(
        |caps| caps.iter().map(|group| group.map(|m| m.as_str().to_owned())).collect(),
    )
}

/// `Regex::replace` with a replacement that holds no `$`: the text with the
/// replacement in place of the first of the matches that `Regex::find_iter`
/// yields, or the text as it is where there is none. Those matches lie in
/// the text, each before the next.
#[verifier::external_body]
pub(crate) fn replace_first(pattern: &Pattern, text: &str, rep: &str) -> (r: String)
    requires
        !rep@.contains('$'),
    ensures
        replaced_first_of(text@, all_matches(pattern@, text@), rep@, r@),
{
    pattern.compiled.replace(text, rep).into_owned()
}

/// `Regex::replace_all` with a replacement that holds no `$`: the text with
/// the replacement in place of each of the matches that `Regex::find_iter`
/// yields. Those matches lie in the text, each before the next.
#[verifier::external_body]
pub(crate) fn replace_every(pattern: &Pattern, text: &str, rep: &str) -> (r: String)
    requires
        !rep@.contains('$'),
    ensures
        replaced_each_of(text@, all_matches(pattern@, text@), rep@, r@),
{
    pattern.compiled.replace_all(text, rep).into_owned()
}

impl Pattern {
    /// Compiles a pattern. A text that [`compiles`] gives the pattern of that
    /// text; any other comes back in the error.
    pub fn new(source: &str) -> (r: Result<Pattern, ParseError>)
        ensures
            if compiles(source@) {
                r matches Ok(p) && p@ == source@
            } else {
                r matches Err(ParseError::InvalidPattern(s)) && s@ == source@
            },
    {
        match compile(source) {
            Ok(p) => Ok(p),
            Err(_) => Err(ParseError::InvalidPattern(String::from_str(source))),
        }
    }

    /// The text of the pattern.
    pub fn source(&self) -> (s: &str)
        ensures
            s@ == self@,
    {
        self.source.as_str()
    }
}

/// The first of the patterns of the library that does not compile, in the
/// order in which they are compiled; `None` where all of them compile.
pub open spec fn first_refused() -> Option<Seq<char>> {
    if !compiles(LOG_PREFIX_PATTERN@) {
        Some(LOG_PREFIX_PATTERN@)
    } else if !compiles(PATH_PATTERN@) {
        Some(PATH_PATTERN@)
    } else if !compiles(FAILED_JOB_PATTERN@) {
        Some(FAILED_JOB_PATTERN@)
    } else if !compiles(JOB_ID_PATTERN@) {
        Some(JOB_ID_PATTERN@)
    } else if !compiles(VOLATILE_PATTERN@) {
        Some(VOLATILE_PATTERN@)
    } else if !compiles(GH_CLI_VERSION_PATTERN@) {
        Some(GH_CLI_VERSION_PATTERN@)
    } else {
        None
    }
}

/// The compiled patterns of the library, made once and handed to the
/// functions that search with them.
pub struct Patterns {
    log_prefix: Pattern,
    path: Pattern,
    failed_job: Pattern,
    job_id: Pattern,
    volatile: Pattern,
    gh_cli_version: Pattern,
}

impl Patterns {
    /// Each pattern is the one its name says.
    #[verifier::type_invariant]
    pub closed spec fn well_formed(&self) -> bool {
        &&& self.log_prefix@ == LOG_PREFIX_PATTERN@
        &&& self.path@ == PATH_PATTERN@
        &&& self.failed_job@ == FAILED_JOB_PATTERN@
        &&& self.job_id@ == JOB_ID_PATTERN@
        &&& self.volatile@ == VOLATILE_PATTERN@
        &&& self.gh_cli_version@ == GH_CLI_VERSION_PATTERN@
    }

    /// Compiles the patterns of the library. It succeeds exactly when each of
    /// them compiles; otherwise the error holds the first, in the order of
    /// [`first_refused`], that does not.
    pub fn new() -> (r: Result<Patterns, ParseError>)
        ensures
            r is Ok <==> (compiles(LOG_PREFIX_PATTERN@) && compiles(PATH_PATTERN@) && compiles(
                FAILED_JOB_PATTERN@,
            ) && compiles(JOB_ID_PATTERN@) && compiles(VOLATILE_PATTERN@) && compiles(
                GH_CLI_VERSION_PATTERN@,
            )),
            match first_refused() {
                None => r matches Ok(patterns) && patterns.well_formed(),
                Some(source) => r matches Err(ParseError::InvalidPattern(s)) && s@ == source,
            },
    {
        let log_prefix = match Pattern::new(LOG_PREFIX_PATTERN) {
            Ok(p) => p,
            Err(e) => {
                return Err(e);
            },
        };
        let path = match Pattern::new(PATH_PATTERN) {
            Ok(p) => p,
            Err(e) => {
                return Err(e);
            },
        };
        let failed_job = match Pattern::new(FAILED_JOB_PATTERN) {
            Ok(p) => p,
            Err(e) => {
                return Err(e);
            },
        };
        let job_id = match Pattern::new(JOB_ID_PATTERN) {
            Ok(p) => p,
            Err(e) => {
                return Err(e);
            },
        };
        let volatile = match Pattern::new(VOLATILE_PATTERN) {
            Ok(p) => p,
            Err(e) => {
                return Err(e);
            },
        };
        let gh_cli_version = match Pattern::new(GH_CLI_VERSION_PATTERN) {
            Ok(p) => p,
            Err(e) => {
                return Err(e);
            },
        };
        Ok(Patterns { log_prefix, path, failed_job, job_id, volatile, gh_cli_version })
    }

    /// The pattern of the first line of a job's log.
    pub(crate) fn log_prefix(&self) -> (p: &Pattern)
        ensures
            p@ == LOG_PREFIX_PATTERN@,
    {
        proof {
            use_type_invariant(self);
        }
        &self.log_prefix
    }

    /// The pattern of a path.
    pub(crate) fn path(&self) -> (p: &Pattern)
        ensures
            p@ == PATH_PATTERN@,
    {
        proof {
            use_type_invariant(self);
        }
        &self.path
    }

    /// The pattern of a line that reports a failed job.
    pub(crate) fn failed_job(&self) -> (p: &Pattern)
        ensures
            p@ == FAILED_JOB_PATTERN@,
    {
        proof {
            use_type_invariant(self);
        }
        &self.failed_job
    }

    /// The pattern of a job's identifier.
    pub(crate) fn job_id(&self) -> (p: &Pattern)
        ensures
            p@ == JOB_ID_PATTERN@,
    {
        proof {
            use_type_invariant(self);
        }
        &self.job_id
    }

    /// The pattern of what the command-line tool prints of its version.
    pub(crate) fn gh_cli_version(&self) -> (p: &Pattern)
        ensures
            p@ == GH_CLI_VERSION_PATTERN@,
    {
        proof {
            use_type_invariant(self);
        }
        &self.gh_cli_version
    }

    /// The pattern of what changes from run to run.
    pub(crate) fn volatile(&self) -> (p: &Pattern)
        ensures
            p@ == VOLATILE_PATTERN@,
    {
        proof {
            use_type_invariant(self);
        }
        &self.volatile
    }
}

} // verus!
