//! The log of one failed job: the job, step and date that begin each of its
//! lines, and the log without them.

use crate::error::ParseError;
use crate::pattern::{
    all_matches, capture, captured, first_replaced, group_texts, ranges_in_order, replace_first,
    spliced, Patterns, LOG_PREFIX_PATTERN,
};
use crate::text::{
    chars_of, has_no_line_feed, lines_have_no_line_feed, lines_of, lines_of_unlines, rows,
    split_lines, string_of, unlines, without_cr,
};
use vstd::prelude::*;
use vstd::string::*;

verus! {

/// What an [`ErrLogPrefix`] holds.
pub struct ErrLogPrefixView {
    pub failed_job: Seq<char>,
    pub failed_step: Seq<char>,
    pub timestamp: Seq<char>,
}

/// What begins each line of a job's log: the job, the step, and the date as
/// `yyyy-mm-dd`.
#[derive(Debug)]
pub struct ErrLogPrefix {
    failed_job: String,
    failed_step: String,
    timestamp: String,
}

impl View for ErrLogPrefix {
    type V = ErrLogPrefixView;

    closed spec fn view(&self) -> ErrLogPrefixView {
        ErrLogPrefixView {
            failed_job: self.failed_job@,
            failed_step: self.failed_step@,
            timestamp: self.timestamp@,
        }
    }
}

impl ErrLogPrefix {
    /// A prefix of the given job, step and date.
    pub fn new(failed_job: String, failed_step: String, timestamp: String) -> (prefix: Self)
        ensures
            prefix@.failed_job == failed_job@,
            prefix@.failed_step == failed_step@,
            prefix@.timestamp == timestamp@,
    {
        Self { failed_job, failed_step, timestamp }
    }

    /// The name of the job that failed.
    pub fn failed_job(&self) -> (s: &str)
        ensures
            s@ == self@.failed_job,
    {
        self.failed_job.as_str()
    }

    /// The name of the step that failed.
    pub fn failed_step(&self) -> (s: &str)
        ensures
            s@ == self@.failed_step,
    {
        self.failed_step.as_str()
    }

    /// The date of the log, as `yyyy-mm-dd`.
    pub fn timestamp(&self) -> (s: &str)
        ensures
            s@ == self@.timestamp,
    {
        self.timestamp.as_str()
    }
}

/// The prefix that the groups of a match of [`LOG_PREFIX_PATTERN`] give: the
/// groups after the whole match are job, step and date, and all three must
/// have taken part.
pub open spec fn prefix_of_groups(groups: Seq<Option<Seq<char>>>) -> Option<ErrLogPrefixView> {
    if groups.len() == 4 && groups[1] is Some && groups[2] is Some && groups[3] is Some {
        Some(
            ErrLogPrefixView {
                failed_job: groups[1]->Some_0,
                failed_step: groups[2]->Some_0,
                timestamp: groups[3]->Some_0,
            },
        )
    } else {
        None
    }
}

/// The first line of a log, or the empty text where it has no line.
pub open spec fn first_line(raw_log: Seq<char>) -> Seq<char> {
    if lines_of(raw_log).len() == 0 {
        Seq::empty()
    } else {
        lines_of(raw_log)[0]
    }
}

/// The prefix that the first line of a log gives, if that line has the form
/// of [`LOG_PREFIX_PATTERN`].
pub open spec fn log_prefix(raw_log: Seq<char>) -> Option<ErrLogPrefixView> {
    if lines_of(raw_log).len() == 0 {
        None
    } else {
        match captured(LOG_PREFIX_PATTERN@, lines_of(raw_log)[0]) {
            Some(groups) => prefix_of_groups(groups),
            None => None,
        }
    }
}

/// A line without its prefix: the line without the first match of
/// [`LOG_PREFIX_PATTERN`], or the line as it is where it has none.
pub open spec fn stripped_line(line: Seq<char>) -> Seq<char> {
    first_replaced(LOG_PREFIX_PATTERN@, line, Seq::empty())
}

/// Each of the lines without its prefix.
pub open spec fn stripped_lines(lines: Seq<Seq<char>>) -> Seq<Seq<char>> {
    Seq::new(lines.len(), |i: int| stripped_line(lines[i]))
}

/// A log without the prefix of each line: the lines in their order, each
/// without its prefix and with a line feed after it.
pub open spec fn stripped_log(raw_log: Seq<char>) -> Seq<char> {
    unlines(stripped_lines(lines_of(raw_log)))
}

/// In each of the lines the matches of [`LOG_PREFIX_PATTERN`] lie within the
/// line, each before the next.
pub open spec fn matches_in_order(lines: Seq<Seq<char>>) -> bool {
    forall|i: int|
        0 <= i < lines.len() ==> ranges_in_order(
            all_matches(LOG_PREFIX_PATTERN@, #[trigger] lines[i]),
            lines[i].len() as int,
        )
}

/// Stripping a line puts nothing in: the stripped line is no longer than the
/// line, and holds no line feed where the line holds none.
pub proof fn stripped_line_adds_nothing(line: Seq<char>)
    requires
        ranges_in_order(all_matches(LOG_PREFIX_PATTERN@, line), line.len() as int),
    ensures
        stripped_line(line).len() <= line.len(),
        has_no_line_feed(line) ==> has_no_line_feed(stripped_line(line)),
{
    let found = all_matches(LOG_PREFIX_PATTERN@, line);
    if found.len() > 0 {
        let first = seq![found[0]];
        let (start, end) = found[0];
        assert(first.drop_first() == Seq::<(int, int)>::empty());
        assert(spliced(line, first.drop_first(), Seq::empty(), end) == line.subrange(
            end,
            line.len() as int,
        ));
        assert(stripped_line(line) == line.subrange(0, start) + Seq::<char>::empty()
            + line.subrange(end, line.len() as int));
        if has_no_line_feed(line) {
            assert forall|k: int| 0 <= k < stripped_line(line).len() implies stripped_line(
                line,
            )[k] != '\n' by {
                if k < start {
                    assert(stripped_line(line)[k] == line[k]);
                } else {
                    assert(stripped_line(line)[k] == line[k - start + end]);
                }
            }
        }
    }
}

/// Stripping keeps the number and the order of the lines, whatever the lines
/// hold: the lines of the stripped log are the stripped lines of the log,
/// each without the carriage return that may end it.
pub proof fn stripped_log_has_the_stripped_lines(raw_log: Seq<char>)
    requires
        matches_in_order(lines_of(raw_log)),
    ensures
        lines_of(stripped_log(raw_log)) == Seq::new(
            lines_of(raw_log).len(),
            |i: int| without_cr(stripped_line(lines_of(raw_log)[i])),
        ),
{
    let lines = lines_of(raw_log);
    let stripped = stripped_lines(lines);
    lines_have_no_line_feed(raw_log);
    assert forall|i: int| 0 <= i < stripped.len() implies has_no_line_feed(
        #[trigger] stripped[i],
    ) by {
        assert(has_no_line_feed(lines[i]));
        stripped_line_adds_nothing(lines[i]);
    }
    lines_of_unlines(stripped);
}

/// The line begins with a prefix that ends before position `end`: the first
/// match of [`LOG_PREFIX_PATTERN`] in it covers the chars before `end`.
pub open spec fn begins_with_prefix(line: Seq<char>, end: int) -> bool {
    &&& 0 <= end <= line.len()
    &&& all_matches(LOG_PREFIX_PATTERN@, line).len() > 0
    &&& all_matches(LOG_PREFIX_PATTERN@, line)[0] == (0int, end)
}

/// What is left of each line after its prefix, the prefix of the `i`-th line
/// ending before position `ends[i]`.
pub open spec fn rests_of_lines(lines: Seq<Seq<char>>, ends: Seq<int>) -> Seq<Seq<char>> {
    Seq::new(lines.len(), |i: int| lines[i].subrange(ends[i], lines[i].len() as int))
}

/// A line that begins with a prefix is stripped to what follows the prefix.
pub proof fn stripped_line_is_the_rest(line: Seq<char>, end: int)
    requires
        begins_with_prefix(line, end),
    ensures
        stripped_line(line) == line.subrange(end, line.len() as int),
{
    let first = seq![all_matches(LOG_PREFIX_PATTERN@, line)[0]];
    assert(spliced(line, first.drop_first(), Seq::empty(), end) == line.subrange(
        end,
        line.len() as int,
    ));
}

/// Where every line of a log begins with a prefix, the stripped log is
/// exactly what follows the prefix in each line, line for line and in the
/// same order, with a line feed after every line.
pub proof fn stripped_log_is_the_rest_of_each_line(raw_log: Seq<char>, ends: Seq<int>)
    requires
        ends.len() == lines_of(raw_log).len(),
        forall|i: int|
            0 <= i < ends.len() ==> begins_with_prefix(#[trigger] lines_of(raw_log)[i], ends[i]),
    ensures
        stripped_log(raw_log) == unlines(rests_of_lines(lines_of(raw_log), ends)),
{
    let lines = lines_of(raw_log);
    assert forall|i: int| 0 <= i < lines.len() implies stripped_lines(lines)[i] == rests_of_lines(
        lines,
        ends,
    )[i] by {
        stripped_line_is_the_rest(lines[i], ends[i]);
    }
    assert(stripped_lines(lines) =~= rests_of_lines(lines, ends));
}

/// Where every line of a log begins with a prefix, stripping keeps the
/// number and the order of the lines: the lines of the stripped log are what
/// follows the prefix in the lines of the log, each without the carriage
/// return that may end it.
pub proof fn stripped_log_keeps_the_lines(raw_log: Seq<char>, ends: Seq<int>)
    requires
        ends.len() == lines_of(raw_log).len(),
        forall|i: int|
            0 <= i < ends.len() ==> begins_with_prefix(#[trigger] lines_of(raw_log)[i], ends[i]),
    ensures
        lines_of(stripped_log(raw_log)) == Seq::new(
            lines_of(raw_log).len(),
            |i: int| without_cr(rests_of_lines(lines_of(raw_log), ends)[i]),
        ),
{
    let lines = lines_of(raw_log);
    let rests = rests_of_lines(lines, ends);
    stripped_log_is_the_rest_of_each_line(raw_log, ends);
    lines_have_no_line_feed(raw_log);
    assert forall|i: int| 0 <= i < rests.len() implies has_no_line_feed(#[trigger] rests[i]) by {
        assert(has_no_line_feed(lines[i]));
        assert(begins_with_prefix(lines[i], ends[i]));
    }
    lines_of_unlines(rests);
}

/// Makes the prefix from the groups of a match of [`LOG_PREFIX_PATTERN`].
pub fn prefix_from_groups(groups: &Vec<Option<String>>) -> (r: Option<ErrLogPrefix>)
    ensures
        match prefix_of_groups(group_texts(groups@)) {
            Some(prefix) => r matches Some(p) && p@ == prefix,
            None => r is None,
        },
{
    if groups.len() != 4 {
        return None;
    }
    match (&groups[1], &groups[2], &groups[3]) {
        (Some(job), Some(step), Some(date)) => Some(
            ErrLogPrefix::new(job.clone(), step.clone(), date.clone()),
        ),
        _ => None,
    }
}

/// What an [`ErrorLog`] holds.
pub struct ErrorLogView {
    pub job_id: Seq<char>,
    pub no_prefix_log: Seq<char>,
    pub prefix: ErrLogPrefixView,
}

/// The log of a failed job.
#[derive(Debug)]
pub struct ErrorLog {
    job_id: String,
    no_prefix_log: String,
    prefix: ErrLogPrefix,
}

impl View for ErrorLog {
    type V = ErrorLogView;

    closed spec fn view(&self) -> ErrorLogView {
        ErrorLogView {
            job_id: self.job_id@,
            no_prefix_log: self.no_prefix_log@,
            prefix: self.prefix@,
        }
    }
}

impl ErrorLog {
    /// Reads the log of a job. The first line must have the form of
    /// [`LOG_PREFIX_PATTERN`] and gives job, step and date; the log is kept
    /// without the prefix of each line. A log whose first line has another
    /// form, or that has no line, is refused with that line. The log that is
    /// kept has as many lines as the raw log, in the same order, and each is
    /// its line with at most one part taken out.
    pub fn new(patterns: &Patterns, job_id: String, raw_log: String) -> (r: Result<
        Self,
        ParseError,
    >)
        ensures
            r matches Ok(log) ==> matches_in_order(lines_of(raw_log@)) && lines_of(
                log@.no_prefix_log,
            ) == Seq::new(
                lines_of(raw_log@).len(),
                |i: int| without_cr(stripped_line(lines_of(raw_log@)[i])),
            ),
            match log_prefix(raw_log@) {
                Some(prefix) => r matches Ok(log) && log@ == (ErrorLogView {
                    job_id: job_id@,
                    no_prefix_log: stripped_log(raw_log@),
                    prefix,
                }),
                None => r matches Err(ParseError::MalformedInput(line)) && line@ == first_line(
                    raw_log@,
                ),
            },
    {
        let chars = chars_of(raw_log.as_str());
        let lines = split_lines(&chars);
        if lines.len() == 0 {
            return Err(ParseError::MalformedInput(String::new()));
        }
        let pattern = patterns.log_prefix();
        let first = string_of(&lines[0]);
        let prefix = match capture(pattern, first.as_str()) {
            Some(groups) => match prefix_from_groups(&groups) {
                Some(prefix) => prefix,
                None => {
                    return Err(ParseError::MalformedInput(first));
                },
            },
            None => {
                return Err(ParseError::MalformedInput(first));
            },
        };
        proof {
            reveal_strlit("");
        }
        let ghost stripped = stripped_lines(rows(lines@));
        let mut no_prefix_log = String::new();
        let mut i: usize = 0;
        while i < lines.len()
            invariant
                i <= lines.len(),
                pattern@ == LOG_PREFIX_PATTERN@,
                ""@.len() == 0,
                stripped == stripped_lines(rows(lines@)),
                no_prefix_log@ == unlines(stripped.take(i as int)),
                matches_in_order(rows(lines@).take(i as int)),
            decreases lines.len() - i,
        {
            let line = string_of(&lines[i]);
            let rest = replace_first(pattern, line.as_str(), "");
            assert(""@ == Seq::<char>::empty());
            no_prefix_log.append(rest.as_str());
            no_prefix_log.push('\n');
            assert(stripped.take(i + 1).drop_last() == stripped.take(i as int));
            assert(matches_in_order(rows(lines@).take(i + 1))) by {
                assert forall|k: int| 0 <= k < i + 1 implies ranges_in_order(
                    all_matches(LOG_PREFIX_PATTERN@, #[trigger] rows(lines@).take(i + 1)[k]),
                    rows(lines@).take(i + 1)[k].len() as int,
                ) by {
                    if k < i {
                        assert(rows(lines@).take(i as int)[k] == rows(lines@).take(i + 1)[k]);
                    }
                }
            }
            i += 1;
        }
        assert(stripped.take(lines.len() as int) == stripped);
        assert(rows(lines@).take(lines.len() as int) == rows(lines@));
        proof {
            stripped_log_has_the_stripped_lines(raw_log@);
        }
        Ok(Self { job_id, no_prefix_log, prefix })
    }

    /// The identifier of the job.
    pub fn job_id(&self) -> (s: &str)
        ensures
            s@ == self@.job_id,
    {
        self.job_id.as_str()
    }

    /// The log without the prefix of each line.
    pub fn no_prefix_log(&self) -> (s: &str)
        ensures
            s@ == self@.no_prefix_log,
    {
        self.no_prefix_log.as_str()
    }

    /// The name of the job that failed.
    pub fn failed_job(&self) -> (s: &str)
        ensures
            s@ == self@.prefix.failed_job,
    {
        self.prefix.failed_job()
    }

    /// The name of the step that failed.
    pub fn failed_step(&self) -> (s: &str)
        ensures
            s@ == self@.prefix.failed_step,
    {
        self.prefix.failed_step()
    }

    /// The date of the log, as `yyyy-mm-dd`.
    pub fn timestamp(&self) -> (s: &str)
        ensures
            s@ == self@.prefix.timestamp,
    {
        self.prefix.timestamp()
    }
}

} // verus!
