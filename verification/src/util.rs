//! Reading the summary of a run, masking what changes from run to run,
//! finding a path in a text, and writing a repository's address in one form.

use crate::error::ParseError;
use crate::pattern::{
    all_matches, all_replaced, capture, captured, find_all, find_first, first_match, found_at,
    group_texts, ranges_in_order, replace_every, spliced_with_nothing_is_no_longer, Patterns, FAILED_JOB_PATTERN, JOB_ID_PATTERN, PATH_PATTERN,
    VOLATILE_PATTERN,
};
use crate::text::{
    chars_of, contains, matches_at, replace_all, replaced, starts_with, string_of,
    string_of_range, texts,
};
use vstd::prelude::*;
use vstd::string::*;

verus! {

/// The first path in a text: the first match of [`PATH_PATTERN`], which is a
/// part of the text. A text without one is refused.
pub fn first_path_from_str(patterns: &Patterns, s: &str) -> (r: Result<String, ParseError>)
    ensures
        match first_match(PATH_PATTERN@, s@) {
            Some(path) => r matches Ok(p) && p@ == path && contains(s@, path),
            None => r matches Err(ParseError::PathUnresolved(text)) && text@ == s@,
        },
{
    match find_first(patterns.path(), s) {
        Some(path) => Ok(path),
        None => Err(ParseError::PathUnresolved(String::from_str(s))),
    }
}

/// The lines of a run's summary that report a failed job: the matches of
/// [`FAILED_JOB_PATTERN`], in the order in which they stand in the summary.
pub fn take_lines_with_failed_jobs(patterns: &Patterns, output: String) -> (lines: Vec<String>)
    ensures
        found_at(output@, all_matches(FAILED_JOB_PATTERN@, output@), texts(lines@)),
{
    find_all(patterns.failed_job(), output.as_str())
}

/// The identifier that the groups of a match of [`JOB_ID_PATTERN`] give: the
/// one group after the whole match.
pub open spec fn job_id_of_groups(groups: Seq<Option<Seq<char>>>) -> Option<Seq<char>> {
    if groups.len() == 2 {
        groups[1]
    } else {
        None
    }
}

/// The identifier of the job that a line reports, if the line holds one.
pub open spec fn job_id_of(line: Seq<char>) -> Option<Seq<char>> {
    match captured(JOB_ID_PATTERN@, line) {
        Some(groups) => job_id_of_groups(groups),
        None => None,
    }
}

/// Picks the identifier from the groups of a match of [`JOB_ID_PATTERN`].
pub fn job_id_from_groups(groups: &Vec<Option<String>>) -> (r: Option<String>)
    ensures
        match job_id_of_groups(group_texts(groups@)) {
            Some(id) => r matches Some(s) && s@ == id,
            None => r is None,
        },
{
    if groups.len() != 2 {
        return None;
    }
    match &groups[1] {
        Some(id) => Some(id.clone()),
        None => None,
    }
}

/// The identifier of the job that a line reports, if the line holds one.
pub fn job_id_of_line(patterns: &Patterns, line: &str) -> (r: Option<String>)
    ensures
        match job_id_of(line@) {
            Some(id) => r matches Some(s) && s@ == id,
            None => r is None,
        },
{
    match capture(patterns.job_id(), line) {
        Some(groups) => job_id_from_groups(&groups),
        None => None,
    }
}

/// The identifiers of the jobs that the lines report, line by line. Each line
/// must hold one.
pub fn id_from_job_lines(patterns: &Patterns, lines: &[String]) -> (ids: Vec<String>)
    requires
        forall|i: int| 0 <= i < lines@.len() ==> job_id_of(#[trigger] lines@[i]@) is Some,
    ensures
        ids@.len() == lines@.len(),
        forall|i: int| 0 <= i < ids@.len() ==> Some(#[trigger] ids@[i]@) == job_id_of(lines@[i]@),
{
    let mut ids: Vec<String> = Vec::new();
    let mut i: usize = 0;
    while i < lines.len()
        invariant
            i <= lines@.len(),
            ids@.len() == i,
            forall|k: int| 0 <= k < lines@.len() ==> job_id_of(#[trigger] lines@[k]@) is Some,
            forall|k: int| 0 <= k < i ==> Some(#[trigger] ids@[k]@) == job_id_of(lines@[k]@),
        decreases lines@.len() - i,
    {
        if let Some(id) = job_id_of_line(patterns, lines[i].as_str()) {
            ids.push(id);
        }
        i += 1;
    }
    ids
}

/// The lines that report a failed job in a run's summary.
pub open spec fn failed_job_lines(summary: Seq<char>) -> Seq<Seq<char>> {
    Seq::new(
        all_matches(FAILED_JOB_PATTERN@, summary).len(),
        |i: int|
            summary.subrange(
                all_matches(FAILED_JOB_PATTERN@, summary)[i].0,
                all_matches(FAILED_JOB_PATTERN@, summary)[i].1,
            ),
    )
}

/// The first of the lines that holds no job identifier, if there is one.
pub open spec fn first_without_id(lines: Seq<Seq<char>>) -> Option<int>
    decreases lines.len(),
{
    if lines.len() == 0 {
        None
    } else if first_without_id(lines.drop_last()) is Some {
        first_without_id(lines.drop_last())
    } else if job_id_of(lines.last()) is None {
        Some(lines.len() - 1)
    } else {
        None
    }
}

/// [`first_without_id`] finds a line without an identifier, the first one,
/// exactly when there is one.
pub proof fn first_without_id_is_first(lines: Seq<Seq<char>>)
    ensures
        match first_without_id(lines) {
            Some(at) => 0 <= at < lines.len() && job_id_of(lines[at]) is None && forall|k: int|
                0 <= k < at ==> job_id_of(#[trigger] lines[k]) is Some,
            None => forall|k: int| 0 <= k < lines.len() ==> job_id_of(#[trigger] lines[k]) is Some,
        },
    decreases lines.len(),
{
    if lines.len() > 0 {
        first_without_id_is_first(lines.drop_last());
        assert(forall|k: int| 0 <= k < lines.len() - 1 ==> lines.drop_last()[k] == lines[k]);
    }
}

/// The line of a run's summary that reports a failed job and holds no
/// identifier, the first such line, if there is one.
pub open spec fn first_line_without_id(summary: Seq<char>) -> Option<Seq<char>> {
    match first_without_id(failed_job_lines(summary)) {
        Some(at) => Some(failed_job_lines(summary)[at]),
        None => None,
    }
}

/// The identifiers of the failed jobs of a run, in the order in which its
/// summary reports them; `None` where a line that reports a failed job holds
/// no identifier.
pub open spec fn failed_job_ids(summary: Seq<char>) -> Option<Seq<Seq<char>>> {
    if first_without_id(failed_job_lines(summary)) is Some {
        None
    } else {
        Some(
            Seq::new(
                failed_job_lines(summary).len(),
                |i: int| job_id_of(failed_job_lines(summary)[i])->Some_0,
            ),
        )
    }
}

/// Reading the same summary again gives the same identifiers in the same
/// order: whatever two readings return is what [`failed_job_ids`] says of
/// the summary.
pub proof fn failed_job_ids_repeat(
    summary: Seq<char>,
    first: Option<Seq<Seq<char>>>,
    second: Option<Seq<Seq<char>>>,
)
    requires
        first == failed_job_ids(summary),
        second == failed_job_ids(summary),
    ensures
        first == second,
{
}

/// The identifiers of the failed jobs of a run, in the order in which its
/// summary reports them. A line that reports a failed job and holds no
/// identifier is refused: the summary does not have the form it must have.
pub fn extract_failed_job_ids(patterns: &Patterns, run_summary: &str) -> (r: Result<
    Vec<String>,
    ParseError,
>)
    ensures
        match failed_job_ids(run_summary@) {
            Some(ids) => r matches Ok(found) && texts(found@) == ids,
            None => r matches Err(ParseError::MalformedInput(line)) && Some(line@)
                == first_line_without_id(run_summary@),
        },
{
    let lines = take_lines_with_failed_jobs(patterns, String::from_str(run_summary));
    let mut i: usize = 0;
    while i < lines.len()
        invariant
            i <= lines.len(),
            texts(lines@) == failed_job_lines(run_summary@),
            first_without_id(texts(lines@).take(i as int)) is None,
        decreases lines.len() - i,
    {
        let ghost upto = texts(lines@).take(i + 1);
        assert(upto.drop_last() == texts(lines@).take(i as int));
        if job_id_of_line(patterns, lines[i].as_str()).is_none() {
            proof {
                let all = texts(lines@);
                first_without_id_is_first(upto);
                first_without_id_is_first(all);
                assert(forall|k: int| 0 <= k <= i ==> upto[k] == all[k]);
            }
            return Err(ParseError::MalformedInput(lines[i].clone()));
        }
        i += 1;
    }
    assert(texts(lines@).take(lines.len() as int) == texts(lines@));
    proof {
        first_without_id_is_first(texts(lines@));
    }
    assert forall|k: int| 0 <= k < lines@.len() implies job_id_of(
        #[trigger] lines@[k]@,
    ) is Some by {
        assert(texts(lines@)[k] == lines@[k]@);
    }
    let ids = id_from_job_lines(patterns, lines.as_slice());
    Ok(ids)
}

/// A text without what changes from run to run: every match of
/// [`VOLATILE_PATTERN`] is taken out, with nothing in its place.
pub open spec fn normalized(text: Seq<char>) -> Seq<char> {
    all_replaced(VOLATILE_PATTERN@, text, Seq::empty())
}

/// A text in which [`VOLATILE_PATTERN`] finds nothing is its own normal
/// form.
pub proof fn normalized_without_matches(text: Seq<char>)
    requires
        all_matches(VOLATILE_PATTERN@, text).len() == 0,
    ensures
        normalized(text) == text,
{
}

/// Normalising a second time changes nothing, whenever the first time has
/// left nothing that [`VOLATILE_PATTERN`] finds.
pub proof fn normalized_twice(text: Seq<char>)
    requires
        all_matches(VOLATILE_PATTERN@, normalized(text)).len() == 0,
    ensures
        normalized(normalized(text)) == normalized(text),
{
    normalized_without_matches(normalized(text));
}

/// Takes the time stamps and the long numbers out of a text. What is taken
/// out lies in the text, one part after the other, and nothing is put in.
pub fn remove_timestamps(patterns: &Patterns, text: &str) -> (r: String)
    ensures
        r@ == normalized(text@),
        ranges_in_order(all_matches(VOLATILE_PATTERN@, text@), text@.len() as int),
        r@.len() <= text@.len(),
{
    proof {
        reveal_strlit("");
    }
    assert(""@ == Seq::<char>::empty());
    let r = replace_every(patterns.volatile(), text, "");
    proof {
        spliced_with_nothing_is_no_longer(text@, all_matches(VOLATILE_PATTERN@, text@), 0);
    }
    r
}

/// `text` from the first `c` on, or nothing where `c` does not occur.
pub open spec fn from_first(text: Seq<char>, c: char) -> Seq<char>
    decreases text.len(),
{
    if text.len() == 0 {
        Seq::empty()
    } else if text[0] == c {
        text
    } else {
        from_first(text.drop_first(), c)
    }
}

/// The absolute path in a text: all that follows the first `/`, that `/`
/// included. A text without `/` is refused.
pub fn first_abs_path_from_str(s: &str) -> (r: Result<String, ParseError>)
    ensures
        if s@.contains('/') {
            r matches Ok(path) && path@ == from_first(s@, '/')
        } else {
            r matches Err(ParseError::PathUnresolved(text)) && text@ == s@
        },
{
    let chars = chars_of(s);
    let mut i: usize = 0;
    assert(chars@.subrange(0, chars@.len() as int) == chars@);
    while i < chars.len()
        invariant
            i <= chars.len(),
            chars@ == s@,
            forall|k: int| 0 <= k < i ==> chars@[k] != '/',
            from_first(chars@, '/') == from_first(chars@.subrange(i as int, chars@.len() as int), '/'),
        decreases chars.len() - i,
    {
        if chars[i] == '/' {
            return Ok(string_of_range(&chars, i, chars.len()));
        }
        assert(chars@.subrange(i as int, chars@.len() as int).drop_first() == chars@.subrange(
            i + 1,
            chars@.len() as int,
        ));
        i += 1;
    }
    Err(ParseError::PathUnresolved(String::from_str(s)))
}

/// The address of a repository in the form `https://{host}/{repo}`. An
/// address that begins with `https://{host}/` stays as it is; in one that
/// begins with `https://`, that is replaced by `https://{host}/`; in one that
/// begins with `{host}/`, that is replaced by `https://{host}/`; any other
/// gets `https://{host}/` in front.
pub open spec fn canonical_repo_url(repo: Seq<char>, host: Seq<char>) -> Seq<char> {
    let prefix = "https://"@ + host + "/"@;
    if starts_with(repo, "https://"@) {
        if starts_with(repo, prefix) {
            repo
        } else {
            replaced(repo, "https://"@, prefix)
        }
    } else if starts_with(repo, host + "/"@) {
        replaced(repo, host + "/"@, prefix)
    } else {
        prefix + repo
    }
}

/// Writes the address of a repository in the form `https://{host}/{repo}`.
pub fn canonicalize_repo_url(repo: &str, host: &str) -> (url: String)
    ensures
        url@ == canonical_repo_url(repo@, host@),
{
    let repo_chars = chars_of(repo);
    let scheme = chars_of("https://");
    let mut host_slash = chars_of(host);
    let slash = chars_of("/");
    host_slash.extend_from_slice(slash.as_slice());
    let mut prefix = chars_of("https://");
    prefix.extend_from_slice(host_slash.as_slice());
    assert(prefix@ == "https://"@ + host@ + "/"@);
    if matches_at(&repo_chars, &scheme, 0) {
        if matches_at(&repo_chars, &prefix, 0) {
            String::from_str(repo)
        } else {
            string_of(&replace_all(&repo_chars, &scheme, &prefix))
        }
    } else if matches_at(&repo_chars, &host_slash, 0) {
        string_of(&replace_all(&repo_chars, &host_slash, &prefix))
    } else {
        prefix.extend_from_slice(repo_chars.as_slice());
        string_of(&prefix)
    }
}

} // verus!
