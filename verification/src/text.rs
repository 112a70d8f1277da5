//! Text as sequences of `char`: searching, splitting into lines, trimming and
//! replacing, each with its mathematical definition.

use vstd::prelude::*;

verus! {

/// Whether a char is white space: whether it has the property `White_Space`
/// of Unicode, which these twenty-five chars have.
pub open spec fn is_whitespace(c: char) -> bool {
    let code = c as u32;
    ||| 0x0009 <= code <= 0x000D
    ||| code == 0x0020
    ||| code == 0x0085
    ||| code == 0x00A0
    ||| code == 0x1680
    ||| 0x2000 <= code <= 0x200A
    ||| code == 0x2028
    ||| code == 0x2029
    ||| code == 0x202F
    ||| code == 0x205F
    ||| code == 0x3000
}

/// `char::is_whitespace` tells whether the char has the property
/// `White_Space` of Unicode.
pub assume_specification[ char::is_whitespace ](c: char) -> (b: bool)
    ensures
        b == is_whitespace(c),
;

/// `String::push` appends the given char to the end of the string.
pub assume_specification[ String::push ](s: &mut String, c: char)
    ensures
        final(s)@ == old(s)@.push(c),
;

/// The chars of a string, in order.
pub fn chars_of(s: &str) -> (chars: Vec<char>)
    ensures
        chars@ == s@,
{
    let mut chars: Vec<char> = Vec::new();
    for c in it: s.chars()
        invariant
            chars@ == it.seq().take(it.index()),
            it.seq() == s@,
    {
        chars.push(c);
    }
    chars
}

/// The string made of `chars[from..to]`.
pub fn string_of_range(chars: &Vec<char>, from: usize, to: usize) -> (s: String)
    requires
        from <= to <= chars.len(),
    ensures
        s@ == chars@.subrange(from as int, to as int),
{
    let mut s = String::new();
    let mut i: usize = from;
    while i < to
        invariant
            from <= i <= to <= chars.len(),
            s@ == chars@.subrange(from as int, i as int),
        decreases to - i,
    {
        s.push(chars[i]);
        i += 1;
    }
    s
}

/// The string made of all of `chars`.
pub fn string_of(chars: &Vec<char>) -> (s: String)
    ensures
        s@ == chars@,
{
    let s = string_of_range(chars, 0, chars.len());
    s
}

/// `pat` stands in `text` at position `at`.
pub open spec fn occurs_at(text: Seq<char>, pat: Seq<char>, at: int) -> bool {
    &&& 0 <= at
    &&& at + pat.len() <= text.len()
    &&& text.subrange(at, at + pat.len()) =~= pat
}

/// `text` begins with `pat`.
pub open spec fn starts_with(text: Seq<char>, pat: Seq<char>) -> bool {
    occurs_at(text, pat, 0)
}

/// `pat` stands somewhere in `text`.
pub open spec fn contains(text: Seq<char>, pat: Seq<char>) -> bool {
    exists|at: int| occurs_at(text, pat, at)
}

/// The least position at or after `from` where `pat` stands in `text`.
pub open spec fn first_occurrence(text: Seq<char>, pat: Seq<char>, from: int) -> Option<int>
    decreases text.len() - from,
{
    if from < 0 || from + pat.len() > text.len() {
        None
    } else if occurs_at(text, pat, from) {
        Some(from)
    } else {
        first_occurrence(text, pat, from + 1)
    }
}

/// [`first_occurrence`] finds an occurrence, the least one, exactly when
/// there is one at or after `from`.
pub proof fn first_occurrence_is_least(text: Seq<char>, pat: Seq<char>, from: int)
    requires
        0 <= from,
    ensures
        match first_occurrence(text, pat, from) {
            Some(at) => from <= at && occurs_at(text, pat, at) && forall|j: int|
                from <= j < at ==> !occurs_at(text, pat, j),
            None => forall|j: int| from <= j ==> !occurs_at(text, pat, j),
        },
    decreases text.len() - from,
{
    if from + pat.len() <= text.len() && !occurs_at(text, pat, from) {
        first_occurrence_is_least(text, pat, from + 1);
    }
}

/// Whether `pat` stands in `text` at `at`.
pub fn matches_at(text: &Vec<char>, pat: &Vec<char>, at: usize) -> (b: bool)
    ensures
        b == occurs_at(text@, pat@, at as int),
{
    if pat.len() > text.len() || at > text.len() - pat.len() {
        return false;
    }
    let mut k: usize = 0;
    while k < pat.len()
        invariant
            k <= pat.len(),
            at + pat.len() <= text.len(),
            text@.subrange(at as int, at + k) == pat@.subrange(0, k as int),
        decreases pat.len() - k,
    {
        if text[at + k] != pat[k] {
            return false;
        }
        k += 1;
    }
    true
}

/// The first position at or after `from` where `pat` stands in `text`.
pub fn find_from(text: &Vec<char>, pat: &Vec<char>, from: usize) -> (r: Option<usize>)
    ensures
        match r {
            Some(at) => first_occurrence(text@, pat@, from as int) == Some(at as int),
            None => first_occurrence(text@, pat@, from as int) is None,
        },
{
    if pat.len() > text.len() {
        return None;
    }
    let last: usize = text.len() - pat.len();
    let mut i: usize = from;
    while i <= last
        invariant
            from <= i,
            last == text.len() - pat.len(),
            first_occurrence(text@, pat@, from as int) == first_occurrence(text@, pat@, i as int),
        decreases last + 1 - i,
    {
        if matches_at(text, pat, i) {
            return Some(i);
        }
        if i == last {
            assert(first_occurrence(text@, pat@, i + 1) is None);
            return None;
        }
        i += 1;
    }
    None
}

/// Whether `pat` stands somewhere in `text`.
pub fn has_substring(text: &Vec<char>, pat: &Vec<char>) -> (b: bool)
    ensures
        b == contains(text@, pat@),
{
    proof {
        first_occurrence_is_least(text@, pat@, 0);
    }
    match find_from(text, pat, 0) {
        Some(at) => true,
        None => false,
    }
}

/// The chars `chars[from..to]`, copied.
pub fn slice_of(chars: &Vec<char>, from: usize, to: usize) -> (part: Vec<char>)
    requires
        from <= to <= chars.len(),
    ensures
        part@ == chars@.subrange(from as int, to as int),
{
    let mut part: Vec<char> = Vec::new();
    let mut i: usize = from;
    while i < to
        invariant
            from <= i <= to <= chars.len(),
            part@ == chars@.subrange(from as int, i as int),
        decreases to - i,
    {
        part.push(chars[i]);
        i += 1;
    }
    part
}

/// The text of each string of a list.
pub open spec fn texts(strings: Seq<String>) -> Seq<Seq<char>> {
    Seq::new(strings.len(), |i: int| strings[i]@)
}

/// What each vector of a list holds.
pub open spec fn rows(lines: Seq<Vec<char>>) -> Seq<Seq<char>> {
    Seq::new(lines.len(), |i: int| lines[i]@)
}

/// A line without the carriage return that may end it.
pub open spec fn without_cr(line: Seq<char>) -> Seq<char> {
    if line.len() > 0 && line.last() == '\r' {
        line.drop_last()
    } else {
        line
    }
}

/// The lines of `text` from `at` on, where the line being read began at
/// `start`.
pub open spec fn lines_scan(text: Seq<char>, start: int, at: int) -> Seq<Seq<char>>
    decreases text.len() - at,
{
    if at < 0 || at >= text.len() {
        if 0 <= start < text.len() {
            seq![text.subrange(start, text.len() as int)]
        } else {
            Seq::empty()
        }
    } else if text[at] == '\n' {
        seq![without_cr(text.subrange(start, at))] + lines_scan(text, at + 1, at + 1)
    } else {
        lines_scan(text, start, at + 1)
    }
}

/// The lines of a text. A line ends at a line feed, which is left out, as is a
/// carriage return just before it. What follows the last line feed is a line
/// of its own unless it is empty.
pub open spec fn lines_of(text: Seq<char>) -> Seq<Seq<char>> {
    lines_scan(text, 0, 0)
}

/// Splits a text into its lines.
pub fn split_lines(text: &Vec<char>) -> (lines: Vec<Vec<char>>)
    ensures
        rows(lines@) == lines_of(text@),
{
    let mut lines: Vec<Vec<char>> = Vec::new();
    let mut start: usize = 0;
    let mut at: usize = 0;
    while at < text.len()
        invariant
            start <= at <= text.len(),
            lines_of(text@) == rows(lines@) + lines_scan(text@, start as int, at as int),
        decreases text.len() - at,
    {
        if text[at] == '\n' {
            let end: usize = if at > start && text[at - 1] == '\r' {
                at - 1
            } else {
                at
            };
            let line = slice_of(text, start, end);
            assert(line@ == without_cr(text@.subrange(start as int, at as int)));
            lines.push(line);
            start = at + 1;
        }
        at += 1;
    }
    if start < text.len() {
        let line = slice_of(text, start, text.len());
        lines.push(line);
    }
    lines
}

/// The lines joined again, a line feed after each.
pub open spec fn unlines(lines: Seq<Seq<char>>) -> Seq<char>
    decreases lines.len(),
{
    if lines.len() == 0 {
        Seq::empty()
    } else {
        unlines(lines.drop_last()) + lines.last() + seq!['\n']
    }
}

/// No line feed stands in the line.
pub open spec fn has_no_line_feed(line: Seq<char>) -> bool {
    forall|i: int| 0 <= i < line.len() ==> line[i] != '\n'
}

/// No line that [`lines_scan`] gives holds a line feed, where none stands
/// between `start` and `at`.
pub proof fn lines_scan_has_no_line_feed(text: Seq<char>, start: int, at: int)
    requires
        0 <= start <= at,
        forall|i: int| start <= i < at && i < text.len() ==> text[i] != '\n',
    ensures
        forall|k: int|
            0 <= k < lines_scan(text, start, at).len() ==> has_no_line_feed(
                #[trigger] lines_scan(text, start, at)[k],
            ),
    decreases text.len() - at,
{
    let lines = lines_scan(text, start, at);
    if at < text.len() {
        if text[at] == '\n' {
            let rest = lines_scan(text, at + 1, at + 1);
            lines_scan_has_no_line_feed(text, at + 1, at + 1);
            assert(has_no_line_feed(without_cr(text.subrange(start, at))));
            assert forall|k: int| 0 <= k < lines.len() implies has_no_line_feed(
                #[trigger] lines[k],
            ) by {
                if k > 0 {
                    assert(lines[k] == rest[k - 1]);
                }
            }
        } else {
            lines_scan_has_no_line_feed(text, start, at + 1);
            assert(lines == lines_scan(text, start, at + 1));
        }
    } else if start < text.len() {
        assert(has_no_line_feed(text.subrange(start, text.len() as int)));
        assert(lines == seq![text.subrange(start, text.len() as int)]);
    } else {
        assert(lines.len() == 0);
    }
}

/// No line of a text holds a line feed.
pub proof fn lines_have_no_line_feed(text: Seq<char>)
    ensures
        forall|k: int|
            0 <= k < lines_of(text).len() ==> has_no_line_feed(#[trigger] lines_of(text)[k]),
{
    lines_scan_has_no_line_feed(text, 0, 0);
}

/// Where no line feed stands in `text` from `at` up to a line feed at `end`,
/// the line that began at `start` ends there.
proof fn lines_scan_to_line_feed(text: Seq<char>, start: int, at: int, end: int)
    requires
        0 <= start <= at <= end < text.len(),
        text[end] == '\n',
        forall|i: int| at <= i < end ==> text[i] != '\n',
    ensures
        lines_scan(text, start, at) == seq![without_cr(text.subrange(start, end))] + lines_scan(
            text,
            end + 1,
            end + 1,
        ),
    decreases end - at,
{
    if at < end {
        lines_scan_to_line_feed(text, start, at + 1, end);
    }
}

/// A text that is empty or ends with a line feed, with one more line and a
/// line feed added, has the lines that it had and that line after them.
proof fn lines_scan_of_one_line_more(text: Seq<char>, line: Seq<char>, start: int, at: int)
    requires
        text.len() == 0 || text.last() == '\n',
        has_no_line_feed(line),
        0 <= start <= at <= text.len(),
        at == text.len() ==> start == at,
    ensures
        lines_scan(text + line + seq!['\n'], start, at) == lines_scan(text, start, at).push(
            without_cr(line),
        ),
    decreases text.len() - at,
{
    let longer = text + line + seq!['\n'];
    if at == text.len() {
        let end: int = (text.len() + line.len()) as int;
        assert forall|i: int| at <= i < end implies longer[i] != '\n' by {
            assert(longer[i] == line[i - text.len()]);
        }
        lines_scan_to_line_feed(longer, start, at, end);
        assert(longer.subrange(start, end) == line);
        assert(lines_scan(text, start, at) == Seq::<Seq<char>>::empty());
        assert(lines_scan(longer, end + 1, end + 1) == Seq::<Seq<char>>::empty());
    } else {
        assert(longer[at] == text[at]);
        if text[at] == '\n' {
            lines_scan_of_one_line_more(text, line, at + 1, at + 1);
            assert(longer.subrange(start, at) == text.subrange(start, at));
        } else {
            lines_scan_of_one_line_more(text, line, start, at + 1);
        }
    }
}

/// Lines that are joined are empty or end with a line feed.
proof fn unlines_ends_with_line_feed(lines: Seq<Seq<char>>)
    ensures
        unlines(lines).len() == 0 || unlines(lines).last() == '\n',
{
}

/// Joining lines and splitting the text again gives the lines back, each
/// without the carriage return that may end it, provided that no line holds
/// a line feed: as many lines, in the same order.
pub proof fn lines_of_unlines(lines: Seq<Seq<char>>)
    requires
        forall|i: int| 0 <= i < lines.len() ==> has_no_line_feed(#[trigger] lines[i]),
    ensures
        lines_of(unlines(lines)) == Seq::new(lines.len(), |i: int| without_cr(lines[i])),
    decreases lines.len(),
{
    if lines.len() > 0 {
        let before = lines.drop_last();
        assert forall|i: int| 0 <= i < before.len() implies has_no_line_feed(
            #[trigger] before[i],
        ) by {
            assert(before[i] == lines[i]);
        }
        lines_of_unlines(before);
        unlines_ends_with_line_feed(before);
        lines_scan_of_one_line_more(unlines(before), lines.last(), 0, 0);
        assert(lines_of(unlines(lines)) =~= Seq::new(
            lines.len(),
            |i: int| without_cr(lines[i]),
        ));
    }
}

/// `text` without the white space at its start.
pub open spec fn trimmed_start(text: Seq<char>) -> Seq<char>
    decreases text.len(),
{
    if text.len() > 0 && is_whitespace(text.first()) {
        trimmed_start(text.drop_first())
    } else {
        text
    }
}

/// `text` without the white space at its end.
pub open spec fn trimmed_end(text: Seq<char>) -> Seq<char>
    decreases text.len(),
{
    if text.len() > 0 && is_whitespace(text.last()) {
        trimmed_end(text.drop_last())
    } else {
        text
    }
}

/// `text` without the white space at both ends.
pub open spec fn trimmed(text: Seq<char>) -> Seq<char> {
    trimmed_end(trimmed_start(text))
}

/// The part `chars[from..to]` without the white space at both its ends.
pub fn trim_range(chars: &Vec<char>, from: usize, to: usize) -> (r: (usize, usize))
    requires
        from <= to <= chars.len(),
    ensures
        from <= r.0 <= r.1 <= to,
        chars@.subrange(r.0 as int, r.1 as int) == trimmed(chars@.subrange(from as int, to as int)),
{
    let mut a: usize = from;
    while a < to && chars[a].is_whitespace()
        invariant
            from <= a <= to <= chars.len(),
            trimmed_start(chars@.subrange(from as int, to as int)) == trimmed_start(
                chars@.subrange(a as int, to as int),
            ),
        decreases to - a,
    {
        assert(chars@.subrange(a as int, to as int).drop_first() == chars@.subrange(
            a + 1,
            to as int,
        ));
        a += 1;
    }
    let mut b: usize = to;
    while b > a && chars[b - 1].is_whitespace()
        invariant
            a <= b <= to <= chars.len(),
            trimmed_end(chars@.subrange(a as int, to as int)) == trimmed_end(
                chars@.subrange(a as int, b as int),
            ),
        decreases b - a,
    {
        assert(chars@.subrange(a as int, b as int).drop_last() == chars@.subrange(
            a as int,
            b - 1,
        ));
        b -= 1;
    }
    (a, b)
}

/// Where the last piece begins when `text` is cut at each occurrence of
/// `pat`, found from left to right without overlap; `start` is where the
/// piece being read began, `at` the position being read.
pub open spec fn last_piece_start(text: Seq<char>, pat: Seq<char>, start: int, at: int) -> int
    decreases text.len() - at,
{
    if at < 0 || pat.len() == 0 || at + pat.len() > text.len() {
        start
    } else if occurs_at(text, pat, at) {
        last_piece_start(text, pat, at + pat.len(), at + pat.len())
    } else {
        last_piece_start(text, pat, start, at + 1)
    }
}

/// What follows the last occurrence of `pat` in `text`, the occurrences
/// counted from left to right without overlap: the whole text where there is
/// none.
pub open spec fn after_last(text: Seq<char>, pat: Seq<char>) -> Seq<char> {
    text.subrange(last_piece_start(text, pat, 0, 0), text.len() as int)
}

/// Where the text after the last occurrence of `pat` begins, if `pat` occurs
/// at all.
pub fn find_after_last(text: &Vec<char>, pat: &Vec<char>) -> (r: Option<usize>)
    requires
        pat.len() > 0,
    ensures
        r is Some <==> contains(text@, pat@),
        r matches Some(start) ==> start <= text.len() && start == last_piece_start(
            text@,
            pat@,
            0,
            0,
        ),
{
    let mut found: Option<usize> = None;
    let mut at: usize = 0;
    if pat.len() > text.len() {
        return None;
    }
    let last: usize = text.len() - pat.len();
    while at <= last
        invariant
            pat.len() > 0,
            last == text.len() - pat.len(),
            at <= text.len(),
            found is None ==> forall|j: int| 0 <= j < at ==> !occurs_at(text@, pat@, j),
            found is Some ==> contains(text@, pat@),
            found matches Some(start) ==> start <= at,
            last_piece_start(text@, pat@, 0, 0) == last_piece_start(
                text@,
                pat@,
                match found {
                    Some(start) => start as int,
                    None => 0,
                },
                at as int,
            ),
        decreases text.len() - at,
    {
        if matches_at(text, pat, at) {
            at = at + pat.len();
            found = Some(at);
        } else {
            at += 1;
        }
    }
    found
}

/// `text` from `from` on, each occurrence of `pat` replaced by `to`; the
/// occurrences are found from left to right without overlap. An empty `pat`
/// occurs nowhere.
pub open spec fn replaced_from(text: Seq<char>, pat: Seq<char>, to: Seq<char>, from: int) -> Seq<
    char,
>
    decreases text.len() - from,
{
    if from < 0 || from >= text.len() {
        Seq::empty()
    } else if pat.len() > 0 && occurs_at(text, pat, from) {
        to + replaced_from(text, pat, to, from + pat.len())
    } else {
        seq![text[from]] + replaced_from(text, pat, to, from + 1)
    }
}

/// `text` with each occurrence of `pat` replaced by `to`.
pub open spec fn replaced(text: Seq<char>, pat: Seq<char>, to: Seq<char>) -> Seq<char> {
    replaced_from(text, pat, to, 0)
}

/// Replaces each occurrence of `pat` in `text` by `to`.
pub fn replace_all(text: &Vec<char>, pat: &Vec<char>, to: &Vec<char>) -> (out: Vec<char>)
    ensures
        out@ == replaced(text@, pat@, to@),
{
    let mut out: Vec<char> = Vec::new();
    let mut at: usize = 0;
    while at < text.len()
        invariant
            at <= text.len(),
            replaced(text@, pat@, to@) == out@ + replaced_from(text@, pat@, to@, at as int),
        decreases text.len() - at,
    {
        if pat.len() > 0 && matches_at(text, pat, at) {
            out.extend_from_slice(to.as_slice());
            at = at + pat.len();
        } else {
            out.push(text[at]);
            at += 1;
        }
    }
    out
}

/// The decimal digit for a number below ten.
pub open spec fn digit_char(d: nat) -> char {
    if d == 0 {
        '0'
    } else if d == 1 {
        '1'
    } else if d == 2 {
        '2'
    } else if d == 3 {
        '3'
    } else if d == 4 {
        '4'
    } else if d == 5 {
        '5'
    } else if d == 6 {
        '6'
    } else if d == 7 {
        '7'
    } else if d == 8 {
        '8'
    } else {
        '9'
    }
}

/// A number written in decimal, without leading zeros.
pub open spec fn decimal(n: nat) -> Seq<char>
    decreases n,
{
    if n < 10 {
        seq![digit_char(n)]
    } else {
        decimal(n / 10).push(digit_char(n % 10))
    }
}

/// The decimal digit for a number below ten.
pub fn digit_of(d: u64) -> (c: char)
    requires
        d < 10,
    ensures
        c == digit_char(d as nat),
{
    if d == 0 {
        '0'
    } else if d == 1 {
        '1'
    } else if d == 2 {
        '2'
    } else if d == 3 {
        '3'
    } else if d == 4 {
        '4'
    } else if d == 5 {
        '5'
    } else if d == 6 {
        '6'
    } else if d == 7 {
        '7'
    } else if d == 8 {
        '8'
    } else {
        '9'
    }
}

/// Writes a number in decimal.
pub fn decimal_chars(n: u64) -> (digits: Vec<char>)
    ensures
        digits@ == decimal(n as nat),
    decreases n,
{
    if n < 10 {
        let mut digits: Vec<char> = Vec::new();
        digits.push(digit_of(n));
        digits
    } else {
        let mut digits = decimal_chars(n / 10);
        digits.push(digit_of(n % 10));
        digits
    }
}

/// The pieces of `text` from `at` on when it is cut at each `sep`, where the
/// piece being read began at `start`.
pub open spec fn pieces_scan(text: Seq<char>, sep: char, start: int, at: int) -> Seq<Seq<char>>
    decreases text.len() - at,
{
    if at < 0 || at >= text.len() {
        seq![text.subrange(start, text.len() as int)]
    } else if text[at] == sep {
        seq![text.subrange(start, at)] + pieces_scan(text, sep, at + 1, at + 1)
    } else {
        pieces_scan(text, sep, start, at + 1)
    }
}

/// The pieces between the occurrences of `sep` in `text`, empty ones
/// included: one more than there are occurrences.
pub open spec fn pieces(text: Seq<char>, sep: char) -> Seq<Seq<char>> {
    pieces_scan(text, sep, 0, 0)
}

/// Cuts a text at each occurrence of `sep`.
pub fn split_on(text: &Vec<char>, sep: char) -> (parts: Vec<Vec<char>>)
    ensures
        rows(parts@) == pieces(text@, sep),
{
    let mut parts: Vec<Vec<char>> = Vec::new();
    let mut start: usize = 0;
    let mut at: usize = 0;
    while at < text.len()
        invariant
            start <= at <= text.len(),
            pieces(text@, sep) == rows(parts@) + pieces_scan(text@, sep, start as int, at as int),
        decreases text.len() - at,
    {
        if text[at] == sep {
            let part = slice_of(text, start, at);
            parts.push(part);
            start = at + 1;
        }
        at += 1;
    }
    let part = slice_of(text, start, text.len());
    parts.push(part);
    parts
}

/// The parts joined, with `sep` between each two.
pub open spec fn joined(parts: Seq<Seq<char>>, sep: char) -> Seq<char>
    decreases parts.len(),
{
    if parts.len() == 0 {
        Seq::empty()
    } else if parts.len() == 1 {
        parts[0]
    } else {
        joined(parts.drop_last(), sep) + seq![sep] + parts.last()
    }
}

/// Joins the parts from `from` on, with `sep` between each two.
pub fn join_from(parts: &Vec<Vec<char>>, from: usize, sep: char) -> (out: Vec<char>)
    requires
        from <= parts.len(),
    ensures
        out@ == joined(rows(parts@).subrange(from as int, parts@.len() as int), sep),
{
    let ghost all = rows(parts@);
    let mut out: Vec<char> = Vec::new();
    let mut i: usize = from;
    while i < parts.len()
        invariant
            from <= i <= parts.len(),
            all == rows(parts@),
            out@ == joined(all.subrange(from as int, i as int), sep),
        decreases parts.len() - i,
    {
        let ghost upto = all.subrange(from as int, i + 1);
        assert(upto.drop_last() == all.subrange(from as int, i as int));
        if i > from {
            out.push(sep);
        }
        out.extend_from_slice(parts[i].as_slice());
        i += 1;
    }
    out
}

} // verus!
