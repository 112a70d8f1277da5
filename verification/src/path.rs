//! Paths as text: their components, the name and the stem of the file they
//! lead to, and the shorter paths under which a file may be looked for.

use crate::text::{join_from, joined, pieces, rows, slice_of, split_on, string_of, texts};
use vstd::prelude::*;

verus! {

/// A piece of a path counts as a component: it is not empty, and it is not
/// `.` unless it is the first piece.
pub open spec fn is_component(parts: Seq<Seq<char>>, i: int) -> bool {
    parts[i].len() > 0 && (parts[i] != seq!['.'] || i == 0)
}

/// The components among the first `n` pieces of a path.
pub open spec fn components_among(parts: Seq<Seq<char>>, n: int) -> Seq<Seq<char>>
    decreases n,
{
    if n <= 0 {
        Seq::empty()
    } else if is_component(parts, n - 1) {
        components_among(parts, n - 1).push(parts[n - 1])
    } else {
        components_among(parts, n - 1)
    }
}

/// The components of a path: the root `/` first where the path begins with
/// it, then the names between the slashes. Empty names are left out, and so
/// is `.` unless it begins the path.
pub open spec fn components(path: Seq<char>) -> Seq<Seq<char>> {
    let names = components_among(pieces(path, '/'), pieces(path, '/').len() as int);
    if path.len() > 0 && path[0] == '/' {
        seq![seq!['/']] + names
    } else {
        names
    }
}

/// Splits a path into its components.
pub fn path_components(path: &Vec<char>) -> (parts: Vec<Vec<char>>)
    ensures
        rows(parts@) == components(path@),
{
    let cut = split_on(path, '/');
    let mut parts: Vec<Vec<char>> = Vec::new();
    if path.len() > 0 && path[0] == '/' {
        let mut root: Vec<char> = Vec::new();
        root.push('/');
        parts.push(root);
    }
    let ghost first = rows(parts@);
    let mut i: usize = 0;
    while i < cut.len()
        invariant
            i <= cut.len(),
            rows(cut@) == pieces(path@, '/'),
            rows(parts@) == first + components_among(rows(cut@), i as int),
        decreases cut.len() - i,
    {
        let piece = &cut[i];
        let is_dot = piece.len() == 1 && piece[0] == '.';
        assert(is_dot == (piece@ == seq!['.'])) by {
            if is_dot {
                assert(piece@ == seq!['.']);
            } else if piece@.len() == 1 {
            }
        }
        if piece.len() > 0 && (!is_dot || i == 0) {
            let ghost before = rows(parts@);
            parts.push(slice_of(piece, 0, piece.len()));
            assert(piece@.subrange(0, piece@.len() as int) == piece@);
            assert(rows(parts@) == before.push(piece@));
        }
        i += 1;
    }
    parts
}

/// A component names a file or directory: it is not the root, `.` or `..`.
pub open spec fn is_plain_name(component: Seq<char>) -> bool {
    component != seq!['/'] && component != seq!['.'] && component != seq!['.', '.']
}

/// The name of the file that a path leads to: its last component, if that is
/// a name.
pub open spec fn file_name_of(path: Seq<char>) -> Option<Seq<char>> {
    let parts = components(path);
    if parts.len() > 0 && is_plain_name(parts.last()) {
        Some(parts.last())
    } else {
        None
    }
}

/// Where the last `.` of a name stands, or -1.
pub open spec fn last_dot(name: Seq<char>) -> int
    decreases name.len(),
{
    if name.len() == 0 {
        -1
    } else if name.last() == '.' {
        name.len() - 1
    } else {
        last_dot(name.drop_last())
    }
}

/// A file name without its extension: what stands before the last `.`, or
/// the whole name where it holds no `.` or none but the first char.
pub open spec fn stem_of(name: Seq<char>) -> Seq<char> {
    if last_dot(name) <= 0 {
        name
    } else {
        name.subrange(0, last_dot(name))
    }
}

/// The name, without its extension, of the file that a path leads to.
pub open spec fn file_stem_of(path: Seq<char>) -> Option<Seq<char>> {
    match file_name_of(path) {
        Some(name) => Some(stem_of(name)),
        None => None,
    }
}

/// Whether the chars are exactly those of `word`, a word of at most two
/// chars.
fn is_word(chars: &Vec<char>, first: char, second: Option<char>) -> (b: bool)
    ensures
        b == (chars@ == match second {
            Some(c) => seq![first, c],
            None => seq![first],
        }),
{
    match second {
        Some(c) => {
            let b = chars.len() == 2 && chars[0] == first && chars[1] == c;
            assert(b == (chars@ == seq![first, c])) by {
                if b {
                    assert(chars@ == seq![first, c]);
                } else if chars@.len() == 2 {
                }
            }
            b
        },
        None => {
            let b = chars.len() == 1 && chars[0] == first;
            assert(b == (chars@ == seq![first])) by {
                if b {
                    assert(chars@ == seq![first]);
                } else if chars@.len() == 1 {
                }
            }
            b
        },
    }
}

/// The name, without its extension, of the file that a path leads to.
pub fn file_stem(path: &Vec<char>) -> (r: Option<Vec<char>>)
    ensures
        match file_stem_of(path@) {
            Some(stem) => r matches Some(s) && s@ == stem,
            None => r is None,
        },
{
    let parts = path_components(path);
    if parts.len() == 0 {
        return None;
    }
    let name = &parts[parts.len() - 1];
    if is_word(name, '/', None) || is_word(name, '.', None) || is_word(name, '.', Some('.')) {
        return None;
    }
    let mut end: usize = name.len();
    assert(name@.subrange(0, name@.len() as int) == name@);
    while end > 0 && name[end - 1] != '.'
        invariant
            end <= name.len(),
            last_dot(name@) == last_dot(name@.subrange(0, end as int)),
        decreases end,
    {
        assert(name@.subrange(0, end as int).drop_last() == name@.subrange(0, end - 1));
        end -= 1;
    }
    if end <= 1 {
        Some(slice_of(name, 0, name.len()))
    } else {
        Some(slice_of(name, 0, end - 1))
    }
}

/// The paths under which a file is looked for when `path` itself leads
/// nowhere: for each number of leading components dropped, from one to all of
/// them, what is left of the path, first as it is and then with `/` in front.
pub open spec fn shorter_paths(parts: Seq<Seq<char>>, dropped: int) -> Seq<Seq<char>>
    decreases dropped,
{
    if dropped <= 0 {
        Seq::empty()
    } else {
        let rest = joined(parts.subrange(dropped, parts.len() as int), '/');
        shorter_paths(parts, dropped - 1).push(rest).push(seq!['/'] + rest)
    }
}

/// The paths under which the file of `path` is looked for, in the order in
/// which they are tried: the path itself, then its [`shorter_paths`].
pub open spec fn search_paths(path: Seq<char>) -> Seq<Seq<char>> {
    seq![path] + shorter_paths(components(path), components(path).len() as int)
}

/// Lists the paths under which the file of `path` is looked for.
pub fn paths_to_search(path: &Vec<char>) -> (paths: Vec<String>)
    ensures
        texts(paths@) == search_paths(path@),
{
    let parts = path_components(path);
    let mut paths: Vec<String> = Vec::new();
    paths.push(string_of(path));
    let mut dropped: usize = 0;
    while dropped < parts.len()
        invariant
            dropped <= parts.len(),
            rows(parts@) == components(path@),
            texts(paths@) == seq![path@] + shorter_paths(
                rows(parts@),
                dropped as int,
            ),
        decreases parts.len() - dropped,
    {
        dropped += 1;
        let rest = join_from(&parts, dropped, '/');
        let mut rooted: Vec<char> = Vec::new();
        rooted.push('/');
        rooted.extend_from_slice(rest.as_slice());
        assert(rooted@ == seq!['/'] + rest@);
        let ghost before = texts(paths@);
        paths.push(string_of(&rest));
        paths.push(string_of(&rooted));
        assert(texts(paths@) == before.push(rest@).push(rooted@));
    }
    paths
}

} // verus!
