//! Dependency edges as a lock file records them: `name version` for a package
//! of the same workspace, `name version (source)` for one from elsewhere.

use crate::error::{LockIssue, PrepopError};
use vstd::prelude::*;
use vstd::string::*;

verus! {

/// The parts of `s` between its spaces, left to right. Every space separates:
/// a string with `k` spaces has `k + 1` parts, some of them possibly empty.
pub open spec fn tokens(s: Seq<char>) -> Seq<Seq<char>>
    decreases s.len(),
{
    if s.len() == 0 {
        seq![Seq::empty()]
    } else {
        let before = tokens(s.drop_last());
        if s.last() == ' ' {
            before.push(Seq::empty())
        } else {
            before.drop_last().push(before.last().push(s.last()))
        }
    }
}

/// `parts` written one after the other with a space between neighbours.
pub open spec fn join_with_spaces(parts: Seq<Seq<char>>) -> Seq<char>
    decreases parts.len(),
{
    if parts.len() == 0 {
        Seq::empty()
    } else if parts.len() == 1 {
        parts[0]
    } else {
        join_with_spaces(parts.drop_last()) + seq![' '] + parts.last()
    }
}

/// The source that a lock file records for a package of the crates.io registry.
pub open spec fn registry_source() -> Seq<char> {
    "(registry+https://github.com/rust-lang/crates.io-index)"@
}

/// What a dependency edge stands for, over the characters of its parts.
pub ghost enum EdgeKindView {
    Registry { name: Seq<char>, version: Seq<char> },
    OtherSource { source: Seq<char> },
    Local,
    Malformed,
}

/// How the edge `edge` is read: by the number of its parts and, where there
/// are three, by the last of them.
pub open spec fn edge_kind(edge: Seq<char>) -> EdgeKindView {
    let parts = tokens(edge);
    if parts.len() == 3 {
        if parts[2] == registry_source() {
            EdgeKindView::Registry { name: parts[0], version: parts[1] }
        } else {
            EdgeKindView::OtherSource { source: parts[2] }
        }
    } else if parts.len() == 2 {
        EdgeKindView::Local
    } else {
        EdgeKindView::Malformed
    }
}

/// What a dependency edge stands for.
#[derive(Debug, Clone, PartialEq, Eq)]
pub enum EdgeKind {
    /// A package of the crates.io registry, which a manifest can declare again.
    Registry { name: String, version: String },
    /// A package from another source, such as a git repository.
    OtherSource { source: String },
    /// A package of the same workspace.
    Local,
    /// Not an edge of the lock format.
    Malformed,
}

impl View for EdgeKind {
    type V = EdgeKindView;

    open spec fn view(&self) -> EdgeKindView {
        match self {
            EdgeKind::Registry { name, version } => EdgeKindView::Registry {
                name: name@,
                version: version@,
            },
            EdgeKind::OtherSource { source } => EdgeKindView::OtherSource { source: source@ },
            EdgeKind::Local => EdgeKindView::Local,
            EdgeKind::Malformed => EdgeKindView::Malformed,
        }
    }
}

/// Whether a character is the space that separates parts.
pub open spec fn is_space() -> spec_fn(char) -> bool {
    |c: char| c == ' '
}

/// A string has one part more than it has spaces.
pub proof fn tokens_count(s: Seq<char>)
    ensures
        tokens(s).len() == s.filter(is_space()).len() + 1,
    decreases s.len(),
{
    if s.len() == 0 {
        reveal(Seq::filter);
    } else {
        let init = s.drop_last();
        tokens_count(init);
        assert(s =~= init.push(s.last()));
        init.lemma_filter_push(s.last(), is_space());
    }
}

/// A string always has at least one part.
pub proof fn tokens_nonempty(s: Seq<char>)
    ensures
        tokens(s).len() >= 1,
    decreases s.len(),
{
    if s.len() > 0 {
        tokens_nonempty(s.drop_last());
    }
}

/// No part of a string holds a space.
pub proof fn tokens_hold_no_space(s: Seq<char>)
    ensures
        forall|i: int, j: int|
            0 <= i < tokens(s).len() && 0 <= j < tokens(s)[i].len() ==> tokens(s)[i][j] != ' ',
    decreases s.len(),
{
    if s.len() > 0 {
        tokens_nonempty(s.drop_last());
        tokens_hold_no_space(s.drop_last());
    }
}

/// The parts of a string, joined by spaces again, give the string back.
pub proof fn tokens_rejoin(s: Seq<char>)
    ensures
        join_with_spaces(tokens(s)) == s,
    decreases s.len(),
{
    if s.len() == 0 {
        assert(tokens(s)[0] =~= s);
    } else {
        let before = tokens(s.drop_last());
        tokens_nonempty(s.drop_last());
        tokens_rejoin(s.drop_last());
        let now = tokens(s);
        assert(s =~= s.drop_last().push(s.last()));
        if s.last() == ' ' {
            assert(now.drop_last() =~= before);
            assert(now.last() =~= Seq::<char>::empty());
            assert(join_with_spaces(now) == join_with_spaces(before) + seq![' '] + now.last());
            assert(join_with_spaces(now) =~= s);
        } else if before.len() == 1 {
            assert(now[0] =~= before[0].push(s.last()));
            assert(join_with_spaces(now) =~= s);
        } else {
            assert(now.drop_last() =~= before.drop_last());
            assert(now.last() =~= before.last().push(s.last()));
            assert(join_with_spaces(now) == join_with_spaces(before.drop_last()) + seq![' ']
                + now.last());
            assert(join_with_spaces(before) == join_with_spaces(before.drop_last()) + seq![' ']
                + before.last());
            assert(join_with_spaces(now) =~= s);
        }
    }
}

/// The characters of each string of `v`.
pub open spec fn texts(v: Seq<String>) -> Seq<Seq<char>> {
    Seq::new(v.len(), |i: int| v[i]@)
}

fn to_chars(s: &str) -> (v: Vec<char>)
    ensures
        v@ == s@,
{
    let mut v: Vec<char> = Vec::new();
    for c in it: s.chars()
        invariant
            it.seq() == s@,
            v@ == it.seq().take(it.index() as int),
    {
        v.push(c);
    }
    v
}

/// Splits `edge` at every space.
pub fn split_tokens(edge: &str) -> (parts: Vec<String>)
    ensures
        texts(parts@) == tokens(edge@),
{
    let chars = to_chars(edge);
    let n = chars.len();
    let mut parts: Vec<String> = Vec::new();
    let mut start: usize = 0;
    let mut i: usize = 0;
    assert(edge@.take(0) =~= Seq::<char>::empty());
    assert(texts(parts@).push(edge@.subrange(0, 0)) =~= tokens(edge@.take(0)));
    while i < n
        invariant
            start <= i <= n,
            n == edge@.len(),
            chars@ == edge@,
            texts(parts@).push(edge@.subrange(start as int, i as int)) == tokens(
                edge@.take(i as int),
            ),
        decreases n - i,
    {
        let ghost before = texts(parts@);
        let ghost prefix = edge@.take(i as int);
        let ghost next = edge@.take(i + 1);
        assert(next.drop_last() =~= prefix);
        assert(next.last() == edge@[i as int]);
        if chars[i] == ' ' {
            parts.push(String::from_str(edge.substring_char(start, i)));
            assert(texts(parts@) =~= before.push(edge@.subrange(start as int, i as int)));
            start = i + 1;
            assert(edge@.subrange(start as int, start as int) =~= Seq::<char>::empty());
        } else {
            assert(tokens(prefix).drop_last() =~= before);
            assert(tokens(prefix).last().push(edge@[i as int]) =~= edge@.subrange(
                start as int,
                i + 1,
            ));
        }
        i += 1;
    }
    assert(edge@.take(n as int) =~= edge@);
    let ghost before = texts(parts@);
    parts.push(String::from_str(edge.substring_char(start, n)));
    assert(texts(parts@) =~= before.push(edge@.subrange(start as int, n as int)));
    parts
}

/// Reads one dependency edge of a lock file.
pub fn classify_edge(edge: &str) -> (kind: EdgeKind)
    ensures
        kind@ == edge_kind(edge@),
{
    let mut parts = split_tokens(edge);
    let ghost all = texts(parts@);
    if parts.len() == 3 {
        let source = parts.pop().unwrap();
        let version = parts.pop().unwrap();
        let name = parts.pop().unwrap();
        assert(source@ == all[2] && version@ == all[1] && name@ == all[0]);
        let marker = String::from_str("(registry+https://github.com/rust-lang/crates.io-index)");
        if source == marker {
            EdgeKind::Registry { name, version }
        } else {
            EdgeKind::OtherSource { source }
        }
    } else if parts.len() == 2 {
        EdgeKind::Local
    } else {
        EdgeKind::Malformed
    }
}

/// The manifest entry that `lockfile_dependency` calls for, if any.
///
/// An edge of three parts whose last is the registry's source gives the pair
/// of its first two, name and version. An edge of two parts, or of three with
/// another source, gives nothing. Any other edge is an error.
pub fn build_and_filter_toml_dependency(lockfile_dependency: &str) -> (entry: Result<
    Option<(String, String)>,
    PrepopError,
>)
    ensures
        match edge_kind(lockfile_dependency@) {
            EdgeKindView::Registry { name, version } => entry matches Ok(Some(pair))
                && pair.0@ == name && pair.1@ == version,
            EdgeKindView::OtherSource { .. } | EdgeKindView::Local => entry matches Ok(None),
            EdgeKindView::Malformed => entry matches Err(
                PrepopError::FormatError(LockIssue::MalformedEdge(text)),
            ) && text@ == lockfile_dependency@,
        },
{
    match classify_edge(lockfile_dependency) {
        EdgeKind::Registry { name, version } => Ok(Some((name, version))),
        EdgeKind::OtherSource { .. } | EdgeKind::Local => Ok(None),
        EdgeKind::Malformed => Err(
            PrepopError::FormatError(
                LockIssue::MalformedEdge(String::from_str(lockfile_dependency)),
            ),
        ),
    }
}

} // verus!
