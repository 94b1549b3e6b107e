//! Paths as plain strings with `/` as the separator.
//!
//! A path is a sequence of characters. Components are the maximal runs of
//! characters other than `/`; a path that starts with `/` is absolute.

use vstd::prelude::*;

verus! {

/// The separator between the components of a path.
pub const SEPARATOR: char = '/';

/// Whether `p` starts at the root.
pub open spec fn is_absolute(p: Seq<char>) -> bool {
    p.len() > 0 && p[0] == SEPARATOR
}

/// `name` adjoined to `base`.
///
/// An absolute `name` replaces `base`. Otherwise `name` follows `base`, with
/// one separator between them unless `base` is empty or already ends in one.
pub open spec fn joined(base: Seq<char>, name: Seq<char>) -> Seq<char> {
    if is_absolute(name) {
        name
    } else if base.len() == 0 || base.last() == SEPARATOR {
        base + name
    } else {
        base + seq![SEPARATOR] + name
    }
}

/// What is left of the first `n` characters of `p` once the separators at
/// their end are dropped, as a length.
pub open spec fn trim_len(p: Seq<char>, n: nat) -> nat
    recommends
        n <= p.len(),
    decreases n,
{
    if n > 0 && p[n - 1] == SEPARATOR {
        trim_len(p, (n - 1) as nat)
    } else {
        n
    }
}

/// What is left of the first `n` characters of `p` once the characters of
/// their last component are dropped, as a length: zero, or the position just
/// behind a separator.
pub open spec fn stem_len(p: Seq<char>, n: nat) -> nat
    recommends
        n <= p.len(),
    decreases n,
{
    if n > 0 && p[n - 1] != SEPARATOR {
        stem_len(p, (n - 1) as nat)
    } else {
        n
    }
}

/// The directory that holds the last component of `p`.
///
/// Separators at the end of `p` do not count. There is no parent where no
/// component is left: for the empty path and for the root. A single relative
/// component has the empty path as its parent, a component directly under the
/// root has `/`. Otherwise the parent is `p` up to the separators in front of
/// its last component.
pub open spec fn parent_of(p: Seq<char>) -> Option<Seq<char>> {
    let end = trim_len(p, p.len());
    let cut = stem_len(p, end);
    let stop = trim_len(p, cut);
    if end == 0 {
        None
    } else if cut == 0 {
        Some(Seq::empty())
    } else if stop == 0 {
        Some(seq![SEPARATOR])
    } else {
        Some(p.take(stop as int))
    }
}

/// The characters of `s`, one element each.
pub(crate) fn chars_of(s: &str) -> (chars: Vec<char>)
    ensures
        chars@ == s@,
{
    let mut chars: Vec<char> = Vec::new();
    for c in it: s.chars()
        invariant
            chars@ == it.seq().take(it.index() as int),
            it.seq() == s@,
    {
        chars.push(c);
    }
    chars
}

/// Drops the separators at the end of the first `n` characters.
fn trim_end(chars: &Vec<char>, n: usize) -> (m: usize)
    requires
        n <= chars.len(),
    ensures
        m == trim_len(chars@, n as nat),
        m <= n,
{
    let mut m: usize = n;
    while m > 0 && chars[m - 1] == SEPARATOR
        invariant
            m <= n <= chars.len(),
            trim_len(chars@, m as nat) == trim_len(chars@, n as nat),
        decreases m,
    {
        m = m - 1;
    }
    m
}

/// Drops the last component from the first `n` characters.
fn stem_end(chars: &Vec<char>, n: usize) -> (m: usize)
    requires
        n <= chars.len(),
    ensures
        m == stem_len(chars@, n as nat),
        m <= n,
{
    let mut m: usize = n;
    while m > 0 && chars[m - 1] != SEPARATOR
        invariant
            m <= n <= chars.len(),
            stem_len(chars@, m as nat) == stem_len(chars@, n as nat),
        decreases m,
    {
        m = m - 1;
    }
    m
}

/// Adjoins `name` to `base`.
pub fn join(base: &str, name: &str) -> (path: String)
    ensures
        path@ == joined(base@, name@),
{
    let head = chars_of(base);
    let tail = chars_of(name);
    if tail.len() > 0 && tail[0] == SEPARATOR {
        return String::from_str(name);
    }
    let mut path = String::from_str(base);
    if head.len() > 0 && head[head.len() - 1] != SEPARATOR {
        proof {
            reveal_strlit("/");
            assert("/"@ =~= seq![SEPARATOR]);
        }
        path.append("/");
    }
    path.append(name);
    path
}

/// The directory that holds the last component of `path`, if it has one.
pub fn parent(path: &str) -> (dir: Option<String>)
    ensures
        dir.deep_view() == parent_of(path@),
{
    let chars = chars_of(path);
    let end = trim_end(&chars, chars.len());
    if end == 0 {
        return None;
    }
    let cut = stem_end(&chars, end);
    if cut == 0 {
        return Some(String::new());
    }
    let stop = trim_end(&chars, cut);
    if stop == 0 {
        proof {
            reveal_strlit("/");
            assert("/"@ =~= seq![SEPARATOR]);
        }
        return Some(String::from_str("/"));
    }
    let dir = String::from_str(path.substring_char(0, stop));
    assert(dir@ =~= path@.take(stop as int));
    Some(dir)
}

/// Whether `name` is a single component: not empty, and free of separators.
pub open spec fn is_component(name: Seq<char>) -> bool {
    name.len() > 0 && forall|i: int| 0 <= i < name.len() ==> name[i] != SEPARATOR
}

/// The two lengths look at the first `n` characters only: they are the same
/// for paths that agree there.
proof fn lemma_lens_of_equal_prefixes(p: Seq<char>, q: Seq<char>, n: nat)
    requires
        n <= p.len(),
        n <= q.len(),
        forall|i: int| 0 <= i < n ==> p[i] == q[i],
    ensures
        trim_len(p, n) == trim_len(q, n),
        stem_len(p, n) == stem_len(q, n),
        trim_len(p, n) <= n,
        stem_len(p, n) <= n,
    decreases n,
{
    if n > 0 {
        lemma_lens_of_equal_prefixes(p, q, (n - 1) as nat);
    }
}

/// Over a stretch without separators `stem_len` stays the same.
proof fn lemma_stem_len_over_component(p: Seq<char>, k: nat, n: nat)
    requires
        k <= n <= p.len(),
        forall|i: int| k <= i < n ==> p[i] != SEPARATOR,
    ensures
        stem_len(p, n) == stem_len(p, k),
    decreases n,
{
    if n > k {
        lemma_stem_len_over_component(p, k, (n - 1) as nat);
    }
}

/// A relative name is adjoined behind the base, and an absolute one replaces
/// it.
pub proof fn lemma_joined_keeps_base(base: Seq<char>, name: Seq<char>)
    ensures
        is_absolute(name) ==> joined(base, name) == name,
        !is_absolute(name) ==> base.is_prefix_of(joined(base, name)) && name.is_suffix_of(
            joined(base, name),
        ),
        !is_absolute(name) && is_absolute(base) ==> is_absolute(joined(base, name)),
{
    if !is_absolute(name) {
        let path = joined(base, name);
        assert(path.subrange(0, base.len() as int) =~= base);
        assert(path.subrange(path.len() - name.len(), path.len() as int) =~= name);
    }
}

/// What is put directly into a directory has that directory as its parent:
/// adjoining a single component to a base that does not end in a separator
/// gives a path whose parent is the base.
pub proof fn lemma_parent_of_joined(base: Seq<char>, name: Seq<char>)
    requires
        base.len() > 0,
        base.last() != SEPARATOR,
        is_component(name),
    ensures
        parent_of(joined(base, name)) == Some(base),
{
    let path = joined(base, name);
    let at = base.len();
    assert(path =~= base + seq![SEPARATOR] + name);
    assert(path[at as int] == SEPARATOR);
    assert(path[at - 1] == base.last());
    assert forall|i: int| at + 1 <= i < path.len() implies path[i] != SEPARATOR by {
        assert(path[i] == name[i - at - 1]);
    }
    assert(trim_len(path, path.len()) == path.len());
    lemma_stem_len_over_component(path, at + 1, path.len());
    assert(stem_len(path, at + 1) == at + 1);
    assert(trim_len(path, at + 1) == trim_len(path, at));
    assert(trim_len(path, at) == at);
    assert(path.take(at as int) =~= base);
}

/// A separator at the end of a path does not count: the parent is the same
/// with it and without it.
pub proof fn lemma_parent_ignores_trailing_separator(p: Seq<char>)
    ensures
        parent_of(p.push(SEPARATOR)) == parent_of(p),
{
    let q = p.push(SEPARATOR);
    assert(trim_len(q, q.len()) == trim_len(q, p.len()));
    lemma_lens_of_equal_prefixes(p, q, p.len());
    let end = trim_len(p, p.len());
    lemma_lens_of_equal_prefixes(p, q, end);
    let cut = stem_len(p, end);
    lemma_lens_of_equal_prefixes(p, q, cut);
    let stop = trim_len(p, cut);
    assert(q.take(stop as int) =~= p.take(stop as int));
}

/// Adjoining a name of several components is adjoining them one by one.
pub proof fn lemma_joined_in_steps(base: Seq<char>, first: Seq<char>, rest: Seq<char>)
    requires
        first.len() > 0,
        !is_absolute(first),
        first.last() != SEPARATOR,
        !is_absolute(rest),
    ensures
        joined(joined(base, first), rest) == joined(base, first + seq![SEPARATOR] + rest),
{
    let name = first + seq![SEPARATOR] + rest;
    assert(name[0] == first[0]);
    let inner = joined(base, first);
    assert(inner.last() == first.last());
    assert(joined(inner, rest) =~= joined(base, name));
}

} // verus!
