//! Resolution of the main repository from a worktree's directory.
//!
//! Paths are `/`-separated character sequences without a trailing separator
//! (except the root `/` itself), as canonicalization produces them.

use vstd::prelude::*;
use vstd::string::*;

use crate::error::TreesError;
use crate::text::{
    is_white_space, leading_white_space, starts_with, strip_prefix, trailing_white_space, trim,
    trimmed,
};

verus! {

/// The prefix of the single line of a `.git` file that marks a linked
/// worktree.
pub const GITDIR_PREFIX: &'static str = "gitdir: ";

/// What `<path>/.git` turned out to be.
#[derive(Clone, Debug)]
pub enum GitMarker {
    /// Not a regular file: a directory (a main repository), or absent.
    NotAFile,
    /// A regular file, with its contents.
    File(String),
}

/// The index of the last `/` of `s`, or -1 when there is none.
pub open spec fn last_slash(s: Seq<char>) -> int
    decreases s.len(),
{
    if s.len() == 0 {
        -1
    } else if s.last() == '/' {
        s.len() - 1
    } else {
        last_slash(s.drop_last())
    }
}

/// The parent of a path: everything before its last `/`, the root `/` for a
/// top-level entry, the empty path for a bare name, and none for the root or
/// the empty path.
pub open spec fn parent_of(p: Seq<char>) -> Option<Seq<char>> {
    let k = last_slash(p);
    if p.len() == 0 {
        None
    } else if k < 0 {
        Some(Seq::empty())
    } else if k == 0 {
        if p.len() == 1 {
            None
        } else {
            Some(seq!['/'])
        }
    } else {
        Some(p.subrange(0, k))
    }
}

/// `rel` appended to `base` with one separator between them.
pub open spec fn join(base: Seq<char>, rel: Seq<char>) -> Seq<char> {
    if base.len() == 0 || base.last() == '/' {
        base + rel
    } else {
        base + seq!['/'] + rel
    }
}

/// The third ancestor of a path, if it has one.
pub open spec fn third_ancestor(p: Seq<char>) -> Option<Seq<char>> {
    match parent_of(p) {
        None => None,
        Some(a) => match parent_of(a) {
            None => None,
            Some(b) => parent_of(b),
        },
    }
}

/// The git directory that the contents of a `.git` file name, if they are
/// of the `gitdir: <path>` form.
pub open spec fn gitdir_of(content: Seq<char>) -> Option<Seq<char>> {
    if starts_with(content, GITDIR_PREFIX@) {
        Some(trimmed(content.subrange(GITDIR_PREFIX@.len() as int, content.len() as int)))
    } else {
        None
    }
}

/// The main repository of the directory `canonical`: the directory itself
/// unless its `.git` is a file naming a git directory
/// `<main>/.git/worktrees/<name>`, in which case `<main>`; none when that
/// git directory has no third ancestor.
pub open spec fn main_repository_of(canonical: Seq<char>, marker: GitMarker) -> Option<Seq<char>> {
    match marker {
        GitMarker::NotAFile => Some(canonical),
        GitMarker::File(content) => match gitdir_of(content@) {
            None => Some(canonical),
            Some(gitdir) => third_ancestor(gitdir),
        },
    }
}

/// The index of the last `/` of `s`.
pub fn find_last_slash(s: &str) -> (r: Option<usize>)
    ensures
        match r {
            Some(k) => k == last_slash(s@) && k < s@.len(),
            None => last_slash(s@) == -1,
        },
{
    let n = s.unicode_len();
    let mut j: usize = n;
    assert(s@.subrange(0, n as int) =~= s@);
    while j > 0
        invariant
            n == s@.len(),
            j <= n,
            last_slash(s@) == last_slash(s@.subrange(0, j as int)),
        decreases j,
    {
        if s.get_char(j - 1) == '/' {
            assert(s@.subrange(0, j as int).last() == '/');
            return Some(j - 1);
        }
        assert(s@.subrange(0, j as int).drop_last() =~= s@.subrange(0, j - 1));
        j -= 1;
    }
    None
}

/// The parent of a path (see `parent_of`).
pub fn parent_dir(p: &str) -> (r: Option<String>)
    ensures
        match r {
            Some(s) => parent_of(p@) == Some(s@),
            None => parent_of(p@) is None,
        },
{
    let n = p.unicode_len();
    if n == 0 {
        return None;
    }
    match find_last_slash(p) {
        None => Some(String::new()),
        Some(k) => {
            if k == 0 {
                if n == 1 {
                    None
                } else {
                    proof {
                        reveal_strlit("/");
                    }
                    Some(String::from_str("/"))
                }
            } else {
                Some(String::from_str(p.substring_char(0, k)))
            }
        },
    }
}

/// `rel` appended to `base` with one separator between them.
pub fn join_path(base: &str, rel: &str) -> (r: String)
    ensures
        r@ == join(base@, rel@),
{
    let n = base.unicode_len();
    let mut out = String::from_str(base);
    if n != 0 && base.get_char(n - 1) != '/' {
        out.append("/");
        proof {
            reveal_strlit("/");
        }
    }
    out.append(rel);
    out
}

/// Where the directory of the linked worktree `name` of the repository in
/// `repo_dir` is looked for: beside the repository, in the same parent.
pub open spec fn sibling_of(repo_dir: Seq<char>, name: Seq<char>) -> Option<Seq<char>> {
    match parent_of(repo_dir) {
        Some(parent) => Some(join(parent, name)),
        None => None,
    }
}

/// The path beside the repository directory `repo_dir` named `name` (see
/// `sibling_of`).
pub fn sibling_path(repo_dir: &str, name: &str) -> (r: Option<String>)
    ensures
        match sibling_of(repo_dir@, name@) {
            Some(s) => r matches Some(x) && x@ == s,
            None => r is None,
        },
{
    match parent_dir(repo_dir) {
        Some(parent) => Some(join_path(parent.as_str(), name)),
        None => None,
    }
}

/// Resolves the main repository of the canonicalized directory `canonical`,
/// given what its `.git` entry is. A `.git` file whose contents do not start
/// with `gitdir: ` leaves the directory as it is.
pub fn resolve_main_repository(canonical: &str, marker: &GitMarker) -> (r: Result<
    String,
    TreesError,
>)
    ensures
        match main_repository_of(canonical@, *marker) {
            Some(main) => r matches Ok(s) && s@ == main,
            None => r matches Err(TreesError::PathError(_)),
        },
{
    match marker {
        GitMarker::NotAFile => Ok(String::from_str(canonical)),
        GitMarker::File(content) => {
            match strip_prefix(content.as_str(), GITDIR_PREFIX) {
                None => Ok(String::from_str(canonical)),
                Some(rest) => {
                    let gitdir = trim(rest.as_str());
                    match parent_dir(gitdir.as_str()) {
                        None => Err(TreesError::PathError(gitdir)),
                        Some(a) => match parent_dir(a.as_str()) {
                            None => Err(TreesError::PathError(a)),
                            Some(b) => match parent_dir(b.as_str()) {
                                None => Err(TreesError::PathError(b)),
                                Some(main) => Ok(main),
                            },
                        },
                    }
                },
            }
        },
    }
}

/// A path as canonicalization gives it: absolute, without a trailing
/// separator unless it is the root.
pub open spec fn is_canonical_path(p: Seq<char>) -> bool {
    p.len() > 0 && p[0] == '/' && (p.len() == 1 || p.last() != '/')
}

/// A name usable as one path component: non-empty and without `/`.
pub open spec fn is_component(c: Seq<char>) -> bool {
    c.len() > 0 && forall|i: int| 0 <= i < c.len() ==> c[i] != '/'
}

/// The git directory that git keeps for the linked worktree `name` of the
/// main repository `main`: `<main>/.git/worktrees/<name>`.
pub open spec fn linked_git_dir(main: Seq<char>, name: Seq<char>) -> Seq<char> {
    join(join(join(main, seq!['.', 'g', 'i', 't']), seq!['w', 'o', 'r', 'k', 't', 'r', 'e', 'e', 's']), name)
}

proof fn lemma_last_slash_append(s: Seq<char>, t: Seq<char>)
    requires
        forall|i: int| 0 <= i < t.len() ==> t[i] != '/',
    ensures
        last_slash(s + t) == last_slash(s),
    decreases t.len(),
{
    if t.len() > 0 {
        assert((s + t).drop_last() =~= s + t.drop_last());
        lemma_last_slash_append(s, t.drop_last());
    } else {
        assert(s + t =~= s);
    }
}

/// The parent of a canonical path joined with one more component is that
/// path again, and the joined path is canonical too.
pub proof fn lemma_parent_of_join(base: Seq<char>, c: Seq<char>)
    requires
        is_canonical_path(base),
        c.len() > 0,
        forall|i: int| 0 <= i < c.len() ==> c[i] != '/',
    ensures
        parent_of(join(base, c)) == Some(base),
        is_canonical_path(join(base, c)),
{
    if base.len() == 1 {
        let j = base + c;
        assert(base =~= seq!['/']);
        lemma_last_slash_append(base, c);
        assert(last_slash(base) == 0);
        assert(j.subrange(0, 0) =~= Seq::<char>::empty());
        assert(j.last() == c.last());
    } else {
        let s = base + seq!['/'];
        lemma_last_slash_append(s, c);
        assert(s.last() == '/');
        assert(last_slash(s) == base.len());
        assert((s + c).subrange(0, base.len() as int) =~= base);
        assert((s + c).last() == c.last());
        assert((s + c)[0] == base[0]);
    }
}

proof fn lemma_trailing_short(q: Seq<char>)
    requires
        q.len() > 0,
        !is_white_space(q[0]),
    ensures
        trailing_white_space(q) < q.len(),
    decreases q.len(),
{
    if is_white_space(q.last()) {
        assert(q.len() > 1);
        assert(q.drop_last()[0] == q[0]);
        lemma_trailing_short(q.drop_last());
    }
}

proof fn lemma_trailing_append(p: Seq<char>, q: Seq<char>)
    requires
        trailing_white_space(q) < q.len(),
    ensures
        trailing_white_space(p + q) == trailing_white_space(q),
    decreases q.len(),
{
    assert((p + q).last() == q.last());
    if is_white_space(q.last()) {
        assert((p + q).drop_last() =~= p + q.drop_last());
        lemma_trailing_append(p, q.drop_last());
    }
}

/// Trimming the line `<base>/<name>` and a newline, where `base` starts
/// with `/`, only removes the newline and white space at the end of `name`:
/// what remains is `<base>/` and a prefix of `name`.
proof fn lemma_trim_gitdir_line(base: Seq<char>, name: Seq<char>) -> (c: Seq<char>)
    requires
        base.len() > 0,
        base[0] == '/',
    ensures
        trimmed(base + seq!['/'] + name + seq!['\n']) == base + seq!['/'] + c,
        c.len() <= name.len(),
        c == name.subrange(0, c.len() as int),
{
    let q = seq!['/'] + name;
    let g = base + q;
    assert(base + seq!['/'] + name =~= g);
    let s = g + seq!['\n'];
    assert(s[0] == '/');
    assert(leading_white_space(s) == 0);
    assert(q[0] == '/');
    lemma_trailing_short(q);
    lemma_trailing_append(base, q);
    let t = trailing_white_space(g);
    assert(s.drop_last() =~= g);
    assert(is_white_space(s.last()));
    assert(trailing_white_space(s) == 1 + t);
    let c = name.subrange(0, name.len() - t);
    assert(s.subrange(0, s.len() - (1 + t)) =~= base + seq!['/'] + c);
    c
}

/// The parent of `<base>/<c>`, for a non-empty `base` and a `c` without
/// `/`, possibly empty, is `base`.
proof fn lemma_parent_of_slash(base: Seq<char>, c: Seq<char>)
    requires
        base.len() > 0,
        forall|i: int| 0 <= i < c.len() ==> c[i] != '/',
    ensures
        parent_of(base + seq!['/'] + c) == Some(base),
{
    let s = base + seq!['/'];
    lemma_last_slash_append(s, c);
    assert(s.last() == '/');
    assert(last_slash(s) == base.len());
    assert((s + c).subrange(0, base.len() as int) =~= base);
}

/// Resolving the main repository gives the same directory from a linked
/// worktree, whose `.git` file points into `<main>/.git/worktrees/<name>`,
/// as from the main repository itself.
pub proof fn lemma_resolve_round_trip(
    main: Seq<char>,
    name: Seq<char>,
    worktree: Seq<char>,
    marker_text: String,
)
    requires
        is_canonical_path(main),
        is_component(name),
        marker_text@ == GITDIR_PREFIX@ + linked_git_dir(main, name) + seq!['\n'],
    ensures
        main_repository_of(main, GitMarker::NotAFile) == Some(main),
        main_repository_of(worktree, GitMarker::File(marker_text)) == Some(main),
{
    let dot_git = seq!['.', 'g', 'i', 't'];
    let wts = seq!['w', 'o', 'r', 'k', 't', 'r', 'e', 'e', 's'];
    assert(dot_git.last() == 't');
    assert(wts.last() == 's');
    lemma_parent_of_join(main, dot_git);
    let a = join(main, dot_git);
    lemma_parent_of_join(a, wts);
    let b = join(a, wts);
    assert(b.len() > 1 && b.last() != '/');
    let g = join(b, name);
    assert(g =~= b + seq!['/'] + name);
    let c = lemma_trim_gitdir_line(b, name);
    assert forall|i: int| 0 <= i < c.len() implies c[i] != '/' by {
        assert(c[i] == name[i]);
    }
    lemma_parent_of_slash(b, c);
    reveal_strlit("gitdir: ");
    let content = marker_text@;
    assert(content.subrange(0, GITDIR_PREFIX@.len() as int) =~= GITDIR_PREFIX@);
    assert(content.subrange(GITDIR_PREFIX@.len() as int, content.len() as int) =~= b + seq!['/']
        + name + seq!['\n']);
}

} // verus!
