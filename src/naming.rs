//! Names of worktree directories derived from branch names.

use vstd::prelude::*;
use vstd::string::*;

verus! {

/// The character that replaces each `/` of a branch name.
pub open spec fn sanitized_char(c: char) -> char {
    if c == '/' {
        '-'
    } else {
        c
    }
}

/// A branch name with every `/` replaced by `-`, so that it can serve as a
/// single directory-name component.
pub open spec fn sanitized(s: Seq<char>) -> Seq<char> {
    s.map_values(|c: char| sanitized_char(c))
}

/// The directory name of the worktree for `branch` in a repository whose
/// directory is called `repo`: `<repo>-<sanitized branch>`.
pub open spec fn worktree_name_of(repo: Seq<char>, branch: Seq<char>) -> Seq<char> {
    repo + seq!['-'] + sanitized(branch)
}

/// Replaces every `/` of a branch name with `-`.
pub fn sanitize_branch_name(branch: &str) -> (r: String)
    ensures
        r@ == sanitized(branch@),
{
    let n = branch.unicode_len();
    let mut out = String::new();
    let mut i: usize = 0;
    while i < n
        invariant
            n == branch@.len(),
            i <= n,
            out@ == sanitized(branch@.subrange(0, i as int)),
        decreases n - i,
    {
        let c = branch.get_char(i);
        let piece = if c == '/' {
            "-"
        } else {
            branch.substring_char(i, i + 1)
        };
        proof {
            reveal_strlit("-");
            assert(piece@ == seq![sanitized_char(branch@[i as int])]);
            assert(branch@.subrange(0, i + 1) =~= branch@.subrange(0, i as int).push(
                branch@[i as int],
            ));
            assert(sanitized(branch@.subrange(0, i + 1)) =~= sanitized(
                branch@.subrange(0, i as int),
            ) + piece@);
        }
        out.append(piece);
        i += 1;
    }
    assert(branch@.subrange(0, n as int) =~= branch@);
    out
}

/// The directory name of the worktree for `branch`: the repository's
/// directory name, a `-`, and the sanitized branch name.
pub fn compute_worktree_name(repo_basename: &str, branch: &str) -> (r: String)
    ensures
        r@ == worktree_name_of(repo_basename@, branch@),
{
    let sanitized_branch = sanitize_branch_name(branch);
    let mut name = String::from_str(repo_basename);
    name.append("-");
    name.append(sanitized_branch.as_str());
    proof {
        reveal_strlit("-");
    }
    name
}

/// Sanitizing is total and idempotent: its result never holds a `/`, and
/// sanitizing that result again changes nothing.
pub proof fn lemma_sanitize_total_idempotent(s: Seq<char>)
    ensures
        forall|i: int| 0 <= i < sanitized(s).len() ==> sanitized(s)[i] != '/',
        sanitized(sanitized(s)) == sanitized(s),
{
    assert(sanitized(sanitized(s)) =~= sanitized(s));
}

/// The worktree name is the repository name and the branch name with every
/// `/` turned into `-`, joined by a `-`: it holds no `/` beyond those of the
/// repository name.
pub proof fn lemma_worktree_name_shape(repo: Seq<char>, branch: Seq<char>)
    ensures
        worktree_name_of(repo, branch).len() == repo.len() + 1 + branch.len(),
        worktree_name_of(repo, branch).subrange(0, repo.len() as int) == repo,
        worktree_name_of(repo, branch)[repo.len() as int] == '-',
        forall|i: int|
            0 <= i < branch.len() ==> #[trigger] worktree_name_of(repo, branch)[repo.len() + 1
                + i] == sanitized_char(branch[i]),
{
    assert(worktree_name_of(repo, branch).subrange(0, repo.len() as int) =~= repo);
}

} // verus!
