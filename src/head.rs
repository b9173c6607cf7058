//! The branch checked out in a worktree, read from its `HEAD` file.

use vstd::prelude::*;
use vstd::string::*;

use crate::error::TreesError;
use crate::paths::{gitdir_of, join, join_path, GitMarker, GITDIR_PREFIX};
use crate::text::{starts_with, strip_prefix, trim, trimmed};

verus! {

/// The prefix of a `HEAD` file that names a local branch.
pub const HEAD_REF_PREFIX: &'static str = "ref: refs/heads/";

/// The branch reported for a `HEAD` that names no branch.
pub const DETACHED: &'static str = "detached";

/// The branch reported when `HEAD` cannot be read.
pub const UNKNOWN: &'static str = "unknown";

/// The branch that a `HEAD` file with contents `content` names.
pub open spec fn branch_of_head(content: Seq<char>) -> Seq<char> {
    if starts_with(content, HEAD_REF_PREFIX@) {
        trimmed(content.subrange(HEAD_REF_PREFIX@.len() as int, content.len() as int))
    } else {
        DETACHED@
    }
}

/// What reading a worktree's `HEAD` gave.
#[derive(Clone, Debug)]
pub enum HeadRead {
    /// The `.git` file is not of the `gitdir: <path>` form, so there is no
    /// `HEAD` file to read.
    NoHeadFile,
    /// The contents of the `HEAD` file.
    Read(String),
    /// The `.git` entry or the `HEAD` file could not be read.
    Unreadable,
}

/// The branch recorded for a worktree in the inventory: the branch that its
/// `HEAD` names, or `unknown` when there was none to read or it could not
/// be read.
pub open spec fn branch_of_lookup(head: HeadRead) -> Seq<char> {
    match head {
        HeadRead::Read(content) => branch_of_head(content@),
        _ => UNKNOWN@,
    }
}

/// Where the `HEAD` file of the worktree at `path` lies: inside the git
/// directory that its `.git` file names, or at `<path>/.git/HEAD`; none
/// for a `.git` file of another form.
pub open spec fn head_location(path: Seq<char>, marker: GitMarker) -> Option<Seq<char>> {
    match marker {
        GitMarker::NotAFile => Some(join(path, seq!['.', 'g', 'i', 't', '/', 'H', 'E', 'A', 'D'])),
        GitMarker::File(content) => match gitdir_of(content@) {
            Some(gitdir) => Some(join(gitdir, seq!['H', 'E', 'A', 'D'])),
            None => None,
        },
    }
}

/// The branch named by the contents of a `HEAD` file: the name after
/// `ref: refs/heads/`, trimmed, or `detached` for any other contents.
pub fn branch_from_head(content: &str) -> (r: String)
    ensures
        r@ == branch_of_head(content@),
{
    match strip_prefix(content, HEAD_REF_PREFIX) {
        Some(rest) => trim(rest.as_str()),
        None => String::from_str(DETACHED),
    }
}

/// The branch recorded for a worktree in the inventory (see
/// `branch_of_lookup`): a failed read is downgraded to `unknown`.
pub fn branch_from_lookup(head: &HeadRead) -> (r: String)
    ensures
        r@ == branch_of_lookup(*head),
{
    match head {
        HeadRead::Read(content) => branch_from_head(content.as_str()),
        _ => String::from_str(UNKNOWN),
    }
}

/// The branch checked out in the worktree at `path`: the branch its `HEAD`
/// names, `unknown` when its `.git` file points nowhere, and
/// `BranchLookupError` when what had to be read could not be.
pub fn worktree_branch(path: &str, head: &HeadRead) -> (r: Result<String, TreesError>)
    ensures
        match *head {
            HeadRead::Read(content) => r matches Ok(b) && b@ == branch_of_head(content@),
            HeadRead::NoHeadFile => r matches Ok(b) && b@ == UNKNOWN@,
            HeadRead::Unreadable => r matches Err(TreesError::BranchLookupError(p)) && p@ == path@,
        },
{
    match head {
        HeadRead::Read(content) => Ok(branch_from_head(content.as_str())),
        HeadRead::NoHeadFile => Ok(String::from_str(UNKNOWN)),
        HeadRead::Unreadable => Err(TreesError::BranchLookupError(String::from_str(path))),
    }
}

/// The path of the `HEAD` file of the worktree at `path`, whose `.git`
/// entry is `marker`.
pub fn head_file_path(path: &str, marker: &GitMarker) -> (r: Option<String>)
    ensures
        match head_location(path@, *marker) {
            Some(loc) => r matches Some(s) && s@ == loc,
            None => r is None,
        },
{
    match marker {
        GitMarker::NotAFile => {
            proof {
                reveal_strlit(".git/HEAD");
            }
            Some(join_path(path, ".git/HEAD"))
        },
        GitMarker::File(content) => match strip_prefix(content.as_str(), GITDIR_PREFIX) {
            Some(rest) => {
                let gitdir = trim(rest.as_str());
                proof {
                    reveal_strlit("HEAD");
                }
                Some(join_path(gitdir.as_str(), "HEAD"))
            },
            None => None,
        },
    }
}

/// Whether `c` is a hexadecimal digit.
pub open spec fn is_hex_digit(c: char) -> bool {
    ('0' <= c && c <= '9') || ('a' <= c && c <= 'f') || ('A' <= c && c <= 'F')
}

/// A `HEAD` that holds a commit id, hexadecimal digits with any trailing
/// white space, names no branch: it reads as `detached`.
pub proof fn lemma_commit_id_head_is_detached(id: Seq<char>, tail: Seq<char>)
    requires
        id.len() > 0,
        forall|i: int| 0 <= i < id.len() ==> is_hex_digit(#[trigger] id[i]),
    ensures
        branch_of_head(id + tail) == DETACHED@,
{
    reveal_strlit("ref: refs/heads/");
    let s = id + tail;
    assert(s[0] == id[0]);
    if starts_with(s, HEAD_REF_PREFIX@) {
        assert(s.subrange(0, HEAD_REF_PREFIX@.len() as int)[0] == 'r');
    }
}

/// A `HEAD` that holds `ref: refs/heads/<branch>` and a newline reads as
/// `<branch>`, for every branch name that neither starts nor ends with
/// white space.
pub proof fn lemma_symbolic_head_names_branch(branch: Seq<char>)
    requires
        branch.len() > 0,
        !crate::text::is_white_space(branch[0]),
        !crate::text::is_white_space(branch.last()),
    ensures
        branch_of_head(HEAD_REF_PREFIX@ + branch + seq!['\n']) == branch,
{
    let s = HEAD_REF_PREFIX@ + branch + seq!['\n'];
    let n = HEAD_REF_PREFIX@.len() as int;
    assert(s.subrange(0, n) =~= HEAD_REF_PREFIX@);
    let rest = s.subrange(n, s.len() as int);
    assert(rest =~= branch + seq!['\n']);
    assert(crate::text::leading_white_space(rest) == 0);
    assert(rest.drop_last() =~= branch);
    assert(crate::text::trailing_white_space(branch) == 0);
    assert(crate::text::trailing_white_space(rest) == 1);
    assert(rest.subrange(0, branch.len() as int) =~= branch);
}

} // verus!
