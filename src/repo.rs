//! Operations on the repository's metadata store through libgit2.
//!
//! Each call into `git2` stands behind one small trusted function below; the
//! logic around those calls is verified. What libgit2 finds depends on the
//! repository on disk, so of most calls nothing is assumed beyond their
//! types; the verified functions state what holds whatever they return.

use vstd::prelude::*;
use vstd::string::*;

use crate::error::TreesError;
use crate::naming::{compute_worktree_name, worktree_name_of};
use crate::head::{branch_of_head, is_hex_digit, lemma_symbolic_head_names_branch, HEAD_REF_PREFIX};
use crate::paths::{is_canonical_path, join, join_path, lemma_parent_of_join, sibling_of};
use crate::text::{has_prefix, same_text, starts_with};

verus! {

#[verifier::external_type_specification]
#[verifier::external_body]
pub struct ExRepository(git2::Repository);

#[verifier::external_type_specification]
#[verifier::external_body]
pub struct ExGitError(git2::Error);

#[verifier::external_type_specification]
#[verifier::external_body]
pub struct ExOid(git2::Oid);

/// Relies on `git2::Repository::open`: opens the repository at `path`.
#[verifier::external_body]
fn open_repository(path: &str) -> (r: Result<git2::Repository, git2::Error>) {
    git2::Repository::open(path)
}

/// Relies on `git2::Error::message`: the error's text.
#[verifier::external_body]
fn error_message(e: &git2::Error) -> (r: String) {
    e.message().to_string()
}

/// Relies on `git2::Error::code`: whether the error says that the object
/// exists already.
#[verifier::external_body]
fn error_is_exists(e: &git2::Error) -> (r: bool) {
    e.code() == git2::ErrorCode::Exists
}

/// Relies on `git2::Repository::worktrees` and `StringArray::iter`: the
/// names of the registered linked worktrees, `None` for one that is not
/// UTF-8.
#[verifier::external_body]
fn worktree_list(repo: &git2::Repository) -> (r: Result<Vec<Option<String>>, git2::Error>) {
    let arr = repo.worktrees()?;
    Ok(arr.iter().map(|s| s.ok().flatten().map(|s| s.to_string())).collect())
}

/// Relies on `git2::Repository::remotes` and `StringArray::iter`: the names
/// of the configured remotes, `None` for one that is not UTF-8.
#[verifier::external_body]
fn remote_list(repo: &git2::Repository) -> (r: Result<Vec<Option<String>>, git2::Error>) {
    let arr = repo.remotes()?;
    Ok(arr.iter().map(|s| s.ok().flatten().map(|s| s.to_string())).collect())
}

/// Relies on `git2::Repository::statuses`, with untracked files included
/// and ignored ones left out, and `Statuses::len`: the number of status
/// entries.
#[verifier::external_body]
fn status_entry_count(repo: &git2::Repository) -> (r: Result<usize, git2::Error>) {
    let mut options = git2::StatusOptions::new();
    options.include_untracked(true);
    options.include_ignored(false);
    Ok(repo.statuses(Some(&mut options))?.len())
}

/// Relies on `git2::Repository::find_branch` for a local branch and
/// `Reference::target`: the commit that it points at, if it has a direct
/// target.
#[verifier::external_body]
fn local_branch_target(repo: &git2::Repository, name: &str) -> (r: Result<
    Option<git2::Oid>,
    git2::Error,
>) {
    let branch = repo.find_branch(name, git2::BranchType::Local)?;
    Ok(branch.get().target())
}

/// Relies on `git2::Repository::head` and `Reference::peel_to_commit`: the
/// id of the commit that `HEAD` resolves to.
#[verifier::external_body]
fn head_commit_id(repo: &git2::Repository) -> (r: Result<git2::Oid, git2::Error>) {
    Ok(repo.head()?.peel_to_commit()?.id())
}

/// Relies on `git2::Repository::find_commit` and `Repository::branch`,
/// without force: creates the local branch `name` at the commit `commit`.
#[verifier::external_body]
fn create_branch(repo: &git2::Repository, name: &str, commit: git2::Oid) -> (r: Result<
    (),
    git2::Error,
>) {
    let commit = repo.find_commit(commit)?;
    repo.branch(name, &commit, false)?;
    Ok(())
}

/// Relies on `git2::Repository::worktree`: registers the worktree `name`
/// with its directory at `path`.
#[verifier::external_body]
fn add_worktree(repo: &git2::Repository, name: &str, path: &str) -> (r: Result<(), git2::Error>) {
    let opts = git2::WorktreeAddOptions::new();
    repo.worktree(name, std::path::Path::new(path), Some(&opts))?;
    Ok(())
}

/// Relies on `git2::Repository::find_object` and `Repository::checkout_tree`:
/// checks out the tree of the object `id` into the working directory.
#[verifier::external_body]
fn checkout_object(repo: &git2::Repository, id: git2::Oid) -> (r: Result<(), git2::Error>) {
    let object = repo.find_object(id, None)?;
    repo.checkout_tree(&object, None)
}

/// Relies on `git2::Repository::set_head`: points `HEAD` at `refname`.
#[verifier::external_body]
fn set_head(repo: &git2::Repository, refname: &str) -> (r: Result<(), git2::Error>) {
    repo.set_head(refname)
}

/// Relies on the `Display` of `git2::Oid`: the id in hexadecimal, forty
/// digits for a SHA-1 id (`git_oid_tostr`; SHA-256 ids are not enabled).
#[verifier::external_body]
fn oid_hex(id: git2::Oid) -> (r: String)
    ensures
        r@.len() == 40,
        forall|i: int| 0 <= i < 40 ==> is_hex_digit(#[trigger] r@[i]),
{
    id.to_string()
}

/// Relies on `git2::Repository::find_remote` and `Remote::fetch`, with the
/// remote's own refspecs and default options: fetches the remote `name`.
#[verifier::external_body]
fn fetch_remote(repo: &git2::Repository, name: &str) -> (r: Result<(), git2::Error>) {
    let mut remote = repo.find_remote(name)?;
    let mut options = git2::FetchOptions::new();
    remote.fetch(&[] as &[&str], Some(&mut options), None)
}

/// Relies on `git2::Repository::branches` and `Branch::name`: the names of
/// the local branches, or of the remote-tracking ones, `None` for one that
/// is not UTF-8.
#[verifier::external_body]
fn branch_name_list(repo: &git2::Repository, remote: bool) -> (r: Result<
    Vec<Option<String>>,
    git2::Error,
>) {
    let kind = if remote { git2::BranchType::Remote } else { git2::BranchType::Local };
    let mut names = Vec::new();
    for entry in repo.branches(Some(kind))? {
        let (branch, _) = entry?;
        names.push(branch.name()?.map(|s| s.to_string()));
    }
    Ok(names)
}

/// The names that are present, in order.
pub open spec fn present_names(s: Seq<Option<String>>) -> Seq<Seq<char>>
    decreases s.len(),
{
    if s.len() == 0 {
        Seq::empty()
    } else {
        match s.last() {
            Some(n) => present_names(s.drop_last()).push(n@),
            None => present_names(s.drop_last()),
        }
    }
}

/// The names of `entries` that are present, in order.
pub fn keep_present(entries: &Vec<Option<String>>) -> (r: Vec<String>)
    ensures
        r@.map_values(|s: String| s@) == present_names(entries@),
{
    let mut out: Vec<String> = Vec::new();
    let mut i: usize = 0;
    while i < entries.len()
        invariant
            i <= entries@.len(),
            out@.map_values(|s: String| s@) == present_names(entries@.subrange(0, i as int)),
        decreases entries@.len() - i,
    {
        assert(entries@.subrange(0, i + 1).drop_last() =~= entries@.subrange(0, i as int));
        match &entries[i] {
            Some(name) => {
                out.push(name.clone());
                assert(out@.map_values(|s: String| s@) =~= present_names(
                    entries@.subrange(0, i as int),
                ).push(name@));
            },
            None => {},
        }
        i += 1;
    }
    assert(entries@.subrange(0, entries@.len() as int) =~= entries@);
    out
}

/// The prefix of remote-tracking branch names of the `origin` remote.
pub const ORIGIN_PREFIX: &'static str = "origin/";

/// The symbolic branch of the `origin` remote, which is no branch of its own.
pub const ORIGIN_HEAD: &'static str = "origin/HEAD";

/// A branch name without any number of leading `origin/`.
pub open spec fn without_origin(s: Seq<char>) -> Seq<char>
    decreases s.len(),
{
    if ORIGIN_PREFIX@.len() > 0 && starts_with(s, ORIGIN_PREFIX@) {
        without_origin(s.subrange(ORIGIN_PREFIX@.len() as int, s.len() as int))
    } else {
        s
    }
}

/// The branch names offered for a list of branches: the present names other
/// than `origin/HEAD`, each without its leading `origin/`.
pub open spec fn offered_branches(s: Seq<Option<String>>) -> Seq<Seq<char>>
    decreases s.len(),
{
    if s.len() == 0 {
        Seq::empty()
    } else {
        match s.last() {
            Some(n) => if n@ == ORIGIN_HEAD@ {
                offered_branches(s.drop_last())
            } else {
                offered_branches(s.drop_last()).push(without_origin(n@))
            },
            None => offered_branches(s.drop_last()),
        }
    }
}

/// Removes every leading `origin/` of a branch name.
pub fn strip_origin(name: &str) -> (r: String)
    ensures
        r@ == without_origin(name@),
{
    let mut cur = String::from_str(name);
    proof {
        reveal_strlit("origin/");
    }
    while has_prefix(cur.as_str(), ORIGIN_PREFIX)
        invariant
            without_origin(cur@) == without_origin(name@),
            ORIGIN_PREFIX@.len() == 7,
        decreases cur@.len(),
    {
        let n = cur.as_str().unicode_len();
        let rest = String::from_str(cur.as_str().substring_char(7, n));
        cur = rest;
    }
    cur
}

/// The branch names offered for a list of branches (see
/// `offered_branches`).
pub fn clean_branch_names(entries: &Vec<Option<String>>) -> (r: Vec<String>)
    ensures
        r@.map_values(|s: String| s@) == offered_branches(entries@),
{
    let mut out: Vec<String> = Vec::new();
    let mut i: usize = 0;
    while i < entries.len()
        invariant
            i <= entries@.len(),
            out@.map_values(|s: String| s@) == offered_branches(entries@.subrange(0, i as int)),
        decreases entries@.len() - i,
    {
        assert(entries@.subrange(0, i + 1).drop_last() =~= entries@.subrange(0, i as int));
        match &entries[i] {
            Some(name) => {
                if !same_text(name.as_str(), ORIGIN_HEAD) {
                    let clean = strip_origin(name.as_str());
                    out.push(clean);
                    assert(out@.map_values(|s: String| s@) =~= offered_branches(
                        entries@.subrange(0, i as int),
                    ).push(without_origin(name@)));
                }
            },
            None => {},
        }
        i += 1;
    }
    assert(entries@.subrange(0, entries@.len() as int) =~= entries@);
    out
}

/// Whether `name` is among `names`.
pub fn is_registered(names: &Vec<String>, name: &str) -> (r: bool)
    ensures
        r == exists|i: int| 0 <= i < names@.len() && names@[i]@ == name@,
{
    let mut i: usize = 0;
    while i < names.len()
        invariant
            i <= names@.len(),
            forall|j: int| 0 <= j < i ==> names@[j]@ != name@,
        decreases names@.len() - i,
    {
        if same_text(names[i].as_str(), name) {
            return true;
        }
        i += 1;
    }
    false
}

/// The text of a failure of the repository library, after a description
/// of what was attempted.
fn failure(what: &str, e: &git2::Error) -> (r: String)
    ensures
        starts_with(r@, what@ + ": "@),
{
    let mut s = String::from_str(what);
    s.append(": ");
    let ghost prefix = s@;
    let m = error_message(e);
    s.append(m.as_str());
    assert(s@.subrange(0, prefix.len() as int) =~= prefix);
    s
}

/// Whether a worktree with `n` status entries, untracked files included and
/// ignored ones not, is dirty: whether there is any entry.
pub fn dirty_of_count(n: usize) -> (r: bool)
    ensures
        r == (n > 0),
{
    n != 0
}

/// `AlreadyExists` when `name` is among the registered worktree names.
pub fn check_not_registered(registered: &Vec<String>, name: &str) -> (r: Result<(), TreesError>)
    ensures
        r is Ok <==> !(exists|i: int| 0 <= i < registered@.len() && registered@[i]@ == name@),
        r matches Err(e) ==> (e matches TreesError::AlreadyExists(n) && n@ == name@),
{
    if is_registered(registered, name) {
        Err(TreesError::AlreadyExists(String::from_str(name)))
    } else {
        Ok(())
    }
}

/// The result of creating a branch that was not found: success when it was
/// created, and also when the creation failed because the branch exists
/// meanwhile; any other failure is a `GitError` with `message`.
pub fn creation_outcome(created: bool, already_exists: bool, message: String) -> (r: Result<
    (),
    TreesError,
>)
    ensures
        r is Ok <==> (created || already_exists),
        r matches Err(e) ==> (e matches TreesError::GitError(m) && m@ == message@),
{
    if created || already_exists {
        Ok(())
    } else {
        Err(TreesError::GitError(message))
    }
}

/// Whether the worktree at `path` has uncommitted changes, untracked files
/// included and ignored ones not.
pub fn is_worktree_dirty(path: &str) -> (r: Result<bool, TreesError>)
    ensures
        r matches Err(e) ==> (e matches TreesError::RepoOpenError(p) && p@ == path@) || (
        e is GitError),
{
    let repo = match open_repository(path) {
        Ok(repo) => repo,
        Err(_) => return Err(TreesError::RepoOpenError(String::from_str(path))),
    };
    match status_entry_count(&repo) {
        Ok(n) => Ok(dirty_of_count(n)),
        Err(e) => Err(TreesError::GitError(failure("failed to get status", &e))),
    }
}

/// The names of the linked worktrees registered in the repository at
/// `main_repo`, in the order the store lists them; names that are not
/// UTF-8 are left out.
pub fn registered_worktrees(main_repo: &str) -> (r: Result<Vec<String>, TreesError>)
    ensures
        r matches Err(e) ==> (e matches TreesError::RepoOpenError(p) && p@ == main_repo@) || (
        e is GitError),
{
    let repo = match open_repository(main_repo) {
        Ok(repo) => repo,
        Err(_) => return Err(TreesError::RepoOpenError(String::from_str(main_repo))),
    };
    match worktree_list(&repo) {
        Ok(entries) => Ok(keep_present(&entries)),
        Err(e) => Err(TreesError::GitError(failure("failed to get worktrees", &e))),
    }
}

/// The reference that `HEAD` names for the local branch `branch`.
pub fn branch_ref_name(branch: &str) -> (r: String)
    ensures
        r@ == "refs/heads/"@ + branch@,
{
    let mut s = String::from_str("refs/heads/");
    s.append(branch);
    s
}

/// Makes sure that the local branch `branch` exists, creating it at the
/// commit of `HEAD` when it does not. A branch that appears meanwhile
/// counts as existing.
fn ensure_branch(repo: &git2::Repository, branch: &str) -> (r: Result<(), TreesError>)
    ensures
        r matches Err(e) ==> e is GitError,
{
    if local_branch_target(repo, branch).is_ok() {
        return Ok(());
    }
    let head = match head_commit_id(repo) {
        Ok(id) => id,
        Err(e) => return Err(TreesError::GitError(failure("failed to get head", &e))),
    };
    match create_branch(repo, branch, head) {
        Ok(()) => creation_outcome(true, false, String::new()),
        Err(e) => creation_outcome(
            false,
            error_is_exists(&e),
            failure("failed to create branch", &e),
        ),
    }
}

/// Checks the branch `branch` out in the new worktree at `path` and points
/// its `HEAD` at it.
fn check_out_branch(repo: &git2::Repository, path: &str, branch: &str) -> (r: Result<
    (),
    TreesError,
>)
    ensures
        r matches Err(e) ==> (e is RepoOpenError || e is GitError),
{
    let worktree = match open_repository(path) {
        Ok(w) => w,
        Err(_) => return Err(TreesError::RepoOpenError(String::from_str(path))),
    };
    let target = match local_branch_target(repo, branch) {
        Ok(Some(id)) => id,
        Ok(None) => return Err(TreesError::GitError(String::from_str(branch))),
        Err(e) => return Err(TreesError::GitError(failure("failed to find branch", &e))),
    };
    if let Err(e) = checkout_object(&worktree, target) {
        return Err(TreesError::GitError(failure("failed to check out branch", &e)));
    }
    let refname = branch_ref_name(branch);
    match set_head(&worktree, refname.as_str()) {
        Ok(()) => Ok(()),
        Err(e) => Err(TreesError::GitError(failure("failed to set HEAD", &e))),
    }
}

/// A worktree that was created: its registered name and its directory.
#[derive(Clone, Debug)]
pub struct NewWorktree {
    pub name: String,
    pub path: String,
}

/// Creates a worktree for `branch` in the directory
/// `<parent_dir>/<repo_name>-<sanitized branch>`, next to the repository
/// at `repo_path` whose directory is `<parent_dir>/<repo_name>`;
/// `target_exists` tells whether that directory exists already. A name
/// that is registered already gives `AlreadyExists` (see
/// `check_not_registered`) before anything is changed. Creates the local
/// branch at `HEAD` when it does not exist (see `creation_outcome`).
/// Returns the worktree's name and directory.
pub fn create_worktree(
    repo_path: &str,
    parent_dir: &str,
    repo_name: &str,
    branch: &str,
    target_exists: bool,
) -> (r: Result<NewWorktree, TreesError>)
    ensures
        target_exists ==> (r matches Err(TreesError::AlreadyExists(n)) && n@ == worktree_name_of(
            repo_name@,
            branch@,
        )),
        r matches Ok(w) ==> w.name@ == worktree_name_of(repo_name@, branch@) && w.path@ == join(
            parent_dir@,
            w.name@,
        ),
        r matches Err(TreesError::AlreadyExists(n)) ==> n@ == worktree_name_of(
            repo_name@,
            branch@,
        ),
        r matches Err(e) ==> (e is AlreadyExists || e is RepoOpenError || e is GitError),
{
    let name = compute_worktree_name(repo_name, branch);
    if target_exists {
        return Err(TreesError::AlreadyExists(name));
    }
    let repo = match open_repository(repo_path) {
        Ok(repo) => repo,
        Err(_) => return Err(TreesError::RepoOpenError(String::from_str(repo_path))),
    };
    let registered = match worktree_list(&repo) {
        Ok(entries) => keep_present(&entries),
        Err(e) => return Err(TreesError::GitError(failure("failed to get worktrees", &e))),
    };
    check_not_registered(&registered, name.as_str())?;
    ensure_branch(&repo, branch)?;
    let folder = join_path(parent_dir, name.as_str());
    if let Err(e) = add_worktree(&repo, name.as_str(), folder.as_str()) {
        return Err(TreesError::GitError(failure("failed to create worktree", &e)));
    }
    check_out_branch(&repo, folder.as_str(), branch)?;
    Ok(NewWorktree { name, path: folder })
}

/// A created worktree is found where the inventory looks for it, and the
/// `HEAD` that points it at its branch reads back as that branch. For a
/// repository in `<parent>/<repo_name>`, the directory beside it named after
/// the new worktree is the one the worktree is created in; and a `HEAD` of
/// `ref: refs/heads/<branch>` names `<branch>`, for a branch name without
/// surrounding white space. Whether libgit2 registers the worktree and
/// writes that `HEAD` is not stated here.
pub proof fn lemma_created_worktree_is_found(
    parent: Seq<char>,
    repo_name: Seq<char>,
    branch: Seq<char>,
)
    requires
        is_canonical_path(parent),
        repo_name.len() > 0,
        forall|i: int| 0 <= i < repo_name.len() ==> repo_name[i] != '/',
        branch.len() > 0,
        !crate::text::is_white_space(branch[0]),
        !crate::text::is_white_space(branch.last()),
    ensures
        sibling_of(join(parent, repo_name), worktree_name_of(repo_name, branch)) == Some(
            join(parent, worktree_name_of(repo_name, branch)),
        ),
        branch_of_head(HEAD_REF_PREFIX@ + branch + seq!['\n']) == branch,
{
    lemma_parent_of_join(parent, repo_name);
    lemma_symbolic_head_names_branch(branch);
}

/// The local and the remote-tracking branches of the repository at
/// `repo_path`, as offered for a new worktree (see `offered_branches`).
pub fn get_branches(repo_path: &str) -> (r: Result<(Vec<String>, Vec<String>), TreesError>)
    ensures
        r matches Err(e) ==> (e is RepoOpenError || e is GitError),
{
    let repo = match open_repository(repo_path) {
        Ok(repo) => repo,
        Err(_) => return Err(TreesError::RepoOpenError(String::from_str(repo_path))),
    };
    let local = match branch_name_list(&repo, false) {
        Ok(names) => clean_branch_names(&names),
        Err(e) => return Err(TreesError::GitError(failure("failed to get branches", &e))),
    };
    let remote = match branch_name_list(&repo, true) {
        Ok(names) => clean_branch_names(&names),
        Err(e) => return Err(TreesError::GitError(failure("failed to get branches", &e))),
    };
    Ok((local, remote))
}

/// The number of characters of an abbreviated commit id.
pub const SHORT_HASH_LEN: usize = 8;

/// The first eight characters of a commit id, or all of a shorter one.
pub open spec fn short_hash_of(full: Seq<char>) -> Seq<char> {
    if full.len() <= SHORT_HASH_LEN {
        full
    } else {
        full.subrange(0, SHORT_HASH_LEN as int)
    }
}

/// Abbreviates a commit id to its first eight characters.
pub fn short_hash(full: &str) -> (r: String)
    ensures
        r@ == short_hash_of(full@),
{
    let n = full.unicode_len();
    if n <= SHORT_HASH_LEN {
        String::from_str(full)
    } else {
        String::from_str(full.substring_char(0, SHORT_HASH_LEN))
    }
}

/// The abbreviated id of the commit checked out in the worktree at `path`.
pub fn get_worktree_commit_hash(path: &str) -> (r: Result<String, TreesError>)
    ensures
        r matches Ok(h) ==> h@.len() == SHORT_HASH_LEN && forall|i: int|
            0 <= i < h@.len() ==> is_hex_digit(#[trigger] h@[i]),
        r matches Err(e) ==> (e is RepoOpenError || e is GitError),
{
    let repo = match open_repository(path) {
        Ok(repo) => repo,
        Err(_) => return Err(TreesError::RepoOpenError(String::from_str(path))),
    };
    match head_commit_id(&repo) {
        Ok(id) => {
            let full = oid_hex(id);
            Ok(short_hash(full.as_str()))
        },
        Err(e) => Err(TreesError::GitError(failure("failed to get head", &e))),
    }
}

/// Fetches the remotes `names` of `repo` in order, stopping at the first
/// that fails: on success every remote was fetched and the names come back
/// in order; a failure is `FetchFailed`, naming the remote that failed.
pub fn fetch_remotes(repo: &git2::Repository, names: &Vec<String>) -> (r: Result<
    Vec<String>,
    TreesError,
>)
    ensures
        r matches Ok(v) ==> v@ == names@,
        r matches Err(e) ==> (e matches TreesError::FetchFailed(m) && exists|i: int|
            0 <= i < names@.len() && starts_with(m@, #[trigger] names@[i]@ + ": "@)),
{
    let mut fetched: Vec<String> = Vec::new();
    let mut i: usize = 0;
    while i < names.len()
        invariant
            i <= names@.len(),
            fetched@ == names@.subrange(0, i as int),
        decreases names@.len() - i,
    {
        if let Err(e) = fetch_remote(repo, names[i].as_str()) {
            let m = failure(names[i].as_str(), &e);
            assert(starts_with(m@, names@[i as int]@ + ": "@));
            return Err(TreesError::FetchFailed(m));
        }
        fetched.push(names[i].clone());
        assert(fetched@ =~= names@.subrange(0, i + 1));
        i += 1;
    }
    assert(names@.subrange(0, names@.len() as int) =~= names@);
    Ok(fetched)
}

/// Fetches every configured remote of the repository at `repo_path` (see
/// `fetch_remotes`): one failing remote stops the run before any worktree
/// is pulled. Returns the names of the remotes fetched.
pub fn fetch_all_remotes(repo_path: &str) -> (r: Result<Vec<String>, TreesError>)
    ensures
        r matches Err(e) ==> (e is RepoOpenError || e is GitError || e is FetchFailed),
{
    let repo = match open_repository(repo_path) {
        Ok(repo) => repo,
        Err(_) => return Err(TreesError::RepoOpenError(String::from_str(repo_path))),
    };
    let names = match remote_list(&repo) {
        Ok(entries) => keep_present(&entries),
        Err(e) => return Err(TreesError::GitError(failure("failed to get remotes", &e))),
    };
    fetch_remotes(&repo, &names)
}

} // verus!
