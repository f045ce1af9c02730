//! Trusted boundary to the git object store (the `git2` crate).
//!
//! Values of the declared types below are opaque handles into the object
//! store; what each call does to the store depends on the state of the disk,
//! so the wrappers state only what holds of every outcome and the verified
//! callers decide from the returned values.

use vstd::prelude::*;

verus! {

/// An opaque handle to one open git object store.  Verus sees nothing
/// inside it; every operation on it goes through the wrappers below, which
/// rely on `git2::Repository` for what each call does.
#[verifier::external_body]
pub struct ObjectStore {
    inner: git2::Repository,
}

#[verifier::external_type_specification]
#[verifier::external_body]
pub struct ExGitIndex(git2::Index);

#[verifier::external_type_specification]
#[verifier::external_body]
pub struct ExGitOid(git2::Oid);

#[verifier::external_type_specification]
#[verifier::external_body]
pub struct ExGitTree<'a>(git2::Tree<'a>);

#[verifier::external_type_specification]
#[verifier::external_body]
pub struct ExGitCommit<'a>(git2::Commit<'a>);

#[verifier::external_type_specification]
#[verifier::external_body]
pub struct ExGitSignature<'a>(git2::Signature<'a>);

/// Why opening an object store failed.
pub(crate) struct OpenFailure {
    /// Nothing to open was found at the path.
    pub not_found: bool,
    /// The description the object store gave.
    pub message: String,
}

/// Relies on `git2::Repository::open`: opens the repository at `path`; a
/// path holding no repository is reported with `not_found`.
#[verifier::external_body]
pub(crate) fn repo_open(path: &str) -> Result<ObjectStore, OpenFailure> {
    match git2::Repository::open(path) {
        Ok(inner) => Ok(ObjectStore { inner }),
        Err(e) => Err(OpenFailure {
            not_found: e.code() == git2::ErrorCode::NotFound,
            message: e.message().to_owned(),
        }),
    }
}

/// Relies on `git2::Repository::init`: creates a repository at `path`,
/// creating the directory itself when it is missing.
#[verifier::external_body]
pub(crate) fn repo_init(path: &str) -> Result<ObjectStore, String> {
    git2::Repository::init(path).map(|inner| ObjectStore { inner }).map_err(|e| e.message().to_owned())
}

/// Relies on `git2::Repository::workdir`: the repository's working directory
/// (with a trailing separator), or `None` for a bare repository or a path
/// that is not text.
#[verifier::external_body]
pub(crate) fn repo_workdir(repo: &ObjectStore) -> Option<String> {
    repo.inner.workdir().and_then(|p| p.to_str().map(|s| s.to_owned()))
}

/// Relies on `git2::Repository::remotes`: the configured remote names, or
/// `None` when they cannot be listed; names that are not text are left out.
#[verifier::external_body]
pub(crate) fn repo_remote_names(repo: &ObjectStore) -> Option<Vec<String>> {
    repo.inner.remotes().ok().map(
        |arr| arr.iter().filter_map(|s| s.ok().flatten().map(|n| n.to_owned())).collect(),
    )
}

/// Relies on `git2::Repository::index`: the repository's index file.
#[verifier::external_body]
pub(crate) fn repo_index(repo: &ObjectStore) -> Result<git2::Index, String> {
    repo.inner.index().map_err(|e| e.message().to_owned())
}

/// Relies on `git2::Index::add_all`: stages every file matching one of the
/// pathspecs (paths relative to the working directory), honouring the
/// repository's ignore rules.
#[verifier::external_body]
pub(crate) fn index_add_all(index: &mut git2::Index, pathspecs: &Vec<String>) -> Result<
    (),
    String,
> {
    index
        .add_all(pathspecs.iter(), git2::IndexAddOption::DEFAULT, None)
        .map_err(|e| e.message().to_owned())
}

/// Relies on `git2::Index::write`: persists the index to disk.
#[verifier::external_body]
pub(crate) fn index_write(index: &mut git2::Index) -> Result<(), String> {
    index.write().map_err(|e| e.message().to_owned())
}

/// Relies on `git2::Index::write_tree`: writes the index's content as a tree
/// object and returns the tree's id.
#[verifier::external_body]
pub(crate) fn index_write_tree(index: &mut git2::Index) -> Result<git2::Oid, String> {
    index.write_tree().map_err(|e| e.message().to_owned())
}

/// Relies on `git2::Repository::find_tree`: looks the tree object up by id.
#[verifier::external_body]
pub(crate) fn find_tree<'r>(repo: &'r ObjectStore, oid: &git2::Oid) -> Result<
    git2::Tree<'r>,
    String,
> {
    repo.inner.find_tree(*oid).map_err(|e| e.message().to_owned())
}

/// Relies on `git2::Signature::now`: an identity stamped with the current
/// time; fails when the name or the email cannot stand in a signature.
#[verifier::external_body]
pub(crate) fn signature_now(name: &str, email: &str) -> Result<git2::Signature<'static>, String> {
    git2::Signature::now(name, email).map_err(|e| e.message().to_owned())
}

/// Relies on `git2::Repository::refname_to_id`: the id of the object the
/// named reference points at.
#[verifier::external_body]
pub(crate) fn refname_to_id(repo: &ObjectStore, refname: &str) -> Result<git2::Oid, String> {
    repo.inner.refname_to_id(refname).map_err(|e| e.message().to_owned())
}

/// Relies on `git2::Repository::find_commit`: looks the commit object up by
/// id.
#[verifier::external_body]
pub(crate) fn find_commit<'r>(repo: &'r ObjectStore, oid: &git2::Oid) -> Result<
    git2::Commit<'r>,
    String,
> {
    repo.inner.find_commit(*oid).map_err(|e| e.message().to_owned())
}

/// Relies on `git2::Repository::commit`: writes a commit whose author and
/// committer are both `sig`, whose tree is `tree` and whose parents are
/// exactly the content of `parent`, and points `update_ref` at it.
#[verifier::external_body]
pub(crate) fn commit_create<'r>(
    repo: &'r ObjectStore,
    update_ref: &str,
    sig: &git2::Signature<'static>,
    message: &str,
    tree: &git2::Tree<'r>,
    parent: Option<&git2::Commit<'r>>,
) -> Result<git2::Oid, String> {
    let parents: Vec<&git2::Commit<'r>> = match parent {
        Some(c) => vec![c],
        None => vec![],
    };
    repo.inner.commit(Some(update_ref), sig, sig, message, tree, &parents)
        .map_err(|e| e.message().to_owned())
}

} // verus!
