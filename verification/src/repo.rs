//! Collections of notes: lifecycle, staging and committing.
//!
//! A collection is a git repository under the per-user data folder.  Opening
//! a collection that is not there yet creates it: the object store is
//! initialized, a default configuration file is written below the working
//! directory, and that file becomes the collection's initial commit.
//!
//! Adding a note stages it into the collection's index and persists the
//! index; it never commits by itself.  Committing what is staged is the
//! separate, explicit [`Repository::commit`] step (or [`commit_files`]).

use vstd::prelude::*;
use vstd::string::StrSliceExecFns;

use crate::config::Config;
use crate::config::ConfigV;
use crate::config::IdentityField;
use crate::config::resolve_spec;
use crate::error::Error;
use crate::error::ErrorCategory;
use crate::fsio;
use crate::gitio;
use crate::paths;

verus! {

/// The folder below a working directory that holds the collection's own
/// files.
pub open spec fn config_dir_spec(workdir: Seq<char>) -> Seq<char> {
    paths::join_spec(workdir, ".mm"@)
}

/// The collection's configuration file below its working directory.
pub open spec fn config_file_spec(workdir: Seq<char>) -> Seq<char> {
    paths::join_spec(config_dir_spec(workdir), "mm_config.json"@)
}

/// Identity resolution succeeds for both entries a commit needs.
pub open spec fn identity_resolvable(c: ConfigV) -> bool {
    &&& resolve_spec(c.doc, c.env, IdentityField::Name) is Ok
    &&& resolve_spec(c.doc, c.env, IdentityField::Email) is Ok
}

/// The folder holding the collection's own files: a deterministic join
/// below a known working directory.
pub fn config_dir_of(workdir: &str) -> (r: String)
    ensures
        r@ == config_dir_spec(workdir@),
{
    paths::join_path(workdir, ".mm")
}

/// The collection's configuration file: a deterministic join below a known
/// working directory.
pub fn config_file_of(workdir: &str) -> (r: String)
    ensures
        r@ == config_file_spec(workdir@),
{
    let dir = config_dir_of(workdir);
    paths::join_path(dir.as_str(), "mm_config.json")
}

/// The working directory of an open object store; a bare store has none
/// and fails as a git error.
pub fn get_workdir(repo: &gitio::ObjectStore) -> (r: Result<String, Error>)
    ensures
        r matches Err(e) ==> e@.category == ErrorCategory::Git,
{
    match gitio::repo_workdir(repo) {
        Some(w) => Ok(w),
        None => Err(Error::from_string("cannot get working directory", ErrorCategory::Git)),
    }
}

/// The folder holding the collection's own files, below the working
/// directory of `repo`.
pub fn get_config_directory(repo: &gitio::ObjectStore) -> (r: Result<String, Error>)
    ensures
        r matches Ok(p) ==> exists|w: Seq<char>| p@ == config_dir_spec(w),
        r matches Err(e) ==> e@.category == ErrorCategory::Git,
{
    match get_workdir(repo) {
        Ok(w) => {
            let dir = config_dir_of(w.as_str());
            proof {
                assert(dir@ == config_dir_spec(w@));
            }
            Ok(dir)
        },
        Err(e) => Err(e),
    }
}

/// The collection's configuration file, below the working directory of
/// `repo`.
pub fn get_config_file(repo: &gitio::ObjectStore) -> (r: Result<String, Error>)
    ensures
        r matches Ok(p) ==> exists|w: Seq<char>| p@ == config_file_spec(w),
        r matches Err(e) ==> e@.category == ErrorCategory::Git,
{
    match get_workdir(repo) {
        Ok(w) => {
            let file = config_file_of(w.as_str());
            proof {
                assert(file@ == config_file_spec(w@));
            }
            Ok(file)
        },
        Err(e) => Err(e),
    }
}

/// Stages every path in `pathspecs` (relative to the working directory,
/// honouring ignore rules), persists the index, writes it as a tree, and
/// creates a commit of that tree whose author and committer are the
/// identity `config` resolves.  The commit's parent is the commit `HEAD`
/// resolves to, or none when `HEAD` resolves to no commit (a fresh
/// collection); `HEAD` is moved to the new commit.  A message of `None`
/// falls back to the default message.  Success implies the identity was
/// resolvable; identity errors surface with their own category, everything
/// else as a git error.
pub fn commit_files(
    repo: &gitio::ObjectStore,
    config: &Config,
    pathspecs: &Vec<String>,
    message: Option<&str>,
) -> (r: Result<(), Error>)
    ensures
        r is Ok ==> identity_resolvable(config@),
        r matches Err(e) ==> e@.category == ErrorCategory::Git || e@.category
            == ErrorCategory::Config,
{
    let mut index = match gitio::repo_index(repo) {
        Ok(i) => i,
        Err(m) => return Err(Error::from_string(m.as_str(), ErrorCategory::Git)),
    };
    if let Err(m) = gitio::index_add_all(&mut index, pathspecs) {
        return Err(Error::from_string(m.as_str(), ErrorCategory::Git));
    }
    if let Err(m) = gitio::index_write(&mut index) {
        return Err(Error::from_string(m.as_str(), ErrorCategory::Git));
    }
    let tree_oid = match gitio::index_write_tree(&mut index) {
        Ok(oid) => oid,
        Err(m) => return Err(Error::from_string(m.as_str(), ErrorCategory::Git)),
    };
    let tree = match gitio::find_tree(repo, &tree_oid) {
        Ok(t) => t,
        Err(m) => return Err(Error::from_string(m.as_str(), ErrorCategory::Git)),
    };
    let name = config.resolve_name()?;
    let email = config.resolve_email()?;
    let author = match gitio::signature_now(name.as_str(), email.as_str()) {
        Ok(s) => s,
        Err(m) => return Err(Error::from_string(m.as_str(), ErrorCategory::Git)),
    };
    let msg: &str = match message {
        Some(m) => m,
        None => "chore: several files updated",
    };
    let parent = match gitio::refname_to_id(repo, "HEAD") {
        Ok(head_oid) => match gitio::find_commit(repo, &head_oid) {
            Ok(c) => Some(c),
            Err(_) => None,
        },
        Err(_) => None,
    };
    let created = match &parent {
        Some(c) => gitio::commit_create(repo, "HEAD", &author, msg, &tree, Some(c)),
        None => gitio::commit_create(repo, "HEAD", &author, msg, &tree, None),
    };
    match created {
        Ok(_) => Ok(()),
        Err(m) => Err(Error::from_string(m.as_str(), ErrorCategory::Git)),
    }
}

/// Creates a fresh collection at `path`: initializes the object store,
/// writes the default configuration file below the working directory, and
/// commits that file as the collection's initial commit.  No partially
/// created state is rolled back on failure.
fn create_repository(path: &str) -> (r: Result<gitio::ObjectStore, Error>)
    ensures
        r matches Err(e) ==> e@.category == ErrorCategory::Git || e@.category == ErrorCategory::Os
            || e@.category == ErrorCategory::Config || e@.category == ErrorCategory::IO,
{
    let repo = match gitio::repo_init(path) {
        Ok(r) => r,
        Err(m) => return Err(Error::from_string(m.as_str(), ErrorCategory::Git)),
    };
    let config_dir = match get_config_directory(&repo) {
        Ok(d) => d,
        Err(e) => return Err(e),
    };
    if let Err(m) = fsio::create_dir_all(config_dir.as_str()) {
        return Err(Error::from_string(m.as_str(), ErrorCategory::Os));
    }
    let config_file = match get_config_file(&repo) {
        Ok(f) => f,
        Err(e) => return Err(e),
    };
    if let Err(m) = fsio::touch_file(config_file.as_str()) {
        return Err(Error::from_string(m.as_str(), ErrorCategory::Os));
    }
    let config = match Config::new() {
        Ok(c) => c,
        Err(e) => return Err(e),
    };
    if let Err(e) = config.save(config_file.as_str()) {
        return Err(e);
    }
    let workdir = match get_workdir(&repo) {
        Ok(w) => w,
        Err(e) => return Err(e),
    };
    let relative = match paths::strip_path_prefix(config_file.as_str(), workdir.as_str()) {
        Some(rel) => rel,
        None => return Err(
            Error::from_string(
                "configuration file lies outside the working directory",
                ErrorCategory::Os,
            ),
        ),
    };
    let mut pathspecs: Vec<String> = Vec::new();
    pathspecs.push(relative);
    if let Err(e) = commit_files(&repo, &config, &pathspecs, Some("chore: initial commit")) {
        return Err(e);
    }
    Ok(repo)
}

/// Opens the object store at `path`, creating a fresh collection there
/// when none is found.  Only a missing store falls through to creation;
/// one that is there but cannot be opened surfaces its own error rather
/// than being re-initialized over.
pub fn open_or_create_repository(path: &str) -> (r: Result<gitio::ObjectStore, Error>)
    ensures
        r matches Err(e) ==> e@.category == ErrorCategory::Git || e@.category == ErrorCategory::Os
            || e@.category == ErrorCategory::Config || e@.category == ErrorCategory::IO,
{
    match gitio::repo_open(path) {
        Ok(repo) => Ok(repo),
        Err(failure) => {
            if failure.not_found {
                create_repository(path)
            } else {
                Err(Error::from_string(failure.message.as_str(), ErrorCategory::Git))
            }
        },
    }
}

/// The mathematical content of a [`Repository`]: its name, its remotes as
/// listed when it was opened, and its configuration.
pub ghost struct RepositoryV {
    pub name: Seq<char>,
    pub remotes: Option<Seq<Seq<char>>>,
    pub config: ConfigV,
}

/// An open collection of notes.
pub struct Repository {
    /// Handle of the underlying object store.
    internal_repo: gitio::ObjectStore,
    /// The collection's name.
    name: String,
    /// The remote names, or `None` when they could not be listed.
    remotes: Option<Vec<String>>,
    /// The collection's configuration, loaded at open time.
    config: Config,
}

impl View for Repository {
    type V = RepositoryV;

    closed spec fn view(&self) -> RepositoryV {
        RepositoryV {
            name: self.name@,
            remotes: match self.remotes {
                Some(v) => Some(v.deep_view()),
                None => None,
            },
            config: self.config@,
        }
    }
}

impl Repository {
    /// Wraps an open object store into a collection: lists its remotes
    /// (best effort), loads its configuration file, and names it.
    fn from_git_repository(repo: gitio::ObjectStore, repo_name: Option<&str>) -> (r: Result<
        Repository,
        Error,
    >)
        ensures
            r matches Ok(rep) ==> rep@.name == paths::name_or_main(repo_name),
            r matches Err(e) ==> e@.category == ErrorCategory::Git || e@.category
                == ErrorCategory::Os || e@.category == ErrorCategory::Config || e@.category
                == ErrorCategory::IO,
    {
        let remotes = gitio::repo_remote_names(&repo);
        let config_file = match get_config_file(&repo) {
            Ok(f) => f,
            Err(e) => return Err(e),
        };
        let config = match Config::load(config_file.as_str()) {
            Ok(c) => c,
            Err(e) => return Err(e),
        };
        let name = match repo_name {
            Some(n) => n.to_owned(),
            None => "mm_main_local".to_owned(),
        };
        Ok(Repository { internal_repo: repo, name, remotes, config })
    }

    /// Opens the collection `repo_name` (the main collection when `None`),
    /// creating the folder of all collections and the collection itself
    /// when they are missing.
    pub fn open_or_create(repo_name: Option<&str>) -> (r: Result<Repository, Error>)
        ensures
            r matches Ok(rep) ==> rep@.name == paths::name_or_main(repo_name),
            r matches Err(e) ==> e@.category == ErrorCategory::Git || e@.category
                == ErrorCategory::Os || e@.category == ErrorCategory::Config || e@.category
                == ErrorCategory::IO,
    {
        if !paths::is_repos_folder_present() {
            let folder = match paths::get_repos_folder() {
                Some(f) => f,
                None => return Err(
                    Error::from_string("cannot get repositories folder", ErrorCategory::Os),
                ),
            };
            if let Err(m) = fsio::create_dir_all(folder.as_str()) {
                return Err(Error::from_string(m.as_str(), ErrorCategory::Os));
            }
        }
        let repo_path = match paths::get_repo_path(&repo_name) {
            Some(p) => p,
            None => return Err(Error::from_string("cannot get repository path", ErrorCategory::Os)),
        };
        let internal = match open_or_create_repository(repo_path.as_str()) {
            Ok(r) => r,
            Err(e) => return Err(e),
        };
        Repository::from_git_repository(internal, repo_name)
    }

    /// The collection's working directory; a bare store has none and fails
    /// as a git error.
    pub fn get_workdir(&self) -> (r: Result<String, Error>)
        ensures
            r matches Err(e) ==> e@.category == ErrorCategory::Git,
    {
        get_workdir(&self.internal_repo)
    }

    /// The collection's name.
    pub fn name(&self) -> (r: &String)
        ensures
            r@ == self@.name,
    {
        &self.name
    }

    /// The remote names listed when the collection was opened, or `None`
    /// when they could not be listed.
    pub fn remotes(&self) -> (r: &Option<Vec<String>>)
        ensures
            match r {
                Some(v) => self@.remotes matches Some(s) && v.deep_view() == s,
                None => self@.remotes is None,
            },
    {
        &self.remotes
    }

    /// The collection's configuration, as loaded when it was opened.
    pub fn config(&self) -> (r: &Config)
        ensures
            r@ == self@.config,
    {
        &self.config
    }

    /// Validates `note_path` — it must be absolute and name an existing
    /// regular file, else this fails as a filesystem error before touching
    /// the object store — and stages the note it names, by its path
    /// relative to the working directory; a path outside the working
    /// directory fails as a filesystem error.  Staging does not commit.
    pub fn add_note(&self, note_path: &str) -> (r: Result<(), Error>)
        ensures
            !paths::is_absolute_spec(note_path@) ==> (r matches Err(e) && e@.category
                == ErrorCategory::Os && e@.msg == "invalid absolute note path"@),
            r matches Err(e) ==> e@.category == ErrorCategory::Os || e@.category
                == ErrorCategory::Git,
    {
        let probe = fsio::probe_path(note_path);
        if !(probe.exists && probe.is_file && paths::is_absolute_path(note_path)) {
            return Err(Error::from_string("invalid absolute note path", ErrorCategory::Os));
        }
        let workdir = match self.get_workdir() {
            Ok(w) => w,
            Err(e) => return Err(e),
        };
        match paths::strip_path_prefix(note_path, workdir.as_str()) {
            Some(rel) => self.add_note_internal(rel.as_str()),
            None => Err(
                Error::from_string(
                    "note path lies outside the working directory",
                    ErrorCategory::Os,
                ),
            ),
        }
    }

    /// Validates `folder_path` — it must be absolute and name an existing
    /// directory, else this fails as a filesystem error — and records the
    /// folder it names, by its path relative to the working directory; a
    /// path outside the working directory fails as a filesystem error.
    pub fn add_folder(&self, folder_path: &str) -> (r: Result<(), Error>)
        ensures
            !paths::is_absolute_spec(folder_path@) ==> (r matches Err(e) && e@.category
                == ErrorCategory::Os && e@.msg == "invalid absolute folder path"@),
            r matches Err(e) ==> e@.category == ErrorCategory::Os || e@.category
                == ErrorCategory::Git,
    {
        let probe = fsio::probe_path(folder_path);
        if !(probe.exists && probe.is_dir && paths::is_absolute_path(folder_path)) {
            return Err(Error::from_string("invalid absolute folder path", ErrorCategory::Os));
        }
        let workdir = match self.get_workdir() {
            Ok(w) => w,
            Err(e) => return Err(e),
        };
        match paths::strip_path_prefix(folder_path, workdir.as_str()) {
            Some(rel) => self.add_folder_internal(rel.as_str()),
            None => Err(
                Error::from_string(
                    "folder path lies outside the working directory",
                    ErrorCategory::Os,
                ),
            ),
        }
    }

    /// Commits the staged paths with the collection's own configuration:
    /// the explicit second step after staging notes.
    pub fn commit(&self, pathspecs: &Vec<String>, message: Option<&str>) -> (r: Result<(), Error>)
        ensures
            r is Ok ==> identity_resolvable(self@.config),
            r matches Err(e) ==> e@.category == ErrorCategory::Git || e@.category
                == ErrorCategory::Config,
    {
        commit_files(&self.internal_repo, &self.config, pathspecs, message)
    }

    /// Stages one note, by its path relative to the working directory:
    /// first the folder it lies in, then the note itself through the
    /// index's add-all (so ignore rules are honoured), and persists the
    /// index.
    fn add_note_internal(&self, relative_path: &str) -> (r: Result<(), Error>)
        ensures
            r matches Err(e) ==> e@.category == ErrorCategory::Git,
    {
        match paths::parent_path(relative_path) {
            Some(parent) => {
                if let Err(e) = self.add_folder_internal(parent.as_str()) {
                    return Err(e);
                }
            },
            None => {},
        }
        let mut index = match gitio::repo_index(&self.internal_repo) {
            Ok(i) => i,
            Err(m) => return Err(Error::from_string(m.as_str(), ErrorCategory::Git)),
        };
        let mut pathspecs: Vec<String> = Vec::new();
        pathspecs.push(relative_path.to_owned());
        if let Err(m) = gitio::index_add_all(&mut index, &pathspecs) {
            return Err(Error::from_string(m.as_str(), ErrorCategory::Git));
        }
        if let Err(m) = gitio::index_write(&mut index) {
            return Err(Error::from_string(m.as_str(), ErrorCategory::Git));
        }
        Ok(())
    }

    /// Records a folder, by its path relative to the working directory.
    /// Folders exist in the object store only through the files they
    /// contain, so beyond validation there is nothing to stage and every
    /// call succeeds; the working-directory root itself is equally a
    /// deliberate no-op.
    fn add_folder_internal(&self, relative_path: &str) -> (r: Result<(), Error>)
        ensures
            r is Ok,
    {
        if relative_path.unicode_len() == 0 {
            return Ok(());
        }
        Ok(())
    }
}

} // verus!
