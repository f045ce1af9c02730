//! Trusted boundary to the filesystem and to the environment's data folder.
//!
//! Everything a result states here depends on the state of the disk or of
//! the environment at the moment of the call, so the contracts pin only
//! what holds of every outcome; callers decide from the returned values.

use vstd::prelude::*;

verus! {

/// What one filesystem probe reported about a path.
pub(crate) struct PathProbe {
    /// The path named an entry the probe could reach.
    pub exists: bool,
    /// The entry is a regular file.
    pub is_file: bool,
    /// The entry is a directory.
    pub is_dir: bool,
}

/// Relies on `fs_err::metadata`: queries the entry the path names, following
/// symbolic links.  Any access error is reported as "does not exist".  An
/// entry is never both a regular file and a directory.
#[verifier::external_body]
pub(crate) fn probe_path(path: &str) -> (r: PathProbe)
    ensures
        r.is_file ==> r.exists,
        r.is_dir ==> r.exists,
        !(r.is_file && r.is_dir),
{
    match fs_err::metadata(path) {
        Ok(m) => PathProbe { exists: true, is_file: m.is_file(), is_dir: m.is_dir() },
        Err(_) => PathProbe { exists: false, is_file: false, is_dir: false },
    }
}

/// Relies on `fs_err::read`: returns the whole content of the file, or the
/// error's description when it cannot be read.
#[verifier::external_body]
pub(crate) fn read_file(path: &str) -> Result<Vec<u8>, String> {
    fs_err::read(path).map_err(|e| e.to_string())
}

/// Relies on `fs_err::write`: replaces the file's content with `data` in a
/// single call, creating the file when it is missing.
#[verifier::external_body]
pub(crate) fn write_file(path: &str, data: &Vec<u8>) -> Result<(), String> {
    fs_err::write(path, data).map_err(|e| e.to_string())
}

/// Relies on `fs_err::create_dir_all`: creates the directory and its missing
/// parents; succeeds when the directory is already there.
#[verifier::external_body]
pub(crate) fn create_dir_all(path: &str) -> Result<(), String> {
    fs_err::create_dir_all(path).map_err(|e| e.to_string())
}

/// Relies on `fs_err::File::create`: creates the file empty, or truncates an
/// existing one.
#[verifier::external_body]
pub(crate) fn touch_file(path: &str) -> Result<(), String> {
    fs_err::File::create(path).map(|_| ()).map_err(|e| e.to_string())
}

/// Relies on `dirs::data_dir`: the environment's per-user data folder, or
/// `None` when the environment supplies none or its path is not text.
#[verifier::external_body]
pub(crate) fn data_root() -> Option<String> {
    dirs::data_dir().and_then(|p| p.to_str().map(|s| s.to_owned()))
}

} // verus!
