//! Path strings and where collections live on disk.
//!
//! The library works on paths as plain strings with `/` as the separator.
//! A path is absolute when it starts with `/`; joining appends a separator
//! only where one is needed; stripping a base keeps exactly the part after
//! the base and its separator.  The working directory reported by the object
//! store ends with `/`, so the operations below accept a base both with and
//! without a trailing separator.

use vstd::prelude::*;
use vstd::string::StrSliceExecFns;
use vstd::string::StringExecFns;

use crate::fsio;

verus! {

/// A path is absolute when it starts with the separator.
pub open spec fn is_absolute_spec(s: Seq<char>) -> bool {
    s.len() > 0 && s[0] == '/'
}

/// The result of joining `comp` onto `base`: an absolute `comp` replaces
/// `base`; otherwise a separator is inserted unless `base` is empty or
/// already ends with one.
pub open spec fn join_spec(base: Seq<char>, comp: Seq<char>) -> Seq<char> {
    if is_absolute_spec(comp) {
        comp
    } else if base.len() == 0 {
        comp
    } else if base.last() == '/' {
        base + comp
    } else {
        base + seq!['/'] + comp
    }
}

/// The part of `path` after the base `base`, when `path` lies under `base`:
/// `None` when it does not.  A `base` with a trailing separator matches the
/// same paths as one without it.
pub open spec fn strip_prefix_spec(path: Seq<char>, base: Seq<char>) -> Option<Seq<char>> {
    if base.len() == 0 {
        Some(path)
    } else if path == base {
        Some(Seq::<char>::empty())
    } else if base.last() == '/' {
        if path == base.take(base.len() - 1) {
            Some(Seq::<char>::empty())
        } else if path.len() > base.len() && path.subrange(0, base.len() as int) == base {
            Some(path.skip(base.len() as int))
        } else {
            None
        }
    } else {
        if path.len() > base.len() && path.subrange(0, base.len() as int) == base
            && path[base.len() as int] == '/' {
            Some(path.skip(base.len() as int + 1))
        } else {
            None
        }
    }
}

/// Index of the last separator in `s`, or `-1` when `s` holds none.
pub open spec fn last_slash_index(s: Seq<char>) -> int
    decreases s.len(),
{
    if s.len() == 0 {
        -1
    } else if s.last() == '/' {
        s.len() - 1
    } else {
        last_slash_index(s.drop_last())
    }
}

/// The parent of a relative path: everything before the last separator,
/// the empty path (the working-directory root) when there is no separator,
/// and nothing for the empty path itself.
pub open spec fn parent_spec(s: Seq<char>) -> Option<Seq<char>> {
    if s.len() == 0 {
        None
    } else if last_slash_index(s) < 0 {
        Some(Seq::<char>::empty())
    } else {
        Some(s.take(last_slash_index(s)))
    }
}

/// Name a collection gets when the caller supplies none.
pub open spec fn main_repo_name() -> Seq<char> {
    "mm_main_local"@
}

/// The collection name to use: the given one, or the main collection's.
pub open spec fn name_or_main(repo_name: Option<&str>) -> Seq<char> {
    match repo_name {
        Some(n) => n@,
        None => main_repo_name(),
    }
}

/// The folder all collections live under, below a given data folder.
pub open spec fn repos_root_spec(data_root: Seq<char>) -> Seq<char> {
    join_spec(join_spec(data_root, "mm"@), "repos"@)
}

/// The folder of one named collection, below a given data folder.
pub open spec fn repo_path_spec(data_root: Seq<char>, name: Seq<char>) -> Seq<char> {
    join_spec(repos_root_spec(data_root), name)
}

/// Whether `s` names an absolute path.
pub fn is_absolute_path(s: &str) -> (r: bool)
    ensures
        r == is_absolute_spec(s@),
{
    let len = s.unicode_len();
    len > 0 && s.get_char(0) == '/'
}

/// Joins `comp` onto `base` with a single separator.
pub fn join_path(base: &str, comp: &str) -> (r: String)
    ensures
        r@ == join_spec(base@, comp@),
{
    let comp_len = comp.unicode_len();
    if comp_len > 0 && comp.get_char(0) == '/' {
        return comp.to_owned();
    }
    let base_len = base.unicode_len();
    if base_len == 0 {
        return comp.to_owned();
    }
    let mut r = base.to_owned();
    if base.get_char(base_len - 1) != '/' {
        r.append("/");
        proof {
            reveal_strlit("/");
            assert(("/")@ =~= seq!['/']);
        }
    }
    r.append(comp);
    r
}

/// Whether the first `n` characters of `a` and `b` agree.
fn str_prefix_eq(a: &str, b: &str, n: usize) -> (r: bool)
    requires
        n <= a@.len(),
        n <= b@.len(),
    ensures
        r == (a@.subrange(0, n as int) == b@.subrange(0, n as int)),
{
    let mut i: usize = 0;
    while i < n
        invariant
            i <= n,
            n <= a@.len(),
            n <= b@.len(),
            forall|k: int| 0 <= k < i ==> a@[k] == b@[k],
        decreases n - i,
    {
        if a.get_char(i) != b.get_char(i) {
            proof {
                assert(a@.subrange(0, n as int)[i as int] == a@[i as int]);
                assert(b@.subrange(0, n as int)[i as int] == b@[i as int]);
            }
            return false;
        }
        i += 1;
    }
    proof {
        assert(a@.subrange(0, n as int) =~= b@.subrange(0, n as int));
    }
    true
}

/// Computes the path of `path` relative to `base`, or `None` when `path`
/// does not lie under `base`.
pub fn strip_path_prefix(path: &str, base: &str) -> (r: Option<String>)
    ensures
        match strip_prefix_spec(path@, base@) {
            Some(rel) => r matches Some(s) && s@ == rel,
            None => r is None,
        },
{
    let plen = path.unicode_len();
    let blen = base.unicode_len();
    if blen == 0 {
        return Some(path.to_owned());
    }
    if plen == blen && str_prefix_eq(path, base, blen) {
        proof {
            assert(path@.subrange(0, plen as int) =~= path@);
            assert(base@.subrange(0, blen as int) =~= base@);
        }
        return Some(String::new());
    }
    proof {
        if path@ == base@ {
            assert(path@.subrange(0, blen as int) =~= base@.subrange(0, blen as int));
        }
    }
    if base.get_char(blen - 1) == '/' {
        if plen == blen - 1 && str_prefix_eq(path, base, plen) {
            proof {
                assert(path@.subrange(0, plen as int) =~= path@);
                assert(base@.take(base@.len() - 1) =~= base@.subrange(0, plen as int));
            }
            return Some(String::new());
        }
        proof {
            if path@ == base@.take(base@.len() - 1) {
                assert(path@.len() == blen - 1);
                assert(path@.subrange(0, plen as int) =~= path@);
                assert(base@.subrange(0, plen as int) =~= base@.take(base@.len() - 1));
            }
        }
        if plen > blen && str_prefix_eq(path, base, blen) {
            proof {
                assert(base@.subrange(0, blen as int) =~= base@);
            }
            let rest = path.substring_char(blen, plen);
            proof {
                assert(path@.subrange(blen as int, plen as int) =~= path@.skip(blen as int));
            }
            return Some(rest.to_owned());
        }
        proof {
            assert(base@.subrange(0, blen as int) =~= base@);
        }
        None
    } else {
        if plen > blen && str_prefix_eq(path, base, blen) && path.get_char(blen) == '/' {
            proof {
                assert(base@.subrange(0, blen as int) =~= base@);
            }
            let rest = path.substring_char(blen + 1, plen);
            proof {
                assert(path@.subrange(blen as int + 1, plen as int) =~= path@.skip(
                    blen as int + 1));
            }
            return Some(rest.to_owned());
        }
        proof {
            assert(base@.subrange(0, blen as int) =~= base@);
        }
        None
    }
}

/// `last_slash_index` finds the rightmost separator.
proof fn lemma_last_slash_at(s: Seq<char>, j: int)
    requires
        0 <= j < s.len(),
        s[j] == '/',
        forall|k: int| j < k < s.len() ==> s[k] != '/',
    ensures
        last_slash_index(s) == j,
    decreases s.len(),
{
    if j == s.len() - 1 {
    } else {
        assert(s.last() != '/');
        lemma_last_slash_at(s.drop_last(), j);
    }
}

/// Without a separator, `last_slash_index` reports none.
proof fn lemma_no_slash(s: Seq<char>)
    requires
        forall|k: int| 0 <= k < s.len() ==> s[k] != '/',
    ensures
        last_slash_index(s) == -1,
    decreases s.len(),
{
    if s.len() > 0 {
        lemma_no_slash(s.drop_last());
    }
}

/// The parent of a relative path, as [`parent_spec`] describes it.
pub fn parent_path(s: &str) -> (r: Option<String>)
    ensures
        match parent_spec(s@) {
            Some(p) => r matches Some(q) && q@ == p,
            None => r is None,
        },
{
    let len = s.unicode_len();
    if len == 0 {
        return None;
    }
    let mut i: usize = len;
    while i > 0
        invariant
            i <= len,
            len == s@.len(),
            forall|k: int| i <= k < len ==> s@[k] != '/',
        decreases i,
    {
        if s.get_char(i - 1) == '/' {
            proof {
                lemma_last_slash_at(s@, i - 1);
            }
            let p = s.substring_char(0, i - 1);
            proof {
                assert(s@.subrange(0, i - 1) =~= s@.take(i - 1));
            }
            return Some(p.to_owned());
        }
        i -= 1;
    }
    proof {
        lemma_no_slash(s@);
    }
    Some(String::new())
}

/// Computes the folder holding all collections below `data_root`.
pub fn repos_folder_of(data_root: &str) -> (r: String)
    ensures
        r@ == repos_root_spec(data_root@),
{
    let mm = join_path(data_root, "mm");
    join_path(mm.as_str(), "repos")
}

/// Computes the folder of the collection `repo_name` below `data_root`.
pub fn repo_path_of(data_root: &str, repo_name: &Option<&str>) -> (r: String)
    ensures
        r@ == repo_path_spec(data_root@, name_or_main(*repo_name)),
{
    let root = repos_folder_of(data_root);
    match repo_name {
        Some(n) => join_path(root.as_str(), n),
        None => join_path(root.as_str(), "mm_main_local"),
    }
}

/// The folder holding all collections, below the environment's data folder;
/// `None` when the environment supplies no data folder.
pub fn get_repos_folder() -> (r: Option<String>)
    ensures
        r matches Some(p) ==> exists|d: Seq<char>| p@ == repos_root_spec(d),
{
    match fsio::data_root() {
        Some(root) => {
            let folder = repos_folder_of(root.as_str());
            proof {
                assert(folder@ == repos_root_spec(root@));
            }
            Some(folder)
        },
        None => None,
    }
}

/// Whether the folder holding all collections exists on disk.  Any access
/// error counts as "does not exist", and so does a missing data folder.
pub fn is_repos_folder_present() -> bool {
    match get_repos_folder() {
        Some(folder) => fsio::probe_path(folder.as_str()).exists,
        None => false,
    }
}

/// The folder of the collection `repo_name` (the main collection when
/// `None`), below the environment's data folder; `None` when the
/// environment supplies no data folder.
pub fn get_repo_path(repo_name: &Option<&str>) -> (r: Option<String>)
    ensures
        r matches Some(p) ==> exists|d: Seq<char>| p@ == repo_path_spec(d, name_or_main(*repo_name)),
{
    match fsio::data_root() {
        Some(root) => {
            let path = repo_path_of(root.as_str(), repo_name);
            proof {
                assert(path@ == repo_path_spec(root@, name_or_main(*repo_name)));
            }
            Some(path)
        },
        None => None,
    }
}

} // verus!
