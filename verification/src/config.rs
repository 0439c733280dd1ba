//! The directories that the server works with: the ones every request
//! handler shares, and the default OCI cache directory.
use std::path::PathBuf;
use vstd::prelude::*;

use crate::text::has_prefix;

verus! {

#[verifier::external_type_specification]
#[verifier::external_body]
pub struct ExPathBuf(std::path::PathBuf);

/// `Clone::clone` for `std::path::PathBuf`: the copy is the same path.
pub assume_specification[ <std::path::PathBuf as Clone>::clone ](p: &PathBuf) -> (r: PathBuf)
    ensures
        r == *p,
;

/// The directories the handlers work with: where the build directories are,
/// buildah's storage root, and the OCI layout cache that images are exported to.
#[derive(Debug)]
pub struct WA {
    pub con_dir_path: PathBuf,
    pub buildah_dir: PathBuf,
    pub oci_cache_dir: PathBuf,
}

impl WA {
    /// Bundles the build directory root `cdp`, buildah's storage root `bp` and
    /// the OCI cache directory `ocd`.
    pub fn new(cdp: PathBuf, bp: PathBuf, ocd: PathBuf) -> (r: Self)
        ensures
            r.con_dir_path == cdp,
            r.buildah_dir == bp,
            r.oci_cache_dir == ocd,
    {
        WA { con_dir_path: cdp, buildah_dir: bp, oci_cache_dir: ocd }
    }
}

impl Clone for WA {
    /// A copy holding the same three directories.
    fn clone(&self) -> (r: Self)
        ensures
            r == *self,
    {
        WA {
            con_dir_path: self.con_dir_path.clone(),
            buildah_dir: self.buildah_dir.clone(),
            oci_cache_dir: self.oci_cache_dir.clone(),
        }
    }
}

/// What `std::path::Path::parent` gives for the path written as `p`: the
/// path without its final component, or `None` when `p` ends in a root or
/// is empty.
pub uninterp spec fn path_parent_text(p: Seq<char>) -> Option<Seq<char>>;

/// The path `base` extended by `comp`, as `std::path::PathBuf::push` does it
/// with Unix path syntax: an absolute `comp` (one that starts at the root `/`)
/// replaces `base`; otherwise a `/` goes between them unless `base` is empty
/// or already ends with one.
pub open spec fn pushed_path(base: Seq<char>, comp: Seq<char>) -> Seq<char> {
    if comp.len() > 0 && comp[0] == '/' {
        comp
    } else if base.len() == 0 || base.last() == '/' {
        base + comp
    } else {
        base + seq!['/'] + comp
    }
}

/// `std::path::Path::parent` on a path given as text: the parent named by
/// [`path_parent_text`], which is a leading part of the text (`parent` hands
/// back a slice of the path that starts where the path starts).
#[verifier::external_body]
fn path_parent(p: &str) -> (r: Option<String>)
    ensures
        r is Some <==> path_parent_text(p@) is Some,
        r matches Some(s) ==> path_parent_text(p@) == Some(s@) && has_prefix(p@, s@),
{
    match std::path::Path::new(p).parent() {
        Some(q) => Some(q.to_string_lossy().into_owned()),
        None => None,
    }
}

/// `std::path::PathBuf::push` on paths given as text (the program runs on
/// Unix, where the root `/` is the only separator and prefix): `base`
/// extended by `comp` as [`pushed_path`] states. The documentation says that
/// an absolute path replaces the current one and that a relative one extends
/// it after a separator; the push adds that separator only when the current
/// path is non-empty and does not already end with one.
#[verifier::external_body]
fn path_pushed(base: &str, comp: &str) -> (r: String)
    ensures
        r@ == pushed_path(base@, comp@),
{
    let mut path = PathBuf::from(base);
    path.push(comp);
    path.to_string_lossy().into_owned()
}

/// The default cache directory for a storage root `graphroot`: its parent
/// directory (the root itself when it has none) extended by `jitregistry-cache`.
pub open spec fn default_cache_dir_text(graphroot: Seq<char>) -> Seq<char> {
    let base = match path_parent_text(graphroot) {
        Some(p) => p,
        None => graphroot,
    };
    pushed_path(base, "jitregistry-cache"@)
}

/// The OCI cache directory used when none is given: `jitregistry-cache` next
/// to buildah's storage root, in the storage root's parent directory.
pub fn default_cache_dir(graphroot: &str) -> (r: String)
    ensures
        r@ == default_cache_dir_text(graphroot@),
{
    match path_parent(graphroot) {
        Some(parent) => path_pushed(parent.as_str(), "jitregistry-cache"),
        None => path_pushed(graphroot, "jitregistry-cache"),
    }
}

} // verus!
