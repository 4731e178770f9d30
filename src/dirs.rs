//! The toolset's per-user directories.
use vstd::prelude::*;

use crate::error::{Error, ErrorKind};

verus! {

#[verifier::external_type_specification]
#[verifier::external_body]
pub struct ExProjectDirs(directories::ProjectDirs);

/// The path that joining `rel` onto `base` gives.
pub uninterp spec fn joined_path(base: Seq<char>, rel: Seq<char>) -> Seq<char>;

/// Relies on std::path::Path::join: `rel` appended to `base` with the
/// platform's separator (or `rel` alone where it is absolute).
#[verifier::external_body]
pub(crate) fn join_path(base: &str, rel: &str) -> (r: String)
    ensures
        r@ == joined_path(base@, rel@),
{
    std::path::Path::new(base).join(rel).to_string_lossy().into_owned()
}

/// Relies on directories::ProjectDirs::from: the application's directories
/// for the current user; `None` where no home directory can be found.
#[verifier::external_body]
fn project_dirs_from(qualifier: &str, organization: &str, application: &str) -> Option<directories::ProjectDirs> {
    directories::ProjectDirs::from(qualifier, organization, application)
}

/// Relies on directories::ProjectDirs::cache_dir.
#[verifier::external_body]
fn cache_dir_of(dirs: &directories::ProjectDirs) -> String {
    dirs.cache_dir().to_string_lossy().into_owned()
}

/// Relies on directories::ProjectDirs::config_dir.
#[verifier::external_body]
pub(crate) fn config_dir_of(dirs: &directories::ProjectDirs) -> String {
    dirs.config_dir().to_string_lossy().into_owned()
}

/// The toolset's directories for the current user.
pub fn project_dirs() -> (r: Result<directories::ProjectDirs, Error>)
    ensures
        r matches Err(e) ==> e.kind == ErrorKind::Io,
{
    match project_dirs_from("io", "ja2-stracciatella", "stracciatella-toolset") {
        Some(d) => Ok(d),
        None => Err(Error::new(ErrorKind::Io, "could not determine home directory")),
    }
}

/// The directory that holds the game's JSON files fetched for the toolset.
pub fn get_json_cache_dir() -> (r: Result<String, Error>)
    ensures
        r matches Ok(p) ==> exists|cache: Seq<char>| p@ == joined_path(cache, "stracciatella-json-cache"@),
        r matches Err(e) ==> e.kind == ErrorKind::Io,
{
    let dirs = project_dirs()?;
    let cache = cache_dir_of(&dirs);
    Ok(join_path(cache.as_str(), "stracciatella-json-cache"))
}

} // verus!
