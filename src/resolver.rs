use vstd::prelude::*;
use vstd::string::StringExecFns;
use crate::error::SupervisionError;

verus! {

/// How the application was built: from the source tree, or packaged.
#[derive(Clone, Copy, Debug, PartialEq, Eq, Structural)]
pub enum DeploymentMode {
    Development,
    Packaged,
}

/// The worker's entry point, relative to the project root in development
/// and to the application data directory when packaged.
pub open spec fn entry_point_rel() -> Seq<char> {
    "python/server.py"@
}

pub fn entry_point_relative() -> (r: &'static str)
    ensures
        r@ == entry_point_rel(),
{
    "python/server.py"
}

/// What `std::path::Path::join` yields for a relative `rel` under `base`,
/// written back as text.
pub uninterp spec fn joined_path(base: Seq<char>, rel: Seq<char>) -> Seq<char>;

/// Relies on `std::path::Path::join`, which depends on its two arguments
/// alone; the path is made of two strings, so writing it back loses nothing.
#[verifier::external_body]
fn join_path(base: &str, rel: &str) -> (r: String)
    ensures
        r@ == joined_path(base@, rel@),
{
    std::path::Path::new(base).join(rel).to_string_lossy().into_owned()
}

/// The entry point to check for, before its existence is known: `None` where
/// the packaged mode has no application data directory.
pub open spec fn candidate_spec(mode: DeploymentMode, app_data_dir: Option<Seq<char>>) -> Option<Seq<char>> {
    match mode {
        DeploymentMode::Development => Some(entry_point_rel()),
        DeploymentMode::Packaged => match app_data_dir {
            Some(dir) => Some(joined_path(dir, entry_point_rel())),
            None => None,
        },
    }
}

/// The entry point to check for. Development mode uses the relative path
/// and ignores `app_data_dir`; packaged mode joins it under `app_data_dir`
/// and fails with `AppDirUnavailable` without one.
pub fn entry_point_candidate(mode: DeploymentMode, app_data_dir: Option<String>) -> (r: Result<String, SupervisionError>)
    ensures
        match candidate_spec(mode, crate::status::option_string_view(app_data_dir)) {
            Some(p) => r is Ok && r->Ok_0@ == p,
            None => r is Err && r->Err_0 is AppDirUnavailable,
        },
{
    match mode {
        DeploymentMode::Development => Ok(String::from_str(entry_point_relative())),
        DeploymentMode::Packaged => match app_data_dir {
            Some(dir) => Ok(join_path(dir.as_str(), entry_point_relative())),
            None => Err(SupervisionError::AppDirUnavailable),
        },
    }
}

/// The entry point if it `exists` on disk, else `PathNotFound` naming it.
pub fn check_entry_point(mode: DeploymentMode, candidate: String, exists: bool) -> (r: Result<String, SupervisionError>)
    ensures
        exists ==> r is Ok && r->Ok_0@ == candidate@,
        !exists ==> r is Err && r->Err_0 is PathNotFound && r->Err_0->path@ == candidate@
            && r->Err_0->mode == mode,
{
    if exists {
        Ok(candidate)
    } else {
        Err(SupervisionError::PathNotFound { path: candidate, mode })
    }
}

} // verus!
