use vstd::prelude::*;

use std::path::PathBuf;

verus! {

#[verifier::external_type_specification]
#[verifier::external_body]
pub struct ExPathBuf(std::path::PathBuf);

/// Relies on directories' `ProjectDirs::from` and `ProjectDirs::data_dir`: the
/// platform's per-user data directory for the application, where there is one.
/// It depends on the environment, so nothing is stated of it.
#[verifier::external_body]
fn project_data_dir(qualifier: &str, organization: &str, application: &str) -> (r: Option<
    PathBuf,
>) {
    directories::ProjectDirs::from(qualifier, organization, application).map(
        |d| d.data_dir().to_path_buf(),
    )
}

/// Relies on std's `Path::join`: `file` placed inside `dir`.
#[verifier::external_body]
fn join_path(dir: &PathBuf, file: &str) -> (r: PathBuf) {
    dir.join(file)
}

/// The store file inside `dir`, where there is a directory.
pub fn store_path_in(dir: Option<PathBuf>) -> (r: Option<PathBuf>)
    ensures
        r is Some <==> dir is Some,
{
    match dir {
        Some(d) => Some(join_path(&d, "store.dat")),
        None => None,
    }
}

/// The store file in the user's data directory for this application.
pub fn store_path() -> (r: Option<PathBuf>) {
    store_path_in(project_data_dir("com", "revaultpass", "revaultpass"))
}

} // verus!
