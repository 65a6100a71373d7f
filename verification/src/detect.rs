//! Telling which build tool a project uses.

use vstd::prelude::*;
use vstd::string::*;
use crate::config::BuildSystem;
use crate::error::PackError;
use crate::text::{join_path, path_joined};

verus! {

/// The build file of a tools.deps project, in its project directory.
pub fn deps_edn_path(project_dir: &str) -> (path: String)
    ensures
        path@ == path_joined(project_dir@, "deps.edn"@),
{
    join_path(project_dir, "deps.edn")
}

/// The build file of a Leiningen project, in its project directory.
pub fn project_clj_path(project_dir: &str) -> (path: String)
    ensures
        path@ == path_joined(project_dir@, "project.clj"@),
{
    join_path(project_dir, "project.clj")
}

/// The build system of a project, from which build files its directory
/// holds. `deps.edn` wins over `project.clj`; a directory with neither is
/// refused.
pub fn detect_build_system(project_dir: &str, has_deps_edn: bool, has_project_clj: bool) -> (system:
    Result<BuildSystem, PackError>)
    ensures
        has_deps_edn ==> system == Ok::<BuildSystem, PackError>(BuildSystem::DepsEdn),
        !has_deps_edn && has_project_clj ==> system == Ok::<BuildSystem, PackError>(
            BuildSystem::Leiningen,
        ),
        !has_deps_edn && !has_project_clj ==> (system matches Err(PackError::NoBuildSystem(dir))
            && dir@ == project_dir@),
{
    if has_deps_edn {
        return Ok(BuildSystem::DepsEdn);
    }
    if has_project_clj {
        return Ok(BuildSystem::Leiningen);
    }
    Err(PackError::NoBuildSystem(String::from_str(project_dir)))
}

} // verus!
