//! Fixed names and paths shared by the agent.

use vstd::prelude::*;

verus! {

/// Base URL of the control plane.
pub const SERVER_ENDPOINT: &'static str = "https://tynkerbase-server.shuttleapp.rs";

/// Suffix that turns a project name into its container name.
pub const CONTAINER_MOD: &'static str = "__tyb_container";

/// Suffix that turns a project name into its image name.
pub const IMAGE_MOD: &'static str = "__tyb_image";

/// Agent root directory of a release build.
pub const RELEASE_ROOTDIR_PATH: &'static str = "/usr/share/tynkerbase-agent";

/// Agent root directory of a debug build: the working directory.
pub const DEBUG_ROOTDIR_PATH: &'static str = ".";

/// Projects root of a release build.
pub const RELEASE_PROJECTS_PATH: &'static str = "/var/tynkerbase-projects";

/// Projects root of a debug build.
pub const DEBUG_PROJECTS_PATH: &'static str = "./tynkerbase-projects";

/// Port that the HTTPS listener binds.
pub const AGENT_PORT: u16 = 7462;

/// Retry passes of a purge when the request names none.
pub const DEFAULT_PURGE_RETRIES: u32 = 2;

/// The agent root directory: the working directory in a debug build.
pub fn get_proj_path(debug: bool) -> (r: &'static str)
    ensures
        r@ == (if debug { DEBUG_ROOTDIR_PATH@ } else { RELEASE_ROOTDIR_PATH@ }),
{
    if debug {
        DEBUG_ROOTDIR_PATH
    } else {
        RELEASE_ROOTDIR_PATH
    }
}

/// The directory that holds one directory per project.
pub fn projects_root(debug: bool) -> (r: &'static str)
    ensures
        r@ == (if debug { DEBUG_PROJECTS_PATH@ } else { RELEASE_PROJECTS_PATH@ }),
{
    if debug {
        DEBUG_PROJECTS_PATH
    } else {
        RELEASE_PROJECTS_PATH
    }
}

/// `dir/name`.
pub open spec fn join_spec(dir: Seq<char>, name: Seq<char>) -> Seq<char> {
    dir + "/"@ + name
}

/// Joins a directory and a name with a slash.
pub fn join_path(dir: &str, name: &str) -> (r: String)
    ensures
        r@ == join_spec(dir@, name@),
{
    String::from_str(dir).concat("/").concat(name)
}

/// Name of the image built from project `p`.
pub open spec fn image_spec(p: Seq<char>) -> Seq<char> {
    p + IMAGE_MOD@
}

/// Name of the container run from project `p`.
pub open spec fn container_spec(p: Seq<char>) -> Seq<char> {
    p + CONTAINER_MOD@
}

/// The image name of a project: the name followed by `__tyb_image`.
pub fn image_name(project: &str) -> (r: String)
    ensures
        r@ == image_spec(project@),
{
    String::from_str(project).concat(IMAGE_MOD)
}

/// The container name of a project: the name followed by `__tyb_container`.
pub fn container_name(project: &str) -> (r: String)
    ensures
        r@ == container_spec(project@),
{
    String::from_str(project).concat(CONTAINER_MOD)
}

} // verus!
