//! Credential resolution across deployment environments.
//!
//! The same binary runs unmodified in a container, where the service-account
//! key is mounted at a fixed directory, and on bare metal, where the key sits
//! beside the executable.  Which convention applies is decided by the
//! presence of a well-known containerization marker file; probing the
//! filesystem for it is the shell's job, and the decision is taken here from
//! the probe's verdict.

use vstd::prelude::*;
use vstd::string::StringExecFns;

verus! {

/// The marker file whose existence identifies containerized execution.
pub fn container_marker_path() -> (r: String)
    ensures
        r@ == "/.dockerenv"@,
{
    "/.dockerenv".to_owned()
}

/// The resolved location of the service-account key file: the fixed
/// container directory when the containerization marker is present — the
/// executable's location plays no part then — otherwise the directory
/// holding the running executable, joined with the key file's name.
pub fn resolve_credential_path(containerized: bool, executable_dir: &str) -> (r: String)
    ensures
        containerized ==> r@ == "/cred"@ + "/"@ + "home-env-firebase-adminsdk.json"@,
        !containerized ==> r@ == executable_dir@ + "/"@ + "home-env-firebase-adminsdk.json"@,
{
    let dir: &str = if containerized {
        "/cred"
    } else {
        executable_dir
    };
    let mut s = dir.to_owned();
    s.append("/");
    s.append("home-env-firebase-adminsdk.json");
    s
}

} // verus!
