//! Discovery of the data directory and the two socket paths.
//!
//! The daemon keeps everything under `.arcbox` in the user's home
//! directory: the Docker-API socket answering the health probe and the
//! RPC socket carrying the typed services.

use vstd::prelude::*;
use vstd::string::StringExecFns;

verus! {

/// Relies on dirs::home_dir, reduced to text. The value depends on the
/// environment, so nothing is promised of it.
#[verifier::external_body]
pub(crate) fn home_dir_string() -> Option<String> {
    dirs::home_dir().map(|p| p.to_string_lossy().into_owned())
}

/// The data directory: `.arcbox` under the home directory, or under
/// `/tmp` when no home is known.
pub open spec fn spec_data_dir(home: Option<String>) -> Seq<char> {
    (match home {
        Some(h) => h@,
        None => "/tmp"@,
    }) + "/.arcbox"@
}

/// Derives the data directory from a home directory.
pub fn data_dir_for(home: Option<String>) -> (r: String)
    ensures
        r@ == spec_data_dir(home),
{
    let base = match home {
        Some(h) => h,
        None => "/tmp".to_owned(),
    };
    base.concat("/.arcbox")
}

/// The Docker-API socket (health probe) inside a data directory.
pub fn docker_socket_for(data_dir: &String) -> (r: String)
    ensures
        r@ == data_dir@ + "/docker.sock"@,
{
    data_dir.clone().concat("/docker.sock")
}

/// The RPC socket (typed services) inside a data directory.
pub fn rpc_socket_for(data_dir: &String) -> (r: String)
    ensures
        r@ == data_dir@ + "/arcbox.sock"@,
{
    data_dir.clone().concat("/arcbox.sock")
}

/// The health-probe socket path and the data directory for this user.
/// Whatever the environment reports as home, the two cohere: the socket
/// lies in the returned data directory.
pub fn get_paths() -> (r: (String, String))
    ensures
        r.0@ == r.1@ + "/docker.sock"@,
        exists|home: Option<String>| r.1@ == spec_data_dir(home),
{
    let home = home_dir_string();
    let ghost home_ghost = home;
    let data_dir = data_dir_for(home);
    let socket = docker_socket_for(&data_dir);
    proof {
        assert(data_dir@ == spec_data_dir(home_ghost));
    }
    (socket, data_dir)
}

/// The default RPC socket path: `arcbox.sock` in this user's data
/// directory.
pub fn default_socket_path() -> (r: String)
    ensures
        exists|home: Option<String>| r@ == spec_data_dir(home) + "/arcbox.sock"@,
{
    let home = home_dir_string();
    let ghost home_ghost = home;
    let data_dir = data_dir_for(home);
    let r = rpc_socket_for(&data_dir);
    proof {
        assert(r@ == spec_data_dir(home_ghost) + "/arcbox.sock"@);
    }
    r
}

} // verus!
