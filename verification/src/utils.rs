//! Where the local client lives on disk.

use crate::SAMError;
use vstd::prelude::*;
use vstd::string::*;

verus! {

/// Install root of the local client.
pub const STEAM_INSTALLATION_PATH: &'static str = "/home/skye/.local/share/Steam";

/// Location of the client's shared library below its install root.
pub const STEAMCLIENT_LIB_LINUX: &'static str = "/linux64/steamclient.so";

/// Returns the install root of the local client.
pub fn find_steam_installation_path() -> (res: Result<String, SAMError>)
    ensures
        res is Ok,
        res->Ok_0@ == STEAM_INSTALLATION_PATH@,
{
    Ok(String::from_str(STEAM_INSTALLATION_PATH))
}

/// Full path of the client's shared library for a given install root: the root
/// followed by [`STEAMCLIENT_LIB_LINUX`].
pub fn steamclient_lib_path(install_path: &str) -> (path: String)
    ensures
        path@ == install_path@ + STEAMCLIENT_LIB_LINUX@,
{
    String::from_str(install_path).concat(STEAMCLIENT_LIB_LINUX)
}

} // verus!
