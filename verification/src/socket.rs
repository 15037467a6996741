use vstd::prelude::*;

use vstd::string::StringExecFns;

use crate::errors::GenericError;

verus! {

/// The control-channel path under the cache directory: the socket's name
/// appended to it.
pub open spec fn spec_cache_socket_path(cache: Seq<char>) -> Seq<char> {
    cache + "/sss_socket"@
}

/// The fallback control-channel path: a hidden name under the home
/// directory.
pub open spec fn spec_home_socket_path(home: Seq<char>) -> Seq<char> {
    home + "/.sss_socket"@
}

/// Where the control channel lives, given what the platform offers: the
/// cache directory when there is one, else the home directory; with
/// neither, an error.
pub open spec fn spec_socket_path(cache: Option<Seq<char>>, home: Option<Seq<char>>) -> Result<
    Seq<char>,
    Seq<char>,
> {
    match cache {
        Some(c) => Ok(spec_cache_socket_path(c)),
        None => match home {
            Some(h) => Ok(spec_home_socket_path(h)),
            None => Err("getting cache or home directory"@),
        },
    }
}

/// Relies on dirs::cache_dir: the user's cache directory, if the platform
/// reports one, as text (also none when the path is not Unicode). Depends
/// on the environment, so nothing more is promised of the result.
#[verifier::external_body]
fn cache_dir_path() -> (r: Option<String>) {
    dirs::cache_dir().and_then(|p| p.into_os_string().into_string().ok())
}

/// Relies on dirs::home_dir: the user's home directory, under the same
/// terms as the cache directory above.
#[verifier::external_body]
fn home_dir_path() -> (r: Option<String>) {
    dirs::home_dir().and_then(|p| p.into_os_string().into_string().ok())
}

/// Relies on std::path::Path::exists: whether anything exists at the path
/// on disk right now. Depends on the filesystem, so nothing is promised of
/// the result.
#[verifier::external_body]
fn path_exists(path: &String) -> bool {
    std::path::Path::new(path.as_str()).exists()
}

/// Builds the control-channel path from the directories the platform
/// offers, exactly as `spec_socket_path` says.
pub fn socket_path_for(cache: Option<String>, home: Option<String>) -> (r: Result<
    String,
    GenericError,
>)
    ensures
        match spec_socket_path(cache.deep_view(), home.deep_view()) {
            Ok(p) => r matches Ok(s) && s@ == p,
            Err(m) => r matches Err(e) && e@ == m,
        },
{
    match cache {
        Some(c) => {
            let mut p = c;
            p.append("/sss_socket");
            Ok(p)
        },
        None => match home {
            Some(h) => {
                let mut p = h;
                p.append("/.sss_socket");
                Ok(p)
            },
            None => Err(GenericError::new("getting cache or home directory")),
        },
    }
}

/// The path of the control channel as a client must find it: the place
/// `spec_socket_path` names for this user's directories, provided something
/// already exists there. The directories come from the environment, so only
/// the path's shape and the possible errors are pinned.
pub fn get_socket_file() -> (r: Result<String, GenericError>)
    ensures
        r matches Ok(p) ==> (exists|c: Option<Seq<char>>, h: Option<Seq<char>>|
            spec_socket_path(c, h) == Ok::<Seq<char>, Seq<char>>(p@)),
        r matches Err(e) ==> (e@ == "getting cache or home directory"@ || e@
            == "socket does not exists"@),
{
    let cache = cache_dir_path();
    let home = home_dir_path();
    let ghost c = cache.deep_view();
    let ghost h = home.deep_view();
    let path = match socket_path_for(cache, home) {
        Ok(p) => p,
        Err(e) => {
            return Err(e);
        },
    };
    proof {
        assert(spec_socket_path(c, h) == Ok::<Seq<char>, Seq<char>>(path@));
    }
    if path_exists(&path) {
        Ok(path)
    } else {
        Err(GenericError::new("socket does not exists"))
    }
}

} // verus!
