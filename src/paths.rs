//! Where the supervisor's files live: under the user's home directory, in the
//! application's hidden directory.

use vstd::prelude::*;

verus! {

/// The files that the supervisor reads and writes.
#[derive(Clone, Copy, Debug, PartialEq, Eq, Structural)]
pub enum ManagedFile {
    /// The backend's log, to which forced shutdowns are appended.
    ServerLog,
    /// The state file holding the backend's PID and URL.
    ServerState,
}

/// The path of `f` relative to the home directory, with its leading `/`.
pub open spec fn relative_path_of(f: ManagedFile) -> Seq<char> {
    match f {
        ManagedFile::ServerLog => "/.openmail/server/logs/uvicorn.log"@,
        ManagedFile::ServerState => "/.openmail/server/uvicorn.info"@,
    }
}

impl ManagedFile {
    pub fn relative_path(&self) -> (r: &'static str)
        ensures
            r@ == relative_path_of(*self),
    {
        match self {
            ManagedFile::ServerLog => "/.openmail/server/logs/uvicorn.log",
            ManagedFile::ServerState => "/.openmail/server/uvicorn.info",
        }
    }
}

/// The home directory could not be determined.
#[derive(Clone, Copy, Debug, PartialEq, Eq, Structural)]
pub enum EnvironmentError {
    HomeUnknown,
}

/// `home`, a `/`, then `file`.
pub open spec fn home_path(home: Seq<char>, file: Seq<char>) -> Seq<char> {
    home + seq!['/'] + file
}

/// Joins the home directory and a file name with a `/`.
pub fn build_home_path(home: &str, file: &str) -> (r: String)
    ensures
        r@ == home_path(home@, file@),
{
    let mut r = String::from_str(home);
    proof {
        reveal_strlit("/");
    }
    r.append("/");
    r.append(file);
    assert(r@ =~= home_path(home@, file@));
    r
}

/// The absolute path of `file`, given the home directory if one is known.
/// An absent or empty home directory is an error: nothing may fall back to
/// another place.
pub fn resolve_path(home: Option<&str>, file: ManagedFile) -> (r: Result<String, EnvironmentError>)
    ensures
        match home {
            Some(h) if h@.len() > 0 => r matches Ok(p) && p@ == home_path(h@, relative_path_of(file)),
            _ => r == Err::<String, EnvironmentError>(EnvironmentError::HomeUnknown),
        },
{
    match home {
        Some(h) => {
            if h.unicode_len() == 0 {
                Err(EnvironmentError::HomeUnknown)
            } else {
                Ok(build_home_path(h, file.relative_path()))
            }
        },
        None => Err(EnvironmentError::HomeUnknown),
    }
}

} // verus!
