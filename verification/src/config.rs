//! Where the program keeps its files.

use vstd::prelude::*;

verus! {

/// The paths of the daemon's files and of the history database.
#[derive(Clone, Debug)]
pub struct Config {
    pub debug_mode: bool,
    pub daemon_pidfile: String,
    pub daemon_stdout: String,
    pub daemon_stderr: String,
    pub grpc_uds_path: String,
    pub db_path: String,
}

/// The directory of the program's files under the home directory `home`:
/// `<home>/.local/ptimer`, with `-dev` appended in a debug build.
pub open spec fn app_dir(home: Seq<char>, debug_mode: bool) -> Seq<char> {
    let base = home + "/.local/ptimer"@;
    if debug_mode {
        base + "-dev"@
    } else {
        base
    }
}

impl Config {
    /// The configuration is the one for the home directory `home`.
    pub open spec fn matches_spec(&self, home: Seq<char>, debug_mode: bool) -> bool {
        &&& self.debug_mode == debug_mode
        &&& self.daemon_pidfile@ == app_dir(home, debug_mode) + "/ptimer.pid"@
        &&& self.daemon_stdout@ == app_dir(home, debug_mode) + "/stdout.log"@
        &&& self.daemon_stderr@ == app_dir(home, debug_mode) + "/stderr.log"@
        &&& self.grpc_uds_path@ == app_dir(home, debug_mode) + "/grpc.sock"@
        &&& self.db_path@ == app_dir(home, debug_mode) + "/ptimer.db"@
    }

    /// The directory of the program's files under `home`.
    pub fn app_dir(home: &str, debug_mode: bool) -> (dir: String)
        ensures
            dir@ == app_dir(home@, debug_mode),
    {
        let base = String::from_str(home).concat("/.local/ptimer");
        if debug_mode {
            base.concat("-dev")
        } else {
            base
        }
    }

    /// The configuration for the home directory `home`; `debug_mode` says
    /// whether this is a debug build.
    pub fn for_home(home: &str, debug_mode: bool) -> (config: Config)
        ensures
            config.matches_spec(home@, debug_mode),
    {
        let dir = Config::app_dir(home, debug_mode);
        Config {
            daemon_pidfile: dir.clone().concat("/ptimer.pid"),
            daemon_stdout: dir.clone().concat("/stdout.log"),
            daemon_stderr: dir.clone().concat("/stderr.log"),
            grpc_uds_path: dir.clone().concat("/grpc.sock"),
            db_path: dir.concat("/ptimer.db"),
            debug_mode,
        }
    }
}

/// A debug build keeps its files in a directory of its own: its directory
/// is the release directory with `-dev` appended, so the two never meet.
pub proof fn lemma_debug_files_apart(home: Seq<char>)
    ensures
        app_dir(home, true) == app_dir(home, false) + "-dev"@,
        app_dir(home, true) != app_dir(home, false),
{
    reveal_strlit("-dev");
    assert(app_dir(home, true).len() == app_dir(home, false).len() + 4);
}

} // verus!
