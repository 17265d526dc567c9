//! Where a launched daemon keeps its data, and what it is told through its
//! environment.

use crate::branch::DATA_DIR_NAME;
use crate::daemon::error::DaemonError;
use crate::text::{chars_of, concat2, concat3, contains, join_path, joined, str_contains};
use vstd::prelude::*;

verus! {

/// The variable that names the daemon's HTTP port.
pub const HTTP_PORT_VAR: &'static str = "HUMANLAYER_DAEMON_HTTP_PORT";

/// The variable that names the host the daemon listens on.
pub const HTTP_HOST_VAR: &'static str = "HUMANLAYER_DAEMON_HTTP_HOST";

/// The variable that names the daemon's socket.
pub const SOCKET_VAR: &'static str = "HUMANLAYER_DAEMON_SOCKET";

/// The variable that names the daemon's database.
pub const DATABASE_VAR: &'static str = "HUMANLAYER_DATABASE_PATH";

/// The variable that names the daemon's identity tag.
pub const VERSION_VAR: &'static str = "HUMANLAYER_DAEMON_VERSION_OVERRIDE";

/// Whether an application identifier is that of a nightly build.
pub fn is_nightly(identifier: &str) -> (nightly: bool)
    ensures
        nightly == contains(identifier@, "nightly"@),
{
    let text = chars_of(identifier);
    str_contains(&text, "nightly")
}

/// The name of a data file of the daemon: one per branch in development, one
/// for nightly builds, one for all others.
pub open spec fn data_file_name(
    is_dev: bool,
    nightly: bool,
    branch: Seq<char>,
    extension: Seq<char>,
) -> Seq<char> {
    if is_dev {
        "daemon-"@ + branch + extension
    } else if nightly {
        "daemon-nightly"@ + extension
    } else {
        "daemon"@ + extension
    }
}

/// The path of a data file: the configured one where there is one, else the
/// file of that name in the data directory.
pub open spec fn data_file_path(
    configured: Option<Seq<char>>,
    data_dir: Seq<char>,
    name: Seq<char>,
) -> Seq<char> {
    match configured {
        Some(path) => path,
        None => join_path(data_dir, name),
    }
}

/// The paths that a launched daemon is told to use.
#[derive(Debug, Clone, PartialEq, Eq)]
pub struct DaemonPaths {
    /// The data directory, which has to exist before the launch.
    pub data_dir: String,
    /// The daemon's database.
    pub database_path: String,
    /// The daemon's socket.
    pub socket_path: String,
    /// The database that a missing development database is copied from,
    /// where a copy is in order.
    pub seed_database: Option<String>,
}

/// What `resolve_paths` answers.
pub open spec fn resolved_paths(
    home_dir: Option<Seq<char>>,
    configured_database: Option<Seq<char>>,
    configured_socket: Option<Seq<char>>,
    is_dev: bool,
    nightly: bool,
    branch: Seq<char>,
    found: Result<DaemonPaths, DaemonError>,
) -> bool {
    match home_dir {
        None => found == Err::<DaemonPaths, DaemonError>(DaemonError::NoHomeDirectory),
        Some(home) => {
            let data_dir = join_path(home, DATA_DIR_NAME@);
            &&& found matches Ok(paths)
            &&& paths.data_dir@ == data_dir
            &&& paths.database_path@ == data_file_path(
                configured_database,
                data_dir,
                data_file_name(is_dev, nightly, branch, ".db"@),
            )
            &&& paths.socket_path@ == data_file_path(
                configured_socket,
                data_dir,
                data_file_name(is_dev, nightly, branch, ".sock"@),
            )
            &&& paths.seed_database.deep_view() == (if is_dev && configured_database is None {
                Some(join_path(data_dir, "daemon-dev.db"@))
            } else {
                None
            })
        },
    }
}

fn data_file(
    configured: &Option<String>,
    data_dir: &str,
    is_dev: bool,
    nightly: bool,
    branch: &str,
    extension: &str,
) -> (path: String)
    ensures
        path@ == data_file_path(
            configured.deep_view(),
            data_dir@,
            data_file_name(is_dev, nightly, branch@, extension@),
        ),
{
    match configured {
        Some(path) => path.clone(),
        None => {
            let name = if is_dev {
                concat3("daemon-", branch, extension)
            } else if nightly {
                concat2("daemon-nightly", extension)
            } else {
                concat2("daemon", extension)
            };
            joined(data_dir, name.as_str())
        },
    }
}

/// Where the daemon keeps its data: explicit paths win, and the others lie in
/// the data directory under names that the kind of build and the branch
/// decide. Without a home directory there is no answer.
pub fn resolve_paths(
    home_dir: Option<&str>,
    configured_database: &Option<String>,
    configured_socket: &Option<String>,
    is_dev: bool,
    nightly: bool,
    branch: &str,
) -> (found: Result<DaemonPaths, DaemonError>)
    ensures
        resolved_paths(
            home_dir.deep_view(),
            configured_database.deep_view(),
            configured_socket.deep_view(),
            is_dev,
            nightly,
            branch@,
            found,
        ),
{
    let home = match home_dir {
        Some(home) => home,
        None => return Err(DaemonError::NoHomeDirectory),
    };
    let data_dir = joined(home, DATA_DIR_NAME);
    let database_path = data_file(
        configured_database,
        data_dir.as_str(),
        is_dev,
        nightly,
        branch,
        ".db",
    );
    let socket_path = data_file(
        configured_socket,
        data_dir.as_str(),
        is_dev,
        nightly,
        branch,
        ".sock",
    );
    let seed_database = if is_dev && configured_database.is_none() {
        Some(joined(data_dir.as_str(), "daemon-dev.db"))
    } else {
        None
    };
    Ok(DaemonPaths { data_dir, database_path, socket_path, seed_database })
}

impl DaemonPaths {
    /// Whether the development database is to be copied into place: only
    /// where a copy is in order, none is there yet, and there is one to copy.
    pub fn needs_seeding(&self, database_exists: bool, seed_exists: bool) -> (copy: bool)
        ensures
            copy == (self.seed_database is Some && !database_exists && seed_exists),
    {
        self.seed_database.is_some() && !database_exists && seed_exists
    }
}

/// The variables that are added to the inherited environment of a launched
/// daemon: its paths, port 0 so that it picks a free one, the host, and in
/// development its identity tag and the debug switches.
pub open spec fn launch_variables(
    database_path: Seq<char>,
    socket_path: Seq<char>,
    is_dev: bool,
    branch: Seq<char>,
) -> Seq<(Seq<char>, Seq<char>)> {
    let always = seq![
        (DATABASE_VAR@, database_path),
        (SOCKET_VAR@, socket_path),
        (HTTP_PORT_VAR@, "0"@),
        (HTTP_HOST_VAR@, "localhost"@),
    ];
    if is_dev {
        always + seq![
            (VERSION_VAR@, branch),
            ("HUMANLAYER_DEBUG"@, "true"@),
            ("GIN_MODE"@, "debug"@),
        ]
    } else {
        always
    }
}

/// The variables that are added to the inherited environment of a launched
/// daemon.
pub fn launch_environment(paths: &DaemonPaths, is_dev: bool, branch: &str) -> (vars: Vec<
    (String, String),
>)
    ensures
        vars.deep_view() == launch_variables(
            paths.database_path@,
            paths.socket_path@,
            is_dev,
            branch@,
        ),
{
    let mut vars: Vec<(String, String)> = Vec::new();
    vars.push((DATABASE_VAR.to_string(), paths.database_path.clone()));
    vars.push((SOCKET_VAR.to_string(), paths.socket_path.clone()));
    vars.push((HTTP_PORT_VAR.to_string(), "0".to_string()));
    vars.push((HTTP_HOST_VAR.to_string(), "localhost".to_string()));
    if is_dev {
        vars.push((VERSION_VAR.to_string(), branch.to_string()));
        vars.push(("HUMANLAYER_DEBUG".to_string(), "true".to_string()));
        vars.push(("GIN_MODE".to_string(), "debug".to_string()));
    }
    assert(vars.deep_view() =~= launch_variables(
        paths.database_path@,
        paths.socket_path@,
        is_dev,
        branch@,
    ));
    vars
}

} // verus!
