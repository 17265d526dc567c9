//! Where the daemon's executable stands.

use crate::daemon::error::DaemonError;
use crate::text::{debug_quoted, debug_text, join_path, joined};
use vstd::prelude::*;

verus! {

/// What the standard library's `Path::parent` answers for the path `path`,
/// with `/` between its components: the path without its last component, or
/// none where it has none.
pub uninterp spec fn path_parent(path: Seq<char>) -> Option<Seq<char>>;

/// What the standard library's `Path::ends_with` answers for paths with `/`
/// between their components: whether the last components of `path` are
/// those of `child`.
pub uninterp spec fn path_ends_with(path: Seq<char>, child: Seq<char>) -> bool;

/// Asks `std::path::Path::parent` for the parent of `path`. The contract
/// gives the answer its name.
#[verifier::external_body]
fn parent_of(path: &str) -> (parent: Option<String>)
    ensures
        parent.deep_view() == path_parent(path@),
{
    match std::path::Path::new(path).parent() {
        Some(parent) => Some(parent.to_string_lossy().into_owned()),
        None => None,
    }
}

/// Asks `std::path::Path::ends_with` whether `path` ends with the components
/// of `child`. The contract gives the answer its name.
#[verifier::external_body]
fn ends_with_components(path: &str, child: &str) -> (ends: bool)
    ensures
        ends == path_ends_with(path@, child@),
{
    std::path::Path::new(path).ends_with(child)
}

/// The root of the source tree, by what is known of the working directory
/// of a development build: two levels up from a directory named `src-tauri`,
/// one level up from any other, and none where there are no such levels.
pub open spec fn chosen_root(
    in_src_tauri: bool,
    parent: Option<Seq<char>>,
    grandparent: Option<Seq<char>>,
) -> Option<Seq<char>> {
    if in_src_tauri {
        match parent {
            Some(_) => grandparent,
            None => None,
        }
    } else {
        parent
    }
}

/// The parent of the parent of a path.
pub open spec fn path_grandparent(path: Seq<char>) -> Option<Seq<char>> {
    match path_parent(path) {
        Some(up) => path_parent(up),
        None => None,
    }
}

/// Where the development daemon is looked for, by what is known of the
/// working directory.
pub open spec fn dev_location(
    in_src_tauri: bool,
    parent: Option<Seq<char>>,
    grandparent: Option<Seq<char>>,
    found: Result<String, DaemonError>,
) -> bool {
    match chosen_root(in_src_tauri, parent, grandparent) {
        None => found == Err::<String, DaemonError>(DaemonError::NoParentDirectory),
        Some(root) => found matches Ok(path) && path@ == dev_daemon_path(root),
    }
}

/// Where the development daemon stands under the root of the source tree.
pub open spec fn dev_daemon_path(root: Seq<char>) -> Seq<char> {
    join_path(join_path(root, "hld"@), "hld-dev"@)
}

/// Where the packaged daemon stands under the directory of resources.
pub open spec fn packaged_daemon_path(resource_dir: Seq<char>) -> Seq<char> {
    join_path(join_path(resource_dir, "bin"@), "hld"@)
}

/// Where the development daemon stands under the root of the source tree.
pub fn dev_daemon_under(root: &str) -> (path: String)
    ensures
        path@ == dev_daemon_path(root@),
{
    let source = joined(root, "hld");
    joined(source.as_str(), "hld-dev")
}

/// Where the packaged daemon stands under the directory of resources.
pub fn packaged_daemon_under(resource_dir: &str) -> (path: String)
    ensures
        path@ == packaged_daemon_path(resource_dir@),
{
    let bin = joined(resource_dir, "bin");
    joined(bin.as_str(), "hld")
}

/// Where the development daemon is looked for, given whether the working
/// directory is one named `src-tauri`, its parent and the parent of that:
/// under the root of the source tree, which lies two levels up from
/// `src-tauri` and one level up from any other directory. Without that many
/// levels there is nowhere to look.
pub fn dev_daemon_location(
    in_src_tauri: bool,
    parent: Option<String>,
    grandparent: Option<String>,
) -> (found: Result<String, DaemonError>)
    ensures
        dev_location(in_src_tauri, parent.deep_view(), grandparent.deep_view(), found),
{
    let root = if in_src_tauri {
        match parent {
            Some(_) => grandparent,
            None => None,
        }
    } else {
        parent
    };
    match root {
        Some(root) => Ok(dev_daemon_under(root.as_str())),
        None => Err(DaemonError::NoParentDirectory),
    }
}

/// What `locate_daemon` answers.
pub open spec fn daemon_location(
    is_dev: bool,
    current_dir: Result<String, String>,
    resource_dir: Result<String, String>,
    found: Result<String, DaemonError>,
) -> bool {
    if is_dev {
        match current_dir {
            Err(why) => found == Err::<String, DaemonError>(DaemonError::CurrentDirectory(why)),
            Ok(dir) => dev_location(
                path_ends_with(dir@, "src-tauri"@),
                path_parent(dir@),
                path_grandparent(dir@),
                found,
            ),
        }
    } else {
        match resource_dir {
            Err(why) => found == Err::<String, DaemonError>(DaemonError::ResourceDirectory(why)),
            Ok(dir) => found matches Ok(path) && path@ == packaged_daemon_path(dir@),
        }
    }
}

/// Where the daemon's executable is looked for: in development under the
/// root of the source tree, which is found from the working directory; else
/// among the packaged resources. The directory that the kind of build does
/// not need is not looked at.
pub fn locate_daemon(
    is_dev: bool,
    current_dir: Result<String, String>,
    resource_dir: Result<String, String>,
) -> (found: Result<String, DaemonError>)
    ensures
        daemon_location(is_dev, current_dir, resource_dir, found),
{
    if is_dev {
        let dir = match current_dir {
            Ok(dir) => dir,
            Err(why) => return Err(DaemonError::CurrentDirectory(why)),
        };
        let in_src_tauri = ends_with_components(dir.as_str(), "src-tauri");
        let parent = parent_of(dir.as_str());
        let grandparent = match &parent {
            Some(up) => parent_of(up.as_str()),
            None => None,
        };
        dev_daemon_location(in_src_tauri, parent, grandparent)
    } else {
        match resource_dir {
            Ok(dir) => Ok(packaged_daemon_under(dir.as_str())),
            Err(why) => Err(DaemonError::ResourceDirectory(why)),
        }
    }
}

/// What `get_daemon_path` answers.
pub open spec fn daemon_path(
    is_dev: bool,
    located: Result<String, DaemonError>,
    exists: bool,
    path: Result<String, DaemonError>,
) -> bool {
    match located {
        Err(why) => path == Err::<String, DaemonError>(why),
        Ok(found) => if exists {
            path == Ok::<String, DaemonError>(found)
        } else if is_dev {
            path matches Err(DaemonError::DevDaemonMissing(shown)) && shown@ == debug_text(found@)
        } else {
            path matches Err(DaemonError::DaemonMissing(shown)) && shown@ == debug_text(found@)
        },
    }
}

/// The executable to launch: the located one, which has to exist on disk.
/// One that is not there is an error of its own, apart from a spawn that
/// fails, and the error shows where it was looked for.
pub fn get_daemon_path(is_dev: bool, located: Result<String, DaemonError>, exists: bool) -> (path:
    Result<String, DaemonError>)
    ensures
        daemon_path(is_dev, located, exists, path),
{
    match located {
        Err(why) => Err(why),
        Ok(found) => if exists {
            Ok(found)
        } else if is_dev {
            Err(DaemonError::DevDaemonMissing(debug_quoted(found.as_str())))
        } else {
            Err(DaemonError::DaemonMissing(debug_quoted(found.as_str())))
        },
    }
}

/// An executable that is not on disk is never launched, in either kind of
/// build: the answer is then the error that says that it was not found.
pub proof fn lemma_missing_executable_is_an_error(
    is_dev: bool,
    found: String,
    path: Result<String, DaemonError>,
)
    requires
        daemon_path(is_dev, Ok(found), false, path),
    ensures
        path is Err,
        path->Err_0 is DevDaemonMissing || path->Err_0 is DaemonMissing,
{
}

} // verus!
