//! The identity tag: the short name under which one environment keeps its
//! sockets, databases, stores and logs apart from the others.

use crate::text::{concat2, concat3, join_path, joined, same_text, trim, trimmed};
use vstd::prelude::*;

verus! {

/// The pattern of a ticket token in a branch name.
pub const TICKET_PATTERN: &'static str = "(eng-\\d+)";

/// The tag of every build that is not a development build.
pub const PRODUCTION_TAG: &'static str = "production";

/// The tag of a development build whose branch is not known.
pub const FALLBACK_BRANCH: &'static str = "dev";

/// The text that the `regex` crate reports for group 1 of the leftmost match
/// of `pattern` in `text`; none where the pattern does not compile, nothing
/// matches, or the group took no part in the match.
pub uninterp spec fn regex_first_group(pattern: Seq<char>, text: Seq<char>) -> Option<Seq<char>>;

/// Compiles `pattern` with `regex::Regex::new`, searches `text` with
/// `Regex::captures` and hands out group 1 of what it found. The contract
/// gives that result its name and claims nothing more of it.
#[verifier::external_body]
fn first_group(pattern: &str, text: &str) -> (found: Option<String>)
    ensures
        found.deep_view() == regex_first_group(pattern@, text@),
{
    let compiled = match regex::Regex::new(pattern) {
        Ok(compiled) => compiled,
        Err(_) => return None,
    };
    match compiled.captures(text) {
        Some(groups) => match groups.get(1) {
            Some(group) => Some(group.as_str().to_string()),
            None => None,
        },
        None => None,
    }
}

/// The ticket token of a branch name, where it holds one.
pub open spec fn ticket_id(branch: Seq<char>) -> Option<Seq<char>> {
    regex_first_group(TICKET_PATTERN@, branch)
}

/// The tag of a development branch: its ticket token where it has one, else
/// the branch name whole.
pub open spec fn branch_tag(branch: Seq<char>, ticket: Option<Seq<char>>) -> Seq<char> {
    match ticket {
        Some(token) => token,
        None => branch,
    }
}

/// The branch that a development build goes by: the override, else what
/// version control reports, else the fallback.
pub open spec fn effective_branch(
    branch_override: Option<Seq<char>>,
    git_branch: Option<Seq<char>>,
) -> Seq<char> {
    match branch_override {
        Some(branch) => branch,
        None => match git_branch {
            Some(branch) => branch,
            None => FALLBACK_BRANCH@,
        },
    }
}

/// The identity tag of a build.
pub open spec fn branch_id(
    is_dev: bool,
    branch_override: Option<Seq<char>>,
    git_branch: Option<Seq<char>>,
) -> Seq<char> {
    if is_dev {
        let branch = effective_branch(branch_override, git_branch);
        branch_tag(branch, ticket_id(branch))
    } else {
        PRODUCTION_TAG@
    }
}

/// What version control's answer to "which branch is this" comes to: the
/// trimmed output where the command succeeded and printed text, else nothing.
pub fn get_git_branch(succeeded: bool, stdout: Option<String>) -> (branch: Option<String>)
    ensures
        branch.deep_view() == (if succeeded {
            match stdout {
                Some(text) => Some(trim(text@)),
                None => None,
            }
        } else {
            None
        }),
{
    if !succeeded {
        return None;
    }
    match stdout {
        Some(text) => Some(trimmed(text.as_str())),
        None => None,
    }
}

/// Whether `get_branch_id` looks at version control's answer at all.
pub fn branch_lookup_needed(is_dev: bool, branch_override: &Option<String>) -> (needed: bool)
    ensures
        needed == (is_dev && branch_override is None),
        !needed ==> forall|a: Option<Seq<char>>, b: Option<Seq<char>>|
            branch_id(is_dev, branch_override.deep_view(), a) == branch_id(
                is_dev,
                branch_override.deep_view(),
                b,
            ),
{
    is_dev && branch_override.is_none()
}

/// The ticket token in `branch` (such as `eng-1234`), if it holds one.
pub fn extract_ticket_id(branch: &str) -> (ticket: Option<String>)
    ensures
        ticket.deep_view() == ticket_id(branch@),
{
    first_group(TICKET_PATTERN, branch)
}

/// The tag of the development branch `branch`, given the ticket token that
/// was found in it.
pub fn tag_of_branch(branch: String, ticket: Option<String>) -> (tag: String)
    ensures
        tag@ == branch_tag(branch@, ticket.deep_view()),
{
    match ticket {
        Some(token) => token,
        None => branch,
    }
}

/// The identity tag: `production` outside development; in development the
/// ticket token of the branch, or the branch name where it holds none. The
/// branch is the override, else `git_branch`, else `dev`.
pub fn get_branch_id(
    is_dev: bool,
    branch_override: Option<String>,
    git_branch: Option<String>,
) -> (tag: String)
    ensures
        tag@ == branch_id(is_dev, branch_override.deep_view(), git_branch.deep_view()),
{
    if is_dev {
        let branch = match branch_override {
            Some(branch) => branch,
            None => match git_branch {
                Some(branch) => branch,
                None => FALLBACK_BRANCH.to_string(),
            },
        };
        let ticket = extract_ticket_id(branch.as_str());
        tag_of_branch(branch, ticket)
    } else {
        PRODUCTION_TAG.to_string()
    }
}

// ---------------------------------------------------------------------------
// What is kept under the tag
// ---------------------------------------------------------------------------

/// The name of the data directory under the home directory.
pub const DATA_DIR_NAME: &'static str = ".humanlayer";

/// Whether a tag is that of a development build: every tag but `production`.
pub fn is_dev_tag(tag: &str) -> (is_dev: bool)
    ensures
        is_dev == (tag@ != PRODUCTION_TAG@),
{
    !same_text(tag, PRODUCTION_TAG)
}

/// The name of the file that keeps the last known daemon: one per branch in
/// development, one for development without a known branch, one for all
/// other builds.
pub open spec fn store_name(is_dev: bool, branch: Option<Seq<char>>) -> Seq<char> {
    if is_dev {
        match branch {
            Some(tag) => "codelayer-"@ + tag + ".json"@,
            None => "codelayer-dev.json"@,
        }
    } else {
        "codelayer.json"@
    }
}

/// The path of the file that keeps the last known daemon, in the data
/// directory under `home_dir`.
pub fn get_store_path(home_dir: &str, is_dev: bool, branch: Option<&str>) -> (path: String)
    ensures
        path@ == join_path(
            join_path(home_dir@, DATA_DIR_NAME@),
            store_name(
                is_dev,
                match branch {
                    Some(tag) => Some(tag@),
                    None => None,
                },
            ),
        ),
{
    let data_dir = joined(home_dir, DATA_DIR_NAME);
    let name = if is_dev {
        match branch {
            Some(tag) => concat3("codelayer-", tag, ".json"),
            None => "codelayer-dev.json".to_string(),
        }
    } else {
        "codelayer.json".to_string()
    };
    joined(data_dir.as_str(), name.as_str())
}

/// What `get_log_directory` answers.
pub open spec fn log_directory(
    is_dev: bool,
    home_dir: Option<Seq<char>>,
    tag: Seq<char>,
    found: Result<String, String>,
) -> bool {
    if !is_dev {
        found matches Err(why) && why@ == "Use appLogDir() for production"@
    } else {
        match home_dir {
            None => found matches Err(why) && why@ == "Failed to get home directory"@,
            Some(home) => found matches Ok(path) && path@ == join_path(
                join_path(join_path(home, DATA_DIR_NAME@), "logs"@),
                "wui-"@ + tag,
            ),
        }
    }
}

/// The directory of the logs of a development build: one per tag, under the
/// data directory. Other builds keep their logs where the platform says, and
/// are told so.
pub fn get_log_directory(is_dev: bool, home_dir: Option<&str>, tag: &str) -> (found: Result<
    String,
    String,
>)
    ensures
        log_directory(
            is_dev,
            match home_dir {
                Some(home) => Some(home@),
                None => None,
            },
            tag@,
            found,
        ),
{
    if !is_dev {
        return Err("Use appLogDir() for production".to_string());
    }
    let home = match home_dir {
        Some(home) => home,
        None => return Err("Failed to get home directory".to_string()),
    };
    let data_dir = joined(home, DATA_DIR_NAME);
    let logs = joined(data_dir.as_str(), "logs");
    let name = concat2("wui-", tag);
    Ok(joined(logs.as_str(), name.as_str()))
}

} // verus!
