//! Where things live: paths are joined with a single `/`, the workspace root is
//! `<home>/workspace`, and the selection records are `current/wsp` and
//! `current/env` under it.
use vstd::prelude::*;

use crate::error::SwitchError;

verus! {

/// `dir` and `name` joined by one `/`.
pub open spec fn joined(dir: Seq<char>, name: Seq<char>) -> Seq<char> {
    dir + seq!['/'] + name
}

/// Joins `dir` and `name` with one `/`.
pub fn join_path(dir: &str, name: &str) -> (r: String)
    ensures
        r@ == joined(dir@, name@),
{
    let slash = "/";
    proof {
        reveal_strlit("/");
    }
    let mut r = dir.to_owned();
    r.append(slash);
    r.append(name);
    r
}

/// The workspace root below the home directory `home`.
pub open spec fn root_of(home: Seq<char>) -> Seq<char> {
    joined(home, "workspace"@)
}

/// The workspace root below the home directory `home`.
pub fn workspace_root(home: &str) -> (r: String)
    ensures
        r@ == root_of(home@),
{
    proof {
        reveal_strlit("workspace");
    }
    join_path(home, "workspace")
}

/// Relies on `dirs::home_dir`: `$HOME` when it is set and not empty, else the
/// home directory of the current user from the password database, else `None`;
/// a path it returns is never empty.
#[verifier::external_body]
fn home_directory() -> (r: Option<String>)
    ensures
        r matches Some(h) ==> h@.len() > 0,
{
    dirs::home_dir().map(|p| p.display().to_string())
}

/// The home directory of the current user, never empty.
pub fn locate_home() -> (r: Result<String, SwitchError>)
    ensures
        match r {
            Ok(home) => home@.len() > 0,
            Err(e) => e == SwitchError::HomeDirUnavailable,
        },
{
    match home_directory() {
        Some(home) => Ok(home),
        None => Err(SwitchError::HomeDirUnavailable),
    }
}

/// The directory that holds the selection records.
pub open spec fn current_dir_of(root: Seq<char>) -> Seq<char> {
    joined(root, "current"@)
}

/// The record of the active workspace.
pub open spec fn workspace_record_of(root: Seq<char>) -> Seq<char> {
    joined(current_dir_of(root), "wsp"@)
}

/// The record of the active environment.
pub open spec fn environment_record_of(root: Seq<char>) -> Seq<char> {
    joined(current_dir_of(root), "env"@)
}

/// The path of the record of the active workspace.
pub fn workspace_record_path(root: &str) -> (r: String)
    ensures
        r@ == workspace_record_of(root@),
{
    proof {
        reveal_strlit("current");
        reveal_strlit("wsp");
    }
    let current = join_path(root, "current");
    join_path(current.as_str(), "wsp")
}

/// The path of the record of the active environment.
pub fn environment_record_path(root: &str) -> (r: String)
    ensures
        r@ == environment_record_of(root@),
{
    proof {
        reveal_strlit("current");
        reveal_strlit("env");
    }
    let current = join_path(root, "current");
    join_path(current.as_str(), "env")
}

} // verus!
