//! The command surface: which selection a command targets, whether it changes
//! anything, the line printed for a selection, and the managed files.
use vstd::prelude::*;

use crate::layout::{join_path, joined};
use crate::links::FilePath;
use crate::selection::{cycle_next, Snapshot, WorkspaceConfig};

verus! {

/// What one run of the switcher does.
#[derive(Clone, Copy, Debug, PartialEq, Eq, Structural)]
pub enum Command {
    /// Select the next workspace and its first environment.
    ToggleWorkspace,
    /// Select the next environment of the active workspace.
    ToggleEnvironment,
    /// Show the active selection only.
    Show,
}

/// The command an argument names: `togglew`, `togglee`, and anything else
/// shows the selection.
pub open spec fn command_of(arg: Seq<char>) -> Command {
    if arg == "togglew"@ {
        Command::ToggleWorkspace
    } else if arg == "togglee"@ {
        Command::ToggleEnvironment
    } else {
        Command::Show
    }
}

/// Reads the command from the program's argument.
pub fn parse_command(arg: &str) -> (r: Command)
    ensures
        r == command_of(arg@),
{
    proof {
        reveal_strlit("togglew");
        reveal_strlit("togglee");
    }
    let arg = arg.to_owned();
    if arg == "togglew".to_owned() {
        Command::ToggleWorkspace
    } else if arg == "togglee".to_owned() {
        Command::ToggleEnvironment
    } else {
        Command::Show
    }
}

impl Command {
    /// Whether the command re-points links and persists the selection.
    pub fn changes_selection(&self) -> (r: bool)
        ensures
            r == !(*self == Command::Show),
    {
        match self {
            Command::Show => false,
            _ => true,
        }
    }
}

impl Snapshot {
    /// The selection that `command` targets; `None` when it toggles to a
    /// workspace without environments.
    pub fn target(&self, command: Command) -> (r: Option<WorkspaceConfig>)
        requires
            self.wf(),
        ensures
            match command {
                Command::ToggleWorkspace => match r {
                    Some(c) => {
                        &&& self.environment_count(self.next_workspace()) > 0
                        &&& c.main_dir@ == self.workspace_at(self.next_workspace())
                        &&& c.env_dir@ == self.environment_at(self.next_workspace(), 0)
                    },
                    None => self.environment_count(self.next_workspace()) == 0,
                },
                Command::ToggleEnvironment => r matches Some(c) && c.main_dir@ == self.workspace_at(
                    self.current_workspace as int,
                ) && c.env_dir@ == self.environment_at(
                    self.current_workspace as int,
                    self.next_environment(),
                ),
                Command::Show => r matches Some(c) && c.main_dir@ == self.workspace_at(
                    self.current_workspace as int,
                ) && c.env_dir@ == self.environment_at(
                    self.current_workspace as int,
                    self.current_environment as int,
                ),
            },
    {
        match command {
            Command::ToggleWorkspace => {
                let next = cycle_next(
                    self.current_workspace,
                    self.workspace_list.len(),
                );
                if self.environment_lists[next].len() == 0 {
                    None
                } else {
                    Some(self.nextw())
                }
            },
            Command::ToggleEnvironment => Some(self.nexte()),
            Command::Show => Some(self.current()),
        }
    }
}

/// The line that shows a selection: `[<workspace>] - [<environment>]`.
pub open spec fn shown(main_dir: Seq<char>, env_dir: Seq<char>) -> Seq<char> {
    "["@ + main_dir + "] - ["@ + env_dir + "]"@
}

impl WorkspaceConfig {
    /// The line that shows this selection.
    pub fn describe(&self) -> (r: String)
        ensures
            r@ == shown(self.main_dir@, self.env_dir@),
    {
        proof {
            reveal_strlit("[");
            reveal_strlit("] - [");
            reveal_strlit("]");
        }
        let mut r = "[".to_owned();
        r.append(self.main_dir.as_str());
        r.append("] - [");
        r.append(self.env_dir.as_str());
        r.append("]");
        r
    }
}

/// The managed files of the home directory `home`: `.gitconfig`, `.gnupg` and
/// `.password-store` in it, `id_rsa` and `id_rsa.pub` in its `.ssh`, and
/// `snipets` in its `.config`.
pub fn managed_files(home: &str) -> (r: Vec<FilePath>)
    ensures
        r@.len() == 6,
        r@[0].target_path@ == home@ && r@[0].file_name@ == ".gitconfig"@,
        r@[1].target_path@ == joined(home@, ".ssh"@) && r@[1].file_name@ == "id_rsa"@,
        r@[2].target_path@ == joined(home@, ".ssh"@) && r@[2].file_name@ == "id_rsa.pub"@,
        r@[3].target_path@ == home@ && r@[3].file_name@ == ".gnupg"@,
        r@[4].target_path@ == home@ && r@[4].file_name@ == ".password-store"@,
        r@[5].target_path@ == joined(home@, ".config"@) && r@[5].file_name@ == "snipets"@,
{
    proof {
        reveal_strlit(".ssh");
        reveal_strlit(".config");
        reveal_strlit(".gitconfig");
        reveal_strlit("id_rsa");
        reveal_strlit("id_rsa.pub");
        reveal_strlit(".gnupg");
        reveal_strlit(".password-store");
        reveal_strlit("snipets");
    }
    let mut files: Vec<FilePath> = Vec::new();
    files.push(FilePath { target_path: home.to_owned(), file_name: ".gitconfig".to_owned() });
    files.push(FilePath { target_path: join_path(home, ".ssh"), file_name: "id_rsa".to_owned() });
    files.push(
        FilePath { target_path: join_path(home, ".ssh"), file_name: "id_rsa.pub".to_owned() },
    );
    files.push(FilePath { target_path: home.to_owned(), file_name: ".gnupg".to_owned() });
    files.push(
        FilePath { target_path: home.to_owned(), file_name: ".password-store".to_owned() },
    );
    files.push(
        FilePath { target_path: join_path(home, ".config"), file_name: "snipets".to_owned() },
    );
    files
}

} // verus!
