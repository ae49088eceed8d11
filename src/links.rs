//! Which directory a managed file is linked from, and the steps that re-point
//! its link.
use vstd::prelude::*;

use crate::error::SwitchError;
use crate::layout::{join_path, joined};
use crate::selection::WorkspaceConfig;

verus! {

/// A managed file: the directory its link lives in, and the name of both the
/// link and the file it points to.
pub struct FilePath {
    pub target_path: String,
    pub file_name: String,
}

/// What stands at a link's path before it is refreshed.
#[derive(Clone, Copy, Debug, PartialEq, Eq, Structural)]
pub enum TargetState {
    /// Nothing.
    Absent,
    /// A symbolic link, whether or not it resolves.
    Symlink,
    /// A file or directory that is not a symbolic link.
    Other,
}

/// Where a managed file is taken from.
#[derive(Clone, Copy, Debug, PartialEq, Eq, Structural)]
pub enum SourceChoice {
    /// The directory of the selected environment.
    Environment,
    /// The `default` directory of the selected workspace.
    Default,
    /// Neither holds the file.
    NoSource,
}

/// One filesystem change.
pub enum LinkStep {
    /// Remove the symbolic link at `link`.
    RemoveLink { link: String },
    /// Create a symbolic link at `link` that points to `source`.
    CreateLink { source: String, link: String },
}

/// What the filesystem shows of one managed file in the selected workspace.
#[derive(Clone, Copy, Debug, PartialEq, Eq, Structural)]
pub struct LinkProbe {
    /// The workspace directory is a directory.
    pub workspace_is_dir: bool,
    /// The environment directory is a directory and holds the file.
    pub in_environment: bool,
    /// The `default` directory is a directory and holds the file.
    pub in_default: bool,
    /// What stands at the link's path.
    pub target: TargetState,
}

/// The environment's copy wins over the default one; with neither there is no
/// source.
pub open spec fn resolved(in_environment: bool, in_default: bool) -> SourceChoice {
    if in_environment {
        SourceChoice::Environment
    } else if in_default {
        SourceChoice::Default
    } else {
        SourceChoice::NoSource
    }
}

/// Chooses where a managed file is taken from.
pub fn resolve_source(in_environment: bool, in_default: bool) -> (r: SourceChoice)
    ensures
        r == resolved(in_environment, in_default),
{
    if in_environment {
        SourceChoice::Environment
    } else if in_default {
        SourceChoice::Default
    } else {
        SourceChoice::NoSource
    }
}

/// `step` removes the link at `link`.
pub open spec fn removes(step: LinkStep, link: Seq<char>) -> bool {
    step matches LinkStep::RemoveLink { link: l } && l@ == link
}

/// `step` creates a link at `link` to `source`.
pub open spec fn creates(step: LinkStep, source: Seq<char>, link: Seq<char>) -> bool {
    step matches LinkStep::CreateLink { source: s, link: l } && s@ == source && l@ == link
}

/// The steps that re-point the link at `link` to `source` (or leave no link
/// when `source` is `None`): an old symbolic link is removed first, and
/// anything at `link` that is not a symbolic link is left alone.
pub open spec fn refresh_plan(
    steps: Seq<LinkStep>,
    link: Seq<char>,
    source: Option<Seq<char>>,
    target: TargetState,
) -> bool {
    match target {
        TargetState::Other => steps.len() == 0,
        TargetState::Symlink => match source {
            None => steps.len() == 1 && removes(steps[0], link),
            Some(s) => steps.len() == 2 && removes(steps[0], link) && creates(steps[1], s, link),
        },
        TargetState::Absent => match source {
            None => steps.len() == 0,
            Some(s) => steps.len() == 1 && creates(steps[0], s, link),
        },
    }
}

impl FilePath {
    /// The path of the link.
    pub open spec fn link_path(&self) -> Seq<char> {
        joined(self.target_path@, self.file_name@)
    }

    /// The path the link points to when it is taken from `dir`.
    pub open spec fn source_in(&self, dir: Option<Seq<char>>) -> Option<Seq<char>> {
        match dir {
            Some(d) => Some(joined(d, self.file_name@)),
            None => None,
        }
    }

    /// The path of the link.
    pub fn target_link(&self) -> (r: String)
        ensures
            r@ == self.link_path(),
    {
        join_path(self.target_path.as_str(), self.file_name.as_str())
    }

    /// The steps that point the link to the file of the same name in
    /// `new_source_dir`, or remove it when there is no such directory, given
    /// what stands at the link's path now.
    pub fn refresh_link_from(&self, new_source_dir: Option<String>, target: TargetState) -> (r:
        Vec<LinkStep>)
        ensures
            refresh_plan(
                r@,
                self.link_path(),
                self.source_in(
                    match new_source_dir {
                        Some(d) => Some(d@),
                        None => None,
                    },
                ),
                target,
            ),
    {
        let mut steps: Vec<LinkStep> = Vec::new();
        if target == TargetState::Other {
            return steps;
        }
        if target == TargetState::Symlink {
            steps.push(LinkStep::RemoveLink { link: self.target_link() });
        }
        match new_source_dir {
            Some(dir) => {
                let source = join_path(dir.as_str(), self.file_name.as_str());
                steps.push(LinkStep::CreateLink { source, link: self.target_link() });
            },
            None => {},
        }
        steps
    }
}

impl WorkspaceConfig {
    /// The directory of the selected workspace under `root`.
    pub open spec fn workspace_dir_of(&self, root: Seq<char>) -> Seq<char> {
        joined(root, self.main_dir@)
    }

    /// The directory of the selected environment under `root`.
    pub open spec fn environment_dir_of(&self, root: Seq<char>) -> Seq<char> {
        joined(self.workspace_dir_of(root), self.env_dir@)
    }

    /// The `default` directory of the selected workspace under `root`.
    pub open spec fn default_dir_of(&self, root: Seq<char>) -> Seq<char> {
        joined(self.workspace_dir_of(root), "default"@)
    }

    /// The directory a managed file is taken from, for a choice of source.
    pub open spec fn source_dir_of(&self, root: Seq<char>, choice: SourceChoice) -> Option<
        Seq<char>,
    > {
        match choice {
            SourceChoice::Environment => Some(self.environment_dir_of(root)),
            SourceChoice::Default => Some(self.default_dir_of(root)),
            SourceChoice::NoSource => None,
        }
    }

    /// The directory of the selected workspace under `root`.
    pub fn workspace_dir(&self, root: &str) -> (r: String)
        ensures
            r@ == self.workspace_dir_of(root@),
    {
        join_path(root, self.main_dir.as_str())
    }

    /// The directory of the selected environment under `root`.
    pub fn environment_dir(&self, root: &str) -> (r: String)
        ensures
            r@ == self.environment_dir_of(root@),
    {
        let workspace = self.workspace_dir(root);
        join_path(workspace.as_str(), self.env_dir.as_str())
    }

    /// The `default` directory of the selected workspace under `root`.
    pub fn default_dir(&self, root: &str) -> (r: String)
        ensures
            r@ == self.default_dir_of(root@),
    {
        proof {
            reveal_strlit("default");
        }
        let workspace = self.workspace_dir(root);
        join_path(workspace.as_str(), "default")
    }

    /// The steps that re-point the link of `file_path` for this selection
    /// under `root`, given what `probe` found; fails when the workspace has no
    /// directory.
    pub fn update_link(&self, root: &str, file_path: &FilePath, probe: LinkProbe) -> (r: Result<
        Vec<LinkStep>,
        SwitchError,
    >)
        ensures
            match r {
                Ok(steps) => {
                    &&& probe.workspace_is_dir
                    &&& refresh_plan(
                        steps@,
                        file_path.link_path(),
                        file_path.source_in(
                            self.source_dir_of(
                                root@,
                                resolved(probe.in_environment, probe.in_default),
                            ),
                        ),
                        probe.target,
                    )
                },
                Err(e) => !probe.workspace_is_dir && e == SwitchError::WorkspaceDirMissing,
            },
    {
        if !probe.workspace_is_dir {
            return Err(SwitchError::WorkspaceDirMissing);
        }
        let source_dir = match resolve_source(probe.in_environment, probe.in_default) {
            SourceChoice::Environment => Some(self.environment_dir(root)),
            SourceChoice::Default => Some(self.default_dir(root)),
            SourceChoice::NoSource => None,
        };
        Ok(file_path.refresh_link_from(source_dir, probe.target))
    }
}

} // verus!
