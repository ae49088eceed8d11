//! The active selection: which workspace and environment are current, and how
//! the next workspace or environment is chosen.
use vstd::arithmetic::div_mod::{lemma_mod_self_0, lemma_small_mod};
use vstd::prelude::*;

use crate::error::SwitchError;
use crate::text::{trim_text, trimmed};

verus! {

/// The position after `i` in a circular list of `n` items.
pub open spec fn next_index(i: int, n: int) -> int {
    (i + 1) % n
}

/// Stepping through a circular list of `n` items moves from `i` to `i + 1`,
/// and from the last position `n - 1` back to 0.
pub proof fn lemma_next_index_steps(i: int, n: int)
    requires
        0 <= i < n,
    ensures
        next_index(i, n) == if i == n - 1 {
            0
        } else {
            i + 1
        },
        0 <= next_index(i, n) < n,
{
    if i + 1 == n {
        lemma_mod_self_0(n);
    } else {
        lemma_small_mod((i + 1) as nat, n as nat);
    }
}

/// Advances `i` by one in a circular list of `n` items, wrapping to 0 after the
/// last position.
pub fn cycle_next(i: usize, n: usize) -> (r: usize)
    requires
        i < n,
    ensures
        r as int == next_index(i as int, n as int),
        r < n,
{
    proof {
        lemma_next_index_steps(i as int, n as int);
    }
    if i == n - 1 {
        0
    } else {
        i + 1
    }
}

/// Where the persisted workspace `w` and environment `e` stand among the listed
/// workspaces and their environments: the first position of `w`, and within its
/// environments the first position of `e`.
pub open spec fn select(
    workspaces: Seq<Seq<char>>,
    environments: Seq<Seq<Seq<char>>>,
    w: Seq<char>,
    e: Seq<char>,
) -> Result<(int, int), SwitchError> {
    match workspaces.index_of_first(w) {
        None => Err(SwitchError::WorkspaceNotFound),
        Some(i) => match environments[i].index_of_first(e) {
            None => Err(SwitchError::EnvironmentNotFound),
            Some(j) => Ok((i, j)),
        },
    }
}

/// The first position of `name` in `list`.
fn find_name(list: &Vec<String>, name: &String) -> (r: Option<usize>)
    ensures
        match r {
            Some(i) => list.deep_view().index_of_first(name@) == Some(i as int),
            None => list.deep_view().index_of_first(name@) is None,
        },
{
    let ghost names = list.deep_view();
    proof {
        names.index_of_first_ensures(name@);
    }
    let mut i: usize = 0;
    while i < list.len()
        invariant
            i <= list@.len(),
            names == list.deep_view(),
            forall|k: int| 0 <= k < i ==> names[k] != name@,
        decreases list@.len() - i,
    {
        if list[i] == *name {
            proof {
                assert(names[i as int] == name@);
                assert(names.contains(name@));
                names.index_of_first_ensures(name@);
                let first = names.index_of_first(name@)->0;
                assert(!(first < i));
                assert(!(i < first));
            }
            return Some(i);
        }
        i = i + 1;
    }
    assert(!names.contains(name@));
    None
}

/// A resolved selection: a workspace name and an environment name within it.
pub struct WorkspaceConfig {
    pub main_dir: String,
    pub env_dir: String,
}

/// What is persisted and what exists on disk at one instant: the workspace
/// names in ascending order, the environments of each workspace (the list at
/// position `i` belongs to the workspace at position `i`), and the positions of
/// the active workspace and environment.
pub struct Snapshot {
    pub current_workspace: usize,
    pub current_environment: usize,
    pub workspace_list: Vec<String>,
    pub environment_lists: Vec<Vec<String>>,
}

impl Snapshot {
    /// Builds the snapshot from the two persisted records (each trimmed of
    /// surrounding white space) and the listed workspaces and environments.
    pub fn from_records(
        workspace_record: &str,
        environment_record: &str,
        workspace_list: Vec<String>,
        environment_lists: Vec<Vec<String>>,
    ) -> (r: Result<Snapshot, SwitchError>)
        requires
            environment_lists@.len() == workspace_list@.len(),
        ensures
            match r {
                Ok(s) => {
                    &&& s.wf()
                    &&& s.workspace_list@ == workspace_list@
                    &&& s.environment_lists@ == environment_lists@
                    &&& select(
                        workspace_list.deep_view(),
                        environment_lists.deep_view(),
                        trimmed(workspace_record@),
                        trimmed(environment_record@),
                    ) == Ok::<(int, int), SwitchError>(
                        (s.current_workspace as int, s.current_environment as int),
                    )
                },
                Err(e) => select(
                    workspace_list.deep_view(),
                    environment_lists.deep_view(),
                    trimmed(workspace_record@),
                    trimmed(environment_record@),
                ) == Err::<(int, int), SwitchError>(e),
            },
    {
        let workspace_name = trim_text(workspace_record);
        let environment_name = trim_text(environment_record);
        let ghost workspaces = workspace_list.deep_view();
        let ghost environments = environment_lists.deep_view();
        proof {
            workspaces.index_of_first_ensures(workspace_name@);
        }
        let current_workspace = match find_name(&workspace_list, &workspace_name) {
            Some(i) => i,
            None => {
                return Err(SwitchError::WorkspaceNotFound);
            },
        };
        assert(environments[current_workspace as int] == environment_lists@[current_workspace as int].deep_view());
        proof {
            environments[current_workspace as int].index_of_first_ensures(environment_name@);
        }
        let current_environment = match find_name(
            &environment_lists[current_workspace],
            &environment_name,
        ) {
            Some(j) => j,
            None => {
                return Err(SwitchError::EnvironmentNotFound);
            },
        };
        Ok(Snapshot { current_workspace, current_environment, workspace_list, environment_lists })
    }

    /// The name of the workspace at position `i`.
    pub open spec fn workspace_at(&self, i: int) -> Seq<char> {
        self.workspace_list@[i]@
    }

    /// The name of the environment at position `j` of the workspace at position `i`.
    pub open spec fn environment_at(&self, i: int, j: int) -> Seq<char> {
        self.environment_lists@[i]@[j]@
    }

    /// The number of environments of the workspace at position `i`.
    pub open spec fn environment_count(&self, i: int) -> int {
        self.environment_lists@[i]@.len() as int
    }

    /// One environment list per workspace, and both active positions valid.
    pub open spec fn wf(&self) -> bool {
        &&& self.environment_lists@.len() == self.workspace_list@.len()
        &&& self.current_workspace < self.workspace_list@.len()
        &&& self.current_environment < self.environment_count(self.current_workspace as int)
    }

    /// The position of the workspace that follows the active one.
    pub open spec fn next_workspace(&self) -> int {
        next_index(self.current_workspace as int, self.workspace_list@.len() as int)
    }

    /// The position of the environment that follows the active one.
    pub open spec fn next_environment(&self) -> int {
        next_index(
            self.current_environment as int,
            self.environment_count(self.current_workspace as int),
        )
    }

    /// The active workspace and environment, unchanged.
    pub fn current(&self) -> (r: WorkspaceConfig)
        requires
            self.wf(),
        ensures
            r.main_dir@ == self.workspace_at(self.current_workspace as int),
            r.env_dir@ == self.environment_at(
                self.current_workspace as int,
                self.current_environment as int,
            ),
    {
        let main_dir = self.workspace_list[self.current_workspace].clone();
        let env_dir = self.environment_lists[self.current_workspace][self.current_environment].clone();
        WorkspaceConfig { main_dir, env_dir }
    }

    /// The workspace after the active one, wrapping to the first, with its
    /// first environment.
    pub fn nextw(&self) -> (r: WorkspaceConfig)
        requires
            self.wf(),
            self.environment_count(self.next_workspace()) > 0,
        ensures
            r.main_dir@ == self.workspace_at(self.next_workspace()),
            r.env_dir@ == self.environment_at(self.next_workspace(), 0),
    {
        let target_workspace = cycle_next(self.current_workspace, self.workspace_list.len());
        let main_dir = self.workspace_list[target_workspace].clone();
        let env_dir = self.environment_lists[target_workspace][0].clone();
        WorkspaceConfig { main_dir, env_dir }
    }

    /// The active workspace with the environment after the active one,
    /// wrapping to the first.
    pub fn nexte(&self) -> (r: WorkspaceConfig)
        requires
            self.wf(),
        ensures
            r.main_dir@ == self.workspace_at(self.current_workspace as int),
            r.env_dir@ == self.environment_at(
                self.current_workspace as int,
                self.next_environment(),
            ),
    {
        let target_workspace = self.current_workspace;
        let main_dir = self.workspace_list[target_workspace].clone();
        let environment_list = &self.environment_lists[target_workspace];
        let target_environment = cycle_next(self.current_environment, environment_list.len());
        let env_dir = environment_list[target_environment].clone();
        WorkspaceConfig { main_dir, env_dir }
    }
}

/// Toggling the workspace of a snapshot with `N` workspaces moves from
/// position `i` to `(i + 1) mod N`: to the next position, and from the last one
/// (`N - 1`) back to the first.
pub proof fn lemma_nextw_cycles(s: Snapshot)
    requires
        s.wf(),
    ensures
        s.next_workspace() == (s.current_workspace as int + 1) % (s.workspace_list@.len() as int),
        s.next_workspace() == if s.current_workspace as int == s.workspace_list@.len() - 1 {
            0
        } else {
            s.current_workspace as int + 1
        },
{
    lemma_next_index_steps(s.current_workspace as int, s.workspace_list@.len() as int);
}

/// Toggling the environment of a snapshot whose active workspace has `M`
/// environments moves from position `j` to `(j + 1) mod M`: to the next
/// position, and from the last one (`M - 1`) back to the first.
pub proof fn lemma_nexte_cycles(s: Snapshot)
    requires
        s.wf(),
    ensures
        s.next_environment() == (s.current_environment as int + 1) % s.environment_count(
            s.current_workspace as int,
        ),
        s.next_environment() == if s.current_environment as int == s.environment_count(
            s.current_workspace as int,
        ) - 1 {
            0
        } else {
            s.current_environment as int + 1
        },
{
    lemma_next_index_steps(
        s.current_environment as int,
        s.environment_count(s.current_workspace as int),
    );
}

} // verus!
