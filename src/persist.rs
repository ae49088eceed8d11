//! Persisting a selection: the two one-line records, and what reading them
//! back yields.
use vstd::prelude::*;

use crate::layout::{environment_record_of, environment_record_path, workspace_record_of, workspace_record_path};
use crate::selection::{select, WorkspaceConfig};
use crate::text::{is_trimmed, lemma_trimmed_name_is_kept, trimmed};

verus! {

/// The contents that one record is overwritten with.
pub struct RecordWrite {
    pub path: String,
    pub contents: String,
}

impl WorkspaceConfig {
    /// The records that persist this selection under `root`: the workspace
    /// name, then the environment name, each written as it is.
    pub fn write(&self, root: &str) -> (r: Vec<RecordWrite>)
        ensures
            r@.len() == 2,
            r@[0].path@ == workspace_record_of(root@),
            r@[0].contents@ == self.main_dir@,
            r@[1].path@ == environment_record_of(root@),
            r@[1].contents@ == self.env_dir@,
    {
        let mut records: Vec<RecordWrite> = Vec::new();
        records.push(
            RecordWrite { path: workspace_record_path(root), contents: self.main_dir.clone() },
        );
        records.push(
            RecordWrite { path: environment_record_path(root), contents: self.env_dir.clone() },
        );
        records
    }
}

/// Reading back the records of a written selection selects it again: when the
/// workspace is listed (once, as listed names are distinct) with the
/// environment among its environments, and neither name starts or ends with
/// white space, the trimmed records are found at the positions of those names.
pub proof fn lemma_write_then_read(
    cfg: WorkspaceConfig,
    workspaces: Seq<Seq<char>>,
    environments: Seq<Seq<Seq<char>>>,
)
    requires
        is_trimmed(cfg.main_dir@),
        is_trimmed(cfg.env_dir@),
        workspaces.len() == environments.len(),
        workspaces.no_duplicates(),
        exists|i: int|
            0 <= i < workspaces.len() && workspaces[i] == cfg.main_dir@ && environments[i].contains(
                cfg.env_dir@,
            ),
    ensures
        select(workspaces, environments, trimmed(cfg.main_dir@), trimmed(cfg.env_dir@)) matches Ok(
            (i, j),
        ) && 0 <= i < workspaces.len() && 0 <= j < environments[i].len() && workspaces[i]
            == cfg.main_dir@ && environments[i][j] == cfg.env_dir@,
{
    lemma_trimmed_name_is_kept(cfg.main_dir@);
    lemma_trimmed_name_is_kept(cfg.env_dir@);
    let i = choose|i: int|
        0 <= i < workspaces.len() && workspaces[i] == cfg.main_dir@ && environments[i].contains(
            cfg.env_dir@,
        );
    workspaces.index_of_first_ensures(cfg.main_dir@);
    let f = workspaces.index_of_first(cfg.main_dir@)->0;
    assert(f == i);
    environments[i].index_of_first_ensures(cfg.env_dir@);
}

} // verus!
