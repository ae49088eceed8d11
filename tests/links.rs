use workspace_switcher::command::managed_files;
use workspace_switcher::error::SwitchError;
use workspace_switcher::layout::{environment_record_path, join_path, locate_home, workspace_record_path, workspace_root};
use workspace_switcher::links::{resolve_source, FilePath, LinkProbe, LinkStep, SourceChoice, TargetState};
use workspace_switcher::listing::{sub_dir_names, DirEntryInfo};
use workspace_switcher::selection::WorkspaceConfig;

fn entry(name: &str, is_dir: bool) -> DirEntryInfo {
    DirEntryInfo { name: name.to_string(), is_dir }
}

fn id_rsa() -> FilePath {
    FilePath { target_path: "/home/u/.ssh".to_string(), file_name: "id_rsa".to_string() }
}

fn dev_work() -> WorkspaceConfig {
    WorkspaceConfig { main_dir: "dev".to_string(), env_dir: "work".to_string() }
}

fn probe(in_environment: bool, in_default: bool, target: TargetState) -> LinkProbe {
    LinkProbe { workspace_is_dir: true, in_environment, in_default, target }
}

fn is_remove(step: &LinkStep, path: &str) -> bool {
    matches!(step, LinkStep::RemoveLink { link } if link == path)
}

fn is_create(step: &LinkStep, from: &str, path: &str) -> bool {
    matches!(step, LinkStep::CreateLink { source, link } if source == from && link == path)
}

#[test]
fn listing_keeps_sorted_directories_only() {
    let entries = vec![
        entry("prod", true),
        entry("current", true),
        entry("notes.txt", false),
        entry("default", true),
        entry("dev", true),
        entry("Zeta", true),
        entry("alpha", true),
        entry("current.bak", true),
    ];
    assert_eq!(sub_dir_names(&entries), vec!["Zeta", "alpha", "current.bak", "dev", "prod"]);
}

#[test]
fn listing_of_nothing_is_empty() {
    assert!(sub_dir_names(&Vec::new()).is_empty());
    assert!(sub_dir_names(&vec![entry("default", true), entry("file", false)]).is_empty());
}

#[test]
fn listing_orders_by_code_point() {
    let entries = vec![entry("b", true), entry("ab", true), entry("a", true), entry("é", true)];
    assert_eq!(sub_dir_names(&entries), vec!["a", "ab", "b", "é"]);
}

#[test]
fn resolution_prefers_environment() {
    assert_eq!(resolve_source(true, true), SourceChoice::Environment);
    assert_eq!(resolve_source(true, false), SourceChoice::Environment);
    assert_eq!(resolve_source(false, true), SourceChoice::Default);
    assert_eq!(resolve_source(false, false), SourceChoice::NoSource);
}

#[test]
fn refresh_removes_old_link_before_creating() {
    let steps = id_rsa().refresh_link_from(Some("/w/dev/work".to_string()), TargetState::Symlink);
    assert_eq!(steps.len(), 2);
    assert!(is_remove(&steps[0], "/home/u/.ssh/id_rsa"));
    assert!(is_create(&steps[1], "/w/dev/work/id_rsa", "/home/u/.ssh/id_rsa"));
}

#[test]
fn refresh_leaves_other_files_alone() {
    assert!(id_rsa().refresh_link_from(Some("/w/dev/work".to_string()), TargetState::Other).is_empty());
    assert!(id_rsa().refresh_link_from(None, TargetState::Other).is_empty());
}

#[test]
fn refresh_without_source_only_removes() {
    let steps = id_rsa().refresh_link_from(None, TargetState::Symlink);
    assert_eq!(steps.len(), 1);
    assert!(is_remove(&steps[0], "/home/u/.ssh/id_rsa"));
    assert!(id_rsa().refresh_link_from(None, TargetState::Absent).is_empty());
}

#[test]
fn refresh_of_absent_link_creates_it() {
    let steps = id_rsa().refresh_link_from(Some("/w/dev/default".to_string()), TargetState::Absent);
    assert_eq!(steps.len(), 1);
    assert!(is_create(&steps[0], "/w/dev/default/id_rsa", "/home/u/.ssh/id_rsa"));
}

#[test]
fn link_follows_environment_then_default_then_nothing() {
    let config = dev_work();
    let file = id_rsa();
    let first = config.update_link("/w", &file, probe(true, false, TargetState::Absent)).unwrap();
    assert_eq!(first.len(), 1);
    assert!(is_create(&first[0], "/w/dev/work/id_rsa", "/home/u/.ssh/id_rsa"));
    let second = config.update_link("/w", &file, probe(false, true, TargetState::Symlink)).unwrap();
    assert_eq!(second.len(), 2);
    assert!(is_remove(&second[0], "/home/u/.ssh/id_rsa"));
    assert!(is_create(&second[1], "/w/dev/default/id_rsa", "/home/u/.ssh/id_rsa"));
    let third = config.update_link("/w", &file, probe(false, false, TargetState::Symlink)).unwrap();
    assert_eq!(third.len(), 1);
    assert!(is_remove(&third[0], "/home/u/.ssh/id_rsa"));
}

#[test]
fn missing_workspace_directory_fails() {
    let p = LinkProbe { workspace_is_dir: false, in_environment: true, in_default: true, target: TargetState::Symlink };
    assert!(matches!(dev_work().update_link("/w", &id_rsa(), p), Err(SwitchError::WorkspaceDirMissing)));
}

#[test]
fn directories_of_a_selection() {
    let config = dev_work();
    assert_eq!(config.workspace_dir("/w"), "/w/dev");
    assert_eq!(config.environment_dir("/w"), "/w/dev/work");
    assert_eq!(config.default_dir("/w"), "/w/dev/default");
}

#[test]
fn paths_are_joined_with_one_slash() {
    assert_eq!(join_path("/home/u", ".ssh"), "/home/u/.ssh");
    assert_eq!(workspace_root("/home/u"), "/home/u/workspace");
    assert_eq!(workspace_record_path("/home/u/workspace"), "/home/u/workspace/current/wsp");
    assert_eq!(environment_record_path("/home/u/workspace"), "/home/u/workspace/current/env");
    assert_eq!(id_rsa().target_link(), "/home/u/.ssh/id_rsa");
}

#[test]
fn managed_files_table() {
    let files = managed_files("/home/u");
    let pairs: Vec<(&str, &str)> =
        files.iter().map(|f| (f.target_path.as_str(), f.file_name.as_str())).collect();
    assert_eq!(
        pairs,
        vec![
            ("/home/u", ".gitconfig"),
            ("/home/u/.ssh", "id_rsa"),
            ("/home/u/.ssh", "id_rsa.pub"),
            ("/home/u", ".gnupg"),
            ("/home/u", ".password-store"),
            ("/home/u/.config", "snipets"),
        ]
    );
}

#[test]
fn home_directory_is_never_empty() {
    match locate_home() {
        Ok(home) => assert!(!home.is_empty()),
        Err(e) => assert_eq!(e, SwitchError::HomeDirUnavailable),
    }
}
