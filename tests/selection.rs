use workspace_switcher::command::{parse_command, Command};
use workspace_switcher::error::SwitchError;
use workspace_switcher::persist::RecordWrite;
use workspace_switcher::selection::{cycle_next, Snapshot, WorkspaceConfig};

fn names(items: &[&str]) -> Vec<String> {
    items.iter().map(|s| s.to_string()).collect()
}

fn sample(current_workspace: usize, current_environment: usize) -> Snapshot {
    Snapshot {
        current_workspace,
        current_environment,
        workspace_list: names(&["dev", "prod"]),
        environment_lists: vec![names(&["home", "work"]), names(&["cloud", "lab", "office"])],
    }
}

#[test]
fn cycle_next_advances_and_wraps() {
    assert_eq!(cycle_next(0, 3), 1);
    assert_eq!(cycle_next(1, 3), 2);
    assert_eq!(cycle_next(2, 3), 0);
    assert_eq!(cycle_next(0, 1), 0);
}

#[test]
fn toggle_workspace_selects_next_and_first_environment() {
    let config = sample(0, 0).nextw();
    assert_eq!(config.main_dir, "prod");
    assert_eq!(config.env_dir, "cloud");
}

#[test]
fn toggle_workspace_resets_environment_from_any_index() {
    let config = sample(0, 1).nextw();
    assert_eq!(config.main_dir, "prod");
    assert_eq!(config.env_dir, "cloud");
}

#[test]
fn toggle_workspace_wraps_from_last() {
    let config = sample(1, 2).nextw();
    assert_eq!(config.main_dir, "dev");
    assert_eq!(config.env_dir, "home");
}

#[test]
fn toggle_workspace_with_one_workspace_keeps_it() {
    let snapshot = Snapshot {
        current_workspace: 0,
        current_environment: 1,
        workspace_list: names(&["dev"]),
        environment_lists: vec![names(&["home", "work"])],
    };
    let config = snapshot.nextw();
    assert_eq!(config.main_dir, "dev");
    assert_eq!(config.env_dir, "home");
}

#[test]
fn toggle_environment_wraps_to_first() {
    let config = sample(0, 1).nexte();
    assert_eq!(config.main_dir, "dev");
    assert_eq!(config.env_dir, "home");
}

#[test]
fn toggle_environment_advances() {
    let config = sample(1, 0).nexte();
    assert_eq!(config.main_dir, "prod");
    assert_eq!(config.env_dir, "lab");
}

#[test]
fn toggle_environment_with_one_environment_keeps_it() {
    let snapshot = Snapshot {
        current_workspace: 0,
        current_environment: 0,
        workspace_list: names(&["dev"]),
        environment_lists: vec![names(&["home"])],
    };
    let config = snapshot.nexte();
    assert_eq!(config.env_dir, "home");
}

#[test]
fn current_is_the_persisted_selection() {
    let config = sample(1, 2).current();
    assert_eq!(config.main_dir, "prod");
    assert_eq!(config.env_dir, "office");
}

#[test]
fn records_are_trimmed_and_located() {
    let snapshot = Snapshot::from_records(
        "  prod\n",
        "lab\n",
        names(&["dev", "prod"]),
        vec![names(&["home", "work"]), names(&["cloud", "lab", "office"])],
    )
    .unwrap();
    assert_eq!(snapshot.current_workspace, 1);
    assert_eq!(snapshot.current_environment, 1);
}

#[test]
fn unknown_workspace_fails() {
    let r = Snapshot::from_records(
        "stage",
        "home",
        names(&["dev", "prod"]),
        vec![names(&["home"]), names(&["cloud"])],
    );
    assert!(matches!(r, Err(SwitchError::WorkspaceNotFound)));
}

#[test]
fn unknown_environment_fails() {
    let r = Snapshot::from_records(
        "prod",
        "home",
        names(&["dev", "prod"]),
        vec![names(&["home"]), names(&["cloud"])],
    );
    assert!(matches!(r, Err(SwitchError::EnvironmentNotFound)));
}

#[test]
fn written_selection_reads_back() {
    let config = WorkspaceConfig { main_dir: "prod".to_string(), env_dir: "office".to_string() };
    let records: Vec<RecordWrite> = config.write("/home/u/workspace");
    assert_eq!(records.len(), 2);
    assert_eq!(records[0].path, "/home/u/workspace/current/wsp");
    assert_eq!(records[0].contents, "prod");
    assert_eq!(records[1].path, "/home/u/workspace/current/env");
    assert_eq!(records[1].contents, "office");
    let snapshot = Snapshot::from_records(
        &records[0].contents,
        &records[1].contents,
        names(&["dev", "prod"]),
        vec![names(&["home", "work"]), names(&["cloud", "lab", "office"])],
    )
    .unwrap();
    let back = snapshot.current();
    assert_eq!(back.main_dir, config.main_dir);
    assert_eq!(back.env_dir, config.env_dir);
}

#[test]
fn commands_are_parsed() {
    assert_eq!(parse_command("togglew"), Command::ToggleWorkspace);
    assert_eq!(parse_command("togglee"), Command::ToggleEnvironment);
    assert_eq!(parse_command("show"), Command::Show);
    assert_eq!(parse_command("anything"), Command::Show);
    assert!(Command::ToggleWorkspace.changes_selection());
    assert!(Command::ToggleEnvironment.changes_selection());
    assert!(!Command::Show.changes_selection());
}

#[test]
fn target_follows_the_command() {
    let snapshot = sample(0, 1);
    let w = snapshot.target(Command::ToggleWorkspace).unwrap();
    assert_eq!((w.main_dir.as_str(), w.env_dir.as_str()), ("prod", "cloud"));
    let e = snapshot.target(Command::ToggleEnvironment).unwrap();
    assert_eq!((e.main_dir.as_str(), e.env_dir.as_str()), ("dev", "home"));
    let s = snapshot.target(Command::Show).unwrap();
    assert_eq!((s.main_dir.as_str(), s.env_dir.as_str()), ("dev", "work"));
}

#[test]
fn target_of_workspace_without_environments_is_none() {
    let snapshot = Snapshot {
        current_workspace: 0,
        current_environment: 0,
        workspace_list: names(&["dev", "prod"]),
        environment_lists: vec![names(&["home"]), Vec::new()],
    };
    assert!(snapshot.target(Command::ToggleWorkspace).is_none());
}

#[test]
fn selection_line_is_bracketed() {
    let config = WorkspaceConfig { main_dir: "dev".to_string(), env_dir: "work".to_string() };
    assert_eq!(config.describe(), "[dev] - [work]");
}
