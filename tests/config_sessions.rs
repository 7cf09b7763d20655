use doubletime::cli::{
    Arguments, Command, ConfigCommand, ConfigEditCommand, ConfigShowCommand, ConfigSubcommand,
    LogLevel, ProjectCommand, ProjectEditCommand, ProjectShowCommand, ProjectSubcommand,
};
use doubletime::cli::{are_safeties_on, logging_level};
use doubletime::config::{config, ConfigAction, EditState, InitState, SessionAction, SessionEvent, SessionFailure, ShowState};
use doubletime::paths::{get_config_path, get_doubletime_directory_path, get_doubletime_home_directory, join, required_directories};
use doubletime::project::{execute, validate_period, ProjectAction, ProjectError};

/// Drives an edit session against a file held in memory; the editor leaves
/// `edited` and `valid` decides what parses.
fn run_edit(file: &mut String, edited: &str, valid: &dyn Fn(&str) -> bool) -> EditState {
    let (mut state, mut action) = EditState::start();
    loop {
        let event = match action {
            SessionAction::ReadConfig => SessionEvent::ReadDone(file.clone()),
            SessionAction::LaunchEditor => {
                *file = edited.to_string();
                SessionEvent::EditorExited
            }
            SessionAction::ValidateConfig(t) => {
                if valid(&t) { SessionEvent::Parsed } else { SessionEvent::ParseFailed("bad yaml".to_string()) }
            }
            SessionAction::RestoreConfig(t) => {
                *file = t;
                SessionEvent::Written
            }
            SessionAction::Finish => return state,
            other => panic!("unexpected action {:?}", other),
        };
        let next = state.step(event);
        state = next.0;
        action = next.1;
    }
}

fn parses(t: &str) -> bool {
    t.starts_with("max_hours_per_day:")
}

#[test]
fn valid_edit_is_committed() {
    let mut file = "max_hours_per_day: 8.0\nprojects: []\n".to_string();
    let state = run_edit(&mut file, "max_hours_per_day: 6.0\nprojects: []\n", &parses);
    assert!(matches!(state, EditState::Committed));
    assert_eq!(file, "max_hours_per_day: 6.0\nprojects: []\n");
}

#[test]
fn invalid_edit_is_rolled_back() {
    let original = "max_hours_per_day: 8.0\nprojects: []\n".to_string();
    let mut file = original.clone();
    let state = run_edit(&mut file, "projects: [ oops", &parses);
    assert!(matches!(state, EditState::RolledBack { reason } if reason == "bad yaml"));
    assert_eq!(file, original);
}

#[test]
fn snapshot_failure_is_fatal() {
    let (s, _) = EditState::start();
    let (s, a) = s.step(SessionEvent::IoFailed("denied".to_string()));
    assert!(matches!(s, EditState::Failed(SessionFailure::Snapshot(m)) if m == "denied"));
    assert!(matches!(a, SessionAction::Finish));
}

#[test]
fn editor_failure_is_fatal() {
    let (s, _) = EditState::start();
    let (s, _) = s.step(SessionEvent::ReadDone("x".to_string()));
    let (s, a) = s.step(SessionEvent::EditorFailed("no editor".to_string()));
    assert!(matches!(s, EditState::Failed(SessionFailure::Editor(m)) if m == "no editor"));
    assert!(matches!(a, SessionAction::Finish));
}

#[test]
fn reload_failure_restores_snapshot() {
    let (s, _) = EditState::start();
    let (s, _) = s.step(SessionEvent::ReadDone("orig".to_string()));
    let (s, _) = s.step(SessionEvent::EditorExited);
    let (s, a) = s.step(SessionEvent::IoFailed("gone".to_string()));
    assert!(matches!(a, SessionAction::RestoreConfig(t) if t == "orig"));
    let (s, a) = s.step(SessionEvent::IoFailed("read-only".to_string()));
    assert!(matches!(s, EditState::Failed(SessionFailure::Restore(m)) if m == "read-only"));
    assert!(matches!(a, SessionAction::Finish));
}

#[test]
fn out_of_order_event_fails() {
    let (s, _) = EditState::start();
    let (s, _) = s.step(SessionEvent::Parsed);
    assert!(matches!(s, EditState::Failed(SessionFailure::OutOfOrder)));
}

#[test]
fn first_run_writes_default_then_shows_it() {
    let (s, a) = InitState::start();
    assert!(matches!(a, SessionAction::EnsureDirectories));
    let (s, a) = s.step(SessionEvent::Located { config_exists: false });
    assert!(matches!(a, SessionAction::WriteDefaultConfig));
    let (s, a) = s.step(SessionEvent::Written);
    assert!(matches!(s, InitState::Ready));
    assert!(matches!(a, SessionAction::Finish));

    let (s, a) = ShowState::start();
    assert!(matches!(a, SessionAction::LocateConfig));
    let (s, a) = s.step(SessionEvent::Located { config_exists: true });
    assert!(matches!(a, SessionAction::ReadConfig));
    let (s, a) = s.step(SessionEvent::ReadDone("default".to_string()));
    assert!(matches!(a, SessionAction::ValidateConfig(t) if t == "default"));
    let (s, _) = s.step(SessionEvent::Parsed);
    assert!(matches!(s, ShowState::Shown));
}

#[test]
fn existing_config_is_not_rewritten() {
    let (s, _) = InitState::start();
    let (s, a) = s.step(SessionEvent::Located { config_exists: true });
    assert!(matches!(s, InitState::Ready));
    assert!(matches!(a, SessionAction::Finish));
}

#[test]
fn bootstrap_failures() {
    let (s, _) = InitState::start();
    let (s, _) = s.step(SessionEvent::IoFailed("perm".to_string()));
    assert!(matches!(s, InitState::Failed(SessionFailure::Provision(m)) if m == "perm"));
    let (s, _) = InitState::start();
    let (s, _) = s.step(SessionEvent::Located { config_exists: false });
    let (s, _) = s.step(SessionEvent::IoFailed("full".to_string()));
    assert!(matches!(s, InitState::Failed(SessionFailure::WriteDefault(m)) if m == "full"));
}

#[test]
fn show_missing_config_is_a_warning() {
    let (s, _) = ShowState::start();
    let (s, a) = s.step(SessionEvent::Located { config_exists: false });
    assert!(matches!(s, ShowState::Missing));
    assert!(matches!(a, SessionAction::Finish));
}

#[test]
fn show_corrupt_config_is_fatal() {
    let (s, _) = ShowState::start();
    let (s, _) = s.step(SessionEvent::Located { config_exists: true });
    let (s, _) = s.step(SessionEvent::ReadDone(":::".to_string()));
    let (s, _) = s.step(SessionEvent::ParseFailed("bad".to_string()));
    assert!(matches!(s, ShowState::Failed(SessionFailure::Corrupt(m)) if m == "bad"));
    let (s, _) = ShowState::start();
    let (s, _) = s.step(SessionEvent::Located { config_exists: true });
    let (s, _) = s.step(SessionEvent::IoFailed("eio".to_string()));
    assert!(matches!(s, ShowState::Failed(SessionFailure::Read(m)) if m == "eio"));
}

#[test]
fn config_command_dispatch() {
    assert_eq!(config(&ConfigCommand { command: Some(ConfigSubcommand::Edit(ConfigEditCommand {})) }), ConfigAction::Edit);
    assert_eq!(config(&ConfigCommand { command: Some(ConfigSubcommand::Show(ConfigShowCommand {})) }), ConfigAction::Show);
    assert_eq!(config(&ConfigCommand { command: None }), ConfigAction::Nothing);
}

#[test]
fn tool_paths() {
    assert_eq!(join("/a", "b"), "/a/b");
    assert_eq!(get_doubletime_home_directory("/home/u"), "/home/u/Doubletime");
    assert_eq!(get_doubletime_directory_path("/home/u", "Staging"), "/home/u/Doubletime/Staging");
    assert_eq!(get_config_path("/home/u"), "/home/u/Doubletime/config.yaml");
    assert_eq!(
        required_directories("/h"),
        vec!["/h/Doubletime/Staging".to_string(), "/h/Doubletime/Projects".to_string(), "/h/Doubletime".to_string()]
    );
}

#[test]
fn logging_level_priority() {
    let mk = |debug, trace, force| Arguments { debug, trace, force, command: Command::Config(ConfigCommand { command: None }) };
    assert_eq!(logging_level(&mk(true, true, false)), LogLevel::Trace);
    assert_eq!(logging_level(&mk(true, false, false)), LogLevel::Debug);
    assert_eq!(logging_level(&mk(false, false, false)), LogLevel::Info);
    assert!(!LogLevel::Info.is_verbose());
    assert!(LogLevel::Debug.is_verbose());
    assert!(are_safeties_on(&mk(false, false, false)));
    assert!(!are_safeties_on(&mk(false, false, true)));
}

#[test]
fn project_period_checks() {
    assert_eq!(validate_period("01-Oct-23", "01-Oct-24"), Ok(()));
    assert_eq!(validate_period("2023-10-01", "01-Oct-24"), Err(ProjectError::InvalidStartDate("2023-10-01".to_string())));
    assert_eq!(validate_period("01-Oct-23", "tomorrow"), Err(ProjectError::InvalidEndDate("tomorrow".to_string())));
}

#[test]
fn project_command_dispatch() {
    assert_eq!(execute(&ProjectCommand { command: Some(ProjectSubcommand::Edit(ProjectEditCommand {})) }), ProjectAction::Edit);
    assert_eq!(execute(&ProjectCommand { command: Some(ProjectSubcommand::Show(ProjectShowCommand {})) }), ProjectAction::Show);
    assert_eq!(execute(&ProjectCommand { command: None }), ProjectAction::WarnNoOption);
}
