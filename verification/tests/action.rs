use crownpositor::input::shortcuts::action::{Action, ParseActionError, WorkspaceRef};

fn parse(s: &str) -> Action {
    match Action::parse(s) {
        Ok(action) => action,
        Err(err) => panic!("`{s}` failed to parse: {}", err.message()),
    }
}

#[test]
fn parses_bare_actions() {
    assert_eq!(parse("quit"), Action::Quit);
    assert_eq!(parse("close-window"), Action::CloseWindow);
    assert_eq!(parse("toggle-fullscreen"), Action::ToggleFullscreen);
}

#[test]
fn spawn_collects_argv() {
    assert_eq!(
        parse("spawn foot -e nvim"),
        Action::Spawn(vec!["foot".into(), "-e".into(), "nvim".into()])
    );
}

#[test]
fn spawn_without_a_program_is_an_error() {
    assert!(Action::parse("spawn").is_err());
}

#[test]
fn switch_vt_takes_a_number() {
    assert_eq!(parse("switch-vt 3"), Action::SwitchVt(3));
    assert!(Action::parse("switch-vt").is_err());
    assert!(Action::parse("switch-vt tty3").is_err());
}

#[test]
fn absolute_and_relative_workspaces_differ() {
    assert_eq!(parse("workspace 3"), Action::Workspace(WorkspaceRef::Index(3)));
    assert_eq!(parse("workspace +1"), Action::Workspace(WorkspaceRef::Relative(1)));
    assert_eq!(parse("workspace -2"), Action::Workspace(WorkspaceRef::Relative(-2)));
    assert_eq!(parse("workspace prev"), Action::Workspace(WorkspaceRef::Previous));
}

#[test]
fn follow_is_opt_in() {
    assert_eq!(
        parse("move-to-workspace 0"),
        Action::MoveWindowToWorkspace { target: WorkspaceRef::Index(0), follow: false }
    );
    assert_eq!(
        parse("move-to-workspace 0 follow"),
        Action::MoveWindowToWorkspace { target: WorkspaceRef::Index(0), follow: true }
    );
}

#[test]
fn errors_name_the_offending_token() {
    let err = Action::parse("focus sideways").unwrap_err();
    assert_eq!(err.message(), "invalid direction `sideways`");

    let err = Action::parse("frobnicate").unwrap_err();
    assert_eq!(err.message(), "unknown action `frobnicate`");

    let err = Action::parse("focus").unwrap_err();
    assert_eq!(err.message(), "`focus` needs a direction");
}

#[test]
fn an_empty_action_is_an_error() {
    let err = Action::parse("   ").unwrap_err();
    assert_eq!(err.message(), "empty action");
}

#[test]
fn only_the_words_of_an_action_matter() {
    assert_eq!(Action::parse(" \tspawn   foot\n -e  nvim "), Action::parse("spawn foot -e nvim"));
    assert_eq!(Action::parse("  workspace \t 3 "), Action::parse("workspace 3"));
    assert_eq!(Action::parse(" frobnicate  now"), Action::parse("frobnicate now"));
}

#[test]
fn blank_input_is_empty() {
    assert_eq!(Action::parse(""), Err(ParseActionError::Empty));
    assert_eq!(Action::parse(" \t\n "), Err(ParseActionError::Empty));
}
