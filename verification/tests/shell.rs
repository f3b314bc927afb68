use messenger_shell::config::{get_server_url, main_window_label_text, window_title_text};
use messenger_shell::startup::{
    next_state, plan_setup, run_loop_result, FatalError, ShellState, StartupAction,
};

#[test]
fn server_url_is_fixed() {
    assert_eq!(get_server_url(), "https://my-messenger-9g2n.onrender.com");
}

#[test]
fn server_url_is_idempotent() {
    let first = get_server_url();
    let second = get_server_url();
    let third = get_server_url();
    assert_eq!(first, second);
    assert_eq!(second, third);
}

#[test]
fn window_title_is_fixed() {
    assert_eq!(window_title_text(), "My Messenger");
}

#[test]
fn main_window_label_is_fixed() {
    assert_eq!(main_window_label_text(), "main");
}

#[test]
fn release_plan_sets_title_then_logs() {
    let acts = plan_setup(true, false).unwrap();
    assert_eq!(acts.len(), 3);
    assert_eq!(acts[0], StartupAction::SetTitle("My Messenger".to_string()));
    assert_eq!(
        acts[1],
        StartupAction::Log("My Messenger starting...".to_string())
    );
    assert_eq!(
        acts[2],
        StartupAction::Log("Connecting to: https://my-messenger-9g2n.onrender.com".to_string())
    );
}

#[test]
fn debug_plan_opens_devtools_exactly_once() {
    let acts = plan_setup(true, true).unwrap();
    assert_eq!(acts.len(), 4);
    assert_eq!(acts[1], StartupAction::OpenDevtools);
    let opened = acts
        .iter()
        .filter(|a| matches!(a, StartupAction::OpenDevtools))
        .count();
    assert_eq!(opened, 1);
}

#[test]
fn release_plan_never_opens_devtools() {
    let acts = plan_setup(true, false).unwrap();
    assert!(acts
        .iter()
        .all(|a| !matches!(a, StartupAction::OpenDevtools)));
}

#[test]
fn missing_window_is_fatal_in_debug_and_release() {
    assert_eq!(plan_setup(false, true), Err(FatalError::MainWindowNotFound));
    assert_eq!(plan_setup(false, false), Err(FatalError::MainWindowNotFound));
}

#[test]
fn failed_setup_never_reaches_the_run_loop() {
    let r = next_state(ShellState::Starting, false);
    assert_eq!(r, Err(FatalError::MainWindowNotFound));
}

#[test]
fn successful_setup_enters_running_and_stays_there() {
    assert_eq!(
        next_state(ShellState::Starting, true),
        Ok(ShellState::Running)
    );
    assert_eq!(
        next_state(ShellState::Running, true),
        Ok(ShellState::Running)
    );
    assert_eq!(
        next_state(ShellState::Running, false),
        Ok(ShellState::Running)
    );
}

#[test]
fn startup_log_contains_server_url_verbatim() {
    let acts = plan_setup(true, false).unwrap();
    let url = get_server_url();
    let found = acts.iter().any(|a| match a {
        StartupAction::Log(l) => l.contains(url.as_str()),
        _ => false,
    });
    assert!(found);
}

#[test]
fn run_loop_failure_is_fatal() {
    assert_eq!(run_loop_result(true), Ok(()));
    assert_eq!(run_loop_result(false), Err(FatalError::RunLoopFailed));
}

#[test]
fn fatal_errors_carry_diagnostics_and_nonzero_exit() {
    let missing = FatalError::MainWindowNotFound;
    assert_eq!(missing.message(), "fatal: main window not found during setup");
    assert_ne!(missing.exit_code(), 0);
    let run = FatalError::RunLoopFailed;
    assert_eq!(run.message(), "fatal: error while running the application");
    assert_ne!(run.exit_code(), 0);
}

#[test]
fn release_launch_scenario() {
    // Launch in release configuration: setup resolves the window, sets the
    // fixed title, and the shell enters the run loop; the bridged accessor
    // returns the configured constant with no error.
    let acts = plan_setup(true, false).unwrap();
    assert_eq!(acts[0], StartupAction::SetTitle("My Messenger".to_string()));
    assert_eq!(
        next_state(ShellState::Starting, true),
        Ok(ShellState::Running)
    );
    assert_eq!(get_server_url(), "https://my-messenger-9g2n.onrender.com");
}
