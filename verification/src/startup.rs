//! The startup logic of the shell: the plan of effects that setup performs,
//! the two fatal conditions, and the two-state run machine.

use vstd::prelude::*;
use crate::config::{server_url, window_title};

verus! {

/// One effect that the host framework must perform during setup, in order.
#[derive(Debug, Clone, PartialEq, Eq)]
pub enum StartupAction {
    /// Set the application window's title to the given string.
    SetTitle(String),
    /// Open the embedded developer-tools panel.
    OpenDevtools,
    /// Print one informational line to standard output.
    Log(String),
}

/// The mathematical shape of a `StartupAction`.
pub enum ActionModel {
    SetTitleTo(Seq<char>),
    OpenDevtools,
    LogLine(Seq<char>),
}

impl View for StartupAction {
    type V = ActionModel;

    open spec fn view(&self) -> ActionModel {
        match self {
            StartupAction::SetTitle(t) => ActionModel::SetTitleTo(t@),
            StartupAction::OpenDevtools => ActionModel::OpenDevtools,
            StartupAction::Log(l) => ActionModel::LogLine(l@),
        }
    }
}

/// The only two fatal conditions of the shell. Both are unrecoverable:
/// the process reports a diagnostic and exits non-zero.
#[derive(Debug, Clone, PartialEq, Eq)]
pub enum FatalError {
    /// The primary window could not be resolved during setup.
    MainWindowNotFound,
    /// The framework's run loop reported a startup error.
    RunLoopFailed,
}

/// The first startup log line: the launch banner.
pub open spec fn banner_line() -> Seq<char> {
    "My Messenger starting..."@
}

/// The prefix of the second startup log line.
pub open spec fn connect_line_prefix() -> Seq<char> {
    "Connecting to: "@
}

/// The second startup log line: the target server address.
pub open spec fn connect_line() -> Seq<char> {
    connect_line_prefix() + server_url()
}

/// `needle` occurs verbatim somewhere inside `hay`.
pub open spec fn contains_seq(hay: Seq<char>, needle: Seq<char>) -> bool {
    exists|i: int|
        0 <= i && i + needle.len() <= hay.len() && #[trigger] hay.subrange(i, i + needle.len())
            == needle
}

/// What setup decides, as a function of the two facts the host hands in:
/// whether the primary window was resolved, and whether this is a debug
/// build. A missing window is fatal; otherwise the plan sets the title,
/// opens the developer tools in debug builds only, and logs two lines.
pub open spec fn plan_model(window_found: bool, debug: bool) -> Result<Seq<ActionModel>, FatalError> {
    if !window_found {
        Err(FatalError::MainWindowNotFound)
    } else if debug {
        Ok(
            seq![
                ActionModel::SetTitleTo(window_title()),
                ActionModel::OpenDevtools,
                ActionModel::LogLine(banner_line()),
                ActionModel::LogLine(connect_line()),
            ],
        )
    } else {
        Ok(
            seq![
                ActionModel::SetTitleTo(window_title()),
                ActionModel::LogLine(banner_line()),
                ActionModel::LogLine(connect_line()),
            ],
        )
    }
}

/// The executable plan mirrors the model action for action.
pub open spec fn plan_matches(
    r: Result<Vec<StartupAction>, FatalError>,
    m: Result<Seq<ActionModel>, FatalError>,
) -> bool {
    match r {
        Ok(acts) => m matches Ok(s) && acts@.map_values(|a: StartupAction| a@) == s,
        Err(e) => m == Err::<Seq<ActionModel>, FatalError>(e),
    }
}

/// Decides the whole setup sequence. Succeeds exactly when the primary
/// window was resolved; a missing window yields the fatal error and no
/// actions at all.
pub fn plan_setup(window_found: bool, debug: bool) -> (r: Result<Vec<StartupAction>, FatalError>)
    ensures
        r is Ok <==> window_found,
        plan_matches(r, plan_model(window_found, debug)),
{
    if !window_found {
        return Err(FatalError::MainWindowNotFound);
    }
    let mut acts: Vec<StartupAction> = Vec::new();
    acts.push(StartupAction::SetTitle(crate::config::window_title_text()));
    if debug {
        acts.push(StartupAction::OpenDevtools);
    }
    acts.push(StartupAction::Log("My Messenger starting...".to_owned()));
    let url = crate::config::get_server_url();
    let line = "Connecting to: ".to_owned().concat(url.as_str());
    acts.push(StartupAction::Log(line));
    proof {
        assert(acts@.map_values(|a: StartupAction| a@) =~= plan_model(window_found, debug)->Ok_0);
    }
    Ok(acts)
}

/// When setup completes without a fatal error, the window's title is set
/// exactly once, first of all effects, to the fixed configured string.
pub proof fn lemma_title_set_once(debug: bool)
    ensures
        ({
            let s = plan_model(true, debug)->Ok_0;
            &&& s[0] == ActionModel::SetTitleTo(window_title())
            &&& forall|i: int| 1 <= i < s.len() ==> !(#[trigger] s[i] is SetTitleTo)
        }),
{
    let s = plan_model(true, debug)->Ok_0;
    assert forall|i: int| 1 <= i < s.len() implies !(#[trigger] s[i] is SetTitleTo) by {
        if debug {
            assert(s =~= seq![
                ActionModel::SetTitleTo(window_title()),
                ActionModel::OpenDevtools,
                ActionModel::LogLine(banner_line()),
                ActionModel::LogLine(connect_line()),
            ]);
        } else {
            assert(s =~= seq![
                ActionModel::SetTitleTo(window_title()),
                ActionModel::LogLine(banner_line()),
                ActionModel::LogLine(connect_line()),
            ]);
        }
    }
}

/// In a debug build the plan opens the developer tools exactly once; in a
/// release build it never opens them.
pub proof fn lemma_devtools_policy(debug: bool)
    ensures
        ({
            let s = plan_model(true, debug)->Ok_0;
            &&& debug ==> s[1] is OpenDevtools && forall|i: int|
                0 <= i < s.len() && i != 1 ==> !(#[trigger] s[i] is OpenDevtools)
            &&& !debug ==> forall|i: int| 0 <= i < s.len() ==> !(#[trigger] s[i] is OpenDevtools)
        }),
{
    let s = plan_model(true, debug)->Ok_0;
    assert forall|i: int| 0 <= i < s.len() && (debug ==> i != 1) implies !(
    #[trigger] s[i] is OpenDevtools) by {
        if debug {
            assert(s =~= seq![
                ActionModel::SetTitleTo(window_title()),
                ActionModel::OpenDevtools,
                ActionModel::LogLine(banner_line()),
                ActionModel::LogLine(connect_line()),
            ]);
        } else {
            assert(s =~= seq![
                ActionModel::SetTitleTo(window_title()),
                ActionModel::LogLine(banner_line()),
                ActionModel::LogLine(connect_line()),
            ]);
        }
    }
}

/// A missing primary window aborts setup: the outcome is the fatal error
/// and no plan — no title, no developer tools, no log — is produced, so
/// the run loop is never entered.
pub proof fn lemma_missing_window_aborts(debug: bool)
    ensures
        plan_model(false, debug) == Err::<Seq<ActionModel>, FatalError>(
            FatalError::MainWindowNotFound,
        ),
{
}

/// The second startup log line carries the configured server URL verbatim.
pub proof fn lemma_connect_line_carries_url()
    ensures
        contains_seq(connect_line(), server_url()),
{
    let p = connect_line_prefix();
    let u = server_url();
    let i = p.len() as int;
    assert(connect_line().subrange(i, i + u.len()) =~= u);
}

/// Whenever setup completes without a fatal error, some planned log line
/// carries the configured server URL verbatim.
pub proof fn lemma_plan_logs_url(debug: bool)
    ensures
        ({
            let s = plan_model(true, debug)->Ok_0;
            exists|i: int|
                {
                    &&& 0 <= i < s.len()
                    &&& (#[trigger] s[i]) matches ActionModel::LogLine(l)
                    &&& contains_seq(l, server_url())
                }
        }),
{
    lemma_connect_line_carries_url();
    let s = plan_model(true, debug)->Ok_0;
    let last = s.len() - 1;
    assert(s[last] == ActionModel::LogLine(connect_line()));
}

/// The run state of the shell process: `Starting` until the framework's
/// setup callback has finished, `Running` from then until process exit.
#[derive(Debug, Clone, Copy, PartialEq, Eq, Structural)]
pub enum ShellState {
    Starting,
    Running,
}

/// The shell's one state transition. From `Starting`, a completed setup
/// enters the run loop; a failed setup aborts, so `Running` is never
/// reached. `Running` is terminal: nothing leads back to `Starting`.
pub fn next_state(state: ShellState, setup_ok: bool) -> (r: Result<ShellState, FatalError>)
    ensures
        state is Starting && setup_ok ==> r == Ok::<ShellState, FatalError>(ShellState::Running),
        state is Starting && !setup_ok ==> r == Err::<ShellState, FatalError>(
            FatalError::MainWindowNotFound,
        ),
        state is Running ==> r == Ok::<ShellState, FatalError>(ShellState::Running),
{
    match state {
        ShellState::Starting => {
            if setup_ok {
                Ok(ShellState::Running)
            } else {
                Err(FatalError::MainWindowNotFound)
            }
        },
        ShellState::Running => Ok(ShellState::Running),
    }
}

/// Classifies the end of the framework's run loop, which returns only on a
/// fatal startup error.
pub fn run_loop_result(framework_ok: bool) -> (r: Result<(), FatalError>)
    ensures
        r is Ok <==> framework_ok,
        !framework_ok ==> r == Err::<(), FatalError>(FatalError::RunLoopFailed),
{
    if framework_ok {
        Ok(())
    } else {
        Err(FatalError::RunLoopFailed)
    }
}

impl FatalError {
    /// The diagnostic the process prints before exiting; no UI exists at
    /// the fatal point, so the console is the only outlet.
    pub fn message(&self) -> (r: String)
        ensures
            self is MainWindowNotFound ==> r@ == "fatal: main window not found during setup"@,
            self is RunLoopFailed ==> r@ == "fatal: error while running the application"@,
    {
        match self {
            FatalError::MainWindowNotFound => "fatal: main window not found during setup".to_owned(),
            FatalError::RunLoopFailed => "fatal: error while running the application".to_owned(),
        }
    }

    /// The process exit status for a fatal error: always non-zero.
    pub fn exit_code(&self) -> (r: i32)
        ensures
            r == 1i32,
    {
        1
    }
}

} // verus!
