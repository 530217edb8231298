//! The shell controller: one-time setup in a fixed order, then dispatch of
//! tray menu events.
//!
//! The controller is a state machine. The host performs the outside work
//! (creating the window, registering the tray icon, showing, focusing,
//! exiting) and reports each outcome; the functions here say what comes next.

use vstd::prelude::*;
use crate::endpoint::{parses_as_url, resolve, resolved, BuildMode, Endpoint};
use crate::tray::{action_for, lemma_menu_actions, on_menu_event, Action, QUIT_ID, SHOW_ID};
use crate::window::{main_window, main_window_for, Visibility, WindowConfig, WindowOp};

verus! {

/// Why setup was abandoned. None of these is retried.
#[derive(Clone, Copy, Debug, PartialEq, Eq, Structural)]
pub enum FatalError {
    /// The built-in address of the endpoint is not a well-formed URL.
    EndpointResolution,
    /// The system could not create the main window.
    WindowCreation,
    /// The system has no tray to put the icon in.
    TrayCreation,
}

/// Where the shell stands.
#[derive(Clone, Copy, Debug, PartialEq, Eq, Structural)]
pub enum Phase {
    /// Nothing has been asked of the system yet.
    Idle,
    /// The main window has been asked for.
    CreatingWindow,
    /// The main window exists; the tray icon has been asked for.
    CreatingTray,
    /// Setup is complete and tray menu events are acted upon.
    Running(Visibility),
    /// Setup was abandoned.
    Failed(FatalError),
    /// The user quit. Nothing happens after this.
    Exited { code: i32 },
}

/// What the host reports during setup.
#[derive(Clone, Copy, Debug, PartialEq, Eq, Structural)]
pub enum SetupEvent {
    /// The program started with this endpoint; `well_formed` says whether
    /// its address is a well-formed URL.
    Launched { endpoint: Endpoint, well_formed: bool },
    WindowCreated,
    WindowRefused,
    TrayCreated,
    TrayRefused,
}

/// What the host is to do next during setup.
#[derive(Clone, Copy, Debug, PartialEq, Eq)]
pub enum Command {
    /// Create the main window as described, then report how it went.
    CreateMainWindow(WindowConfig),
    /// Register the tray icon with the tray menu, then report how it went.
    BuildTrayIcon,
    /// Setup succeeded; from now on hand tray menu events to `dispatch`.
    FinishSetup,
    /// Give up with this error.
    Abort(FatalError),
    /// The event does not belong to the current phase; it changes nothing.
    Nothing,
}

/// Result of one setup step.
#[derive(Clone, Copy, Debug, PartialEq, Eq)]
pub struct Step {
    pub next: Phase,
    pub command: Command,
}

/// Result of one tray menu event.
#[derive(Clone, Copy, Debug, PartialEq, Eq, Structural)]
pub struct Reaction {
    pub next: Phase,
    pub action: Action,
}

/// The setup protocol: resolve the endpoint, create the window, register
/// the tray icon, then run. A failure at any point ends setup for good, and
/// an event that does not belong to the current phase is ignored.
pub open spec fn setup_step(phase: Phase, event: SetupEvent) -> Step {
    match (phase, event) {
        (Phase::Idle, SetupEvent::Launched { endpoint, well_formed }) => if well_formed {
            Step {
                next: Phase::CreatingWindow,
                command: Command::CreateMainWindow(main_window_for(endpoint)),
            }
        } else {
            Step {
                next: Phase::Failed(FatalError::EndpointResolution),
                command: Command::Abort(FatalError::EndpointResolution),
            }
        },
        (Phase::CreatingWindow, SetupEvent::WindowCreated) => Step {
            next: Phase::CreatingTray,
            command: Command::BuildTrayIcon,
        },
        (Phase::CreatingWindow, SetupEvent::WindowRefused) => Step {
            next: Phase::Failed(FatalError::WindowCreation),
            command: Command::Abort(FatalError::WindowCreation),
        },
        (Phase::CreatingTray, SetupEvent::TrayCreated) => Step {
            next: Phase::Running(Visibility::Visible),
            command: Command::FinishSetup,
        },
        (Phase::CreatingTray, SetupEvent::TrayRefused) => Step {
            next: Phase::Failed(FatalError::TrayCreation),
            command: Command::Abort(FatalError::TrayCreation),
        },
        _ => Step { next: phase, command: Command::Nothing },
    }
}

/// What an action does to a shell: outside `Running` nothing at all; while
/// running, termination ends it with the action's exit code, and anything
/// else applies the action's window requests.
pub open spec fn reaction_to(phase: Phase, action: Action) -> Reaction {
    match phase {
        Phase::Running(visibility) => Reaction {
            next: match action {
                Action::TerminateProcess { code } => Phase::Exited { code },
                _ => Phase::Running(visibility.after_all(action.window_ops())),
            },
            action,
        },
        _ => Reaction { next: phase, action: Action::NoOp },
    }
}

/// The outcome of setup, once there is one: success when the shell runs (or
/// ran), the error when it was abandoned.
pub open spec fn setup_outcome(phase: Phase) -> Option<Result<(), FatalError>> {
    match phase {
        Phase::Running(_) | Phase::Exited { .. } => Some(Ok(())),
        Phase::Failed(error) => Some(Err(error)),
        _ => None,
    }
}

/// Showing and focusing always ends with a visible window: a hidden window
/// is shown, a visible one stays visible, and doing it again changes nothing.
pub proof fn lemma_show_and_focus_ends_visible(visibility: Visibility)
    ensures
        visibility.after_all(Action::ShowAndFocusMainWindow.window_ops()) == Visibility::Visible,
        reaction_to(Phase::Running(visibility), Action::ShowAndFocusMainWindow).next
            == Phase::Running(Visibility::Visible),
        reaction_to(
            reaction_to(Phase::Running(visibility), Action::ShowAndFocusMainWindow).next,
            Action::ShowAndFocusMainWindow,
        ) == reaction_to(Phase::Running(visibility), Action::ShowAndFocusMainWindow),
{
    let ops = Action::ShowAndFocusMainWindow.window_ops();
    assert(ops.drop_last() =~= seq![WindowOp::Show]);
    assert(ops.drop_last().drop_last() =~= Seq::<WindowOp>::empty());
    reveal_with_fuel(Visibility::after_all, 3);
    assert(Visibility::Hidden.after_all(ops) == Visibility::Visible);
    assert(Visibility::Visible.after_all(ops) == Visibility::Visible);
}

/// What the known and unknown ids do to a running shell, whatever the
/// window's visibility: "show" leaves it visible, "quit" ends it with exit
/// code zero, and an id that no menu item has changes nothing.
pub proof fn lemma_dispatch_outcomes(visibility: Visibility, id: Seq<char>)
    ensures
        reaction_to(Phase::Running(visibility), action_for(SHOW_ID@)) == (Reaction {
            next: Phase::Running(Visibility::Visible),
            action: Action::ShowAndFocusMainWindow,
        }),
        reaction_to(Phase::Running(visibility), action_for(QUIT_ID@)) == (Reaction {
            next: Phase::Exited { code: 0 },
            action: Action::TerminateProcess { code: 0 },
        }),
        id != SHOW_ID@ && id != QUIT_ID@ ==> reaction_to(
            Phase::Running(visibility),
            action_for(id),
        ) == (Reaction { next: Phase::Running(visibility), action: Action::NoOp }),
{
    lemma_menu_actions(id);
    lemma_show_and_focus_ends_visible(visibility);
}

/// Takes one setup step from `phase` on `event`.
pub fn advance(phase: Phase, event: SetupEvent) -> (step: Step)
    ensures
        step == setup_step(phase, event),
{
    match (phase, event) {
        (Phase::Idle, SetupEvent::Launched { endpoint, well_formed }) => {
            if well_formed {
                Step {
                    next: Phase::CreatingWindow,
                    command: Command::CreateMainWindow(main_window(endpoint)),
                }
            } else {
                Step {
                    next: Phase::Failed(FatalError::EndpointResolution),
                    command: Command::Abort(FatalError::EndpointResolution),
                }
            }
        },
        (Phase::CreatingWindow, SetupEvent::WindowCreated) => Step {
            next: Phase::CreatingTray,
            command: Command::BuildTrayIcon,
        },
        (Phase::CreatingWindow, SetupEvent::WindowRefused) => Step {
            next: Phase::Failed(FatalError::WindowCreation),
            command: Command::Abort(FatalError::WindowCreation),
        },
        (Phase::CreatingTray, SetupEvent::TrayCreated) => Step {
            next: Phase::Running(Visibility::Visible),
            command: Command::FinishSetup,
        },
        (Phase::CreatingTray, SetupEvent::TrayRefused) => Step {
            next: Phase::Failed(FatalError::TrayCreation),
            command: Command::Abort(FatalError::TrayCreation),
        },
        _ => Step { next: phase, command: Command::Nothing },
    }
}

/// Starts setup for a build mode: resolves the endpoint, checks that its
/// address is a well-formed URL, and takes the first step from `Idle`.
pub fn launch(mode: BuildMode) -> (step: Step)
    ensures
        step == setup_step(
            Phase::Idle,
            (SetupEvent::Launched {
                endpoint: resolved(mode),
                well_formed: parses_as_url(resolved(mode).url_text()),
            }),
        ),
{
    let endpoint: Endpoint = resolve(mode);
    let well_formed: bool = endpoint.is_well_formed();
    advance(Phase::Idle, SetupEvent::Launched { endpoint, well_formed })
}

/// Applies an action to the shell and says what the host is to carry out.
pub fn react(phase: Phase, action: Action) -> (reaction: Reaction)
    ensures
        reaction == reaction_to(phase, action),
{
    match phase {
        Phase::Running(visibility) => {
            let next: Phase = match action {
                Action::TerminateProcess { code } => Phase::Exited { code },
                Action::ShowAndFocusMainWindow => {
                    proof {
                        lemma_show_and_focus_ends_visible(visibility);
                    }
                    Phase::Running(Visibility::Visible)
                },
                Action::NoOp => Phase::Running(visibility),
            };
            Reaction { next, action }
        },
        _ => Reaction { next: phase, action: Action::NoOp },
    }
}

/// Handles the tray menu event with the given id.
pub fn dispatch(phase: Phase, id: &str) -> (reaction: Reaction)
    ensures
        reaction == reaction_to(phase, action_for(id@)),
{
    react(phase, on_menu_event(id))
}

/// The outcome of setup, once there is one.
pub fn setup_result(phase: Phase) -> (outcome: Option<Result<(), FatalError>>)
    ensures
        outcome == setup_outcome(phase),
{
    match phase {
        Phase::Running(_) | Phase::Exited { .. } => Some(Ok(())),
        Phase::Failed(error) => Some(Err(error)),
        _ => None,
    }
}

} // verus!
