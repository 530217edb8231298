//! What holds of every run of the shell, whatever the host reports and in
//! whatever order.
//!
//! A run is the sequence of things that happened to a shell that started
//! `Idle`. The theorems here say that setup keeps its order on every run:
//! the window is asked for once, the tray icon only after the window exists,
//! and no tray menu event has any effect before the tray icon exists.

use vstd::prelude::*;
use crate::shell::{reaction_to, setup_step, Command, Phase, SetupEvent};
use crate::tray::Action;
use crate::window::main_window_for;

verus! {

/// One thing that happens to the shell.
pub enum Occurrence {
    /// The host reported on setup.
    Setup(SetupEvent),
    /// A tray menu event asked for an action.
    Menu(Action),
}

/// The phase that an occurrence leaves the shell in.
pub open spec fn next_phase(phase: Phase, occurrence: Occurrence) -> Phase {
    match occurrence {
        Occurrence::Setup(event) => setup_step(phase, event).next,
        Occurrence::Menu(action) => reaction_to(phase, action).next,
    }
}

/// The phase of a shell that started `Idle` and went through `history`.
pub open spec fn phase_after(history: Seq<Occurrence>) -> Phase
    decreases history.len(),
{
    if history.len() == 0 {
        Phase::Idle
    } else {
        next_phase(phase_after(history.drop_last()), history.last())
    }
}

/// The phase in which occurrence number `at` finds the shell.
pub open spec fn phase_before(history: Seq<Occurrence>, at: int) -> Phase {
    phase_after(history.take(at))
}

/// The command given in answer to occurrence number `at`.
pub open spec fn command_at(history: Seq<Occurrence>, at: int) -> Command {
    match history[at] {
        Occurrence::Setup(event) => setup_step(phase_before(history, at), event).command,
        Occurrence::Menu(_) => Command::Nothing,
    }
}

/// The action carried out in answer to occurrence number `at`.
pub open spec fn action_at(history: Seq<Occurrence>, at: int) -> Action {
    match history[at] {
        Occurrence::Setup(_) => Action::NoOp,
        Occurrence::Menu(action) => reaction_to(phase_before(history, at), action).action,
    }
}

/// How far a phase is along the life of a shell.
pub open spec fn progress(phase: Phase) -> nat {
    match phase {
        Phase::Idle => 0,
        Phase::CreatingWindow => 1,
        Phase::CreatingTray => 2,
        Phase::Running(_) => 3,
        Phase::Exited { .. } => 4,
        Phase::Failed(_) => 5,
    }
}

proof fn lemma_phase_unfolds(history: Seq<Occurrence>, at: int)
    requires
        0 <= at < history.len(),
    ensures
        phase_before(history, at + 1) == next_phase(phase_before(history, at), history[at]),
{
    let prefix = history.take(at + 1);
    assert(prefix.drop_last() =~= history.take(at));
    assert(prefix.last() == history[at]);
}

/// A shell never goes back: no occurrence lowers its progress.
pub proof fn lemma_phases_only_advance(history: Seq<Occurrence>, from: int, to: int)
    requires
        0 <= from <= to <= history.len(),
    ensures
        progress(phase_before(history, from)) <= progress(phase_before(history, to)),
    decreases to - from,
{
    if from < to {
        lemma_phases_only_advance(history, from, to - 1);
        lemma_phase_unfolds(history, to - 1);
    }
}

proof fn lemma_how_phase_was_reached(history: Seq<Occurrence>, at: int)
    requires
        0 <= at <= history.len(),
    ensures
        phase_before(history, at) == Phase::CreatingWindow ==> exists|i: int|
            0 <= i < at && #[trigger] command_at(history, i) is CreateMainWindow,
        phase_before(history, at) == Phase::CreatingTray ==> exists|i: int|
            0 <= i < at && #[trigger] command_at(history, i) == Command::BuildTrayIcon,
        phase_before(history, at) is Running || phase_before(history, at) is Exited
            ==> exists|i: int|
            0 <= i < at && #[trigger] command_at(history, i) == Command::FinishSetup,
    decreases at,
{
    if at == 0 {
        assert(history.take(0).len() == 0);
    } else {
        lemma_how_phase_was_reached(history, at - 1);
        lemma_phase_unfolds(history, at - 1);
        let earlier = phase_before(history, at - 1);
        let now = phase_before(history, at);
        if now == Phase::CreatingWindow && earlier != now {
            assert(command_at(history, at - 1) is CreateMainWindow);
        }
        if now == Phase::CreatingTray && earlier != now {
            assert(command_at(history, at - 1) == Command::BuildTrayIcon);
        }
        if (now is Running || now is Exited) && !(earlier is Running || earlier is Exited) {
            assert(command_at(history, at - 1) == Command::FinishSetup);
        }
    }
}

/// The tray icon is asked for only in answer to the report that the window
/// was created, and only after the window was asked for.
pub proof fn theorem_window_before_tray(history: Seq<Occurrence>, at: int)
    requires
        0 <= at < history.len(),
        command_at(history, at) == Command::BuildTrayIcon,
    ensures
        history[at] == Occurrence::Setup(SetupEvent::WindowCreated),
        exists|i: int| 0 <= i < at && #[trigger] command_at(history, i) is CreateMainWindow,
{
    lemma_how_phase_was_reached(history, at);
}

/// Setup finishes only in answer to the report that the tray icon was
/// created, and only after the tray icon was asked for.
pub proof fn theorem_tray_before_finish(history: Seq<Occurrence>, at: int)
    requires
        0 <= at < history.len(),
        command_at(history, at) == Command::FinishSetup,
    ensures
        history[at] == Occurrence::Setup(SetupEvent::TrayCreated),
        exists|i: int| 0 <= i < at && #[trigger] command_at(history, i) == Command::BuildTrayIcon,
{
    lemma_how_phase_was_reached(history, at);
}

/// A tray menu event has an effect only after setup has finished: before
/// that, every event is answered with `NoOp` and changes nothing.
pub proof fn theorem_setup_before_dispatch(history: Seq<Occurrence>, at: int)
    requires
        0 <= at < history.len(),
        history[at] is Menu,
    ensures
        action_at(history, at) != Action::NoOp ==> exists|i: int|
            0 <= i < at && #[trigger] command_at(history, i) == Command::FinishSetup,
        !(phase_before(history, at) is Running) ==> {
            &&& action_at(history, at) == Action::NoOp
            &&& phase_before(history, at + 1) == phase_before(history, at)
        },
{
    lemma_how_phase_was_reached(history, at);
    lemma_phase_unfolds(history, at);
}

/// Whether two commands ask for the same step of setup.
pub open spec fn same_step(one: Command, other: Command) -> bool {
    match one {
        Command::CreateMainWindow(_) => other is CreateMainWindow,
        Command::BuildTrayIcon => other == Command::BuildTrayIcon,
        Command::FinishSetup => other == Command::FinishSetup,
        Command::Abort(_) => other is Abort,
        Command::Nothing => false,
    }
}

/// Each step of setup is asked for at most once in the life of a shell: the
/// window is created once, the tray icon is registered once, and setup
/// finishes or is abandoned once.
pub proof fn theorem_setup_steps_happen_once(history: Seq<Occurrence>, first: int, second: int)
    requires
        0 <= first < history.len(),
        0 <= second < history.len(),
        same_step(command_at(history, first), command_at(history, second)),
    ensures
        first == second,
{
    if first < second {
        lemma_phase_unfolds(history, first);
        lemma_phases_only_advance(history, first + 1, second);
    } else if second < first {
        lemma_phase_unfolds(history, second);
        lemma_phases_only_advance(history, second + 1, first);
    }
}

/// The window is only ever pointed at an endpoint whose address was found
/// to be a well-formed URL, and it is always the main window that is asked
/// for.
pub proof fn theorem_window_loads_checked_endpoint(history: Seq<Occurrence>, at: int)
    requires
        0 <= at < history.len(),
        command_at(history, at) is CreateMainWindow,
    ensures
        history[at] matches Occurrence::Setup(SetupEvent::Launched { endpoint, well_formed })
            && well_formed && command_at(history, at) == Command::CreateMainWindow(
            main_window_for(endpoint),
        ),
{
}

/// Once setup has failed, nothing is asked of the host again and no tray
/// menu event has any effect.
pub proof fn theorem_failure_is_final(history: Seq<Occurrence>, failed: int, later: int)
    requires
        0 <= failed <= later < history.len(),
        phase_before(history, failed) is Failed,
    ensures
        phase_before(history, later) == phase_before(history, failed),
        command_at(history, later) == Command::Nothing,
        action_at(history, later) == Action::NoOp,
    decreases later - failed,
{
    if failed < later {
        theorem_failure_is_final(history, failed, later - 1);
        lemma_phase_unfolds(history, later - 1);
    }
}

} // verus!
