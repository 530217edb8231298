//! The main window: what it is created with, and how its visibility moves.

use vstd::prelude::*;
use crate::endpoint::Endpoint;

verus! {

/// Name by which the one window of the shell is known.
pub const MAIN_WINDOW_LABEL: &'static str = "main";

/// Title bar text of the main window.
pub const WINDOW_TITLE: &'static str = "JOR Task Manager";

/// Initial inner width of the main window, in logical pixels.
pub const WINDOW_WIDTH: u32 = 1100;

/// Initial inner height of the main window, in logical pixels.
pub const WINDOW_HEIGHT: u32 = 750;

/// Everything the host needs to create the main window.
#[derive(Clone, Copy, Debug, PartialEq, Eq)]
pub struct WindowConfig {
    pub label: &'static str,
    pub title: &'static str,
    pub endpoint: Endpoint,
    pub width: u32,
    pub height: u32,
}

/// The main window for an endpoint: fixed name, title and size.
pub open spec fn main_window_for(endpoint: Endpoint) -> WindowConfig {
    WindowConfig {
        label: MAIN_WINDOW_LABEL,
        title: WINDOW_TITLE,
        endpoint,
        width: WINDOW_WIDTH,
        height: WINDOW_HEIGHT,
    }
}

/// Describes the main window that loads `endpoint`.
pub fn main_window(endpoint: Endpoint) -> (config: WindowConfig)
    ensures
        config == main_window_for(endpoint),
{
    WindowConfig {
        label: MAIN_WINDOW_LABEL,
        title: WINDOW_TITLE,
        endpoint,
        width: WINDOW_WIDTH,
        height: WINDOW_HEIGHT,
    }
}

/// Whether the user can see the window.
#[derive(Clone, Copy, Debug, PartialEq, Eq, Structural)]
pub enum Visibility {
    Hidden,
    Visible,
}

/// A request the shell makes of its window.
#[derive(Clone, Copy, Debug, PartialEq, Eq, Structural)]
pub enum WindowOp {
    /// Make the window visible; nothing happens if it already is.
    Show,
    /// Ask for input focus. The system may refuse, which is not an error.
    Focus,
}

impl Visibility {
    /// Visibility once `op` has been carried out.
    pub open spec fn after(self, op: WindowOp) -> Visibility {
        match op {
            WindowOp::Show => Visibility::Visible,
            WindowOp::Focus => self,
        }
    }

    /// Visibility once every request of `ops` has been carried out in order.
    pub open spec fn after_all(self, ops: Seq<WindowOp>) -> Visibility
        decreases ops.len(),
    {
        if ops.len() == 0 {
            self
        } else {
            self.after_all(ops.drop_last()).after(ops.last())
        }
    }

    /// Visibility once `op` has been carried out.
    pub fn apply(self, op: WindowOp) -> (next: Visibility)
        ensures
            next == self.after(op),
    {
        match op {
            WindowOp::Show => Visibility::Visible,
            WindowOp::Focus => self,
        }
    }
}

/// No request ever hides the window: once visible, it stays visible through
/// any sequence of requests.
pub proof fn lemma_visible_stays_visible(ops: Seq<WindowOp>)
    ensures
        Visibility::Visible.after_all(ops) == Visibility::Visible,
    decreases ops.len(),
{
    if ops.len() > 0 {
        lemma_visible_stays_visible(ops.drop_last());
    }
}

} // verus!
