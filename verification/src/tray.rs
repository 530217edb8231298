//! The tray menu: its items, their order, and what activating one means.

use vstd::prelude::*;
use vstd::string::StrSliceExecFns;
use crate::window::WindowOp;

verus! {

/// Id under which activations of the "open" item arrive.
pub const SHOW_ID: &'static str = "show";

/// Id under which activations of the "quit" item arrive.
pub const QUIT_ID: &'static str = "quit";

/// Text the user sees on the "open" item.
pub const SHOW_LABEL: &'static str = "Open Dashboard";

/// Text the user sees on the "quit" item.
pub const QUIT_LABEL: &'static str = "Quit";

/// Exit code of a process that the user quit from the tray.
pub const QUIT_EXIT_CODE: i32 = 0;

/// An item of the tray menu that the user can activate.
#[derive(Clone, Copy, Debug, PartialEq, Eq, Structural)]
pub enum MenuItem {
    Show,
    Quit,
}

/// One line of the tray menu.
#[derive(Clone, Copy, Debug, PartialEq, Eq, Structural)]
pub enum MenuEntry {
    Item(MenuItem),
    Separator,
}

/// What the shell does in answer to a tray menu event.
#[derive(Clone, Copy, Debug, PartialEq, Eq, Structural)]
pub enum Action {
    /// Bring the main window up: show it, then ask for focus.
    ShowAndFocusMainWindow,
    /// End the process with the given exit code.
    TerminateProcess { code: i32 },
    /// Leave everything as it is.
    NoOp,
}

impl MenuItem {
    /// The id of the item, as events carry it.
    pub open spec fn id_text(self) -> Seq<char> {
        match self {
            MenuItem::Show => SHOW_ID@,
            MenuItem::Quit => QUIT_ID@,
        }
    }

    /// The label of the item.
    pub open spec fn label_text(self) -> Seq<char> {
        match self {
            MenuItem::Show => SHOW_LABEL@,
            MenuItem::Quit => QUIT_LABEL@,
        }
    }

    /// What activating the item does.
    pub open spec fn action(self) -> Action {
        match self {
            MenuItem::Show => Action::ShowAndFocusMainWindow,
            MenuItem::Quit => Action::TerminateProcess { code: QUIT_EXIT_CODE },
        }
    }

    /// The id of the item, as events carry it.
    pub fn id(&self) -> (text: &'static str)
        ensures
            text@ == self.id_text(),
    {
        match self {
            MenuItem::Show => SHOW_ID,
            MenuItem::Quit => QUIT_ID,
        }
    }

    /// The label of the item.
    pub fn label(&self) -> (text: &'static str)
        ensures
            text@ == self.label_text(),
    {
        match self {
            MenuItem::Show => SHOW_LABEL,
            MenuItem::Quit => QUIT_LABEL,
        }
    }
}

/// The tray menu, top to bottom.
pub open spec fn menu_layout() -> Seq<MenuEntry> {
    seq![
        MenuEntry::Item(MenuItem::Show),
        MenuEntry::Separator,
        MenuEntry::Item(MenuItem::Quit),
    ]
}

/// Builds the tray menu: the "open" item, a separator, the "quit" item, in
/// that order. Every call gives the same menu.
pub fn build_menu() -> (menu: Vec<MenuEntry>)
    ensures
        menu@ == menu_layout(),
{
    let mut menu: Vec<MenuEntry> = Vec::new();
    menu.push(MenuEntry::Item(MenuItem::Show));
    menu.push(MenuEntry::Separator);
    menu.push(MenuEntry::Item(MenuItem::Quit));
    assert(menu@ =~= menu_layout());
    menu
}

/// The action that an event id stands for: that of the item with this id,
/// and nothing for an id that no item has.
pub open spec fn action_for(id: Seq<char>) -> Action {
    if id == MenuItem::Show.id_text() {
        MenuItem::Show.action()
    } else if id == MenuItem::Quit.id_text() {
        MenuItem::Quit.action()
    } else {
        Action::NoOp
    }
}

/// Whether two texts hold the same characters.
fn same_text(left: &str, right: &str) -> (same: bool)
    ensures
        same == (left@ == right@),
{
    let count: usize = left.unicode_len();
    if count != right.unicode_len() {
        return false;
    }
    let mut at: usize = 0;
    while at < count
        invariant
            at <= count,
            count == left@.len(),
            count == right@.len(),
            forall|k: int| 0 <= k < at ==> left@[k] == right@[k],
        decreases count - at,
    {
        if left.get_char(at) != right.get_char(at) {
            return false;
        }
        at += 1;
    }
    assert(left@ =~= right@);
    true
}

/// Maps the id of a tray menu event to the action it asks for. An id that
/// belongs to no item is tolerated and asks for nothing.
pub fn on_menu_event(id: &str) -> (action: Action)
    ensures
        action == action_for(id@),
{
    if same_text(id, SHOW_ID) {
        Action::ShowAndFocusMainWindow
    } else if same_text(id, QUIT_ID) {
        Action::TerminateProcess { code: QUIT_EXIT_CODE }
    } else {
        Action::NoOp
    }
}

impl Action {
    /// The requests that the action makes of the main window, in order.
    pub open spec fn window_ops(self) -> Seq<WindowOp> {
        match self {
            Action::ShowAndFocusMainWindow => seq![WindowOp::Show, WindowOp::Focus],
            _ => Seq::empty(),
        }
    }

    /// The requests that the action makes of the main window, in the order
    /// in which the host is to carry them out.
    pub fn operations(&self) -> (ops: Vec<WindowOp>)
        ensures
            ops@ == self.window_ops(),
    {
        let mut ops: Vec<WindowOp> = Vec::new();
        match self {
            Action::ShowAndFocusMainWindow => {
                ops.push(WindowOp::Show);
                ops.push(WindowOp::Focus);
            },
            _ => {},
        }
        assert(ops@ =~= self.window_ops());
        ops
    }
}

/// The menu has three lines in a fixed order: "open", a separator, "quit".
pub proof fn lemma_menu_order()
    ensures
        menu_layout().len() == 3,
        menu_layout()[0] == MenuEntry::Item(MenuItem::Show),
        menu_layout()[1] == MenuEntry::Separator,
        menu_layout()[2] == MenuEntry::Item(MenuItem::Quit),
{
}

/// The two item ids differ, so each id reaches its own action: "show" brings
/// the window up, "quit" ends the process with exit code zero, and any other
/// id does nothing.
pub proof fn lemma_menu_actions(id: Seq<char>)
    ensures
        SHOW_ID@ != QUIT_ID@,
        action_for(SHOW_ID@) == Action::ShowAndFocusMainWindow,
        action_for(QUIT_ID@) == (Action::TerminateProcess { code: 0 }),
        id != SHOW_ID@ && id != QUIT_ID@ ==> action_for(id) == Action::NoOp,
        forall|item: MenuItem| action_for(item.id_text()) == #[trigger] item.action(),
{
    reveal_strlit("show");
    reveal_strlit("quit");
    assert(SHOW_ID@[0] != QUIT_ID@[0]);
}

} // verus!
