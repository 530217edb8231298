use shell_controller::tray::{
    build_menu, on_menu_event, Action, MenuEntry, MenuItem, QUIT_EXIT_CODE, QUIT_ID, SHOW_ID,
};
use shell_controller::window::WindowOp;

#[test]
fn menu_is_show_separator_quit() {
    assert_eq!(
        build_menu(),
        vec![
            MenuEntry::Item(MenuItem::Show),
            MenuEntry::Separator,
            MenuEntry::Item(MenuItem::Quit),
        ]
    );
}

#[test]
fn menu_is_the_same_on_every_call() {
    assert_eq!(build_menu(), build_menu());
    let first = build_menu();
    let _ = build_menu();
    assert_eq!(first, build_menu());
}

#[test]
fn menu_item_ids_and_labels() {
    assert_eq!(MenuItem::Show.id(), "show");
    assert_eq!(MenuItem::Show.label(), "Open Dashboard");
    assert_eq!(MenuItem::Quit.id(), "quit");
    assert_eq!(MenuItem::Quit.label(), "Quit");
    assert_eq!(SHOW_ID, "show");
    assert_eq!(QUIT_ID, "quit");
}

#[test]
fn menu_ids_in_order() {
    let ids: Vec<Option<&str>> = build_menu()
        .iter()
        .map(|entry| match entry {
            MenuEntry::Item(item) => Some(item.id()),
            MenuEntry::Separator => None,
        })
        .collect();
    assert_eq!(ids, vec![Some("show"), None, Some("quit")]);
}

#[test]
fn show_event_asks_for_the_window() {
    assert_eq!(on_menu_event("show"), Action::ShowAndFocusMainWindow);
}

#[test]
fn quit_event_terminates_with_code_zero() {
    assert_eq!(on_menu_event("quit"), Action::TerminateProcess { code: 0 });
    assert_eq!(QUIT_EXIT_CODE, 0);
}

#[test]
fn unknown_event_does_nothing() {
    assert_eq!(on_menu_event("settings"), Action::NoOp);
}

#[test]
fn near_misses_do_nothing() {
    for id in [
        "", "s", "sho", "shows", "show ", " show", "Show", "SHOW", "shoW", "qui", "quit\n",
        "Quit", "quiT", "tiuq", "wohs", "show\0", "sh\u{f6}w", "шоу!", "退出", "quit quit",
    ] {
        assert_eq!(on_menu_event(id), Action::NoOp, "id {id:?}");
    }
}

#[test]
fn same_length_ids_are_told_apart() {
    assert_eq!(on_menu_event("shot"), Action::NoOp);
    assert_eq!(on_menu_event("quip"), Action::NoOp);
    assert_eq!(on_menu_event("ähow"), Action::NoOp);
}

#[test]
fn every_menu_item_reaches_an_action_through_its_id() {
    assert_eq!(on_menu_event(MenuItem::Show.id()), Action::ShowAndFocusMainWindow);
    assert_eq!(on_menu_event(MenuItem::Quit.id()), Action::TerminateProcess { code: 0 });
}

#[test]
fn long_unknown_id_is_tolerated() {
    let id = "show".repeat(10_000);
    assert_eq!(on_menu_event(&id), Action::NoOp);
}

#[test]
fn show_and_focus_shows_then_focuses() {
    assert_eq!(
        Action::ShowAndFocusMainWindow.operations(),
        vec![WindowOp::Show, WindowOp::Focus]
    );
}

#[test]
fn other_actions_leave_the_window_alone() {
    assert_eq!(Action::NoOp.operations(), Vec::<WindowOp>::new());
    assert_eq!(Action::TerminateProcess { code: 0 }.operations(), Vec::<WindowOp>::new());
}
