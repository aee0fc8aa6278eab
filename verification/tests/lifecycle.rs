use input_bridge::lifecycle::{
    menu_choice, menu_on_left_click, tray_menu, ButtonPhase, Controller, MenuChoice,
    PointerButton, Process, Signal, TrayEvent, Visibility, WindowAction,
};

fn left_up() -> TrayEvent {
    TrayEvent::Click { button: PointerButton::Left, phase: ButtonPhase::Up }
}

fn hidden() -> Controller {
    Controller { window: Visibility::Hidden, process: Process::Running }
}

#[test]
fn launch_state_is_visible_and_running() {
    let state = Controller::new();
    assert_eq!(state.window, Visibility::Visible);
    assert_eq!(state.process, Process::Running);
}

#[test]
fn close_request_hides_the_window() {
    let mut state = Controller::new();
    let actions = state.on_close_requested();
    assert_eq!(actions, vec![WindowAction::PreventClose, WindowAction::Hide]);
    assert_eq!(state.window, Visibility::Hidden);
    assert_eq!(state.process, Process::Running);
}

#[test]
fn close_request_on_hidden_window_keeps_it_hidden() {
    let mut state = hidden();
    let actions = state.on_close_requested();
    assert_eq!(actions, vec![WindowAction::PreventClose, WindowAction::Hide]);
    assert_eq!(state, hidden());
}

#[test]
fn quit_exits_from_visible_and_from_hidden() {
    for start in [Controller::new(), hidden()] {
        let mut state = start;
        let actions = state.on_menu_event("quit");
        assert_eq!(actions, vec![WindowAction::Exit { code: 0 }]);
        assert_eq!(state.process, Process::Exited);
        assert_eq!(state.window, start.window);
    }
}

#[test]
fn show_from_menu_reveals_and_focuses() {
    for start in [Controller::new(), hidden()] {
        let mut state = start;
        let actions = state.on_menu_event("show");
        assert_eq!(actions, vec![WindowAction::Show, WindowAction::Focus]);
        assert_eq!(state, Controller::new());
    }
}

#[test]
fn primary_click_on_hidden_window_shows_then_focuses() {
    let mut state = hidden();
    let actions = state.on_tray_icon_event(left_up());
    assert_eq!(actions, vec![WindowAction::Show, WindowAction::Focus]);
    assert_eq!(state.window, Visibility::Visible);
    assert_eq!(state.process, Process::Running);
}

#[test]
fn show_twice_from_visible_is_the_same_as_once() {
    let mut state = Controller::new();
    let first = state.on_menu_event("show");
    let after_first = state;
    let second = state.on_menu_event("show");
    assert_eq!(after_first, Controller::new());
    assert_eq!(state, after_first);
    assert_eq!(first, second);
}

#[test]
fn other_tray_events_do_nothing() {
    let others = [
        TrayEvent::Click { button: PointerButton::Left, phase: ButtonPhase::Down },
        TrayEvent::Click { button: PointerButton::Right, phase: ButtonPhase::Up },
        TrayEvent::Click { button: PointerButton::Right, phase: ButtonPhase::Down },
        TrayEvent::Click { button: PointerButton::Middle, phase: ButtonPhase::Up },
        TrayEvent::Click { button: PointerButton::Middle, phase: ButtonPhase::Down },
        TrayEvent::Other,
    ];
    for start in [Controller::new(), hidden()] {
        for event in others {
            let mut state = start;
            assert!(state.on_tray_icon_event(event).is_empty());
            assert_eq!(state, start);
        }
    }
}

#[test]
fn unknown_menu_id_does_nothing() {
    for id in ["", "Show", "QUIT", "quit ", "show main interface", "hide"] {
        let mut state = hidden();
        assert!(state.on_menu_event(id).is_empty());
        assert_eq!(state, hidden());
        assert_eq!(menu_choice(id), MenuChoice::Unknown);
    }
}

#[test]
fn menu_choice_goes_by_id() {
    assert_eq!(menu_choice("show"), MenuChoice::Show);
    assert_eq!(menu_choice("quit"), MenuChoice::Quit);
}

#[test]
fn nothing_happens_after_exit() {
    let mut state = Controller::new();
    state.on_menu_event("quit");
    let exited = state;
    assert!(state.on_menu_event("show").is_empty());
    assert!(state.on_menu_event("quit").is_empty());
    assert!(state.on_close_requested().is_empty());
    assert!(state.on_tray_icon_event(left_up()).is_empty());
    assert_eq!(state, exited);
}

#[test]
fn handle_agrees_with_the_handlers() {
    let mut a = hidden();
    let mut b = hidden();
    assert_eq!(a.handle(Signal::MenuSelected(MenuChoice::Show)), b.on_menu_event("show"));
    assert_eq!(a, b);
    assert_eq!(a.handle(Signal::CloseRequested), b.on_close_requested());
    assert_eq!(a, b);
    assert_eq!(a.handle(Signal::Tray(left_up())), b.on_tray_icon_event(left_up()));
    assert_eq!(a, b);
    assert_eq!(a.handle(Signal::MenuSelected(MenuChoice::Unknown)), b.on_menu_event("?"));
    assert_eq!(a, b);
    assert_eq!(a.handle(Signal::MenuSelected(MenuChoice::Quit)), b.on_menu_event("quit"));
    assert_eq!(a, b);
}

#[test]
fn tray_menu_has_show_above_quit() {
    let items = tray_menu();
    assert_eq!(items.len(), 2);
    assert_eq!(items[0].id, "show");
    assert_eq!(items[0].label, "show main interface");
    assert_eq!(items[1].id, "quit");
    assert_eq!(items[1].label, "quit");
    assert_eq!(menu_choice(&items[0].id), MenuChoice::Show);
    assert_eq!(menu_choice(&items[1].id), MenuChoice::Quit);
}

#[test]
fn left_click_does_not_open_the_menu() {
    assert!(!menu_on_left_click());
}
