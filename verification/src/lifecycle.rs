//! The policy behind the tray icon: which window operations answer a menu
//! selection, a click on the tray icon or a request to close the window, and
//! when the process ends.
//!
//! The controller decides; performing the operations on the real window is
//! left to the caller, which feeds every user interaction back in as a
//! [`Signal`].

use vstd::prelude::*;
use vstd::string::StringExecFns;

verus! {

/// Whether the main window is on screen.
#[derive(Clone, Copy, Debug, PartialEq, Eq, Structural)]
pub enum Visibility {
    Visible,
    Hidden,
}

/// Whether the process is still alive. `Exited` is final.
#[derive(Clone, Copy, Debug, PartialEq, Eq, Structural)]
pub enum Process {
    Running,
    Exited,
}

/// The entry of the tray menu that a selection refers to.
#[derive(Clone, Copy, Debug, PartialEq, Eq, Structural)]
pub enum MenuChoice {
    Show,
    Quit,
    Unknown,
}

/// A button of the pointing device.
#[derive(Clone, Copy, Debug, PartialEq, Eq, Structural)]
pub enum PointerButton {
    Left,
    Right,
    Middle,
}

/// The phase of a click.
#[derive(Clone, Copy, Debug, PartialEq, Eq, Structural)]
pub enum ButtonPhase {
    Down,
    Up,
}

/// Something that happened to the tray icon.
#[derive(Clone, Copy, Debug, PartialEq, Eq, Structural)]
pub enum TrayEvent {
    Click { button: PointerButton, phase: ButtonPhase },
    Other,
}

/// A user interaction that the controller reacts to.
#[derive(Clone, Copy, Debug, PartialEq, Eq, Structural)]
pub enum Signal {
    CloseRequested,
    MenuSelected(MenuChoice),
    Tray(TrayEvent),
}

/// One operation that the caller is to perform, in the order given.
#[derive(Clone, Copy, Debug, PartialEq, Eq, Structural)]
pub enum WindowAction {
    /// Keep the window manager from destroying the window.
    PreventClose,
    Hide,
    Show,
    Focus,
    /// End the process with this exit code.
    Exit { code: i32 },
}

/// The controller's picture of the application: the main window and the process.
#[derive(Clone, Copy, Debug, PartialEq, Eq, Structural)]
pub struct Controller {
    pub window: Visibility,
    pub process: Process,
}

/// One entry of the tray menu.
#[derive(Clone, Debug)]
pub struct TrayMenuItem {
    pub id: String,
    pub label: String,
}

/// The menu entry that an id stands for. Entries are told apart by id alone.
pub open spec fn choice_of(id: Seq<char>) -> MenuChoice {
    if id == "show"@ {
        MenuChoice::Show
    } else if id == "quit"@ {
        MenuChoice::Quit
    } else {
        MenuChoice::Unknown
    }
}

/// A release of the left button over the tray icon.
pub open spec fn is_primary_activation(event: TrayEvent) -> bool {
    event == (TrayEvent::Click { button: PointerButton::Left, phase: ButtonPhase::Up })
}

/// The signals that ask for the window to be brought back.
pub open spec fn asks_to_show(signal: Signal) -> bool {
    match signal {
        Signal::MenuSelected(choice) => choice == MenuChoice::Show,
        Signal::Tray(event) => is_primary_activation(event),
        Signal::CloseRequested => false,
    }
}

/// The signal that ends the process.
pub open spec fn asks_to_quit(signal: Signal) -> bool {
    signal == Signal::MenuSelected(MenuChoice::Quit)
}

/// The state after a signal.
pub open spec fn next_state(state: Controller, signal: Signal) -> Controller {
    if state.process == Process::Exited {
        state
    } else if asks_to_quit(signal) {
        Controller { window: state.window, process: Process::Exited }
    } else if asks_to_show(signal) {
        Controller { window: Visibility::Visible, process: Process::Running }
    } else if signal == Signal::CloseRequested {
        Controller { window: Visibility::Hidden, process: Process::Running }
    } else {
        state
    }
}

/// The operations that answer a signal, in the order in which they are performed.
pub open spec fn reaction(state: Controller, signal: Signal) -> Seq<WindowAction> {
    if state.process == Process::Exited {
        seq![]
    } else if asks_to_quit(signal) {
        seq![WindowAction::Exit { code: 0 }]
    } else if asks_to_show(signal) {
        seq![WindowAction::Show, WindowAction::Focus]
    } else if signal == Signal::CloseRequested {
        seq![WindowAction::PreventClose, WindowAction::Hide]
    } else {
        seq![]
    }
}

/// Whether a list of operations holds one that ends the process.
pub open spec fn ends_process(actions: Seq<WindowAction>) -> bool {
    exists|i: int| 0 <= i < actions.len() && (#[trigger] actions[i]) is Exit
}

/// The entries of the tray menu, top to bottom.
pub open spec fn menu_entries() -> Seq<(Seq<char>, Seq<char>)> {
    seq![("show"@, "show main interface"@), ("quit"@, "quit"@)]
}

/// Tells which menu entry an id belongs to.
pub fn menu_choice(id: &str) -> (choice: MenuChoice)
    ensures
        choice == choice_of(id@),
{
    let given = String::from_str(id);
    if given == String::from_str("show") {
        MenuChoice::Show
    } else if given == String::from_str("quit") {
        MenuChoice::Quit
    } else {
        MenuChoice::Unknown
    }
}

/// Builds the two entries of the tray menu: `show` above `quit`.
pub fn tray_menu() -> (items: Vec<TrayMenuItem>)
    ensures
        items@.len() == menu_entries().len(),
        forall|i: int|
            0 <= i < items@.len() ==> (#[trigger] items@[i]).id@ == menu_entries()[i].0
                && items@[i].label@ == menu_entries()[i].1,
        choice_of(items@[0].id@) == MenuChoice::Show,
        choice_of(items@[1].id@) == MenuChoice::Quit,
{
    let show = TrayMenuItem {
        id: String::from_str("show"),
        label: String::from_str("show main interface"),
    };
    let quit = TrayMenuItem { id: String::from_str("quit"), label: String::from_str("quit") };
    let mut items: Vec<TrayMenuItem> = Vec::new();
    items.push(show);
    items.push(quit);
    proof {
        lemma_ids_are_distinct();
    }
    items
}

/// Whether a left click on the tray icon opens the menu. It does not: the
/// left button brings the window back, and the menu is left to the secondary
/// button.
pub fn menu_on_left_click() -> (opens: bool)
    ensures
        !opens,
{
    false
}

impl Controller {
    /// The state at launch: the window is shown and the process runs.
    pub fn new() -> (state: Controller)
        ensures
            state == (Controller { window: Visibility::Visible, process: Process::Running }),
    {
        Controller { window: Visibility::Visible, process: Process::Running }
    }

    /// Takes one signal: moves to the next state and returns what is to be done.
    pub fn handle(&mut self, signal: Signal) -> (actions: Vec<WindowAction>)
        ensures
            *final(self) == next_state(*old(self), signal),
            actions@ == reaction(*old(self), signal),
    {
        let mut actions: Vec<WindowAction> = Vec::new();
        match self.process {
            Process::Exited => {},
            Process::Running => {
                match signal {
                    Signal::MenuSelected(MenuChoice::Quit) => {
                        self.process = Process::Exited;
                        actions.push(WindowAction::Exit { code: 0 });
                    },
                    Signal::MenuSelected(MenuChoice::Show) | Signal::Tray(
                        TrayEvent::Click { button: PointerButton::Left, phase: ButtonPhase::Up },
                    ) => {
                        self.window = Visibility::Visible;
                        actions.push(WindowAction::Show);
                        actions.push(WindowAction::Focus);
                    },
                    Signal::CloseRequested => {
                        self.window = Visibility::Hidden;
                        actions.push(WindowAction::PreventClose);
                        actions.push(WindowAction::Hide);
                    },
                    _ => {},
                }
            },
        }
        assert(actions@ =~= reaction(*old(self), signal));
        actions
    }

    /// A menu entry was selected; the entry is known by its id.
    pub fn on_menu_event(&mut self, id: &str) -> (actions: Vec<WindowAction>)
        ensures
            *final(self) == next_state(*old(self), Signal::MenuSelected(choice_of(id@))),
            actions@ == reaction(*old(self), Signal::MenuSelected(choice_of(id@))),
    {
        let choice = menu_choice(id);
        self.handle(Signal::MenuSelected(choice))
    }

    /// Something happened to the tray icon.
    pub fn on_tray_icon_event(&mut self, event: TrayEvent) -> (actions: Vec<WindowAction>)
        ensures
            *final(self) == next_state(*old(self), Signal::Tray(event)),
            actions@ == reaction(*old(self), Signal::Tray(event)),
    {
        self.handle(Signal::Tray(event))
    }

    /// The window manager asks to close the window.
    pub fn on_close_requested(&mut self) -> (actions: Vec<WindowAction>)
        ensures
            *final(self) == next_state(*old(self), Signal::CloseRequested),
            actions@ == reaction(*old(self), Signal::CloseRequested),
    {
        self.handle(Signal::CloseRequested)
    }
}

/// The ids of the two menu entries differ, so each id names one entry.
pub proof fn lemma_ids_are_distinct()
    ensures
        choice_of("show"@) == MenuChoice::Show,
        choice_of("quit"@) == MenuChoice::Quit,
        choice_of(menu_entries()[0].0) == MenuChoice::Show,
        choice_of(menu_entries()[1].0) == MenuChoice::Quit,
{
    reveal_strlit("show");
    reveal_strlit("quit");
    assert("show"@[0] != "quit"@[0]);
}

/// A request to close the window hides it: the close is prevented first, the
/// process keeps running, and nothing else is done.
pub proof fn lemma_close_hides(state: Controller)
    requires
        state.process == Process::Running,
    ensures
        next_state(state, Signal::CloseRequested) == (Controller {
            window: Visibility::Hidden,
            process: Process::Running,
        }),
        reaction(state, Signal::CloseRequested) == seq![
            WindowAction::PreventClose,
            WindowAction::Hide,
        ],
        !ends_process(reaction(state, Signal::CloseRequested)),
{
}

/// Selecting `quit` ends the process, whether the window is shown or hidden,
/// and the only operation is the exit itself.
pub proof fn lemma_quit_exits(state: Controller)
    requires
        state.process == Process::Running,
    ensures
        next_state(state, Signal::MenuSelected(choice_of("quit"@))).process == Process::Exited,
        reaction(state, Signal::MenuSelected(choice_of("quit"@))) == seq![
            WindowAction::Exit { code: 0 },
        ],
{
    lemma_ids_are_distinct();
}

/// Nothing but the selection of `quit` ends the process.
pub proof fn lemma_only_quit_exits(state: Controller, signal: Signal)
    requires
        state.process == Process::Running,
    ensures
        next_state(state, signal).process == Process::Exited <==> asks_to_quit(signal),
        ends_process(reaction(state, signal)) <==> asks_to_quit(signal),
{
    let actions = reaction(state, signal);
    if asks_to_quit(signal) {
        assert(actions[0] is Exit);
    }
}

/// Selecting `show`, or releasing the left button over the tray icon, brings
/// the window back from either state: it is shown, then focused.
pub proof fn lemma_show_reveals(state: Controller, signal: Signal)
    requires
        state.process == Process::Running,
        signal == Signal::MenuSelected(choice_of("show"@)) || signal == Signal::Tray(
            TrayEvent::Click { button: PointerButton::Left, phase: ButtonPhase::Up },
        ),
    ensures
        next_state(state, signal) == (Controller {
            window: Visibility::Visible,
            process: Process::Running,
        }),
        reaction(state, signal) == seq![WindowAction::Show, WindowAction::Focus],
{
    lemma_ids_are_distinct();
}

/// Asking twice to show a visible window leaves it as asking once does:
/// the state is unchanged, and the second answer is that of the first.
pub proof fn lemma_show_is_idempotent(state: Controller, first: Signal, second: Signal)
    requires
        state.process == Process::Running,
        asks_to_show(first),
        asks_to_show(second),
    ensures
        next_state(next_state(state, first), second) == next_state(state, first),
        reaction(next_state(state, first), second) == reaction(state, first),
        state.window == Visibility::Visible ==> next_state(state, first) == state,
{
}

/// Once the process has exited, no signal changes anything or asks for anything.
pub proof fn lemma_exit_is_final(state: Controller, signal: Signal)
    requires
        state.process == Process::Exited,
    ensures
        next_state(state, signal) == state,
        reaction(state, signal) == Seq::<WindowAction>::empty(),
{
}

} // verus!
