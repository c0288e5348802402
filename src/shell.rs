use vstd::prelude::*;

verus! {

/// The identifier of the tray menu item that brings the window back.
pub const SHOW_ITEM_ID: &'static str = "show";

/// The identifier of the tray menu item that ends the application.
pub const QUIT_ITEM_ID: &'static str = "quit";

/// What a minimize request does to the managed window.
#[derive(Clone, Copy, PartialEq, Eq, Structural)]
pub enum MinimizePolicy {
    /// The window minimizes as the platform does it.
    Native,
    /// The window is hidden to the tray, as a close request hides it.
    HideToTray,
}

/// An event from the windowing system or the tray icon.
pub enum ShellEvent {
    /// The user asked to close the managed window.
    WindowClose,
    /// The user asked to minimize the managed window.
    WindowMinimize,
    /// A tray menu item was chosen.
    TrayMenuClick { id: String },
    /// The tray icon was clicked with the left button.
    TrayLeftClick,
    /// Any other tray event (the native menu opens by itself).
    TrayOther,
}

/// What the shell does in answer to an event.
#[derive(Clone, Copy, PartialEq, Eq, Structural)]
pub enum ShellAction {
    /// Hide the window and keep it, suppressing the platform's default handling.
    HideWindow,
    /// Show the window and give it the input focus.
    ShowAndFocus,
    /// End the process with this exit status.
    Exit { code: i32 },
    /// Leave the event to the platform's default handling.
    PassThrough,
}

pub open spec fn action_for(policy: MinimizePolicy, event: ShellEvent) -> ShellAction {
    match event {
        ShellEvent::WindowClose => ShellAction::HideWindow,
        ShellEvent::WindowMinimize => match policy {
            MinimizePolicy::HideToTray => ShellAction::HideWindow,
            MinimizePolicy::Native => ShellAction::PassThrough,
        },
        ShellEvent::TrayMenuClick { id } => if id@ == SHOW_ITEM_ID@ {
            ShellAction::ShowAndFocus
        } else if id@ == QUIT_ITEM_ID@ {
            ShellAction::Exit { code: 0 }
        } else {
            ShellAction::PassThrough
        },
        ShellEvent::TrayLeftClick => ShellAction::ShowAndFocus,
        ShellEvent::TrayOther => ShellAction::PassThrough,
    }
}

/// Routes an event to the shell's answer.
pub fn dispatch(policy: MinimizePolicy, event: &ShellEvent) -> (r: ShellAction)
    ensures
        r == action_for(policy, *event),
{
    match event {
        ShellEvent::WindowClose => ShellAction::HideWindow,
        ShellEvent::WindowMinimize => match policy {
            MinimizePolicy::HideToTray => ShellAction::HideWindow,
            MinimizePolicy::Native => ShellAction::PassThrough,
        },
        ShellEvent::TrayMenuClick { id } => {
            if *id == SHOW_ITEM_ID.to_owned() {
                ShellAction::ShowAndFocus
            } else if *id == QUIT_ITEM_ID.to_owned() {
                ShellAction::Exit { code: 0 }
            } else {
                ShellAction::PassThrough
            }
        },
        ShellEvent::TrayLeftClick => ShellAction::ShowAndFocus,
        ShellEvent::TrayOther => ShellAction::PassThrough,
    }
}

/// How the managed window is shown.
pub enum Visibility {
    Visible,
    Minimized,
    Hidden,
}

/// The application as seen from outside: its window and whether it still runs.
pub struct ShellState {
    pub visibility: Visibility,
    pub focused: bool,
    pub window_exists: bool,
    /// `Some(code)` once the process has ended with `code`.
    pub exit_code: Option<i32>,
}

/// What an action does to the application when taken in answer to an event. The
/// platform's default handling closes a window on a close request and minimizes it
/// on a minimize request.
pub open spec fn after_action(s: ShellState, event: ShellEvent, action: ShellAction) -> ShellState {
    match action {
        ShellAction::HideWindow => ShellState { visibility: Visibility::Hidden, focused: false, ..s },
        ShellAction::ShowAndFocus => ShellState { visibility: Visibility::Visible, focused: true, ..s },
        ShellAction::Exit { code } => ShellState { exit_code: Some(code), ..s },
        ShellAction::PassThrough => match event {
            ShellEvent::WindowClose => ShellState { window_exists: false, focused: false, ..s },
            ShellEvent::WindowMinimize => ShellState {
                visibility: Visibility::Minimized,
                focused: false,
                ..s
            },
            _ => s,
        },
    }
}

/// The application after the shell has answered an event.
pub open spec fn after_event(policy: MinimizePolicy, s: ShellState, event: ShellEvent) -> ShellState {
    after_action(s, event, action_for(policy, event))
}

/// A close or minimize request never destroys the window nor ends the process: a
/// close hides the window, and so does a minimize where the policy hides to the
/// tray (under the native policy the window is minimized).
pub proof fn lemma_close_and_minimize_keep_running(
    policy: MinimizePolicy,
    s: ShellState,
    event: ShellEvent,
)
    requires
        event is WindowClose || event is WindowMinimize,
    ensures
        after_event(policy, s, event).window_exists == s.window_exists,
        after_event(policy, s, event).exit_code == s.exit_code,
        (event is WindowClose || policy is HideToTray) ==> after_event(policy, s, event).visibility is Hidden,
        (event is WindowMinimize && policy is Native) ==> after_event(policy, s, event).visibility is Minimized,
{
}

/// The tray's "show" item and a left click on the tray icon leave the window
/// visible and focused, from any state.
pub proof fn lemma_show_restores_window(policy: MinimizePolicy, s: ShellState, event: ShellEvent)
    requires
        event is TrayLeftClick || (event matches ShellEvent::TrayMenuClick { id } && id@ == SHOW_ITEM_ID@),
    ensures
        after_event(policy, s, event).visibility is Visible,
        after_event(policy, s, event).focused,
{
}

/// The tray's "quit" item ends the process with exit status 0, from any state.
pub proof fn lemma_quit_exits_cleanly(policy: MinimizePolicy, s: ShellState, id: String)
    requires
        id@ == QUIT_ITEM_ID@,
    ensures
        after_event(policy, s, ShellEvent::TrayMenuClick { id }).exit_code == Some(0i32),
{
    reveal_strlit("show");
    reveal_strlit("quit");
    assert(SHOW_ITEM_ID@ != QUIT_ITEM_ID@) by {
        assert(SHOW_ITEM_ID@[0] != QUIT_ITEM_ID@[0]);
    }
}

/// The kind of a tray menu entry.
#[derive(Clone, Copy, PartialEq, Eq, Structural)]
pub enum MenuEntryKind {
    Action,
    Separator,
}

/// An entry of the tray menu.
pub struct MenuEntry {
    pub id: String,
    pub label: String,
    pub kind: MenuEntryKind,
}

/// The tray menu, fixed at startup: "Show Meeps", a separator, then "Quit".
pub fn tray_menu() -> (r: Vec<MenuEntry>)
    ensures
        r@.len() == 3,
        r@[0].id@ == SHOW_ITEM_ID@,
        r@[0].label@ == "Show Meeps"@,
        r@[0].kind == MenuEntryKind::Action,
        r@[1].id@ == Seq::<char>::empty(),
        r@[1].label@ == Seq::<char>::empty(),
        r@[1].kind == MenuEntryKind::Separator,
        r@[2].id@ == QUIT_ITEM_ID@,
        r@[2].label@ == "Quit"@,
        r@[2].kind == MenuEntryKind::Action,
{
    let mut menu: Vec<MenuEntry> = Vec::new();
    menu.push(
        MenuEntry { id: SHOW_ITEM_ID.to_owned(), label: "Show Meeps".to_owned(), kind: MenuEntryKind::Action },
    );
    menu.push(MenuEntry { id: String::new(), label: String::new(), kind: MenuEntryKind::Separator });
    menu.push(
        MenuEntry { id: QUIT_ITEM_ID.to_owned(), label: "Quit".to_owned(), kind: MenuEntryKind::Action },
    );
    menu
}

} // verus!
