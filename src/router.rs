use vstd::prelude::*;

use crate::lifecycle::AppLifecycle;
use crate::text::same_text;

verus! {

/// Identifier of the tray icon.
pub const TRAY_ICON_ID: &'static str = "main-tray";

/// Menu item identifier of "show main window".
pub const TRAY_MENU_SHOW: &'static str = "tray-show";

/// Menu item identifier of "quit".
pub const TRAY_MENU_QUIT: &'static str = "tray-quit";

/// Label of the main window.
pub const MAIN_WINDOW: &'static str = "main";

/// Status code the process ends with when the user quits.
pub const EXIT_SUCCESS: i32 = 0;

/// The tray menu items this core knows of.
#[derive(PartialEq, Eq, Structural, Clone, Copy, Debug)]
pub enum MenuAction {
    Show,
    Quit,
    Unknown,
}

/// What a tray menu identifier stands for.
pub open spec fn menu_action_of(id: Seq<char>) -> MenuAction {
    if id == TRAY_MENU_SHOW@ {
        MenuAction::Show
    } else if id == TRAY_MENU_QUIT@ {
        MenuAction::Quit
    } else {
        MenuAction::Unknown
    }
}

impl MenuAction {
    /// Maps a menu item identifier to its action; an identifier this core does
    /// not know becomes `Unknown`.
    pub fn from_id(id: &str) -> (r: MenuAction)
        ensures
            r == menu_action_of(id@),
    {
        if same_text(id, TRAY_MENU_SHOW) {
            MenuAction::Show
        } else if same_text(id, TRAY_MENU_QUIT) {
            MenuAction::Quit
        } else {
            MenuAction::Unknown
        }
    }
}

/// An event delivered by the GUI runtime.
#[derive(Debug)]
pub enum Event {
    /// A tray menu item was selected.
    Menu(MenuAction),
    /// The window with this label asked to close.
    CloseRequested(String),
    /// A second instance of the application was launched.
    SecondInstance,
}

/// A request handed back to the GUI runtime. Window requests concern the main
/// window.
#[derive(PartialEq, Eq, Structural, Clone, Copy, Debug)]
pub enum Request {
    ShowWindow,
    FocusWindow,
    HideWindow,
    VetoClose,
    ExitProcess(i32),
}

/// The exit intent after `event`, from `exiting` before it.
pub open spec fn next_exiting(exiting: bool, event: Event) -> bool {
    exiting || event == Event::Menu(MenuAction::Quit)
}

/// The requests that bring the main window to the front, when it exists.
pub open spec fn show_requests(window_present: bool) -> Seq<Request> {
    if window_present {
        seq![Request::ShowWindow, Request::FocusWindow]
    } else {
        seq![]
    }
}

/// The requests that close a window, given the exit intent.
pub open spec fn close_requests(exiting: bool, label: Seq<char>) -> Seq<Request> {
    if label == MAIN_WINDOW@ && !exiting {
        seq![Request::VetoClose, Request::HideWindow]
    } else {
        seq![]
    }
}

/// The requests that a menu action issues.
pub open spec fn menu_requests(action: MenuAction, window_present: bool) -> Seq<Request> {
    match action {
        MenuAction::Show => show_requests(window_present),
        MenuAction::Quit => seq![Request::ExitProcess(EXIT_SUCCESS as i32)],
        MenuAction::Unknown => seq![],
    }
}

/// The requests that `event` issues, given the exit intent before it and
/// whether the main window exists.
pub open spec fn requests_for(exiting: bool, event: Event, window_present: bool) -> Seq<Request> {
    match event {
        Event::Menu(action) => menu_requests(action, window_present),
        Event::CloseRequested(label) => close_requests(exiting, label@),
        Event::SecondInstance => show_requests(window_present),
    }
}

/// Brings the main window to the front: show it and focus it, or nothing when
/// no main window exists.
pub fn show_main_window(window_present: bool) -> (r: Vec<Request>)
    ensures
        r@ == show_requests(window_present),
{
    let mut r: Vec<Request> = Vec::new();
    if window_present {
        r.push(Request::ShowWindow);
        r.push(Request::FocusWindow);
    }
    proof {
        if window_present {
            assert(r@ =~= show_requests(window_present));
        } else {
            assert(r@ =~= show_requests(window_present));
        }
    }
    r
}

/// Handles a tray menu selection. Quit marks the exit intent and asks the
/// process to end; Show brings the main window to the front; an unknown item
/// does nothing.
pub fn on_menu_event(lifecycle: &mut AppLifecycle, action: MenuAction, window_present: bool) -> (r:
    Vec<Request>)
    ensures
        final(lifecycle)@ == next_exiting(old(lifecycle)@, Event::Menu(action)),
        r@ == menu_requests(action, window_present),
{
    match action {
        MenuAction::Show => show_main_window(window_present),
        MenuAction::Quit => {
            lifecycle.mark_exiting();
            let r: Vec<Request> = vec![Request::ExitProcess(EXIT_SUCCESS)];
            assert(r@ =~= menu_requests(action, window_present));
            r
        },
        MenuAction::Unknown => {
            let r: Vec<Request> = Vec::new();
            assert(r@ =~= menu_requests(action, window_present));
            r
        },
    }
}

/// Handles a close request of the window labelled `label`. While the
/// application is tray-resident, closing the main window is vetoed and the
/// window hidden instead; once quitting was requested, or for another window,
/// the close goes through untouched.
pub fn on_close_requested(lifecycle: &AppLifecycle, label: &str) -> (r: Vec<Request>)
    ensures
        r@ == close_requests(lifecycle@, label@),
{
    let mut r: Vec<Request> = Vec::new();
    if same_text(label, MAIN_WINDOW) && !lifecycle.is_exiting() {
        r.push(Request::VetoClose);
        r.push(Request::HideWindow);
        assert(r@ =~= close_requests(lifecycle@, label@));
    } else {
        assert(r@ =~= close_requests(lifecycle@, label@));
    }
    r
}

/// Handles one event from the GUI runtime, given whether the main window
/// exists, and returns the requests to carry out in order.
pub fn handle_event(lifecycle: &mut AppLifecycle, event: &Event, window_present: bool) -> (r: Vec<
    Request,
>)
    ensures
        final(lifecycle)@ == next_exiting(old(lifecycle)@, *event),
        r@ == requests_for(old(lifecycle)@, *event, window_present),
{
    match event {
        Event::Menu(action) => on_menu_event(lifecycle, *action, window_present),
        Event::CloseRequested(label) => on_close_requested(lifecycle, label.as_str()),
        Event::SecondInstance => show_main_window(window_present),
    }
}

} // verus!
