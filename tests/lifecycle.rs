use assassin_alarm_clock::commands::greet;
use assassin_alarm_clock::lifecycle::AppLifecycle;
use assassin_alarm_clock::router::{
    handle_event, on_close_requested, on_menu_event, show_main_window, Event, MenuAction,
    Request, MAIN_WINDOW, TRAY_MENU_QUIT, TRAY_MENU_SHOW,
};
use assassin_alarm_clock::startup::{autostart_step, is_autostart_launch, AutostartStep};

fn close_main() -> Event {
    Event::CloseRequested(String::from("main"))
}

#[test]
fn new_flag_is_resident() {
    let l = AppLifecycle::new();
    assert!(!l.is_exiting());
    let d = AppLifecycle::default();
    assert!(!d.is_exiting());
}

#[test]
fn mark_exiting_sets_and_stays() {
    let mut l = AppLifecycle::new();
    l.mark_exiting();
    assert!(l.is_exiting());
    l.mark_exiting();
    assert!(l.is_exiting());
}

#[test]
fn quit_is_permanent_over_later_events() {
    let mut l = AppLifecycle::new();
    let events = vec![
        Event::Menu(MenuAction::Show),
        Event::Menu(MenuAction::Quit),
        Event::Menu(MenuAction::Show),
        close_main(),
        Event::SecondInstance,
        Event::Menu(MenuAction::Unknown),
        Event::CloseRequested(String::from("settings")),
    ];
    let mut seen_quit = false;
    for e in events.iter() {
        handle_event(&mut l, e, true);
        if matches!(e, Event::Menu(MenuAction::Quit)) {
            seen_quit = true;
        }
        assert_eq!(l.is_exiting(), seen_quit);
    }
    assert!(l.is_exiting());
}

#[test]
fn close_vetoed_while_resident() {
    let mut l = AppLifecycle::new();
    let r = handle_event(&mut l, &close_main(), true);
    assert_eq!(r, vec![Request::VetoClose, Request::HideWindow]);
    assert!(!r.iter().any(|q| matches!(q, Request::ExitProcess(_))));
    assert!(!l.is_exiting());
}

#[test]
fn close_passes_while_terminating() {
    let mut l = AppLifecycle::new();
    l.mark_exiting();
    let r = handle_event(&mut l, &close_main(), true);
    assert!(r.is_empty());
    assert!(l.is_exiting());
}

#[test]
fn close_of_other_window_passes() {
    let l = AppLifecycle::new();
    let r = on_close_requested(&l, "settings");
    assert!(r.is_empty());
}

#[test]
fn quit_twice_is_idempotent() {
    let mut l = AppLifecycle::new();
    let first = on_menu_event(&mut l, MenuAction::Quit, true);
    assert!(l.is_exiting());
    assert_eq!(first, vec![Request::ExitProcess(0)]);
    let second = on_menu_event(&mut l, MenuAction::Quit, true);
    assert!(l.is_exiting());
    assert_eq!(second, vec![Request::ExitProcess(0)]);
}

#[test]
fn show_ignores_flag() {
    let mut resident = AppLifecycle::new();
    let r = on_menu_event(&mut resident, MenuAction::Show, true);
    assert_eq!(r, vec![Request::ShowWindow, Request::FocusWindow]);
    assert!(!resident.is_exiting());

    let mut exiting = AppLifecycle::new();
    exiting.mark_exiting();
    let r = on_menu_event(&mut exiting, MenuAction::Show, true);
    assert_eq!(r, vec![Request::ShowWindow, Request::FocusWindow]);
    assert!(exiting.is_exiting());
}

#[test]
fn show_without_window_is_silent() {
    let mut l = AppLifecycle::new();
    assert!(on_menu_event(&mut l, MenuAction::Show, false).is_empty());
    assert!(handle_event(&mut l, &Event::SecondInstance, false).is_empty());
    assert!(show_main_window(false).is_empty());
    assert!(!l.is_exiting());
}

#[test]
fn second_instance_brings_window_forward() {
    let mut l = AppLifecycle::new();
    let r = handle_event(&mut l, &Event::SecondInstance, true);
    assert_eq!(r, vec![Request::ShowWindow, Request::FocusWindow]);
    assert!(!l.is_exiting());
}

#[test]
fn unknown_menu_item_does_nothing() {
    let mut l = AppLifecycle::new();
    let r = handle_event(&mut l, &Event::Menu(MenuAction::Unknown), true);
    assert!(r.is_empty());
    assert!(!l.is_exiting());
}

#[test]
fn resident_close_quit_close_scenario() {
    let mut l = AppLifecycle::new();
    let r = handle_event(&mut l, &close_main(), true);
    assert_eq!(r, vec![Request::VetoClose, Request::HideWindow]);
    assert!(!l.is_exiting());

    let r = handle_event(&mut l, &Event::Menu(MenuAction::Quit), true);
    assert_eq!(r, vec![Request::ExitProcess(0)]);
    assert!(l.is_exiting());

    let r = handle_event(&mut l, &close_main(), true);
    assert!(r.is_empty());
}

#[test]
fn menu_ids_map_to_actions() {
    assert_eq!(MenuAction::from_id("tray-show"), MenuAction::Show);
    assert_eq!(MenuAction::from_id("tray-quit"), MenuAction::Quit);
    assert_eq!(MenuAction::from_id(TRAY_MENU_SHOW), MenuAction::Show);
    assert_eq!(MenuAction::from_id(TRAY_MENU_QUIT), MenuAction::Quit);
    assert_eq!(MenuAction::from_id("tray-hide"), MenuAction::Unknown);
    assert_eq!(MenuAction::from_id(""), MenuAction::Unknown);
    assert_eq!(MenuAction::from_id("tray-show "), MenuAction::Unknown);
    assert_eq!(MAIN_WINDOW, "main");
}

#[test]
fn autostart_flag_detected() {
    let with = vec![String::from("app"), String::from("--autostart")];
    assert!(is_autostart_launch(&with));
    let without = vec![String::from("app"), String::from("--autostart=1")];
    assert!(!is_autostart_launch(&without));
    assert!(!is_autostart_launch(&Vec::new()));
}

#[test]
fn autostart_steps() {
    assert_eq!(autostart_step(true, true), AutostartStep::Keep);
    assert_eq!(autostart_step(false, false), AutostartStep::Keep);
    assert_eq!(autostart_step(false, true), AutostartStep::Enable);
    assert_eq!(autostart_step(true, false), AutostartStep::Disable);
}

#[test]
fn greet_formats_name() {
    assert_eq!(greet("Ada"), "Hello, Ada! You've been greeted from Rust!");
    assert_eq!(greet(""), "Hello, ! You've been greeted from Rust!");
}
