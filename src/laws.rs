use vstd::prelude::*;

use crate::router::{
    Event, MenuAction, Request, next_exiting, requests_for, EXIT_SUCCESS, MAIN_WINDOW,
};

verus! {

/// The exit intent after handling `events` in order, from `exiting`.
pub open spec fn exiting_after(exiting: bool, events: Seq<Event>) -> bool
    decreases events.len(),
{
    if events.len() == 0 {
        exiting
    } else {
        exiting_after(next_exiting(exiting, events[0]), events.drop_first())
    }
}

/// Once the exit intent is set, no event clears it.
pub proof fn lemma_exiting_stays(events: Seq<Event>)
    ensures
        exiting_after(true, events),
    decreases events.len(),
{
    if events.len() > 0 {
        lemma_exiting_stays(events.drop_first());
    }
}

/// Monotonicity: in any sequence of events that holds a Quit selection, the
/// exit intent is set after the whole sequence, whatever came before or after
/// the Quit.
pub proof fn lemma_quit_is_permanent(exiting: bool, events: Seq<Event>, i: int)
    requires
        0 <= i < events.len(),
        events[i] == Event::Menu(MenuAction::Quit),
    ensures
        exiting_after(exiting, events),
    decreases i,
{
    if i == 0 {
        lemma_exiting_stays(events.drop_first());
    } else {
        lemma_quit_is_permanent(next_exiting(exiting, events[0]), events.drop_first(), i - 1);
    }
}

/// While resident, a close request of the main window yields exactly a veto and
/// a hide, and leaves the exit intent unset.
pub proof fn lemma_close_vetoed_while_resident(label: String, window_present: bool)
    requires
        label@ == MAIN_WINDOW@,
    ensures
        requests_for(false, Event::CloseRequested(label), window_present) == seq![
            Request::VetoClose,
            Request::HideWindow,
        ],
        !next_exiting(false, Event::CloseRequested(label)),
{
}

/// Once quitting, a close request issues nothing: the close goes through.
pub proof fn lemma_close_passes_while_terminating(label: String, window_present: bool)
    ensures
        requests_for(true, Event::CloseRequested(label), window_present) == Seq::<Request>::empty(),
        next_exiting(true, Event::CloseRequested(label)),
{
}

/// Two Quit selections in a row: the exit intent is set after each, and each
/// asks the process to end with status zero.
pub proof fn lemma_quit_twice(exiting: bool, window_present: bool)
    ensures
        next_exiting(exiting, Event::Menu(MenuAction::Quit)),
        next_exiting(
            next_exiting(exiting, Event::Menu(MenuAction::Quit)),
            Event::Menu(MenuAction::Quit),
        ),
        requests_for(exiting, Event::Menu(MenuAction::Quit), window_present) == seq![
            Request::ExitProcess(EXIT_SUCCESS),
        ],
        requests_for(
            next_exiting(exiting, Event::Menu(MenuAction::Quit)),
            Event::Menu(MenuAction::Quit),
            window_present,
        ) == seq![Request::ExitProcess(EXIT_SUCCESS)],
{
}

/// Show does not depend on the exit intent: with the main window present it
/// issues exactly a show and a focus, and it never changes the intent.
pub proof fn lemma_show_ignores_intent(exiting: bool)
    ensures
        requests_for(exiting, Event::Menu(MenuAction::Show), true) == seq![
            Request::ShowWindow,
            Request::FocusWindow,
        ],
        next_exiting(exiting, Event::Menu(MenuAction::Show)) == exiting,
{
}

/// Without a main window, Show and a second launch issue no request and leave
/// the exit intent as it was.
pub proof fn lemma_show_without_window(exiting: bool)
    ensures
        requests_for(exiting, Event::Menu(MenuAction::Show), false) == Seq::<Request>::empty(),
        requests_for(exiting, Event::SecondInstance, false) == Seq::<Request>::empty(),
        next_exiting(exiting, Event::Menu(MenuAction::Show)) == exiting,
        next_exiting(exiting, Event::SecondInstance) == exiting,
{
}

} // verus!
