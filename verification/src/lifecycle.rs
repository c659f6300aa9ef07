use vstd::prelude::*;

use crate::settings::{default_settings, CloseBehavior, Settings};

verus! {

/// What just happened to the main window.
#[derive(Clone, Copy, Debug, PartialEq, Eq, Structural)]
pub enum WindowState {
    CloseRequested,
    Hidden,
    Minimized,
    Visible,
}

/// What the shell does in answer.
#[derive(Clone, Copy, Debug, PartialEq, Eq, Structural)]
pub enum LifecycleAction {
    HideAndPause,
    Hide,
    Exit,
    Show,
}

/// A close request ends the app only when the user chose to exit on close;
/// otherwise closing, hiding and minimising all hide the window, pausing
/// media when the user asked for that; a visible window is shown.
pub open spec fn spec_lifecycle_action(state: WindowState, settings: Settings) -> LifecycleAction {
    if state == WindowState::CloseRequested && settings.close_behavior == CloseBehavior::Exit {
        LifecycleAction::Exit
    } else if state == WindowState::Visible {
        LifecycleAction::Show
    } else if settings.pause_media_when_hidden {
        LifecycleAction::HideAndPause
    } else {
        LifecycleAction::Hide
    }
}

/// The window went from minimised to not minimised.
pub fn restored_from_minimized(was_minimized: bool, is_minimized: bool) -> (res: bool)
    ensures
        res == (was_minimized && !is_minimized),
{
    was_minimized && !is_minimized
}

/// What to do when the window reaches `state`.
pub fn lifecycle_action(state: WindowState, settings: &Settings) -> (res: LifecycleAction)
    ensures
        res == spec_lifecycle_action(state, *settings),
{
    if state == WindowState::CloseRequested && settings.close_behavior == CloseBehavior::Exit {
        return LifecycleAction::Exit;
    }
    match state {
        WindowState::CloseRequested | WindowState::Hidden | WindowState::Minimized => {
            if settings.pause_media_when_hidden {
                LifecycleAction::HideAndPause
            } else {
                LifecycleAction::Hide
            }
        },
        WindowState::Visible => LifecycleAction::Show,
    }
}

/// The app exits only on a close request, and only when the user chose to
/// exit on close.
pub proof fn exit_only_on_close_with_exit_behavior(state: WindowState, settings: Settings)
    ensures
        (spec_lifecycle_action(state, settings) == LifecycleAction::Exit) <==> (state
            == WindowState::CloseRequested && settings.close_behavior == CloseBehavior::Exit),
{
}

/// Media is paused on hiding only when the user asked for it, and a window
/// that becomes visible is always shown.
pub proof fn pause_only_when_enabled(state: WindowState, settings: Settings)
    ensures
        spec_lifecycle_action(state, settings) == LifecycleAction::HideAndPause
            ==> settings.pause_media_when_hidden,
        (spec_lifecycle_action(state, settings) == LifecycleAction::Show) <==> (state
            == WindowState::Visible),
{
}

/// With the settings of a first start, closing, hiding or minimising keeps
/// the app running in the tray with media paused.
pub proof fn defaults_hide_to_tray_and_pause(state: WindowState)
    requires
        state != WindowState::Visible,
    ensures
        spec_lifecycle_action(state, default_settings()) == LifecycleAction::HideAndPause,
{
}

/// Whenever closing, hiding or minimising does not end the app, it hides the
/// window, and pauses media exactly when the user asked for pausing,
/// whatever the close behaviour and the other preferences are.
pub proof fn hiding_pauses_exactly_when_enabled(state: WindowState, settings: Settings)
    requires
        state != WindowState::Visible,
        !(state == WindowState::CloseRequested && settings.close_behavior == CloseBehavior::Exit),
    ensures
        spec_lifecycle_action(state, settings) == LifecycleAction::HideAndPause
            || spec_lifecycle_action(state, settings) == LifecycleAction::Hide,
        (spec_lifecycle_action(state, settings) == LifecycleAction::HideAndPause)
            <==> settings.pause_media_when_hidden,
{
}

/// Hiding and minimising do not depend on the close behaviour: two settings
/// that agree on pausing answer them alike.
pub proof fn hiding_ignores_close_behavior(state: WindowState, a: Settings, b: Settings)
    requires
        state == WindowState::Hidden || state == WindowState::Minimized,
        a.pause_media_when_hidden == b.pause_media_when_hidden,
    ensures
        spec_lifecycle_action(state, a) == spec_lifecycle_action(state, b),
{
}

} // verus!
