use vstd::prelude::*;

verus! {

/// What closing the main window does.
#[derive(Clone, Copy, Debug, PartialEq, Eq, Structural)]
pub enum CloseBehavior {
    Tray,
    Exit,
}

/// The user's saved preferences.
#[derive(Clone, Copy, Debug, PartialEq, Eq, Structural)]
pub struct Settings {
    pub close_behavior: CloseBehavior,
    pub autostart: bool,
    pub start_minimized: bool,
    pub pause_media_when_hidden: bool,
    pub allow_notifications: bool,
    pub allow_camera: bool,
    pub allow_microphone: bool,
}

/// The preferences of a first start: hide to tray on close, pause media
/// while hidden, and nothing else enabled.
pub open spec fn default_settings() -> Settings {
    Settings {
        close_behavior: CloseBehavior::Tray,
        autostart: false,
        start_minimized: false,
        pause_media_when_hidden: true,
        allow_notifications: false,
        allow_camera: false,
        allow_microphone: false,
    }
}

/// A first start hides to the tray on close, pauses media while hidden,
/// does not start with the system or minimised, and grants no permission.
pub proof fn first_start_is_safe()
    ensures
        default_settings().close_behavior == CloseBehavior::Tray,
        default_settings().pause_media_when_hidden,
        !default_settings().autostart,
        !default_settings().start_minimized,
        !default_settings().allow_notifications,
        !default_settings().allow_camera,
        !default_settings().allow_microphone,
{
}

impl Default for Settings {
    fn default() -> (s: Settings)
        ensures
            s == default_settings(),
    {
        Settings {
            close_behavior: CloseBehavior::Tray,
            autostart: false,
            start_minimized: false,
            pause_media_when_hidden: true,
            allow_notifications: false,
            allow_camera: false,
            allow_microphone: false,
        }
    }
}

} // verus!
