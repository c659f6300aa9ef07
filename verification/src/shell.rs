use vstd::prelude::*;

use crate::lifecycle::restored_from_minimized;
use crate::navigation::{permission_origin_allowed, spec_permission_origin_allowed, url_parse};
use crate::settings::{default_settings, CloseBehavior, Settings};
use crate::text::same_text;

verus! {

/// The page the main window opens.
pub const TIKTOK_URL: &'static str = "https://www.tiktok.com/";

/// The identifiers of the tray menu's entries, in the order of `MenuCommand`.
pub const MENU_IDS: [&'static str; 14] = [
    "open",
    "pause_media",
    "settings_close_tray",
    "settings_autostart",
    "settings_start_minimized",
    "settings_pause_hidden",
    "permission_notifications",
    "permission_camera",
    "permission_microphone",
    "reload",
    "clear_site_data",
    "check_update",
    "github",
    "quit",
];

/// An entry of the tray menu.
#[derive(Clone, Copy, Debug, PartialEq, Eq, Structural)]
pub enum MenuCommand {
    Open,
    PauseMedia,
    CloseToTray,
    Autostart,
    StartMinimized,
    PauseWhenHidden,
    Notifications,
    Camera,
    Microphone,
    Reload,
    ClearSiteData,
    CheckUpdate,
    GitHub,
    Quit,
}

/// A preference that a menu entry flips.
#[derive(Clone, Copy, Debug, PartialEq, Eq, Structural)]
pub enum SettingToggle {
    CloseToTray,
    Autostart,
    StartMinimized,
    PauseWhenHidden,
    Notifications,
    Camera,
    Microphone,
}

impl MenuCommand {
    /// The entry's place in `MENU_IDS`.
    pub open spec fn position(self) -> int {
        match self {
            MenuCommand::Open => 0,
            MenuCommand::PauseMedia => 1,
            MenuCommand::CloseToTray => 2,
            MenuCommand::Autostart => 3,
            MenuCommand::StartMinimized => 4,
            MenuCommand::PauseWhenHidden => 5,
            MenuCommand::Notifications => 6,
            MenuCommand::Camera => 7,
            MenuCommand::Microphone => 8,
            MenuCommand::Reload => 9,
            MenuCommand::ClearSiteData => 10,
            MenuCommand::CheckUpdate => 11,
            MenuCommand::GitHub => 12,
            MenuCommand::Quit => 13,
        }
    }

    /// The entry's identifier.
    pub open spec fn id_text(self) -> Seq<char> {
        MENU_IDS@[self.position()]@
    }

    /// The entry's identifier, as the menu is built with it.
    pub fn id(self) -> (res: &'static str)
        ensures
            res@ == self.id_text(),
    {
        match self {
            MenuCommand::Open => MENU_IDS[0],
            MenuCommand::PauseMedia => MENU_IDS[1],
            MenuCommand::CloseToTray => MENU_IDS[2],
            MenuCommand::Autostart => MENU_IDS[3],
            MenuCommand::StartMinimized => MENU_IDS[4],
            MenuCommand::PauseWhenHidden => MENU_IDS[5],
            MenuCommand::Notifications => MENU_IDS[6],
            MenuCommand::Camera => MENU_IDS[7],
            MenuCommand::Microphone => MENU_IDS[8],
            MenuCommand::Reload => MENU_IDS[9],
            MenuCommand::ClearSiteData => MENU_IDS[10],
            MenuCommand::CheckUpdate => MENU_IDS[11],
            MenuCommand::GitHub => MENU_IDS[12],
            MenuCommand::Quit => MENU_IDS[13],
        }
    }

    /// The preference that the entry flips, if it flips one.
    pub open spec fn spec_setting_toggle(self) -> Option<SettingToggle> {
        match self {
            MenuCommand::CloseToTray => Some(SettingToggle::CloseToTray),
            MenuCommand::Autostart => Some(SettingToggle::Autostart),
            MenuCommand::StartMinimized => Some(SettingToggle::StartMinimized),
            MenuCommand::PauseWhenHidden => Some(SettingToggle::PauseWhenHidden),
            MenuCommand::Notifications => Some(SettingToggle::Notifications),
            MenuCommand::Camera => Some(SettingToggle::Camera),
            MenuCommand::Microphone => Some(SettingToggle::Microphone),
            _ => None,
        }
    }

    /// The preference that the entry flips, if it flips one.
    pub fn setting_toggle(self) -> (res: Option<SettingToggle>)
        ensures
            res == self.spec_setting_toggle(),
    {
        match self {
            MenuCommand::CloseToTray => Some(SettingToggle::CloseToTray),
            MenuCommand::Autostart => Some(SettingToggle::Autostart),
            MenuCommand::StartMinimized => Some(SettingToggle::StartMinimized),
            MenuCommand::PauseWhenHidden => Some(SettingToggle::PauseWhenHidden),
            MenuCommand::Notifications => Some(SettingToggle::Notifications),
            MenuCommand::Camera => Some(SettingToggle::Camera),
            MenuCommand::Microphone => Some(SettingToggle::Microphone),
            _ => None,
        }
    }
}

/// The entry at `i` of `MENU_IDS`.
pub open spec fn command_at(i: int) -> MenuCommand {
    if i == 0 {
        MenuCommand::Open
    } else if i == 1 {
        MenuCommand::PauseMedia
    } else if i == 2 {
        MenuCommand::CloseToTray
    } else if i == 3 {
        MenuCommand::Autostart
    } else if i == 4 {
        MenuCommand::StartMinimized
    } else if i == 5 {
        MenuCommand::PauseWhenHidden
    } else if i == 6 {
        MenuCommand::Notifications
    } else if i == 7 {
        MenuCommand::Camera
    } else if i == 8 {
        MenuCommand::Microphone
    } else if i == 9 {
        MenuCommand::Reload
    } else if i == 10 {
        MenuCommand::ClearSiteData
    } else if i == 11 {
        MenuCommand::CheckUpdate
    } else if i == 12 {
        MenuCommand::GitHub
    } else {
        MenuCommand::Quit
    }
}


/// No two menu entries share an identifier.
pub proof fn menu_ids_are_distinct()
    ensures
        forall|i: int, j: int|
            0 <= i < j < 14 ==> #[trigger] MENU_IDS@[i]@ != #[trigger] MENU_IDS@[j]@,
{
    reveal_strlit("open");
    reveal_strlit("pause_media");
    reveal_strlit("settings_close_tray");
    reveal_strlit("settings_autostart");
    reveal_strlit("settings_start_minimized");
    reveal_strlit("settings_pause_hidden");
    reveal_strlit("permission_notifications");
    reveal_strlit("permission_camera");
    reveal_strlit("permission_microphone");
    reveal_strlit("reload");
    reveal_strlit("clear_site_data");
    reveal_strlit("check_update");
    reveal_strlit("github");
    reveal_strlit("quit");
    assert forall|i: int, j: int| 0 <= i < j < 14 implies #[trigger] MENU_IDS@[i]@
        != #[trigger] MENU_IDS@[j]@ by {
        assert(MENU_IDS@[i]@.len() != MENU_IDS@[j]@.len() || MENU_IDS@[i]@[0] != MENU_IDS@[j]@[0]
            || MENU_IDS@[i]@[1] != MENU_IDS@[j]@[1] || MENU_IDS@[i]@[9] != MENU_IDS@[j]@[9]
            || MENU_IDS@[i]@[13] != MENU_IDS@[j]@[13]);
    }
}

/// The menu entry that a menu event names: the first whose identifier is
/// `id`, none if no entry has it.
pub fn menu_command(id: &str) -> (res: Option<MenuCommand>)
    ensures
        match res {
            Some(c) => id@ == c.id_text() && forall|k: int|
                0 <= k < c.position() ==> id@ != #[trigger] MENU_IDS@[k]@,
            None => forall|k: int| 0 <= k < 14 ==> id@ != #[trigger] MENU_IDS@[k]@,
        },
        forall|c: MenuCommand| #[trigger] c.id_text() == id@ ==> res == Some(c),
{
    proof {
        menu_ids_are_distinct();
    }
    let mut i: usize = 0;
    while i < 14
        invariant
            i <= 14,
            forall|k: int| 0 <= k < i ==> id@ != #[trigger] MENU_IDS@[k]@,
        decreases 14 - i,
    {
        if same_text(id, MENU_IDS[i]) {
            let c = if i == 0 {
                MenuCommand::Open
            } else if i == 1 {
                MenuCommand::PauseMedia
            } else if i == 2 {
                MenuCommand::CloseToTray
            } else if i == 3 {
                MenuCommand::Autostart
            } else if i == 4 {
                MenuCommand::StartMinimized
            } else if i == 5 {
                MenuCommand::PauseWhenHidden
            } else if i == 6 {
                MenuCommand::Notifications
            } else if i == 7 {
                MenuCommand::Camera
            } else if i == 8 {
                MenuCommand::Microphone
            } else if i == 9 {
                MenuCommand::Reload
            } else if i == 10 {
                MenuCommand::ClearSiteData
            } else if i == 11 {
                MenuCommand::CheckUpdate
            } else if i == 12 {
                MenuCommand::GitHub
            } else {
                MenuCommand::Quit
            };
            assert(c == command_at(i as int) && c.position() == i);
            proof {
                menu_ids_are_distinct();
            }
            assert forall|d: MenuCommand| #[trigger] d.id_text() == id@ implies Some(c) == Some(d) by {
                if d.position() != i {
                    assert(MENU_IDS@[d.position()]@ != MENU_IDS@[i as int]@);
                }
            }
            return Some(c);
        }
        i = i + 1;
    }
    assert forall|d: MenuCommand| #[trigger] d.id_text() == id@ implies false by {
        assert(id@ != MENU_IDS@[d.position()]@);
    }
    None
}

/// `settings` with the preference `toggle` flipped: closing switches
/// between hiding to the tray and exiting; every other preference is a
/// switch that turns over.
pub open spec fn spec_toggled(settings: Settings, toggle: SettingToggle) -> Settings {
    match toggle {
        SettingToggle::CloseToTray => Settings {
            close_behavior: if settings.close_behavior == CloseBehavior::Tray {
                CloseBehavior::Exit
            } else {
                CloseBehavior::Tray
            },
            ..settings
        },
        SettingToggle::Autostart => Settings { autostart: !settings.autostart, ..settings },
        SettingToggle::StartMinimized => Settings {
            start_minimized: !settings.start_minimized,
            ..settings
        },
        SettingToggle::PauseWhenHidden => Settings {
            pause_media_when_hidden: !settings.pause_media_when_hidden,
            ..settings
        },
        SettingToggle::Notifications => Settings {
            allow_notifications: !settings.allow_notifications,
            ..settings
        },
        SettingToggle::Camera => Settings { allow_camera: !settings.allow_camera, ..settings },
        SettingToggle::Microphone => Settings {
            allow_microphone: !settings.allow_microphone,
            ..settings
        },
    }
}

impl Settings {
    /// These settings with one preference flipped, as its menu entry does.
    pub fn toggled(&self, toggle: SettingToggle) -> (res: Settings)
        ensures
            res == spec_toggled(*self, toggle),
    {
        let mut next = *self;
        match toggle {
            SettingToggle::CloseToTray => {
                next.close_behavior = if self.close_behavior == CloseBehavior::Tray {
                    CloseBehavior::Exit
                } else {
                    CloseBehavior::Tray
                };
            },
            SettingToggle::Autostart => {
                next.autostart = !self.autostart;
            },
            SettingToggle::StartMinimized => {
                next.start_minimized = !self.start_minimized;
            },
            SettingToggle::PauseWhenHidden => {
                next.pause_media_when_hidden = !self.pause_media_when_hidden;
            },
            SettingToggle::Notifications => {
                next.allow_notifications = !self.allow_notifications;
            },
            SettingToggle::Camera => {
                next.allow_camera = !self.allow_camera;
            },
            SettingToggle::Microphone => {
                next.allow_microphone = !self.allow_microphone;
            },
        }
        next
    }
}

/// A kind of site permission that the page may ask for.
#[derive(Clone, Copy, Debug, PartialEq, Eq, Structural)]
pub enum PermissionKind {
    Notifications,
    Camera,
    Microphone,
    Geolocation,
    Other,
}

/// Notifications, camera and microphone follow the user's settings;
/// location and every other kind are always refused.
pub open spec fn spec_permission_granted(kind: PermissionKind, settings: Settings) -> bool {
    match kind {
        PermissionKind::Notifications => settings.allow_notifications,
        PermissionKind::Camera => settings.allow_camera,
        PermissionKind::Microphone => settings.allow_microphone,
        PermissionKind::Geolocation => false,
        PermissionKind::Other => false,
    }
}

/// Whether the settings grant a permission of this kind to TikTok.
pub fn permission_granted(kind: PermissionKind, settings: &Settings) -> (res: bool)
    ensures
        res == spec_permission_granted(kind, *settings),
{
    match kind {
        PermissionKind::Notifications => settings.allow_notifications,
        PermissionKind::Camera => settings.allow_camera,
        PermissionKind::Microphone => settings.allow_microphone,
        PermissionKind::Geolocation => false,
        PermissionKind::Other => false,
    }
}

/// Answers a permission request made by the page at `origin`: refused
/// unless the page is `https://www.tiktok.com` and the settings grant the
/// kind.
pub fn permission_request_allowed(origin: &str, kind: PermissionKind, settings: &Settings) -> (res:
    bool)
    ensures
        res == (spec_permission_origin_allowed(url_parse(origin@)) && spec_permission_granted(
            kind,
            *settings,
        )),
{
    if !permission_origin_allowed(origin) {
        return false;
    }
    permission_granted(kind, settings)
}

/// The permission states that the browser profile is brought to at start:
/// notifications, camera and microphone as the settings say, location off.
pub fn profile_permissions(settings: &Settings) -> (res: Vec<(PermissionKind, bool)>)
    ensures
        res@ == seq![
            (PermissionKind::Notifications, settings.allow_notifications),
            (PermissionKind::Camera, settings.allow_camera),
            (PermissionKind::Microphone, settings.allow_microphone),
            (PermissionKind::Geolocation, false),
        ],
{
    let mut res: Vec<(PermissionKind, bool)> = Vec::new();
    res.push((PermissionKind::Notifications, permission_granted(PermissionKind::Notifications, settings)));
    res.push((PermissionKind::Camera, permission_granted(PermissionKind::Camera, settings)));
    res.push((PermissionKind::Microphone, permission_granted(PermissionKind::Microphone, settings)));
    res.push((PermissionKind::Geolocation, permission_granted(PermissionKind::Geolocation, settings)));
    res
}

/// What a resize of the main window does to playback: `Some(true)` to
/// pause, `Some(false)` to stop pausing, `None` to leave it. Minimising
/// pauses when the user asked for it; coming back from minimised stops
/// pausing.
pub open spec fn spec_media_change_on_resize(
    was_minimized: bool,
    is_minimized: bool,
    pause_media_when_hidden: bool,
) -> Option<bool> {
    if is_minimized && pause_media_when_hidden {
        Some(true)
    } else if was_minimized && !is_minimized {
        Some(false)
    } else {
        None
    }
}

/// Decides what a resize of the main window does to playback.
pub fn media_change_on_resize(was_minimized: bool, is_minimized: bool, settings: &Settings) -> (res:
    Option<bool>)
    ensures
        res == spec_media_change_on_resize(
            was_minimized,
            is_minimized,
            settings.pause_media_when_hidden,
        ),
{
    if is_minimized && settings.pause_media_when_hidden {
        Some(true)
    } else if restored_from_minimized(was_minimized, is_minimized) {
        Some(false)
    } else {
        None
    }
}

/// Flipping the same preference twice gives back the settings one started
/// from.
pub proof fn toggling_twice_restores(settings: Settings, toggle: SettingToggle)
    ensures
        spec_toggled(spec_toggled(settings, toggle), toggle) == settings,
{
}

/// Flipping a preference changes those settings: no menu entry is a no-op.
pub proof fn toggling_changes_settings(settings: Settings, toggle: SettingToggle)
    ensures
        spec_toggled(settings, toggle) != settings,
{
}

/// Location is never granted, whatever the settings and whoever asks.
pub proof fn location_is_always_blocked(settings: Settings)
    ensures
        !spec_permission_granted(PermissionKind::Geolocation, settings),
        !spec_permission_granted(PermissionKind::Other, settings),
{
}

/// With the settings of a first start, no permission is granted.
pub proof fn default_settings_grant_nothing(kind: PermissionKind)
    ensures
        !spec_permission_granted(kind, default_settings()),
{
}

/// A page other than `https://www.tiktok.com` is refused every permission.
pub proof fn other_origins_get_no_permission(origin: Seq<char>, kind: PermissionKind, settings: Settings)
    requires
        !spec_permission_origin_allowed(url_parse(origin)),
    ensures
        !(spec_permission_origin_allowed(url_parse(origin)) && spec_permission_granted(kind, settings)),
{
}

/// A resize stops pausing media only when the window comes back from being
/// minimised, and pauses it only when it is minimised and the user asked
/// for pausing.
pub proof fn resize_resumes_only_after_restore(was_minimized: bool, is_minimized: bool, pause: bool)
    ensures
        spec_media_change_on_resize(was_minimized, is_minimized, pause) == Some(false) ==> (
        was_minimized && !is_minimized),
        spec_media_change_on_resize(was_minimized, is_minimized, pause) == Some(true) ==> (
        is_minimized && pause),
{
}

/// A resize pauses media exactly when the window is minimised and the user
/// asked for pausing; otherwise it stops pausing exactly when the window
/// comes back from being minimised, and else leaves playback alone.
pub proof fn resize_change_is_exact(was_minimized: bool, is_minimized: bool, pause: bool)
    ensures
        (spec_media_change_on_resize(was_minimized, is_minimized, pause) == Some(true)) <==> (
        is_minimized && pause),
        (spec_media_change_on_resize(was_minimized, is_minimized, pause) == Some(false)) <==> (
        was_minimized && !is_minimized),
        (spec_media_change_on_resize(was_minimized, is_minimized, pause) is None) <==> (!(
        is_minimized && pause) && !(was_minimized && !is_minimized)),
{
}

/// Each managed permission is granted exactly when the user enabled that
/// one permission, whatever the other preferences are.
pub proof fn granted_follows_own_switch_only(settings: Settings)
    ensures
        spec_permission_granted(PermissionKind::Notifications, settings)
            == settings.allow_notifications,
        spec_permission_granted(PermissionKind::Camera, settings) == settings.allow_camera,
        spec_permission_granted(PermissionKind::Microphone, settings) == settings.allow_microphone,
{
}

/// Two settings that agree on a permission's switch answer requests for it
/// alike, however they differ elsewhere.
pub proof fn granted_ignores_other_preferences(kind: PermissionKind, a: Settings, b: Settings)
    requires
        kind == PermissionKind::Notifications ==> a.allow_notifications == b.allow_notifications,
        kind == PermissionKind::Camera ==> a.allow_camera == b.allow_camera,
        kind == PermissionKind::Microphone ==> a.allow_microphone == b.allow_microphone,
    ensures
        spec_permission_granted(kind, a) == spec_permission_granted(kind, b),
{
}

/// A request from `https://www.tiktok.com` for a managed permission is
/// granted exactly when the user enabled that permission.
pub proof fn tiktok_request_follows_switch(origin: Seq<char>, settings: Settings)
    requires
        spec_permission_origin_allowed(url_parse(origin)),
    ensures
        (spec_permission_origin_allowed(url_parse(origin)) && spec_permission_granted(
            PermissionKind::Microphone,
            settings,
        )) == settings.allow_microphone,
        (spec_permission_origin_allowed(url_parse(origin)) && spec_permission_granted(
            PermissionKind::Camera,
            settings,
        )) == settings.allow_camera,
        (spec_permission_origin_allowed(url_parse(origin)) && spec_permission_granted(
            PermissionKind::Notifications,
            settings,
        )) == settings.allow_notifications,
{
}

/// A toggle changes exactly the preference that it names and keeps every
/// other one.
pub proof fn toggle_changes_only_its_preference(settings: Settings, toggle: SettingToggle)
    ensures
        (spec_toggled(settings, toggle).close_behavior != settings.close_behavior) <==> toggle
            == SettingToggle::CloseToTray,
        (spec_toggled(settings, toggle).autostart != settings.autostart) <==> toggle
            == SettingToggle::Autostart,
        (spec_toggled(settings, toggle).start_minimized != settings.start_minimized) <==> toggle
            == SettingToggle::StartMinimized,
        (spec_toggled(settings, toggle).pause_media_when_hidden
            != settings.pause_media_when_hidden) <==> toggle == SettingToggle::PauseWhenHidden,
        (spec_toggled(settings, toggle).allow_notifications != settings.allow_notifications)
            <==> toggle == SettingToggle::Notifications,
        (spec_toggled(settings, toggle).allow_camera != settings.allow_camera) <==> toggle
            == SettingToggle::Camera,
        (spec_toggled(settings, toggle).allow_microphone != settings.allow_microphone) <==> toggle
            == SettingToggle::Microphone,
{
}

/// Each tray entry that flips a preference flips the one it is named after.
pub proof fn menu_entries_toggle_their_own_preference()
    ensures
        MenuCommand::CloseToTray.spec_setting_toggle() == Some(SettingToggle::CloseToTray),
        MenuCommand::Autostart.spec_setting_toggle() == Some(SettingToggle::Autostart),
        MenuCommand::StartMinimized.spec_setting_toggle() == Some(SettingToggle::StartMinimized),
        MenuCommand::PauseWhenHidden.spec_setting_toggle() == Some(SettingToggle::PauseWhenHidden),
        MenuCommand::Notifications.spec_setting_toggle() == Some(SettingToggle::Notifications),
        MenuCommand::Camera.spec_setting_toggle() == Some(SettingToggle::Camera),
        MenuCommand::Microphone.spec_setting_toggle() == Some(SettingToggle::Microphone),
{
}

} // verus!
