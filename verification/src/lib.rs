//! Decision logic of a small desktop shell around TikTok Web: which URLs may
//! load in the app, which permission requests are granted, what a window
//! event does to playback and to the saved preferences, where a settings
//! save writes before it replaces the file, and when a GitHub release is
//! newer than the running version.

mod text;
pub mod lifecycle;
pub mod media;
pub mod navigation;
pub mod settings;
pub mod shell;
pub mod storage;
pub mod update;
pub mod version;

pub use lifecycle::{
    lifecycle_action, restored_from_minimized, LifecycleAction, WindowState,
};
pub use media::media_control_script;
pub use navigation::{
    classify_navigation, classify_popup_navigation, permission_origin_allowed, NavigationAction,
    PopupNavigationAction,
};
pub use settings::{CloseBehavior, Settings};
pub use shell::{
    media_change_on_resize, menu_command, permission_granted, permission_request_allowed,
    profile_permissions, MenuCommand, PermissionKind, SettingToggle, MENU_IDS, TIKTOK_URL,
};
pub use storage::{settings_or_default, temporary_file_name};
pub use update::{update_check_outcome, update_error_message, UpdateCheckOutcome};
pub use version::{parse_version, release_version_is_newer};
