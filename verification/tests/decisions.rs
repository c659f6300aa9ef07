use tiktok_lite::{
    classify_navigation, classify_popup_navigation, lifecycle_action, media_change_on_resize,
    media_control_script, menu_command, parse_version, permission_granted,
    permission_origin_allowed, permission_request_allowed, profile_permissions,
    release_version_is_newer, settings_or_default, temporary_file_name, update_check_outcome,
    update_error_message, CloseBehavior, LifecycleAction, MenuCommand, NavigationAction,
    PermissionKind, PopupNavigationAction, SettingToggle, Settings, UpdateCheckOutcome,
    WindowState, MENU_IDS, TIKTOK_URL,
};
use tiktok_lite::navigation::{
    navigation_action_for, permission_origin_allowed_for, popup_navigation_action_for, UrlParts,
};

fn all_enabled() -> Settings {
    Settings {
        close_behavior: CloseBehavior::Exit,
        autostart: true,
        start_minimized: true,
        pause_media_when_hidden: false,
        allow_notifications: true,
        allow_camera: true,
        allow_microphone: true,
    }
}

#[test]
fn version_tags_read_as_three_numbers() {
    assert_eq!(parse_version("v1.2.3"), Some((1, 2, 3)));
    assert_eq!(parse_version("1.2.3"), Some((1, 2, 3)));
    assert_eq!(parse_version("01.002.0"), Some((1, 2, 0)));
    assert_eq!(parse_version("+1.2.+3"), Some((1, 2, 3)));
    assert_eq!(
        parse_version("18446744073709551615.0.0"),
        Some((u64::MAX, 0, 0))
    );
    assert_eq!(parse_version("18446744073709551616.0.0"), None);
    assert_eq!(parse_version("vv1.2.3"), None);
    assert_eq!(parse_version("V1.2.3"), None);
    assert_eq!(parse_version("1.2.3.4"), None);
    assert_eq!(parse_version("1.2"), None);
    assert_eq!(parse_version("1..3"), None);
    assert_eq!(parse_version("1.2.3 "), None);
    assert_eq!(parse_version("-1.2.3"), None);
    assert_eq!(parse_version("+.2.3"), None);
    assert_eq!(parse_version(""), None);
    assert_eq!(parse_version("v"), None);
    assert_eq!(parse_version("1.٢.3"), None);
}

#[test]
fn versions_compare_by_number_not_by_text() {
    assert!(release_version_is_newer("v1.10.0", "1.9.9"));
    assert!(!release_version_is_newer("1.9.9", "v1.10.0"));
    assert!(release_version_is_newer("0.1.10", "0.1.9"));
    assert!(release_version_is_newer("2.0.0", "1.99.99"));
    assert!(!release_version_is_newer("1.2.3", "v1.2.3"));
    assert!(!release_version_is_newer("0.1.0", "garbage"));
    assert!(!release_version_is_newer("garbage", "0.1.0"));
}

#[test]
fn url_parser_normalises_before_the_policy_decides() {
    assert_eq!(
        classify_navigation("https://TIKTOK.COM/"),
        NavigationAction::InApp
    );
    assert!(permission_origin_allowed("https://www.tiktok.com:443/"));
    assert!(permission_origin_allowed("HTTPS://WWW.TIKTOK.COM/live"));
    assert_eq!(classify_navigation(TIKTOK_URL), NavigationAction::InApp);
}

#[test]
fn lookalike_hosts_leave_the_app() {
    assert_eq!(
        classify_navigation("https://eviltiktok.com/"),
        NavigationAction::ExternalHttps
    );
    assert_eq!(
        classify_navigation("https://tiktok.com.evil.test/"),
        NavigationAction::ExternalHttps
    );
    assert_eq!(
        classify_navigation("https://evil.test/.tiktok.com"),
        NavigationAction::ExternalHttps
    );
    assert_eq!(
        classify_navigation("https://[::1]/"),
        NavigationAction::ExternalHttps
    );
    assert_eq!(
        classify_popup_navigation("https://accounts.google.com.evil.test/"),
        PopupNavigationAction::ExternalHttps
    );
    assert_eq!(
        classify_popup_navigation("https://google.com/"),
        PopupNavigationAction::ExternalHttps
    );
}

#[test]
fn unparsable_and_hostless_urls_are_blocked() {
    assert_eq!(classify_navigation("not a url"), NavigationAction::Blocked);
    assert_eq!(classify_navigation(""), NavigationAction::Blocked);
    assert_eq!(classify_navigation("file:///tmp/x"), NavigationAction::Blocked);
    assert_eq!(
        classify_navigation("data:text/html,hello"),
        NavigationAction::Blocked
    );
    assert_eq!(
        classify_popup_navigation("ftp://tiktok.com/"),
        PopupNavigationAction::Blocked
    );
    assert!(!permission_origin_allowed("not a url"));
}

#[test]
fn permission_requests_follow_origin_and_settings() {
    let on = all_enabled();
    let off = Settings::default();
    let origin = "https://www.tiktok.com/live";
    assert!(permission_request_allowed(origin, PermissionKind::Camera, &on));
    assert!(permission_request_allowed(origin, PermissionKind::Microphone, &on));
    assert!(permission_request_allowed(origin, PermissionKind::Notifications, &on));
    assert!(!permission_request_allowed(origin, PermissionKind::Geolocation, &on));
    assert!(!permission_request_allowed(origin, PermissionKind::Other, &on));
    assert!(!permission_request_allowed(origin, PermissionKind::Camera, &off));
    assert!(!permission_request_allowed(
        "https://m.tiktok.com/",
        PermissionKind::Camera,
        &on
    ));
    let camera_only = Settings {
        allow_camera: true,
        ..Settings::default()
    };
    assert!(permission_granted(PermissionKind::Camera, &camera_only));
    assert!(!permission_granted(PermissionKind::Microphone, &camera_only));
}

#[test]
fn profile_permissions_keep_location_off() {
    assert_eq!(
        profile_permissions(&all_enabled()),
        vec![
            (PermissionKind::Notifications, true),
            (PermissionKind::Camera, true),
            (PermissionKind::Microphone, true),
            (PermissionKind::Geolocation, false),
        ]
    );
    assert_eq!(
        profile_permissions(&Settings::default()),
        vec![
            (PermissionKind::Notifications, false),
            (PermissionKind::Camera, false),
            (PermissionKind::Microphone, false),
            (PermissionKind::Geolocation, false),
        ]
    );
}

#[test]
fn menu_ids_name_their_commands() {
    let commands = [
        MenuCommand::Open,
        MenuCommand::PauseMedia,
        MenuCommand::CloseToTray,
        MenuCommand::Autostart,
        MenuCommand::StartMinimized,
        MenuCommand::PauseWhenHidden,
        MenuCommand::Notifications,
        MenuCommand::Camera,
        MenuCommand::Microphone,
        MenuCommand::Reload,
        MenuCommand::ClearSiteData,
        MenuCommand::CheckUpdate,
        MenuCommand::GitHub,
        MenuCommand::Quit,
    ];
    for (i, command) in commands.iter().enumerate() {
        assert_eq!(command.id(), MENU_IDS[i]);
        assert_eq!(menu_command(MENU_IDS[i]), Some(*command));
    }
    assert_eq!(menu_command("quit"), Some(MenuCommand::Quit));
    assert_eq!(menu_command("Quit"), None);
    assert_eq!(menu_command(""), None);
    assert_eq!(menu_command("open "), None);
}

#[test]
fn menu_toggles_flip_one_preference() {
    let start = Settings::default();
    let closed = start.toggled(SettingToggle::CloseToTray);
    assert_eq!(closed.close_behavior, CloseBehavior::Exit);
    assert_eq!(closed.toggled(SettingToggle::CloseToTray), start);
    let camera = start.toggled(SettingToggle::Camera);
    assert_eq!(
        camera,
        Settings {
            allow_camera: true,
            ..start
        }
    );
    let paused = start.toggled(SettingToggle::PauseWhenHidden);
    assert!(!paused.pause_media_when_hidden);
    assert_eq!(
        MenuCommand::Microphone.setting_toggle(),
        Some(SettingToggle::Microphone)
    );
    assert_eq!(MenuCommand::Reload.setting_toggle(), None);
    for toggle in [
        SettingToggle::CloseToTray,
        SettingToggle::Autostart,
        SettingToggle::StartMinimized,
        SettingToggle::PauseWhenHidden,
        SettingToggle::Notifications,
        SettingToggle::Camera,
        SettingToggle::Microphone,
    ] {
        assert_ne!(start.toggled(toggle), start);
        assert_eq!(start.toggled(toggle).toggled(toggle), start);
    }
}

#[test]
fn resize_pauses_when_minimised_and_resumes_on_restore() {
    let pausing = Settings::default();
    let not_pausing = Settings {
        pause_media_when_hidden: false,
        ..Settings::default()
    };
    assert_eq!(media_change_on_resize(false, true, &pausing), Some(true));
    assert_eq!(media_change_on_resize(true, true, &pausing), Some(true));
    assert_eq!(media_change_on_resize(true, false, &pausing), Some(false));
    assert_eq!(media_change_on_resize(false, false, &pausing), None);
    assert_eq!(media_change_on_resize(false, true, &not_pausing), None);
    assert_eq!(media_change_on_resize(true, false, &not_pausing), Some(false));
}

#[test]
fn minimised_window_without_pausing_only_hides() {
    let settings = Settings {
        pause_media_when_hidden: false,
        close_behavior: CloseBehavior::Exit,
        ..Settings::default()
    };
    assert_eq!(
        lifecycle_action(WindowState::Minimized, &settings),
        LifecycleAction::Hide
    );
    assert_eq!(
        lifecycle_action(WindowState::Hidden, &settings),
        LifecycleAction::Hide
    );
    assert_eq!(
        lifecycle_action(WindowState::Visible, &settings),
        LifecycleAction::Show
    );
}

#[test]
fn media_script_carries_the_pause_flag() {
    let paused = media_control_script(true);
    let resumed = media_control_script(false);
    assert!(paused.starts_with("(() => {"));
    assert!(paused.ends_with("})();"));
    assert!(paused.contains("state.paused = true;"));
    assert!(resumed.contains("state.paused = false;"));
    assert_eq!(resumed.len(), paused.len() + 1);
    assert_eq!(paused.replace("state.paused = true;", "state.paused = false;"), resumed);
}

#[test]
fn temporary_names_are_hidden_and_numbered() {
    assert_eq!(
        temporary_file_name("settings.json", 4242, 0),
        ".settings.json.4242.0.tmp"
    );
    assert_eq!(
        temporary_file_name("settings.json", 0, 18446744073709551615),
        ".settings.json.0.18446744073709551615.tmp"
    );
    assert_eq!(temporary_file_name("", 10, 305), "..10.305.tmp");
    assert_ne!(
        temporary_file_name("settings.json", 1, 23),
        temporary_file_name("settings.json", 12, 3)
    );
    assert_ne!(temporary_file_name("a.json", 7, 1), "a.json.tmp");
}

#[test]
fn missing_or_unreadable_settings_fall_back_to_defaults() {
    assert_eq!(settings_or_default(None), Settings::default());
    assert_eq!(settings_or_default(Some(all_enabled())), all_enabled());
}

#[test]
fn update_check_outcomes() {
    assert_eq!(
        update_check_outcome(Ok("v9.0.0"), "0.1.0"),
        UpdateCheckOutcome::Available
    );
    assert_eq!(
        update_check_outcome(Ok("v0.1.0"), "0.1.0"),
        UpdateCheckOutcome::UpToDate
    );
    assert_eq!(
        update_check_outcome(Ok("nightly"), "0.1.0"),
        UpdateCheckOutcome::UpToDate
    );
    assert_eq!(
        update_check_outcome(Err(Some(500)), "0.1.0"),
        UpdateCheckOutcome::Failed(Some(500))
    );
    assert_eq!(
        update_check_outcome(Err(None), "0.1.0"),
        UpdateCheckOutcome::Failed(None)
    );
}

#[test]
fn update_error_messages_are_exact() {
    assert_eq!(
        update_error_message(Some(404)),
        "Release not found. The repository may have no published release."
    );
    assert_eq!(
        update_error_message(Some(403)),
        "GitHub temporarily rejected the update check. Please try again later."
    );
    assert_eq!(
        update_error_message(Some(500)),
        "GitHub could not complete the update check. Please try again later."
    );
    assert_eq!(
        update_error_message(None),
        "Could not reach GitHub. Check your internet connection and try again."
    );
}

fn parts(scheme: &str, host: Option<&str>, port: Option<u16>) -> Option<UrlParts> {
    Some(UrlParts {
        scheme: scheme.to_string(),
        host: host.map(|h| h.to_string()),
        port,
    })
}

#[test]
fn policies_on_given_url_parts() {
    assert_eq!(
        navigation_action_for(&parts("https", Some("tiktok.com"), None)),
        NavigationAction::InApp
    );
    assert_eq!(
        navigation_action_for(&parts("https", Some("a.b.tiktok.com"), Some(8443))),
        NavigationAction::InApp
    );
    assert_eq!(
        navigation_action_for(&parts("https", Some(".tiktok.com"), None)),
        NavigationAction::InApp
    );
    assert_eq!(
        navigation_action_for(&parts("https", Some("xtiktok.com"), None)),
        NavigationAction::ExternalHttps
    );
    assert_eq!(
        navigation_action_for(&parts("https", None, None)),
        NavigationAction::Blocked
    );
    assert_eq!(
        navigation_action_for(&parts("HTTPS", Some("tiktok.com"), None)),
        NavigationAction::Blocked
    );
    assert_eq!(navigation_action_for(&None), NavigationAction::Blocked);
    assert_eq!(
        popup_navigation_action_for(&parts("https", Some("appleid.apple.com"), None)),
        PopupNavigationAction::InPopup
    );
    assert_eq!(
        popup_navigation_action_for(&parts("https", Some("apple.com"), None)),
        PopupNavigationAction::ExternalHttps
    );
    assert_eq!(
        popup_navigation_action_for(&parts("wss", Some("tiktok.com"), None)),
        PopupNavigationAction::Blocked
    );
    assert!(permission_origin_allowed_for(&parts(
        "https",
        Some("www.tiktok.com"),
        None
    )));
    assert!(!permission_origin_allowed_for(&parts(
        "https",
        Some("www.tiktok.com"),
        Some(443)
    )));
    assert!(!permission_origin_allowed_for(&parts(
        "https",
        Some("tiktok.com"),
        None
    )));
    assert!(!permission_origin_allowed_for(&None));
}
