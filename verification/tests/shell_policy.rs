use tiktok_lite::{
    classify_navigation, classify_popup_navigation, lifecycle_action, media_control_script,
    permission_origin_allowed, release_version_is_newer, restored_from_minimized,
    update_error_message, CloseBehavior, LifecycleAction, NavigationAction,
    PopupNavigationAction, Settings, WindowState, MENU_IDS, TIKTOK_URL,
};

#[test]
fn compares_github_release_versions() {
    assert!(release_version_is_newer("v0.2.0", "0.1.9"));
    assert!(release_version_is_newer("1.0.0", "0.9.9"));
    assert!(!release_version_is_newer("v0.1.0", "0.1.0"));
    assert!(!release_version_is_newer("v0.0.9", "0.1.0"));
    assert!(!release_version_is_newer("nightly", "0.1.0"));
    assert!(!release_version_is_newer("v1.0", "0.1.0"));
    assert!(!release_version_is_newer("v1.0.0-beta", "0.1.0"));
}

#[test]
fn maps_update_failures_to_user_messages() {
    assert!(update_error_message(Some(404)).contains("no published release"));
    assert!(update_error_message(Some(429)).contains("temporarily rejected"));
    assert!(update_error_message(None).contains("internet connection"));
}

#[test]
fn settings_defaults_are_safe() {
    let settings = Settings::default();
    assert_eq!(settings.close_behavior, CloseBehavior::Tray);
    assert!(settings.pause_media_when_hidden);
    assert!(!settings.autostart);
    assert!(!settings.start_minimized);
    assert!(!settings.allow_notifications);
    assert!(!settings.allow_camera);
    assert!(!settings.allow_microphone);
}

#[test]
fn restricts_permission_requests_to_exact_tiktok_origin() {
    assert!(permission_origin_allowed("https://www.tiktok.com/"));
    assert!(permission_origin_allowed("https://www.tiktok.com/live"));
    assert!(!permission_origin_allowed("https://tiktok.com/"));
    assert!(!permission_origin_allowed("https://m.tiktok.com/"));
    assert!(!permission_origin_allowed(
        "https://www.tiktok.com.evil.test/"
    ));
    assert!(!permission_origin_allowed("http://www.tiktok.com/"));
    assert!(!permission_origin_allowed("https://www.tiktok.com:8443/"));
}

#[test]
fn navigation_policy_allows_only_https_tiktok_hosts_in_app() {
    assert_eq!(
        classify_navigation("https://www.tiktok.com/foryou"),
        NavigationAction::InApp
    );
    assert_eq!(
        classify_navigation("https://accounts.tiktok.com/login"),
        NavigationAction::InApp
    );
    assert_eq!(
        classify_navigation("https://example.com/video"),
        NavigationAction::ExternalHttps
    );
    assert_eq!(
        classify_navigation("javascript:alert(1)"),
        NavigationAction::Blocked
    );
    assert_eq!(
        classify_navigation("https://not-tiktok.com/"),
        NavigationAction::ExternalHttps
    );
    assert_eq!(
        classify_navigation("http://www.tiktok.com/"),
        NavigationAction::Blocked
    );
}

#[test]
fn popup_policy_allows_only_tiktok_and_required_oauth_hosts() {
    for url in [
        "https://www.tiktok.com/login",
        "https://accounts.tiktok.com/login",
        "https://accounts.google.com/o/oauth2/v2/auth",
        "https://www.facebook.com/v20.0/dialog/oauth",
        "https://appleid.apple.com/auth/authorize",
    ] {
        assert_eq!(
            classify_popup_navigation(url),
            PopupNavigationAction::InPopup
        );
    }
    assert_eq!(
        classify_popup_navigation("https://example.com/"),
        PopupNavigationAction::ExternalHttps
    );
    for url in ["http://accounts.google.com/", "javascript:alert(1)"] {
        assert_eq!(
            classify_popup_navigation(url),
            PopupNavigationAction::Blocked
        );
    }
}

#[test]
fn media_resumes_only_after_minimized_to_restored_transition() {
    assert!(!restored_from_minimized(false, false));
    assert!(!restored_from_minimized(false, true));
    assert!(restored_from_minimized(true, false));
    assert!(!restored_from_minimized(true, true));
}

#[test]
fn close_request_uses_configured_behavior_and_pause_setting() {
    assert_eq!(
        lifecycle_action(WindowState::CloseRequested, &Settings::default()),
        LifecycleAction::HideAndPause
    );

    let no_pause = Settings {
        pause_media_when_hidden: false,
        ..Settings::default()
    };
    assert_eq!(
        lifecycle_action(WindowState::CloseRequested, &no_pause),
        LifecycleAction::Hide
    );

    let exit = Settings {
        close_behavior: CloseBehavior::Exit,
        ..Settings::default()
    };
    assert_eq!(
        lifecycle_action(WindowState::CloseRequested, &exit),
        LifecycleAction::Exit
    );
}

#[test]
fn hidden_window_pauses_only_when_enabled() {
    assert_eq!(
        lifecycle_action(WindowState::Hidden, &Settings::default()),
        LifecycleAction::HideAndPause
    );
    assert_eq!(
        lifecycle_action(WindowState::Visible, &Settings::default()),
        LifecycleAction::Show
    );
}

#[test]
fn media_script_pauses_without_forcing_playback() {
    let paused = media_control_script(true);
    assert!(paused.contains("media.pause()"));
    assert!(paused.contains("MutationObserver"));
    assert!(paused.contains("if (!window.__tiktokLiteMediaPlayListener)"));
    assert!(paused.contains("if (state.paused && event.target.matches?.('video, audio'))"));
    assert_eq!(paused.matches("addEventListener('play'").count(), 1);
    assert!(paused.contains("window.__tiktokLiteMediaPlayListener, true)"));
    assert!(!paused.contains("media.play()"));

    let resumed = media_control_script(false);
    assert!(!resumed.contains("media.play()"));
}

#[test]
fn shell_contract_uses_exact_url_and_menu_ids() {
    assert_eq!(TIKTOK_URL, "https://www.tiktok.com/");
    assert_eq!(
        MENU_IDS,
        [
            "open",
            "pause_media",
            "settings_close_tray",
            "settings_autostart",
            "settings_start_minimized",
            "settings_pause_hidden",
            "permission_notifications",
            "permission_camera",
            "permission_microphone",
            "reload",
            "clear_site_data",
            "check_update",
            "github",
            "quit",
        ]
    );
}
