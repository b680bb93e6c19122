use windowautolayout::matching::{names_match, title_matches, window_matches_app};
use windowautolayout::models::preset_apps;
use windowautolayout::models::{
    AppConfig, LayoutRect, MatchRule, TitleMatchMode, WindowInfo, WindowStatePreference,
};
use windowautolayout::selection::{
    app_for_restore_launch, launch_detection_timeout_seconds, launch_window_is_ready,
    should_restore_through_qt_tray, should_show_matched_windows,
};

fn window(title: &str, class_name: &str, process_name: &str, visible: bool) -> WindowInfo {
    WindowInfo {
        handle: "0x1".into(),
        title: title.into(),
        class_name: class_name.into(),
        process_id: 10,
        process_name: process_name.into(),
        executable_path: None,
        monitor_id: None,
        x: 0,
        y: 0,
        width: 100,
        height: 100,
        is_visible: visible,
        is_minimized: false,
        is_maximized: false,
    }
}

fn obs() -> AppConfig {
    AppConfig::new_preset("obs", "OBS Studio", "obs64.exe", LayoutRect::default())
}

#[test]
fn process_names_match_with_or_without_exe() {
    assert!(names_match("Discord.exe", "Discord.exe"));
    assert!(names_match("Discord", "Discord.exe"));
    assert!(names_match("Discord.exe", "Discord"));
    assert!(names_match("GitHub.exe", "GitHubDesktop.exe"));
}

#[test]
fn title_rules_cover_common_modes() {
    let rule = MatchRule {
        mode: TitleMatchMode::Contains,
        value: "studio".into(),
        case_sensitive: false,
    };
    assert!(title_matches("OBS Studio", &rule));
}

#[test]
fn rejects_empty_titles_by_default() {
    let app = AppConfig {
        id: "app".into(),
        display_name: "App".into(),
        executable_path: None,
        arguments: vec![],
        working_directory: None,
        process_name: Some("app.exe".into()),
        title_rule: None,
        class_name: None,
        target_monitor_id: None,
        captured_display: None,
        layout: LayoutRect::default(),
        window_state: WindowStatePreference::Normal,
        launch_delay_seconds: 0,
        detection_timeout_seconds: 1,
        retry_interval_ms: 100,
        move_if_running: true,
        force_resize: true,
        apply_to_all_matching_windows: false,
        restore_if_minimized: true,
        pull_hidden_windows: true,
        wake_running_process: true,
        allow_empty_title: false,
        notes: None,
    };
    let window = window("", "AppWindow", "app.exe", true);
    let window = WindowInfo { process_id: 1, ..window };

    assert!(!window_matches_app(&window, &app, None));
}

#[test]
fn accepts_hidden_window_when_pull_is_enabled() {
    let mut app = obs();
    app.pull_hidden_windows = true;
    let window = window(
        "OBS 32.1.2 - Profile: Untitled - Scenes: Untitled",
        "QtWindow",
        "obs64.exe",
        false,
    );

    assert!(window_matches_app(&window, &app, None));
    assert!(should_show_matched_windows(&app, &vec![window]));
}

#[test]
fn does_not_show_when_a_matching_window_is_visible() {
    let app = obs();
    let window = window("OBS Studio", "QtWindow", "obs64.exe", true);

    assert!(!should_show_matched_windows(&app, &vec![window]));
}

#[test]
fn uses_obs_tray_restore_only_for_hidden_windows() {
    let app = obs();
    let mut window = window("OBS Studio", "QtWindow", "obs64.exe", false);

    assert!(should_restore_through_qt_tray(&app, &vec![window.clone()]));

    window.is_visible = true;
    window.is_minimized = true;
    assert!(!should_restore_through_qt_tray(&app, &vec![window]));
}

#[test]
fn caps_openlaunchdeck_launch_detection_timeout() {
    let mut openlaunchdeck = AppConfig::new_preset(
        "openlaunchdeck",
        "OpenLaunchDeck",
        "OpenLaunchDeck.exe",
        LayoutRect::default(),
    );
    openlaunchdeck.detection_timeout_seconds = 25;
    assert_eq!(launch_detection_timeout_seconds(&openlaunchdeck), 5);

    let mut obs = obs();
    obs.detection_timeout_seconds = 25;
    assert_eq!(launch_detection_timeout_seconds(&obs), 25);
}

#[test]
fn launched_apps_wait_past_small_splash_windows() {
    let mut app = AppConfig::new_preset(
        "vesktop",
        "Vesktop",
        "vesktop.exe",
        LayoutRect { x: 1920, y: 0, width: 1920, height: 1080 },
    );
    let mut window = WindowInfo {
        width: 320,
        height: 320,
        ..window("Loading", "Chrome_WidgetWin_1", "vesktop.exe", true)
    };

    assert!(!launch_window_is_ready(&app, &window));

    window.width = 1600;
    window.height = 900;
    assert!(launch_window_is_ready(&app, &window));

    app.force_resize = false;
    window.width = 320;
    window.height = 320;
    assert!(launch_window_is_ready(&app, &window));
}

#[test]
fn openlaunchdeck_restore_launch_requests_visible_window() {
    let mut app = AppConfig::new_preset(
        "openlaunchdeck",
        "OpenLaunchDeck",
        "OpenLaunchDeck.exe",
        LayoutRect::default(),
    );
    app.arguments = vec![
        "--background".into(),
        "--start-minimized".into(),
        "--custom-option".into(),
    ];

    let launch_config = app_for_restore_launch(&app);

    assert_eq!(
        launch_config.arguments,
        vec!["--custom-option".to_string(), "--show".to_string()]
    );
    assert_eq!(app.arguments.len(), 3);
}

#[test]
fn rejects_hidden_window_when_pull_is_disabled() {
    let mut app = obs();
    app.pull_hidden_windows = false;
    let window = window("OBS Studio", "QtWindow", "obs64.exe", false);

    assert!(!window_matches_app(&window, &app, None));
}

#[test]
fn accepts_obs_main_window_without_explicit_title_rule() {
    let mut app = obs();
    app.title_rule = None;
    let window = WindowInfo {
        width: 1200,
        height: 800,
        ..window(
            "OBS 32.1.2 - Profile: Untitled - Scenes: Untitled",
            "Qt672QWindowIcon",
            "obs64.exe",
            true,
        )
    };

    assert!(window_matches_app(&window, &app, None));
}

#[test]
fn rejects_obs_dock_window_without_explicit_title_rule() {
    let mut app = obs();
    app.title_rule = None;
    let window = WindowInfo {
        width: 420,
        height: 500,
        ..window("Stats", "Qt672QWindowIcon", "obs64.exe", true)
    };

    assert!(!window_matches_app(&window, &app, None));
}

#[test]
fn broad_obs_title_rule_still_rejects_tool_windows() {
    let mut app = obs();
    app.title_rule = Some(MatchRule {
        mode: TitleMatchMode::StartsWith,
        value: "OBS".into(),
        case_sensitive: false,
    });
    let window = WindowInfo {
        width: 420,
        height: 500,
        ..window("OBS Stats", "Qt683QWindowIcon", "obs64.exe", true)
    };

    assert!(!window_matches_app(&window, &app, None));
}

#[test]
fn allows_obs_dock_window_with_explicit_title_rule() {
    let mut app = obs();
    app.title_rule = Some(MatchRule {
        mode: TitleMatchMode::Exact,
        value: "Stats".into(),
        case_sensitive: false,
    });
    let window = WindowInfo {
        width: 420,
        height: 500,
        ..window("Stats", "Qt672QWindowIcon", "obs64.exe", true)
    };

    assert!(window_matches_app(&window, &app, None));
}

#[test]
fn regex_title_rule_matches_through_the_regex_crate() {
    let rule = MatchRule {
        mode: TitleMatchMode::Regex,
        value: "^obs \\d+".into(),
        case_sensitive: false,
    };
    assert!(title_matches("OBS 30.1", &rule));
    assert!(!title_matches("Stats", &rule));
    let broken = MatchRule {
        mode: TitleMatchMode::Regex,
        value: "[".into(),
        case_sensitive: false,
    };
    assert!(!title_matches("[", &broken));
}

#[test]
fn case_sensitive_title_rule_respects_case() {
    let rule = MatchRule {
        mode: TitleMatchMode::EndsWith,
        value: "Studio".into(),
        case_sensitive: true,
    };
    assert!(title_matches("OBS Studio", &rule));
    assert!(!title_matches("OBS studio", &rule));
}

#[test]
fn names_match_is_reflexive_on_examples() {
    for name in ["obs64.exe", " Discord ", "", "GitHubDesktop.exe"] {
        assert!(names_match(name, name));
    }
}

#[test]
fn launched_process_window_matches_even_when_hidden() {
    let mut app = obs();
    app.pull_hidden_windows = false;
    let window = window("OBS 30.0", "QtWindow", "obs64.exe", false);
    assert!(window_matches_app(&window, &app, Some(10)));
    assert!(!window_matches_app(&window, &app, Some(11)));
}

#[test]
fn restore_launch_keeps_other_apps_arguments() {
    let mut app = obs();
    app.arguments = vec!["--startreplaybuffer".into(), "--show".into()];
    let launch_config = app_for_restore_launch(&app);
    assert_eq!(launch_config.arguments, app.arguments);
}

#[test]
fn presets_cover_the_built_in_apps() {
    let presets = preset_apps();
    let ids: Vec<&str> = presets.iter().map(|a| a.id.as_str()).collect();
    assert_eq!(
        ids,
        vec![
            "preset-obs",
            "preset-discord",
            "preset-steam",
            "preset-spotify",
            "preset-chrome",
            "preset-firefox",
            "preset-edge",
            "preset-github-desktop",
        ]
    );
    let names: Vec<&str> = presets.iter().map(|a| a.display_name.as_str()).collect();
    assert_eq!(
        names,
        vec!["OBS Studio", "Discord", "Steam", "Spotify", "Chrome", "Firefox", "Microsoft Edge", "GitHub Desktop"]
    );
    assert_eq!(
        presets[0].title_rule,
        Some(MatchRule { mode: TitleMatchMode::StartsWith, value: "OBS".into(), case_sensitive: false })
    );
    assert_eq!(
        presets[7].title_rule,
        Some(MatchRule {
            mode: TitleMatchMode::Contains,
            value: "GitHub Desktop".into(),
            case_sensitive: false
        })
    );
    assert_eq!(presets[7].detection_timeout_seconds, 45);
    for preset in &presets[1..7] {
        assert_eq!(preset.title_rule, None);
        assert_eq!(preset.detection_timeout_seconds, 25);
    }
    assert_eq!(presets[1].layout, LayoutRect { x: 1280, y: 0, width: 640, height: 720 });
}
