use windowautolayout::capture::{
    capture_current_layout, capture_window_candidate, captured_apps_for_windows, save_window_layout,
    slug,
};
use windowautolayout::errors::AppError;
use windowautolayout::placement::absolute_rect;
use windowautolayout::restore::{restore_layout_for_monitor, MonitorResolution};
use windowautolayout::models::{
    MonitorInfo, TitleMatchMode, WindowAutoLayoutConfig, WindowInfo, WindowStatePreference,
};

fn monitor(id: &str, x: i32, y: i32, width: i32, height: i32) -> MonitorInfo {
    MonitorInfo {
        id: id.to_string(),
        name: id.to_string(),
        device_name: id.to_string(),
        x,
        y,
        width,
        height,
        work_x: x,
        work_y: y,
        work_width: width,
        work_height: height,
        scale_percent: 100,
        is_primary: false,
    }
}

fn window(
    process_name: &str,
    title: &str,
    monitor_id: &str,
    x: i32,
    y: i32,
    width: i32,
    height: i32,
) -> WindowInfo {
    WindowInfo {
        handle: format!("0x{:X}", x.abs() + y.abs() + width + height + 1),
        title: title.to_string(),
        class_name: "AppWindow".to_string(),
        process_id: 42,
        process_name: process_name.to_string(),
        executable_path: Some(format!("C:\\Apps\\{process_name}")),
        monitor_id: Some(monitor_id.to_string()),
        x,
        y,
        width,
        height,
        is_visible: true,
        is_minimized: false,
        is_maximized: false,
    }
}

#[test]
fn capture_candidates_skip_self_and_wrong_monitor() {
    let target = monitor("display-2", -1920, 0, 1920, 1080);
    let mut candidate = window("Discord.exe", "Discord", "display-2", -800, 100, 700, 600);
    assert!(capture_window_candidate(&candidate, &target));

    candidate.is_minimized = true;
    assert!(!capture_window_candidate(&candidate, &target));

    let self_window =
        window("WindowAutoLayout.exe", "WindowAutoLayout", "display-2", -800, 100, 700, 600);
    assert!(!capture_window_candidate(&self_window, &target));

    let other_monitor = window("Discord.exe", "Discord", "display-1", 100, 100, 700, 600);
    assert!(!capture_window_candidate(&other_monitor, &target));
}

#[test]
fn capture_uses_monitor_id_before_overlap() {
    let target = monitor("display-2", -1920, 0, 1920, 1080);
    let barely_overlapping = window("Chat.exe", "Chat", "display-1", -10, 100, 600, 500);

    assert!(!capture_window_candidate(&barely_overlapping, &target));
}

#[test]
fn capture_uses_window_center_when_monitor_id_is_missing() {
    let target = monitor("display-2", -1920, 0, 1920, 1080);
    let mut centered = window("Chat.exe", "Chat", "display-unknown", -1000, 100, 600, 500);
    centered.monitor_id = None;
    assert!(capture_window_candidate(&centered, &target));

    let mut off_target = window("Chat.exe", "Chat", "display-unknown", 100, 100, 600, 500);
    off_target.monitor_id = None;
    assert!(!capture_window_candidate(&off_target, &target));
}

#[test]
fn captured_apps_use_target_monitor_layout_and_duplicate_title_rules() {
    let target = monitor("display-2", -1920, 160, 1920, 1080);
    let windows = vec![
        window("chrome.exe", "Docs", "display-2", -1900, 200, 900, 700),
        window("chrome.exe", "Calendar", "display-2", -980, 200, 900, 700),
        window("obs64.exe", "OBS 32.1.2 - Profile", "display-2", -1900, 920, 1200, 300),
    ];

    let apps = captured_apps_for_windows(&target, &windows);
    assert_eq!(apps.len(), 3);
    assert_eq!(apps[0].layout.x, 20);
    assert_eq!(apps[0].layout.y, 40);
    assert_eq!(apps[0].target_monitor_id.as_deref(), Some("display-2"));

    let chrome_rule = apps[0].title_rule.as_ref().expect("duplicate chrome title rule");
    assert!(matches!(&chrome_rule.mode, TitleMatchMode::Exact));
    assert_eq!(chrome_rule.value, "Docs");

    let obs_rule = apps[2].title_rule.as_ref().expect("obs title rule");
    assert!(matches!(&obs_rule.mode, TitleMatchMode::StartsWith));
    assert_eq!(obs_rule.value, "OBS");
    assert_eq!(apps[2].display_name, "OBS Studio");
}

#[test]
fn capture_preserves_maximized_window_state() {
    let target = monitor("display-1", 0, 0, 1920, 1080);
    let mut maximized = window("Editor.exe", "Editor", "display-1", 0, 0, 1920, 1080);
    maximized.is_maximized = true;

    let apps = captured_apps_for_windows(&target, &vec![maximized]);

    assert_eq!(apps[0].window_state, WindowStatePreference::Maximized);
}

#[test]
fn captured_ids_are_slugs_numbered_from_one() {
    let target = monitor("display-1", 0, 0, 1920, 1080);
    let apps = captured_apps_for_windows(
        &target,
        &vec![window("My App!.exe", "Main", "display-1", 0, 0, 800, 600)],
    );
    assert_eq!(apps[0].id, "captured-my-app-1");
    assert_eq!(slug("--Hello,  World--"), "hello-world");
    assert_eq!(slug("???"), "window");
}

#[test]
fn capture_current_layout_replaces_the_profile_apps_in_reading_order() {
    let config = WindowAutoLayoutConfig::default();
    let monitors = vec![monitor("display-1", 0, 0, 1920, 1080)];
    let windows = vec![
        window("b.exe", "Lower", "display-1", 0, 500, 400, 300),
        window("a.exe", "Upper", "display-1", 600, 0, 400, 300),
        window("c.exe", "Elsewhere", "display-2", 0, 0, 400, 300),
    ];
    let result = capture_current_layout(config, "profile-streaming".into(), "display-1", &monitors, &windows)
        .expect("capture");
    assert_eq!(result.captured_count, 2);
    assert_eq!(result.skipped_count, 1);
    assert_eq!(result.captured_windows[0].title, "Upper");
    assert_eq!(result.captured_windows[1].title, "Lower");
    let profile = &result.config.profiles[0];
    assert_eq!(profile.target_monitor_id.as_deref(), Some("display-1"));
    assert_eq!(profile.apps.len(), 2);
}

#[test]
fn capture_current_layout_reports_each_failure() {
    let monitors = vec![monitor("display-1", 0, 0, 1920, 1080)];
    let windows = vec![window("a.exe", "A", "display-1", 0, 0, 400, 300)];
    let missing_monitor =
        capture_current_layout(WindowAutoLayoutConfig::default(), "p".into(), "nope", &monitors, &windows);
    assert_eq!(missing_monitor.err(), Some(AppError::MonitorNotFound));
    let empty =
        capture_current_layout(WindowAutoLayoutConfig::default(), "p".into(), "display-1", &monitors, &Vec::new());
    assert_eq!(
        empty.err().map(|e| e.message()),
        Some("Config error: No visible windows were found on display-1".to_string())
    );
    let no_profile =
        capture_current_layout(WindowAutoLayoutConfig::default(), "p".into(), "display-1", &monitors, &windows);
    assert_eq!(no_profile.err(), Some(AppError::ProfileNotFound("p".into())));
}

#[test]
fn save_window_layout_records_the_window_position() {
    let config = WindowAutoLayoutConfig::default();
    let app_id = config.profiles[0].apps[0].id.clone();
    let monitors = vec![monitor("display-1", -1920, 0, 1920, 1080)];
    let w = window("obs64.exe", "OBS", "display-1", -1800, 40, 1000, 700);
    let saved = save_window_layout(config, "profile-streaming", &app_id, &w, &monitors).expect("saved");
    let app = &saved.profiles[0].apps[0];
    assert_eq!(app.layout.x, 120);
    assert_eq!(app.layout.y, 40);
    assert_eq!(app.layout.width, 1000);
    assert_eq!(app.target_monitor_id.as_deref(), Some("display-1"));
    assert_eq!(app.captured_display.map(|d| d.width), Some(1920));
    let unknown = save_window_layout(WindowAutoLayoutConfig::default(), "profile-streaming", "nope", &w, &monitors);
    assert_eq!(unknown.err(), Some(AppError::AppNotFound("nope".into())));
}

#[test]
fn saved_window_is_restored_to_the_same_rectangle() {
    let config = WindowAutoLayoutConfig::default();
    let app_id = config.profiles[0].apps[1].id.clone();
    let target = monitor("display-2", -1920, 0, 1920, 1080);
    let monitors = vec![monitor("display-1", 0, 0, 2560, 1440), target.clone()];
    let w = window("Discord.exe", "Discord", "display-2", -1500, 60, 900, 800);
    let saved = save_window_layout(config, "profile-streaming", &app_id, &w, &monitors).expect("saved");
    let profile = &saved.profiles[0];
    let app = &profile.apps[1];
    let resolution = MonitorResolution { monitor: target.clone(), is_fallback: false };
    let layout = restore_layout_for_monitor(profile, app, &resolution);
    assert_eq!(layout, app.layout);
    let rect = absolute_rect(&target, &layout);
    assert_eq!((rect.left, rect.top, rect.right, rect.bottom), (-1500, 60, -600, 860));
}

#[test]
fn captured_windows_that_tie_keep_their_listed_order() {
    let monitors = vec![monitor("display-1", 0, 0, 1920, 1080)];
    let mut first = window("a.exe", "Same", "display-1", 100, 100, 400, 300);
    first.process_id = 1;
    let mut second = window("a.exe", "Same", "display-1", 100, 100, 500, 400);
    second.process_id = 2;
    let result = capture_current_layout(
        WindowAutoLayoutConfig::default(),
        "profile-streaming".into(),
        "display-1",
        &monitors,
        &vec![second, first],
    )
    .expect("capture");
    let profile = &result.config.profiles[0];
    assert_eq!(profile.apps.len(), 2);
    assert_eq!(profile.apps[0].layout.width, 500);
    assert_eq!(profile.apps[1].layout.width, 400);
}
