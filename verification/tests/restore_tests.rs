use windowautolayout::app_restore::{
    interactive_mode, silent_mode, AppRestore, RestoreAction, RestoreEvent,
};
use windowautolayout::models::{
    AppConfig, AppRestoreResult, AppRestoreStatus, CapturedDisplay, LayoutRect, MonitorInfo,
    MonitorMissingBehavior, Profile, RestoreStatus, WindowAutoLayoutConfig, WindowInfo,
};
use windowautolayout::placement::{
    adjust_rect_for_frame_margins, absolute_rect, keep_layout_visible_on_monitor, relative_rect,
    scaled_layout_for_monitor, scaled_layout_from_captured_display, surface_samples_are_blank,
    window_layout_is_current, FrameMargins, Rect,
};
use windowautolayout::restore::{
    nearest_monitor_for_profile, paused_restore_result, resolve_profile, resolve_profile_monitor,
    restore_status,
};
use windowautolayout::selection::find_matching_windows;

fn test_monitor(id: &str, is_primary: bool, x: i32, y: i32, width: i32, height: i32) -> MonitorInfo {
    MonitorInfo {
        id: id.into(),
        name: id.into(),
        device_name: id.into(),
        x,
        y,
        width,
        height,
        work_x: x,
        work_y: y,
        work_width: width,
        work_height: height,
        scale_percent: 100,
        is_primary,
    }
}

fn test_window(title: &str, process_name: &str, x: i32, y: i32, width: i32, height: i32) -> WindowInfo {
    WindowInfo {
        handle: "0x1".into(),
        title: title.into(),
        class_name: "AppWindow".into(),
        process_id: 10,
        process_name: process_name.into(),
        executable_path: None,
        monitor_id: None,
        x,
        y,
        width,
        height,
        is_visible: true,
        is_minimized: false,
        is_maximized: false,
    }
}

#[test]
fn current_windows_skip_repeated_layout_work() {
    let monitor = MonitorInfo {
        id: "display".into(),
        name: "Display".into(),
        device_name: "DISPLAY1".into(),
        x: 0,
        y: 0,
        width: 1920,
        height: 1080,
        work_x: 0,
        work_y: 0,
        work_width: 1920,
        work_height: 1040,
        scale_percent: 100,
        is_primary: true,
    };
    let app = AppConfig::new_preset(
        "discord",
        "Discord",
        "Discord.exe",
        LayoutRect { x: 1280, y: 0, width: 640, height: 720 },
    );
    let window = WindowInfo {
        class_name: "Chrome_WidgetWin_1".into(),
        monitor_id: Some("display".into()),
        ..test_window("Discord", "Discord.exe", 1281, 1, 640, 719)
    };

    assert!(window_layout_is_current(&window, &monitor, &app, &app.layout, false, false, false));
    assert!(!window_layout_is_current(&window, &monitor, &app, &app.layout, false, false, true));
}

#[test]
fn missing_profile_monitor_uses_closest_resolution() {
    let mut config = WindowAutoLayoutConfig::default();
    config.global.monitor_missing_behavior = MonitorMissingBehavior::NearestMatch;
    config.profiles[0].target_monitor_id = Some("missing-display".into());
    let monitors = vec![
        test_monitor("primary", true, 0, 0, 2048, 1152),
        test_monitor("secondary", false, -3072, -261, 2560, 1440),
    ];

    let resolved =
        resolve_profile_monitor(&config, &config.profiles[0], &monitors).expect("fallback monitor");

    assert_eq!(resolved.monitor.id, "primary");
    assert!(resolved.is_fallback);
}

#[test]
fn nearest_monitor_prefers_matching_profile_canvas() {
    let mut profile = WindowAutoLayoutConfig::default().profiles.remove(0);
    profile.apps[0].layout = LayoutRect { x: 0, y: 0, width: 2560, height: 1440 };
    profile.apps.truncate(1);
    let monitors = vec![
        test_monitor("primary", true, 0, 0, 1920, 1080),
        test_monitor("portrait", false, 1920, 0, 1080, 1920),
        test_monitor("matching", false, -2560, 0, 2560, 1440),
    ];

    let resolved = nearest_monitor_for_profile(&profile, &monitors).expect("nearest monitor");

    assert_eq!(resolved.id, "matching");
}

#[test]
fn fallback_layout_scales_profile_canvas_to_target_monitor() {
    let monitor = test_monitor("secondary", false, -3072, -261, 2560, 1440);
    let mut profile = Profile {
        id: "profile".into(),
        name: "Streaming".into(),
        description: None,
        target_monitor_id: Some("missing".into()),
        apps: vec![
            AppConfig::new_preset(
                "obs",
                "OBS Studio",
                "obs64.exe",
                LayoutRect { x: 0, y: 0, width: 1920, height: 2160 },
            ),
            AppConfig::new_preset(
                "discord",
                "Discord",
                "Discord.exe",
                LayoutRect { x: 1920, y: 0, width: 1920, height: 1080 },
            ),
            AppConfig::new_preset(
                "editor",
                "Editor",
                "Editor.exe",
                LayoutRect { x: 1920, y: 1080, width: 1920, height: 1080 },
            ),
        ],
    };
    let editor = profile.apps.pop().expect("editor app");

    let layout = scaled_layout_for_monitor(&profile, &editor, &monitor);

    assert_eq!(layout, LayoutRect { x: 1280, y: 720, width: 1280, height: 720 });
}

#[test]
fn keeps_exact_layout_when_it_still_intersects_monitor() {
    let monitor = test_monitor("display", true, 0, 0, 1920, 1080);
    let layout = LayoutRect { x: -20, y: 10, width: 800, height: 600 };

    assert_eq!(keep_layout_visible_on_monitor(&layout, &monitor), layout);
}

#[test]
fn clamps_layout_back_when_saved_bounds_miss_target_monitor() {
    let monitor = test_monitor("display", true, 0, 0, 1920, 1080);
    let layout = LayoutRect { x: 2400, y: 1300, width: 900, height: 700 };

    assert_eq!(
        keep_layout_visible_on_monitor(&layout, &monitor),
        LayoutRect { x: 1020, y: 380, width: 900, height: 700 }
    );
}

#[test]
fn clamps_layout_back_when_only_a_tiny_edge_is_visible() {
    let monitor = test_monitor("display", true, 0, 0, 1920, 1080);
    let layout = LayoutRect { x: 1870, y: 20, width: 900, height: 700 };

    assert_eq!(
        keep_layout_visible_on_monitor(&layout, &monitor),
        LayoutRect { x: 1020, y: 20, width: 900, height: 700 }
    );
}

#[test]
fn clamps_oversized_layout_to_current_monitor_resolution() {
    let monitor = test_monitor("display", true, 0, 0, 1920, 1080);
    let layout = LayoutRect { x: 0, y: 0, width: 3840, height: 2160 };

    assert_eq!(
        keep_layout_visible_on_monitor(&layout, &monitor),
        LayoutRect { x: 0, y: 0, width: 1920, height: 1080 }
    );
}

#[test]
fn fallback_scaling_accounts_for_negative_saved_offsets() {
    let monitor = test_monitor("display", true, 0, 0, 1000, 500);
    let app = AppConfig::new_preset(
        "editor",
        "Editor",
        "Editor.exe",
        LayoutRect { x: -100, y: -50, width: 1000, height: 500 },
    );
    let profile = Profile {
        id: "profile".into(),
        name: "Profile".into(),
        description: None,
        target_monitor_id: None,
        apps: vec![app.clone()],
    };

    assert_eq!(
        scaled_layout_for_monitor(&profile, &app, &monitor),
        LayoutRect { x: 0, y: 0, width: 1000, height: 500 }
    );
}

#[test]
fn captured_display_scales_full_monitor_layout_after_resolution_change() {
    let monitor = test_monitor("display", true, 0, 0, 1920, 1080);
    let captured = CapturedDisplay {
        width: 3840,
        height: 2160,
        work_x: 0,
        work_y: 0,
        work_width: 3840,
        work_height: 2080,
        scale_percent: 150,
    };
    let layout = LayoutRect { x: 1920, y: 1080, width: 1920, height: 1080 };

    assert_eq!(
        scaled_layout_from_captured_display(&layout, &captured, &monitor),
        LayoutRect { x: 960, y: 540, width: 960, height: 540 }
    );
}

#[test]
fn captured_display_maps_work_area_layout_around_the_current_taskbar() {
    let mut monitor = test_monitor("display", true, 0, 0, 2560, 1440);
    monitor.work_y = 48;
    monitor.work_height = 1392;
    let captured = CapturedDisplay {
        width: 1920,
        height: 1080,
        work_x: 0,
        work_y: 0,
        work_width: 1920,
        work_height: 1040,
        scale_percent: 100,
    };
    let layout = LayoutRect { x: 0, y: 0, width: 960, height: 1040 };

    assert_eq!(
        scaled_layout_from_captured_display(&layout, &captured, &monitor),
        LayoutRect { x: 0, y: 48, width: 1280, height: 1392 }
    );
}

#[test]
fn captured_display_tracks_taskbar_moves_at_the_same_resolution() {
    let mut monitor = test_monitor("display", true, 0, 0, 1920, 1080);
    monitor.work_y = 40;
    monitor.work_height = 1040;
    let captured = CapturedDisplay {
        width: 1920,
        height: 1080,
        work_x: 0,
        work_y: 0,
        work_width: 1920,
        work_height: 1040,
        scale_percent: 100,
    };
    let layout = LayoutRect { x: 0, y: 0, width: 960, height: 1040 };

    assert_eq!(
        scaled_layout_from_captured_display(&layout, &captured, &monitor),
        LayoutRect { x: 0, y: 40, width: 960, height: 1040 }
    );
}

#[test]
fn paused_restore_has_an_explicit_non_success_status() {
    let profile = WindowAutoLayoutConfig::default().profiles.remove(0);

    let result = paused_restore_result(&profile, "start".into(), "end".into());

    assert_eq!(result.status, RestoreStatus::Paused);
    assert!(result.results.is_empty());
}

#[test]
fn converts_negative_monitor_coordinates() {
    let monitor = MonitorInfo {
        id: "left".into(),
        name: "Left".into(),
        device_name: "DISPLAY2".into(),
        x: -1920,
        y: 0,
        width: 1920,
        height: 1080,
        work_x: -1920,
        work_y: 0,
        work_width: 1920,
        work_height: 1040,
        scale_percent: 100,
        is_primary: false,
    };
    let layout = LayoutRect { x: 100, y: 50, width: 800, height: 600 };

    let rect = absolute_rect(&monitor, &layout);
    assert_eq!(rect.left, -1820);
    assert_eq!(relative_rect(&monitor, rect), layout);
}

#[test]
fn adjusts_saved_frame_rect_to_outer_window_rect() {
    let target = Rect { left: -3061, top: -244, right: -1167, bottom: 815 };
    let adjusted =
        adjust_rect_for_frame_margins(target, FrameMargins { left: 9, top: 0, right: 9, bottom: 9 });

    assert_eq!(adjusted.left, -3070);
    assert_eq!(adjusted.top, -244);
    assert_eq!(adjusted.right, -1158);
    assert_eq!(adjusted.bottom, 824);
}

#[test]
fn recognizes_uniform_white_client_samples() {
    let samples = vec![0x00ff_ffffu32; 8];

    assert_eq!(surface_samples_are_blank(&samples), Some(true));
}

#[test]
fn recognizes_a_painted_client_surface() {
    let samples = vec![
        0x00ff_ffffu32,
        0x0018_1818,
        0x0024_2424,
        0x0030_3030,
        0x00ff_ffff,
        0x0010_1010,
        0x0020_2020,
        0x0030_3030,
    ];

    assert_eq!(surface_samples_are_blank(&samples), Some(false));
}

#[test]
fn unreadable_samples_leave_the_surface_unknown() {
    let samples = vec![0xFFFF_FFFFu32, 0x00ff_ffff, 0x00ff_ffff, 0x00ff_ffff];
    assert_eq!(surface_samples_are_blank(&samples), None);
}

#[test]
fn resolve_profile_prefers_the_requested_then_the_default_profile() {
    let config = WindowAutoLayoutConfig::default();
    let profile = resolve_profile(&config, None).expect("default profile");
    assert_eq!(profile.id, "profile-streaming");
    let missing = resolve_profile(&config, Some("nope")).expect_err("missing profile");
    assert_eq!(missing.message(), "Profile not found: nope");
    let mut empty = WindowAutoLayoutConfig::default();
    empty.profiles.clear();
    let none = resolve_profile(&empty, None).expect_err("no profiles");
    assert_eq!(none.message(), "Profile not found: No profiles configured");
}

fn result(status: AppRestoreStatus) -> AppRestoreResult {
    AppRestoreResult {
        app_id: "a".into(),
        display_name: "A".into(),
        status,
        message: String::new(),
        matched_windows: Vec::new(),
    }
}

#[test]
fn profile_status_sums_up_app_results() {
    let all = vec![result(AppRestoreStatus::Success), result(AppRestoreStatus::Skipped)];
    assert_eq!(restore_status(&all, false), RestoreStatus::Success);
    let some = vec![result(AppRestoreStatus::Launched), result(AppRestoreStatus::MoveFailed)];
    assert_eq!(restore_status(&some, false), RestoreStatus::PartialSuccess);
    let none = vec![result(AppRestoreStatus::Failed)];
    assert_eq!(restore_status(&none, false), RestoreStatus::Failed);
    assert_eq!(restore_status(&all, true), RestoreStatus::Paused);
    assert_eq!(restore_status(&Vec::new(), false), RestoreStatus::Success);
}

#[test]
fn matching_windows_come_visible_first_then_largest() {
    let app = AppConfig::new_preset("chrome", "Chrome", "chrome.exe", LayoutRect::default());
    let small = test_window("B", "chrome.exe", 0, 0, 100, 100);
    let large = test_window("A", "chrome.exe", 0, 0, 800, 600);
    let hidden = WindowInfo { is_visible: false, ..test_window("C", "chrome.exe", 0, 0, 1000, 1000) };
    let other = test_window("D", "notepad.exe", 0, 0, 900, 900);
    let found = find_matching_windows(&app, None, &vec![small, hidden, other, large]);
    let titles: Vec<&str> = found.iter().map(|w| w.title.as_str()).collect();
    assert_eq!(titles, vec!["A", "B", "C"]);
}

fn run_until_done(machine: &mut AppRestore, events: Vec<RestoreEvent>) -> Vec<RestoreAction> {
    let mut actions = Vec::new();
    for event in events {
        assert!(machine.accepts(&event));
        actions.push(machine.step(event));
    }
    actions
}

#[test]
fn restore_machine_moves_a_running_window_into_place() {
    let monitor = test_monitor("display", true, 0, 0, 1920, 1080);
    let app = AppConfig::new_preset(
        "discord",
        "Discord",
        "Discord.exe",
        LayoutRect { x: 100, y: 100, width: 800, height: 600 },
    );
    let layout = app.layout;
    let mut machine = AppRestore::new(app, monitor, layout, true, silent_mode());
    let window = test_window("Discord", "Discord.exe", 0, 0, 640, 480);
    let actions = run_until_done(
        &mut machine,
        vec![
            RestoreEvent::Started,
            RestoreEvent::Listed(vec![window]),
            RestoreEvent::Processes(Vec::new()),
            RestoreEvent::Foreground(false),
            RestoreEvent::HandleResolved(Ok(())),
            RestoreEvent::Applied(Ok(())),
        ],
    );
    assert!(matches!(actions[0], RestoreAction::ListWindows { include_hidden: true }));
    assert!(matches!(actions[2], RestoreAction::CheckForeground));
    assert!(matches!(actions[4], RestoreAction::ApplyLayout { activate: false, .. }));
    match &actions[5] {
        RestoreAction::Finish { result } => {
            assert_eq!(result.status, AppRestoreStatus::Success);
            assert_eq!(result.message, "Applied layout to 1 window(s)");
        }
        other => panic!("unexpected action {other:?}"),
    }
}

#[test]
fn restore_machine_launches_a_missing_app_and_reports_a_missing_window() {
    let monitor = test_monitor("display", true, 0, 0, 1920, 1080);
    let app = AppConfig::new_preset("editor", "Editor", "Editor.exe", LayoutRect::default());
    let layout = app.layout;
    let mut machine = AppRestore::new(app, monitor, layout, true, interactive_mode());
    let actions = run_until_done(
        &mut machine,
        vec![
            RestoreEvent::Started,
            RestoreEvent::Listed(Vec::new()),
            RestoreEvent::Processes(Vec::new()),
            RestoreEvent::Foreground(false),
            RestoreEvent::Launched(Ok(Some(42))),
            RestoreEvent::Done,
            RestoreEvent::Waited(Vec::new()),
            RestoreEvent::Done,
            RestoreEvent::Listed(Vec::new()),
            RestoreEvent::Processes(Vec::new()),
            RestoreEvent::Done,
        ],
    );
    assert!(matches!(actions[2], RestoreAction::CheckForeground));
    assert!(matches!(actions[3], RestoreAction::Launch { .. }));
    match &actions[4] {
        RestoreAction::Log { message, .. } => assert_eq!(message, "Launched app with PID 42"),
        other => panic!("unexpected action {other:?}"),
    }
    assert!(matches!(
        actions[5],
        RestoreAction::WaitForVisible {
            launched_pid: Some(42),
            timeout_seconds: 25,
            require_launch_ready_size: true,
            ..
        }
    ));
    match &actions[10] {
        RestoreAction::Finish { result } => {
            assert_eq!(result.status, AppRestoreStatus::LaunchedWindowNotFound);
            assert_eq!(
                result.message,
                "App launched, but no valid matching window appeared before the timeout"
            );
        }
        other => panic!("unexpected action {other:?}"),
    }
}

#[test]
fn restore_machine_never_launches_when_launching_is_off() {
    let monitor = test_monitor("display", true, 0, 0, 1920, 1080);
    let app = AppConfig::new_preset("editor", "Editor", "Editor.exe", LayoutRect::default());
    let layout = app.layout;
    let mut machine = AppRestore::new(app, monitor, layout, false, silent_mode());
    let actions = run_until_done(
        &mut machine,
        vec![
            RestoreEvent::Started,
            RestoreEvent::Listed(Vec::new()),
            RestoreEvent::Processes(Vec::new()),
        ],
    );
    match &actions[2] {
        RestoreAction::Finish { result } => {
            assert_eq!(result.status, AppRestoreStatus::ProcessRunningWindowNotFound);
            assert_eq!(result.message, "No valid matching window was found");
        }
        other => panic!("unexpected action {other:?}"),
    }
}

#[test]
fn restore_machine_pauses_for_a_foreground_game() {
    let monitor = test_monitor("display", true, 0, 0, 1920, 1080);
    let app = AppConfig::new_preset("editor", "Editor", "Editor.exe", LayoutRect::default());
    let layout = app.layout;
    let mut machine = AppRestore::new(app, monitor, layout, true, silent_mode());
    let window = test_window("Editor", "Editor.exe", 0, 0, 640, 480);
    let actions = run_until_done(
        &mut machine,
        vec![
            RestoreEvent::Started,
            RestoreEvent::Listed(vec![window]),
            RestoreEvent::Processes(Vec::new()),
            RestoreEvent::Foreground(true),
        ],
    );
    match &actions[3] {
        RestoreAction::Finish { result } => {
            assert_eq!(result.status, AppRestoreStatus::Paused);
            assert_eq!(result.message, "Restore paused for a foreground game or fullscreen app");
        }
        other => panic!("unexpected action {other:?}"),
    }
}

#[test]
fn matching_windows_that_tie_keep_their_listed_order() {
    let app = AppConfig::new_preset("chrome", "Chrome", "chrome.exe", LayoutRect::default());
    let first = WindowInfo { handle: "0x1".into(), ..test_window("Same", "chrome.exe", 0, 0, 800, 600) };
    let second = WindowInfo { handle: "0x2".into(), ..test_window("Same", "chrome.exe", 50, 50, 800, 600) };
    let third = WindowInfo { handle: "0x3".into(), ..test_window("Same", "chrome.exe", 90, 90, 600, 800) };
    let found = find_matching_windows(&app, None, &vec![first.clone(), second.clone(), third.clone()]);
    let handles: Vec<&str> = found.iter().map(|w| w.handle.as_str()).collect();
    assert_eq!(handles, vec!["0x1", "0x2", "0x3"]);
    let found = find_matching_windows(&app, None, &vec![third, second, first]);
    let handles: Vec<&str> = found.iter().map(|w| w.handle.as_str()).collect();
    assert_eq!(handles, vec!["0x3", "0x2", "0x1"]);
}
