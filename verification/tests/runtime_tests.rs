use windowautolayout::models::{LogSeverity, MonitorInfo, WindowAutoLayoutConfig, WindowInfo};
use windowautolayout::processes::{same_windows_app_package, windows_app_package_family};
use windowautolayout::profile_restore::restore_events_suppressed;
use windowautolayout::runtime::{
    covers_monitor, is_desktop_shell_window, is_latency_sensitive_game_process, is_own_window,
    is_taskbar_shell_window, raw_input_device_count, raw_input_status, should_schedule_restore, startup_command, startup_commands_match,
    GuardTiming, LayoutLockState,
};

fn test_window(process_name: &str, title: &str, class_name: &str) -> WindowInfo {
    WindowInfo {
        handle: "0x1".into(),
        title: title.into(),
        class_name: class_name.into(),
        process_id: 10,
        process_name: process_name.into(),
        executable_path: None,
        monitor_id: None,
        x: 0,
        y: 0,
        width: 100,
        height: 100,
        is_visible: true,
        is_minimized: false,
        is_maximized: false,
    }
}

#[test]
fn detects_desktop_shell_windows() {
    let window = test_window("explorer.exe", "Program Manager", "Progman");

    assert!(is_desktop_shell_window(&window));
    assert!(!is_taskbar_shell_window(&window));
}

#[test]
fn detects_taskbar_shell_window_separately() {
    let window = test_window("explorer.exe", "", "Shell_TrayWnd");

    assert!(!is_desktop_shell_window(&window));
    assert!(is_taskbar_shell_window(&window));
}

#[test]
fn ignores_own_windows() {
    let window = test_window("WindowAutoLayout.exe", "WindowAutoLayout", "Tauri Window");

    assert!(is_own_window(&window));
}

#[test]
fn recognizes_named_games_without_requiring_fullscreen() {
    assert!(is_latency_sensitive_game_process("VALORANT-Win64-Shipping.exe"));
    assert!(is_latency_sensitive_game_process("javaw.exe"));
    assert!(!is_latency_sensitive_game_process("Discord.exe"));
}

#[test]
fn distinguishes_fullscreen_from_work_area_windows() {
    let monitor = MonitorInfo {
        id: "display".into(),
        name: "Display".into(),
        device_name: "DISPLAY1".into(),
        x: 0,
        y: 0,
        width: 2560,
        height: 1440,
        work_x: 0,
        work_y: 0,
        work_width: 2560,
        work_height: 1392,
        scale_percent: 125,
        is_primary: true,
    };
    let fullscreen = WindowInfo {
        handle: "0x1".into(),
        title: "Game".into(),
        class_name: "GameWindow".into(),
        process_id: 10,
        process_name: "unknown-game.exe".into(),
        executable_path: None,
        monitor_id: Some("display".into()),
        x: 0,
        y: 0,
        width: 2560,
        height: 1440,
        is_visible: true,
        is_minimized: false,
        is_maximized: false,
    };
    let maximized = WindowInfo { height: 1392, ..fullscreen.clone() };

    assert!(covers_monitor(&fullscreen, &monitor));
    assert!(!covers_monitor(&maximized, &monitor));
}

#[test]
fn store_package_identity_survives_versioned_folder_changes() {
    let old = r"C:\Program Files\WindowsApps\OpenAI.Codex_26.623.5546.0_x64__2p2nqsd0c76g0\app\Codex.exe";
    let new = r"C:\Program Files\WindowsApps\OpenAI.Codex_26.707.3563.0_x64__2p2nqsd0c76g0\app\ChatGPT.exe";

    assert_eq!(windows_app_package_family(old).as_deref(), Some("OpenAI.Codex_2p2nqsd0c76g0"));
    assert!(same_windows_app_package(old, new));
    assert!(!same_windows_app_package(old, r"C:\Apps\Discord.exe"));
}

#[test]
fn startup_command_quotes_exe_and_adds_startup_arg() {
    let exe = r"C:\Users\Cristian\AppData\Local\WindowAutoLayout\WindowAutoLayout.exe";

    assert_eq!(
        startup_command(exe),
        r#""C:\Users\Cristian\AppData\Local\WindowAutoLayout\WindowAutoLayout.exe" --startup-restore"#
    );
}

#[test]
fn startup_command_match_is_case_insensitive_but_requires_argument() {
    let expected = r#""C:\App\WindowAutoLayout.exe" --startup-restore"#;

    assert!(startup_commands_match(r#""c:\app\windowautolayout.exe" --STARTUP-RESTORE"#, expected));
    assert!(!startup_commands_match(r#""C:\App\WindowAutoLayout.exe""#, expected));
}

#[test]
fn restore_events_are_suppressed_during_and_just_after_a_restore() {
    assert!(restore_events_suppressed(true, None));
    assert!(restore_events_suppressed(false, Some(999)));
    assert!(!restore_events_suppressed(false, Some(1000)));
    assert!(!restore_events_suppressed(false, None));
}

#[test]
fn desktop_reveal_and_game_exit_ask_for_a_restore() {
    let mut timing = GuardTiming { latency_sensitive_foreground: false };
    let desktop = test_window("explorer.exe", "Program Manager", "Progman");
    assert_eq!(timing.on_foreground(&desktop, false, None), Some(500));
    let game = test_window("cs2.exe", "Counter-Strike 2", "SDL_app");
    assert_eq!(timing.on_foreground(&game, true, None), None);
    let editor = test_window("code.exe", "Editor", "Chrome_WidgetWin_1");
    assert_eq!(timing.on_foreground(&editor, false, None), Some(750));
    let taskbar = test_window("explorer.exe", "", "Shell_TrayWnd");
    assert_eq!(timing.on_foreground(&taskbar, false, Some(100)), Some(500));
    assert_eq!(timing.on_foreground(&taskbar, false, Some(5000)), None);
}

#[test]
fn restores_are_debounced() {
    assert!(should_schedule_restore(true, None, false));
    assert!(!should_schedule_restore(true, Some(2999), false));
    assert!(should_schedule_restore(true, Some(3000), false));
    assert!(!should_schedule_restore(false, None, false));
    assert!(!should_schedule_restore(true, None, true));
}

#[test]
fn layout_lock_set_and_sync_agree() {
    let mut config = WindowAutoLayoutConfig::default();
    let mut lock = LayoutLockState { enabled: false, profile_id: None, generation: u64::MAX };
    lock.set(&mut config, true, None);
    assert!(lock.enabled);
    assert_eq!(lock.generation, 0);
    assert_eq!(lock.profile_id, config.enforcement.profile_id);
    let before = lock.clone();
    lock.sync_from_config(&config);
    assert_eq!(lock, before);
    assert!(!lock.toggle(&mut config, None));
    assert!(!config.enforcement.enabled);
}

#[test]
fn reports_raw_input_registration_at_startup() {
    assert_eq!(
        raw_input_status(raw_input_device_count(0, 0)),
        (LogSeverity::Info, "Raw input capture disabled".to_string())
    );
    assert_eq!(
        raw_input_status(raw_input_device_count(0, 3)),
        (LogSeverity::Warn, "Unexpected raw input registration count: 3".to_string())
    );
    assert_eq!(
        raw_input_status(raw_input_device_count(u32::MAX, 0)),
        (LogSeverity::Warn, "Could not verify raw input registration state".to_string())
    );
}
