use windowautolayout::actions::{
    is_tray_message_window, placement_fits, plan_placement, returns_focus, show_command, surface_check,
    PostPlacement, ShowCommand, SurfaceCheck,
};
use windowautolayout::errors::AppError;
use windowautolayout::listing::{
    handle_to_string, is_listed_window, monitor_record, parse_handle, scale_percent_for_dpi,
    sort_window_listing, window_record, MonitorReport, WindowReport,
};
use windowautolayout::models::{LayoutRect, MonitorInfo, WindowInfo, WindowStatePreference};
use windowautolayout::placement::{frame_margins_between, FrameMargins, Rect};

fn window(process_name: &str, title: &str, class_name: &str, visible: bool) -> WindowInfo {
    WindowInfo {
        handle: "0x10".into(),
        title: title.into(),
        class_name: class_name.into(),
        process_id: 7,
        process_name: process_name.into(),
        executable_path: None,
        monitor_id: None,
        x: 0,
        y: 0,
        width: 640,
        height: 480,
        is_visible: visible,
        is_minimized: false,
        is_maximized: false,
    }
}

fn left_monitor() -> MonitorInfo {
    MonitorInfo {
        id: "left".into(),
        name: "Left".into(),
        device_name: "DISPLAY2".into(),
        x: -1920,
        y: 0,
        width: 1920,
        height: 1080,
        work_x: -1920,
        work_y: 0,
        work_width: 1920,
        work_height: 1040,
        scale_percent: 100,
        is_primary: false,
    }
}

#[test]
fn parses_window_handles_with_and_without_prefix() {
    assert_eq!(parse_handle("0x1A2B"), Ok(0x1A2B));
    assert_eq!(parse_handle("  0x00ff "), Ok(0xff));
    assert_eq!(parse_handle("1a2b"), Ok(0x1A2B));
    assert_eq!(parse_handle("0x0x10"), Ok(0x10));
}

#[test]
fn refuses_zero_and_malformed_handles() {
    assert_eq!(parse_handle("0x0"), Err(AppError::InvalidWindowHandle("0x0".into())));
    assert_eq!(parse_handle("handle"), Err(AppError::InvalidWindowHandle("handle".into())));
    assert_eq!(parse_handle(""), Err(AppError::InvalidWindowHandle("".into())));
    assert_eq!(parse_handle("0x"), Err(AppError::InvalidWindowHandle("0x".into())));
    assert_eq!(
        parse_handle("0x1FFFFFFFFFFFFFFFF"),
        Err(AppError::InvalidWindowHandle("0x1FFFFFFFFFFFFFFFF".into()))
    );
}

#[test]
fn writes_handles_in_uppercase_hex() {
    assert_eq!(handle_to_string(0x1A2B), "0x1A2B");
    assert_eq!(handle_to_string(0), "0x0");
    assert_eq!(handle_to_string(255), "0xFF");
}

#[test]
fn written_handles_parse_back() {
    for handle in [1usize, 0x10, 0xABCDEF, 0x7FFF_FFFF] {
        assert_eq!(parse_handle(&handle_to_string(handle)), Ok(handle));
    }
}

#[test]
fn lists_visible_windows_except_shell_helpers() {
    assert!(is_listed_window(&window("notepad.exe", "Notes", "Notepad", true), false));
    assert!(!is_listed_window(&window("notepad.exe", "Notes", "Notepad", false), false));
    assert!(is_listed_window(&window("notepad.exe", "Notes", "Notepad", false), true));
    assert!(!is_listed_window(&window("explorer.exe", "Program Manager", "Progman", true), true));
    assert!(!is_listed_window(&window("app.exe", "", "IME", true), false));
}

#[test]
fn sorts_listing_by_process_then_title() {
    let mut windows = vec![
        window("zed.exe", "b", "C", true),
        window("alpha.exe", "z", "C", true),
        window("zed.exe", "a", "C", true),
        window("Beta.exe", "x", "C", true),
    ];
    sort_window_listing(&mut windows);
    let order: Vec<(String, String)> = windows
        .iter()
        .map(|w| (w.process_name.clone(), w.title.clone()))
        .collect();
    assert_eq!(
        order,
        vec![
            ("Beta.exe".to_string(), "x".to_string()),
            ("alpha.exe".to_string(), "z".to_string()),
            ("zed.exe".to_string(), "a".to_string()),
            ("zed.exe".to_string(), "b".to_string()),
        ]
    );
}

fn report(left: i32, top: i32, right: i32, bottom: i32) -> WindowReport {
    WindowReport {
        handle: 0x2A,
        title: "Editor".into(),
        class_name: "Main".into(),
        process_id: 99,
        process_name: "code.exe".into(),
        executable_path: Some("C:\\Code\\code.exe".into()),
        monitor_id: Some("\\\\.\\display1".into()),
        left,
        top,
        right,
        bottom,
        is_visible: true,
        is_minimized: false,
        is_maximized: true,
    }
}

#[test]
fn builds_window_records_from_reports() {
    let w = window_record(report(-100, 20, 700, 620)).unwrap();
    assert_eq!(w.handle, "0x2A");
    assert_eq!((w.x, w.y, w.width, w.height), (-100, 20, 800, 600));
    assert_eq!(w.process_id, 99);
    assert!(w.is_maximized);
    assert_eq!(window_record(report(10, 10, 10, 50)), None);
    assert_eq!(window_record(report(10, 60, 50, 50)), None);
}

#[test]
fn builds_monitor_records_from_reports() {
    let m = monitor_record(MonitorReport {
        device_name: "\\\\.\\DISPLAY1".into(),
        bounds: (0, 0, 2560, 1440),
        work: (0, 0, 2560, 1400),
        dpi: Some((144, 144)),
        is_primary: true,
    });
    assert_eq!(m.id, "\\\\.\\display1");
    assert_eq!(m.name, "\\\\.\\DISPLAY1");
    assert_eq!((m.width, m.height, m.work_height), (2560, 1440, 1400));
    assert_eq!(m.scale_percent, 150);
    assert!(m.is_primary);

    let unnamed = monitor_record(MonitorReport {
        device_name: "".into(),
        bounds: (-1920, 0, 0, 1080),
        work: (-1920, 0, 0, 1040),
        dpi: None,
        is_primary: false,
    });
    assert_eq!(unnamed.id, "bounds:-1920:0:1920:1080");
    assert_eq!(unnamed.name, "Display");
    assert_eq!(unnamed.scale_percent, 100);
}

#[test]
fn converts_dpi_to_scale_percent() {
    assert_eq!(scale_percent_for_dpi(Some((96, 96))), 100);
    assert_eq!(scale_percent_for_dpi(Some((120, 120))), 125);
    assert_eq!(scale_percent_for_dpi(Some((144, 144))), 150);
    assert_eq!(scale_percent_for_dpi(Some((168, 168))), 175);
    assert_eq!(scale_percent_for_dpi(Some((144, 0))), 100);
    assert_eq!(scale_percent_for_dpi(None), 100);
}

#[test]
fn plans_placement_of_a_maximized_window() {
    let layout = LayoutRect { x: 100, y: 50, width: 800, height: 600 };
    let plan = plan_placement(
        &left_monitor(),
        &layout,
        WindowStatePreference::Normal,
        true,
        true,
        false,
        true,
        false,
        true,
        Some(FrameMargins { left: 9, top: 0, right: 9, bottom: 9 }),
    );
    assert!(!plan.show_first);
    assert!(plan.unmaximize_first);
    assert_eq!(
        (plan.rect.left, plan.rect.top, plan.rect.right, plan.rect.bottom),
        (-1829, 50, -1011, 659)
    );
    assert!(plan.resize);
    assert_eq!((plan.width, plan.height), (818, 609));
    assert_eq!(plan.post, PostPlacement::Keep);
    assert!(plan.refresh);
    assert!(plan.activate);
}

#[test]
fn plans_placement_of_a_hidden_window_to_minimize() {
    let layout = LayoutRect { x: 0, y: 0, width: 400, height: 300 };
    let plan = plan_placement(
        &left_monitor(),
        &layout,
        WindowStatePreference::Minimized,
        false,
        false,
        true,
        false,
        false,
        true,
        None,
    );
    assert!(plan.show_first);
    assert!(!plan.unmaximize_first);
    assert_eq!((plan.rect.left, plan.rect.right), (-1920, -1520));
    assert!(!plan.resize);
    assert_eq!((plan.width, plan.height), (0, 0));
    assert_eq!(plan.post, PostPlacement::Minimize);
    assert!(!plan.refresh);
    assert!(!plan.activate);
}

#[test]
fn restores_minimized_windows_only_when_asked() {
    let layout = LayoutRect { x: 0, y: 0, width: 400, height: 300 };
    let monitor = left_monitor();
    let asked = plan_placement(
        &monitor, &layout, WindowStatePreference::Maximized, true, true, false, false, true, false,
        None,
    );
    assert!(asked.show_first);
    assert_eq!(asked.post, PostPlacement::Maximize);
    let not_asked = plan_placement(
        &monitor, &layout, WindowStatePreference::Normal, true, false, false, false, true, false,
        None,
    );
    assert!(!not_asked.show_first);
    assert_eq!(show_command(true), ShowCommand::Restore);
    assert_eq!(show_command(false), ShowCommand::ShowNoActivate);
}

#[test]
fn recognizes_qt_tray_message_windows() {
    assert!(is_tray_message_window("QTrayIconMessageWindowClass", ""));
    assert!(is_tray_message_window("Qt5QWindowIcon", "QTrayIconMessageWindow"));
    assert!(!is_tray_message_window("Chrome_WidgetWin_1", "Discord"));
}

#[test]
fn returns_focus_only_to_another_live_window() {
    assert!(returns_focus(false, false, true, true));
    assert!(!returns_focus(true, false, true, true));
    assert!(!returns_focus(false, true, true, true));
    assert!(!returns_focus(false, false, false, true));
    assert!(!returns_focus(false, false, true, false));
}

#[test]
fn judges_woken_surfaces() {
    assert_eq!(surface_check(true, Some(false)), SurfaceCheck::Ready);
    assert_eq!(surface_check(true, None), SurfaceCheck::ReadyAfterPause);
    assert_eq!(surface_check(true, Some(true)), SurfaceCheck::NotYet);
    assert_eq!(surface_check(false, Some(false)), SurfaceCheck::NotYet);
}

#[test]
fn tells_when_a_placement_stays_in_range() {
    let monitor = left_monitor();
    let layout = LayoutRect { x: 100, y: 50, width: 800, height: 600 };
    let margins = Some(FrameMargins { left: 9, top: 0, right: 9, bottom: 9 });
    assert!(placement_fits(&monitor, &layout, margins, true));
    let far = LayoutRect { x: i32::MAX - 10, y: 0, width: 800, height: 600 };
    let origin = MonitorInfo { x: 0, ..left_monitor() };
    assert!(!placement_fits(&origin, &far, None, true));
    let edge = MonitorInfo { x: i32::MIN + 5, ..left_monitor() };
    let at_edge = LayoutRect { x: 0, y: 0, width: 100, height: 100 };
    assert!(placement_fits(&edge, &at_edge, None, true));
    assert!(!placement_fits(&edge, &at_edge, margins, true));
}

#[test]
fn reads_frame_margins_only_when_plausible() {
    let outer = Rect { left: -3070, top: -244, right: -1158, bottom: 824 };
    let frame = Rect { left: -3061, top: -244, right: -1167, bottom: 815 };
    assert_eq!(
        frame_margins_between(outer, frame),
        Some(FrameMargins { left: 9, top: 0, right: 9, bottom: 9 })
    );
    let huge = Rect { left: i32::MIN, top: i32::MIN, right: i32::MAX, bottom: i32::MAX };
    assert_eq!(frame_margins_between(huge, frame), None);
    let empty = Rect { left: 10, top: 10, right: 10, bottom: 20 };
    assert_eq!(frame_margins_between(outer, empty), None);
}

#[test]
fn listed_windows_that_tie_keep_their_order() {
    let mut windows = vec![
        WindowInfo { handle: "0x3".into(), ..window("app.exe", "Main", "C", true) },
        WindowInfo { handle: "0x1".into(), ..window("app.exe", "Main", "C", true) },
        window("aaa.exe", "Other", "C", true),
        WindowInfo { handle: "0x2".into(), ..window("app.exe", "Main", "C", true) },
    ];
    sort_window_listing(&mut windows);
    let handles: Vec<&str> = windows.iter().map(|w| w.handle.as_str()).collect();
    assert_eq!(handles, vec!["0x10", "0x3", "0x1", "0x2"]);
}
