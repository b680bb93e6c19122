use windowautolayout::config::{
    normalize_config, MAX_LAUNCH_DELAY_SECONDS, MAX_LAYOUT_DIMENSION,
};
use windowautolayout::config_file::{
    backup_config_path, config_file_path, log_file_path, migrate_config, recent_log_lines,
    fresh_config, strip_bom, upgrade_loaded_config, validate_config,
};
use windowautolayout::models::{
    CapturedDisplay, LayoutRect, MatchRule, MonitorInfo, MonitorMissingBehavior, TitleMatchMode,
    WindowAutoLayoutConfig, CONFIG_SCHEMA_VERSION,
};
use windowautolayout::targets::{hydrate_captured_displays, reconcile_monitor_targets};

fn test_monitor(
    id: &str,
    device_name: &str,
    width: i32,
    height: i32,
    work_height: i32,
    is_primary: bool,
) -> MonitorInfo {
    MonitorInfo {
        id: id.into(),
        name: device_name.into(),
        device_name: device_name.into(),
        x: 0,
        y: 0,
        width,
        height,
        work_x: 0,
        work_y: 0,
        work_width: width,
        work_height,
        scale_percent: if width >= 3840 { 150 } else { 125 },
        is_primary,
    }
}

#[test]
fn migration_moves_old_default_monitor_behavior_to_nearest_match() {
    let mut config = WindowAutoLayoutConfig { schema_version: 2, ..WindowAutoLayoutConfig::default() };
    config.global.monitor_missing_behavior = MonitorMissingBehavior::DoNothing;

    migrate_config(&mut config);

    assert_eq!(config.global.monitor_missing_behavior, MonitorMissingBehavior::NearestMatch);
}

#[test]
fn validates_tiny_layouts() {
    let mut config = WindowAutoLayoutConfig::default();
    config.profiles[0].apps[0].layout.width = 20;
    let issues = validate_config(&config);
    assert!(issues.iter().any(|issue| issue.contains("very small")));
}

#[test]
fn normalizes_active_restore_retry_limits() {
    let mut config = WindowAutoLayoutConfig::default();
    config.profiles[0].apps[0].retry_interval_ms = 10;
    config.profiles[0].apps[0].detection_timeout_seconds = 900;

    assert!(normalize_config(&mut config));
    assert_eq!(config.profiles[0].apps[0].retry_interval_ms, 250);
    assert_eq!(config.profiles[0].apps[0].detection_timeout_seconds, 120);
}

#[test]
fn preserves_launch_missing_apps_preference() {
    let mut config = WindowAutoLayoutConfig::default();
    config.startup.launch_missing_apps = false;

    normalize_config(&mut config);

    assert!(!config.startup.launch_missing_apps);
}

#[test]
fn normalizes_captured_work_area_inside_display_bounds() {
    let mut config = WindowAutoLayoutConfig::default();
    config.profiles[0].apps[0].captured_display = Some(CapturedDisplay {
        width: 1920,
        height: 1080,
        work_x: -50,
        work_y: 2000,
        work_width: 4000,
        work_height: 4000,
        scale_percent: 900,
    });

    assert!(normalize_config(&mut config));

    let display = config.profiles[0].apps[0].captured_display.as_ref().expect("captured display");
    assert_eq!(display.work_x, 0);
    assert_eq!(display.work_y, 1079);
    assert_eq!(display.work_width, 1920);
    assert_eq!(display.work_height, 1);
    assert_eq!(display.scale_percent, 500);
}

#[test]
fn hydrates_legacy_app_display_geometry_from_its_saved_target() {
    let mut config = WindowAutoLayoutConfig::default();
    config.profiles[0].target_monitor_id = Some("display-2".into());
    let monitor = MonitorInfo {
        id: "display-2".into(),
        name: "Display 2".into(),
        device_name: "DISPLAY2".into(),
        x: -3840,
        y: 0,
        width: 3840,
        height: 2160,
        work_x: -3840,
        work_y: 0,
        work_width: 3840,
        work_height: 2080,
        scale_percent: 150,
        is_primary: false,
    };

    assert!(hydrate_captured_displays(&mut config, &vec![monitor]));
    let captured = config.profiles[0].apps[0].captured_display.as_ref().expect("captured display");
    assert_eq!(captured.width, 3840);
    assert_eq!(captured.work_height, 2080);
    assert_eq!(captured.scale_percent, 150);
}

#[test]
fn repairs_legacy_display_number_after_windows_swaps_monitor_names() {
    let mut config = WindowAutoLayoutConfig::default();
    config.global.default_monitor_id = Some(r"\\.\DISPLAY2".into());
    let profile = &mut config.profiles[0];
    profile.target_monitor_id = Some(r"\\.\DISPLAY2".into());
    profile.apps[0].target_monitor_id = Some(r"\\.\DISPLAY2".into());
    profile.apps[0].layout = LayoutRect { x: 1920, y: 0, width: 1920, height: 1080 };
    profile.apps[1].target_monitor_id = Some(r"\\.\DISPLAY2".into());
    profile.apps[1].layout = LayoutRect { x: -6, y: 1078, width: 1914, height: 1007 };
    let wrong_capture = CapturedDisplay::from_monitor(&test_monitor(
        "hardware-1440",
        r"\\.\DISPLAY2",
        2560,
        1440,
        1380,
        true,
    ));
    for app in &mut profile.apps {
        app.captured_display = Some(wrong_capture.clone());
    }

    let monitors = vec![
        test_monitor("hardware-1440", r"\\.\DISPLAY2", 2560, 1440, 1380, true),
        test_monitor("hardware-4k", r"\\.\DISPLAY1", 3840, 2160, 2088, false),
    ];

    assert!(reconcile_monitor_targets(&mut config, &monitors));
    assert_eq!(config.global.default_monitor_id.as_deref(), Some("hardware-4k"));
    assert_eq!(config.profiles[0].target_monitor_id.as_deref(), Some("hardware-4k"));
    for app in &config.profiles[0].apps {
        assert_eq!(app.target_monitor_id.as_deref(), Some("hardware-4k"));
        assert_eq!(app.captured_display.as_ref().map(|display| display.width), Some(3840));
    }
}

#[test]
fn trusts_an_explicit_stable_monitor_identity() {
    let mut config = WindowAutoLayoutConfig::default();
    config.global.default_monitor_id = Some("hardware-1440".into());
    config.profiles[0].target_monitor_id = Some("hardware-1440".into());
    config.profiles[0].apps[0].layout = LayoutRect { x: 1920, y: 0, width: 1920, height: 1080 };
    let monitors = vec![
        test_monitor("hardware-1440", r"\\.\DISPLAY2", 2560, 1440, 1380, true),
        test_monitor("hardware-4k", r"\\.\DISPLAY1", 3840, 2160, 2088, false),
    ];

    reconcile_monitor_targets(&mut config, &monitors);

    assert_eq!(config.global.default_monitor_id.as_deref(), Some("hardware-1440"));
    assert_eq!(config.profiles[0].target_monitor_id.as_deref(), Some("hardware-1440"));
}

#[test]
fn normalization_repairs_ids_delays_and_unsafe_layout_bounds() {
    let mut config = WindowAutoLayoutConfig::default();
    let duplicate = config.profiles[0].apps[0].clone();
    config.profiles[0].apps.push(duplicate);
    config.profiles[0].id.clear();
    config.profiles[0].name.clear();
    config.profiles[0].apps[0].id.clear();
    config.profiles[0].apps[0].launch_delay_seconds = u64::MAX;
    config.profiles[0].apps[0].layout.width = i32::MAX;
    config.startup.default_profile_id = Some("missing".into());
    config.enforcement.profile_id = Some("missing".into());

    assert!(normalize_config(&mut config));

    let profile = &config.profiles[0];
    assert!(!profile.id.is_empty());
    assert_eq!(profile.name, "Profile 1");
    assert_ne!(profile.apps[0].id, profile.apps[1].id);
    assert_eq!(profile.apps[0].launch_delay_seconds, MAX_LAUNCH_DELAY_SECONDS);
    assert_eq!(profile.apps[0].layout.width, MAX_LAYOUT_DIMENSION);
    assert_eq!(config.startup.default_profile_id.as_deref(), Some(profile.id.as_str()));
    assert_eq!(config.enforcement.profile_id.as_deref(), Some(profile.id.as_str()));
}

#[test]
fn validation_reports_invalid_regex_and_missing_process_identity() {
    let mut config = WindowAutoLayoutConfig::default();
    let app = &mut config.profiles[0].apps[0];
    app.process_name = None;
    app.executable_path = None;
    app.title_rule = Some(MatchRule {
        mode: TitleMatchMode::Regex,
        value: "[".into(),
        case_sensitive: false,
    });

    let issues = validate_config(&config);

    assert!(issues.iter().any(|issue| issue.contains("process name")));
    assert!(issues.iter().any(|issue| issue.contains("invalid title regex")));
}

#[test]
fn normalization_is_idempotent_on_the_default_config() {
    let mut config = WindowAutoLayoutConfig::default();
    normalize_config(&mut config);
    assert!(!normalize_config(&mut config));
}

#[test]
fn default_config_is_already_normalized_and_valid() {
    let mut config = WindowAutoLayoutConfig::default();
    assert_eq!(config.schema_version, CONFIG_SCHEMA_VERSION);
    assert_eq!(config.profiles[0].name, "Streaming");
    assert_eq!(config.global.monitor_missing_behavior, MonitorMissingBehavior::NearestMatch);
    assert!(!normalize_config(&mut config));
    assert!(validate_config(&config).is_empty());
}

#[test]
fn validation_reports_missing_profiles_and_duplicate_ids() {
    let mut config = WindowAutoLayoutConfig::default();
    let copy = config.profiles[0].clone();
    config.profiles.push(copy);
    let issues = validate_config(&config);
    assert!(issues.iter().any(|issue| issue == "Profile IDs must be present and unique"));

    config.profiles.clear();
    assert_eq!(validate_config(&config), vec!["At least one profile is required".to_string()]);
}

#[test]
fn upgrade_migrates_old_files_and_reports_a_change() {
    let mut config = WindowAutoLayoutConfig { schema_version: 1, ..WindowAutoLayoutConfig::default() };
    config.global.monitor_missing_behavior = MonitorMissingBehavior::DoNothing;
    assert!(upgrade_loaded_config(&mut config));
    assert_eq!(config.schema_version, CONFIG_SCHEMA_VERSION);
    assert_eq!(config.global.monitor_missing_behavior, MonitorMissingBehavior::NearestMatch);
    assert!(!upgrade_loaded_config(&mut config));
}

#[test]
fn migration_leaves_current_files_alone() {
    let mut config = WindowAutoLayoutConfig::default();
    config.global.monitor_missing_behavior = MonitorMissingBehavior::DoNothing;
    migrate_config(&mut config);
    assert_eq!(config.global.monitor_missing_behavior, MonitorMissingBehavior::DoNothing);
}

#[test]
fn config_paths_join_with_backslashes() {
    assert_eq!(config_file_path(r"C:\Data"), r"C:\Data\config.json");
    assert_eq!(config_file_path(r"C:\Data\"), r"C:\Data\config.json");
    assert_eq!(log_file_path(r"C:\Data"), r"C:\Data\logs\windowautolayout.log");
    assert_eq!(
        backup_config_path(r"C:\Data", "corrupt", "20240101-120000"),
        r"C:\Data\config.corrupt.20240101-120000.bak.json"
    );
}

#[test]
fn byte_order_marks_are_stripped_before_parsing() {
    assert_eq!(strip_bom("\u{feff}\u{feff}{}"), "{}");
    assert_eq!(strip_bom("{}"), "{}");
}

#[test]
fn recent_log_lines_keep_the_newest_lines_in_order() {
    let raw = "a\r\nb\nc\n";
    assert_eq!(recent_log_lines(raw, 2), vec!["b".to_string(), "c".to_string()]);
    assert_eq!(recent_log_lines(raw, 10), vec!["a".to_string(), "b".to_string(), "c".to_string()]);
    assert!(recent_log_lines("", 5).is_empty());
}

#[test]
fn default_config_has_the_streaming_profile_and_nearest_match() {
    let config = WindowAutoLayoutConfig::default();
    assert_eq!(config.schema_version, CONFIG_SCHEMA_VERSION);
    assert_eq!(config.profiles[0].name, "Streaming");
    assert_eq!(config.global.monitor_missing_behavior, MonitorMissingBehavior::NearestMatch);
}

#[test]
fn normalization_fills_an_empty_profile_list_with_the_default_profile() {
    let mut config = WindowAutoLayoutConfig::default();
    config.profiles.clear();
    assert!(normalize_config(&mut config));
    assert_eq!(config.profiles, WindowAutoLayoutConfig::default().profiles);
}

#[test]
fn after_normalization_only_identity_and_regex_warnings_remain() {
    let mut config = WindowAutoLayoutConfig::default();
    let duplicate = config.profiles[0].apps[0].clone();
    config.profiles[0].apps.push(duplicate);
    config.profiles[0].name = "  ".into();
    config.profiles[0].apps[0].layout.width = 10;
    config.profiles[0].apps[0].retry_interval_ms = 1;
    config.profiles[0].apps[1].display_name.clear();
    config.profiles[0].apps[1].process_name = None;
    config.profiles[0].apps[2].title_rule = Some(MatchRule {
        mode: TitleMatchMode::Regex,
        value: "(".into(),
        case_sensitive: true,
    });
    assert!(validate_config(&config).len() > 2);

    assert!(normalize_config(&mut config));

    let issues = validate_config(&config);
    assert_eq!(
        issues,
        vec![
            "App 2 needs a process name or executable path".to_string(),
            "OBS Studio has an invalid title regex".to_string(),
        ]
    );
}

#[test]
fn a_fresh_config_is_the_default_one() {
    assert_eq!(fresh_config(), WindowAutoLayoutConfig::default());
}

#[test]
fn upgrading_keeps_the_user_settings() {
    let mut config = WindowAutoLayoutConfig::default();
    config.schema_version = 1;
    config.app_version = "0.0.1".into();
    config.startup.enabled = true;
    config.startup.restore_on_launch = false;
    config.tray.show_restore_status = false;
    config.profiles[0].name = "Gaming".into();
    let before = config.clone();

    assert!(upgrade_loaded_config(&mut config));

    assert_eq!(config.schema_version, CONFIG_SCHEMA_VERSION);
    assert_eq!(config.app_version, "0.1.17");
    assert!(config.startup.enabled);
    assert!(!config.startup.restore_on_launch);
    assert!(!config.tray.show_restore_status);
    assert_eq!(config.profiles, before.profiles);
}

#[test]
fn generated_ids_carry_a_version_four_uuid() {
    let mut config = WindowAutoLayoutConfig::default();
    config.profiles[0].apps[1].id.clear();
    assert!(normalize_config(&mut config));
    let id = &config.profiles[0].apps[1].id;
    assert!(id.starts_with("app-"));
    let uuid: Vec<char> = id["app-".len()..].chars().collect();
    assert_eq!(uuid.len(), 36);
    for (i, c) in uuid.iter().enumerate() {
        if [8, 13, 18, 23].contains(&i) {
            assert_eq!(*c, '-');
        } else {
            assert!(c.is_ascii_hexdigit() && !c.is_ascii_uppercase());
        }
    }
    assert_eq!(uuid[14], '4');
    assert!(['8', '9', 'a', 'b'].contains(&uuid[19]));
}
