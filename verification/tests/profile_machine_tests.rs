use windowautolayout::app_restore::{background_mode, interactive_mode, silent_mode};
use windowautolayout::errors::AppError;
use windowautolayout::models::{
    AppRestoreResult, AppRestoreStatus, LogSeverity, MonitorInfo, RestoreResult, RestoreStatus,
    WindowAutoLayoutConfig,
};
use windowautolayout::profile_restore::{ProfileAction, ProfileEvent, ProfileRestore};

fn primary() -> MonitorInfo {
    MonitorInfo {
        id: "\\\\.\\display1".into(),
        name: "Main".into(),
        device_name: "\\\\.\\DISPLAY1".into(),
        x: 0,
        y: 0,
        width: 1920,
        height: 1080,
        work_x: 0,
        work_y: 0,
        work_width: 1920,
        work_height: 1040,
        scale_percent: 100,
        is_primary: true,
    }
}

fn restore_for(config: &WindowAutoLayoutConfig, mode_log: bool) -> ProfileRestore {
    let profile = config.profiles[0].clone();
    let mode = if mode_log { interactive_mode() } else { silent_mode() };
    ProfileRestore::new(config.clone(), profile, Some(false), mode, "start".into())
}

fn app_done(id: &str, status: AppRestoreStatus) -> AppRestoreResult {
    AppRestoreResult {
        app_id: id.into(),
        display_name: id.into(),
        status,
        message: String::new(),
        matched_windows: Vec::new(),
    }
}

fn expect_log(action: ProfileAction) -> (LogSeverity, String) {
    match action {
        ProfileAction::Log { severity, message } => (severity, message),
        _ => panic!("expected a log line"),
    }
}

fn expect_finish(action: ProfileAction) -> Result<RestoreResult, AppError> {
    match action {
        ProfileAction::Finish { result } => result,
        _ => panic!("expected the end of the restore"),
    }
}

#[test]
fn restores_every_app_of_the_profile_in_order() {
    let config = WindowAutoLayoutConfig::default();
    let mut restore = restore_for(&config, true);
    assert!(matches!(restore.step(ProfileEvent::Started), ProfileAction::CheckForeground));
    let (severity, message) = expect_log(restore.step(ProfileEvent::Foreground(false)));
    assert_eq!((severity, message.as_str()), (LogSeverity::Info, "Restore started"));
    assert!(matches!(restore.step(ProfileEvent::Logged), ProfileAction::ListMonitors));
    assert!(matches!(
        restore.step(ProfileEvent::Monitors(Ok(vec![primary()]))),
        ProfileAction::CheckForeground
    ));
    let mut ids = Vec::new();
    for _ in 0..2 {
        match restore.step(ProfileEvent::Foreground(false)) {
            ProfileAction::RestoreApp { restore: app } => {
                assert!(!app.launch_missing);
                assert_eq!(app.monitor, primary());
                ids.push(app.app.id.clone());
            }
            _ => panic!("expected an app restore"),
        }
        let id = ids.last().unwrap().clone();
        let next = restore.step(ProfileEvent::AppFinished(app_done(&id, AppRestoreStatus::Success)));
        if ids.len() < 2 {
            assert!(matches!(next, ProfileAction::CheckForeground));
        } else {
            let (severity, message) = expect_log(next);
            assert_eq!(severity, LogSeverity::Info);
            assert_eq!(message, "Restore finished with status Success");
        }
    }
    assert_eq!(ids, vec!["preset-obs".to_string(), "preset-discord".to_string()]);
    assert!(matches!(restore.step(ProfileEvent::Logged), ProfileAction::ReadClock));
    let result = expect_finish(restore.step(ProfileEvent::Now("end".into()))).unwrap();
    assert_eq!(result.status, RestoreStatus::Success);
    assert_eq!(result.profile_id, "profile-streaming");
    assert_eq!((result.started_at.as_str(), result.finished_at.as_str()), ("start", "end"));
    assert_eq!(result.results.len(), 2);
    assert_eq!(result.monitor, Some(primary()));
}

#[test]
fn pauses_before_anything_when_a_game_is_in_front() {
    let config = WindowAutoLayoutConfig::default();
    let mut restore = restore_for(&config, true);
    assert!(matches!(restore.step(ProfileEvent::Started), ProfileAction::CheckForeground));
    let (_, message) = expect_log(restore.step(ProfileEvent::Foreground(true)));
    assert_eq!(message, "Restore paused for a foreground game or fullscreen app");
    assert!(matches!(restore.step(ProfileEvent::Logged), ProfileAction::ReadClock));
    let result = expect_finish(restore.step(ProfileEvent::Now("end".into()))).unwrap();
    assert_eq!(result.status, RestoreStatus::Paused);
    assert!(result.results.is_empty());
    assert_eq!(result.monitor, None);
}

#[test]
fn stops_at_the_app_that_paused() {
    let config = WindowAutoLayoutConfig::default();
    let mut restore = restore_for(&config, false);
    assert!(matches!(restore.step(ProfileEvent::Started), ProfileAction::CheckForeground));
    assert!(matches!(restore.step(ProfileEvent::Foreground(false)), ProfileAction::ListMonitors));
    assert!(matches!(
        restore.step(ProfileEvent::Monitors(Ok(vec![primary()]))),
        ProfileAction::CheckForeground
    ));
    assert!(matches!(
        restore.step(ProfileEvent::Foreground(false)),
        ProfileAction::RestoreApp { .. }
    ));
    assert!(matches!(
        restore.step(ProfileEvent::AppFinished(app_done("preset-obs", AppRestoreStatus::Paused))),
        ProfileAction::ReadClock
    ));
    let result = expect_finish(restore.step(ProfileEvent::Now("end".into()))).unwrap();
    assert_eq!(result.status, RestoreStatus::Paused);
    assert_eq!(result.results.len(), 1);
}

#[test]
fn pauses_between_apps_when_a_game_comes_forward() {
    let config = WindowAutoLayoutConfig::default();
    let mut restore = restore_for(&config, false);
    restore.step(ProfileEvent::Started);
    restore.step(ProfileEvent::Foreground(false));
    restore.step(ProfileEvent::Monitors(Ok(vec![primary()])));
    restore.step(ProfileEvent::Foreground(false));
    assert!(matches!(
        restore.step(ProfileEvent::AppFinished(app_done("preset-obs", AppRestoreStatus::Failed))),
        ProfileAction::CheckForeground
    ));
    assert!(matches!(restore.step(ProfileEvent::Foreground(true)), ProfileAction::ReadClock));
    let result = expect_finish(restore.step(ProfileEvent::Now("end".into()))).unwrap();
    assert_eq!(result.status, RestoreStatus::Paused);
    assert_eq!(result.results.len(), 1);
}

#[test]
fn reports_a_missing_monitor_without_restoring() {
    let mut config = WindowAutoLayoutConfig::default();
    config.profiles[0].target_monitor_id = Some("\\\\.\\display9".into());
    config.global.monitor_missing_behavior =
        windowautolayout::models::MonitorMissingBehavior::DoNothing;
    let mut restore = restore_for(&config, true);
    restore.step(ProfileEvent::Started);
    restore.step(ProfileEvent::Foreground(false));
    restore.step(ProfileEvent::Logged);
    let (severity, message) =
        expect_log(restore.step(ProfileEvent::Monitors(Ok(vec![primary()]))));
    assert_eq!(severity, LogSeverity::Warn);
    assert_eq!(message, "Restore skipped because the saved monitor is missing");
    assert!(matches!(restore.step(ProfileEvent::Logged), ProfileAction::ReadClock));
    let result = expect_finish(restore.step(ProfileEvent::Now("end".into()))).unwrap();
    assert_eq!(result.status, RestoreStatus::MonitorMissing);
    assert!(result.results.is_empty());
}

#[test]
fn logs_the_fallback_monitor_it_uses() {
    let mut config = WindowAutoLayoutConfig::default();
    config.profiles[0].target_monitor_id = Some("\\\\.\\display9".into());
    config.global.monitor_missing_behavior =
        windowautolayout::models::MonitorMissingBehavior::UsePrimary;
    let mut restore = ProfileRestore::new(
        config.clone(),
        config.profiles[0].clone(),
        None,
        background_mode(),
        "start".into(),
    );
    restore.step(ProfileEvent::Started);
    restore.step(ProfileEvent::Foreground(false));
    restore.step(ProfileEvent::Logged);
    let (severity, message) =
        expect_log(restore.step(ProfileEvent::Monitors(Ok(vec![primary()]))));
    assert_eq!(severity, LogSeverity::Warn);
    assert_eq!(message, "Saved monitor is missing; using Main");
    assert!(matches!(restore.step(ProfileEvent::Logged), ProfileAction::CheckForeground));
    match restore.step(ProfileEvent::Foreground(false)) {
        ProfileAction::RestoreApp { restore: app } => assert!(app.launch_missing),
        _ => panic!("expected an app restore"),
    }
}

#[test]
fn passes_on_the_error_listing_monitors_gave() {
    let config = WindowAutoLayoutConfig::default();
    let mut restore = restore_for(&config, false);
    restore.step(ProfileEvent::Started);
    restore.step(ProfileEvent::Foreground(false));
    let result = expect_finish(restore.step(ProfileEvent::Monitors(Err(AppError::Windows(
        "EnumDisplayMonitors failed".into(),
    )))));
    assert_eq!(result, Err(AppError::Windows("EnumDisplayMonitors failed".into())));
}
