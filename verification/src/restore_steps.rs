//! What each step of an app restore does: for every phase and reported
//! event, the action handed out, the phase that follows and the values the
//! restore keeps. `AppRestore::step` is proved to follow `step_goes`.
use vstd::prelude::*;

use crate::app_restore::{
    applied_text, hidden_count, presence_spec, AppPresence, AppRestore, Phase, RestoreAction,
    RestoreEvent, RestoreMode, Stage,
};
use crate::errors::{error_message, AppError};
use crate::matching::{is_obs, is_quick_tray};
use crate::models::{
    AppConfig, AppRestoreResult, AppRestoreStatus, LayoutRect, LogSeverity, MonitorInfo,
    WindowInfo,
};
use crate::placement::layout_is_current;
use crate::restore::move_failed_status;
use crate::selection::{
    first_process_path, in_window_order, stable_rearrangement, window_ties, kept_arguments, launch_timeout, matching,
    same_but_arguments, selected, settle_delay, should_show, restore_through_tray,
    MatchingProcess,
};
use crate::text::decimal;

verus! {

/// What an app restore never changes.
pub struct RestoreConsts {
    pub app: AppConfig,
    pub monitor: MonitorInfo,
    pub layout: LayoutRect,
    pub launch_missing: bool,
    pub mode: RestoreMode,
}

pub open spec fn consts(s: AppRestore) -> RestoreConsts {
    RestoreConsts {
        app: s.app,
        monitor: s.monitor,
        layout: s.layout,
        launch_missing: s.launch_missing,
        mode: s.mode,
    }
}

/// The values an app restore keeps between steps (besides its phase).
#[verifier::ext_equal]
pub struct RestoreVars {
    pub matched: Seq<WindowInfo>,
    pub processes: Seq<MatchingProcess>,
    pub presence: AppPresence,
    pub launched: bool,
    pub surface_refresh_needed: bool,
    pub observe_pid: Option<u32>,
    pub activated: Seq<u32>,
    pub selected: Seq<WindowInfo>,
    pub show_error: Option<String>,
    pub moved_count: nat,
    pub already_current_count: nat,
    pub current_window: bool,
}

pub open spec fn vars(s: AppRestore) -> RestoreVars {
    RestoreVars {
        matched: s.matched@,
        processes: s.processes@,
        presence: s.presence,
        launched: s.launched,
        surface_refresh_needed: s.surface_refresh_needed,
        observe_pid: s.observe_pid,
        activated: s.activated@,
        selected: s.selected@,
        show_error: s.show_error,
        moved_count: s.moved_count as nat,
        already_current_count: s.already_current_count as nat,
        current_window: s.current_window,
    }
}

/// A result for `app` with this status, message and windows.
pub open spec fn result_is(
    r: AppRestoreResult,
    app: AppConfig,
    status: AppRestoreStatus,
    message: Seq<char>,
    windows: Seq<WindowInfo>,
) -> bool {
    &&& r.app_id == app.id
    &&& r.display_name == app.display_name
    &&& r.status == status
    &&& r.message@ == message
    &&& r.matched_windows@ == windows
}

/// A log line with this severity and text.
pub open spec fn logs(x: RestoreAction, severity: LogSeverity, message: Seq<char>) -> bool {
    x matches RestoreAction::Log { severity: sv, message: m } && sv == severity && m@ == message
}

/// The restore ends now with this result.
pub open spec fn ends(
    c: RestoreConsts,
    v: RestoreVars,
    s: AppRestore,
    x: RestoreAction,
    status: AppRestoreStatus,
    message: Seq<char>,
    windows: Seq<WindowInfo>,
) -> bool {
    &&& vars(s) =~= v
    &&& s.phase == Phase::Finished
    &&& x matches RestoreAction::Finish { result } && result_is(result, c.app, status, message, windows)
}

/// The restore ends with this result, after logging its message when
/// events are logged.
pub open spec fn ends_logged(
    c: RestoreConsts,
    v: RestoreVars,
    s: AppRestore,
    x: RestoreAction,
    severity: LogSeverity,
    status: AppRestoreStatus,
    message: Seq<char>,
    windows: Seq<WindowInfo>,
) -> bool {
    if c.mode.log_events {
        &&& vars(s) =~= v
        &&& s.phase matches Phase::FinishAfterLog(r) && result_is(r, c.app, status, message, windows)
        &&& logs(x, severity, message)
    } else {
        ends(c, v, s, x, status, message, windows)
    }
}

/// The restore stops because a game is in front.
pub open spec fn pauses(c: RestoreConsts, v: RestoreVars, s: AppRestore, x: RestoreAction) -> bool {
    ends(
        c,
        v,
        s,
        x,
        AppRestoreStatus::Paused,
        "Restore paused for a foreground game or fullscreen app"@,
        v.matched,
    )
}

/// The windows are listed (hidden ones too when the app pulls hidden
/// windows or a process was just started), watching `pid`.
pub open spec fn lists(
    c: RestoreConsts,
    v: RestoreVars,
    s: AppRestore,
    x: RestoreAction,
    pid: Option<u32>,
    stage: Stage,
) -> bool {
    &&& vars(s) =~= RestoreVars { observe_pid: pid, ..v }
    &&& s.phase == Phase::ListingWindows(stage)
    &&& x == RestoreAction::ListWindows { include_hidden: c.app.pull_hidden_windows || pid is Some }
}

/// The wait for a window: after a launch, for one of launch-ready size and
/// with the launch timeout; else with the detection timeout.
pub open spec fn waits(c: RestoreConsts, x: RestoreAction, pid: Option<u32>, require: bool) -> bool {
    x == RestoreAction::WaitForVisible {
        launched_pid: pid,
        timeout_seconds: if require {
            launch_timeout(c.app) as u64
        } else {
            c.app.detection_timeout_seconds
        },
        retry_interval_ms: c.app.retry_interval_ms,
        require_launch_ready_size: require,
    }
}

pub open spec fn settles(c: RestoreConsts, x: RestoreAction) -> bool {
    x == RestoreAction::Settle { ms: settle_delay(c.app) as u64 }
}

/// Nothing changes but the phase, which becomes `p`.
pub open spec fn moves_to(v: RestoreVars, s: AppRestore, p: Phase) -> bool {
    vars(s) =~= v && s.phase == p
}

/// Window `i` of the selected windows is taken up (after a look at the
/// foreground when games pause restores), or, past the last one, the
/// restore ends with a success (or "launched") over the selected windows.
pub open spec fn next_window_goes(
    c: RestoreConsts,
    v: RestoreVars,
    s: AppRestore,
    x: RestoreAction,
    i: int,
) -> bool {
    if i < v.selected.len() {
        if c.mode.abort_for_latency_sensitive_foreground {
            moves_to(v, s, Phase::MoveForeground(i as usize)) && x is CheckForeground
        } else {
            moves_to(v, s, Phase::MoveHandle(i as usize)) && x == RestoreAction::ResolveHandle {
                handle: v.selected[i].handle,
            }
        }
    } else {
        ends_logged(
            c,
            v,
            s,
            x,
            LogSeverity::Info,
            if v.launched {
                AppRestoreStatus::Launched
            } else {
                AppRestoreStatus::Success
            },
            applied_text(
                hidden_count(v.selected),
                v.moved_count,
                v.already_current_count,
                v.selected.len(),
            ),
            v.selected,
        )
    }
}

/// The message when no window of the app was found.
pub open spec fn missing_text(v: RestoreVars) -> Seq<char> {
    if v.launched {
        "App launched, but no valid matching window appeared before the timeout"@
    } else if v.presence == AppPresence::RunningWithoutWindow {
        "The process is running, but no pullable top-level window was found. Enable hidden-window pulling or tune title/class matching if this app lives in the tray."@
    } else {
        "No valid matching window was found"@
    }
}

/// What the restore comes to once nothing more is shown or launched: with
/// no window, a tray app counts as a success (or "launched"), any other app
/// as not found; a running app that is not to be moved is skipped; else the
/// selected windows are placed, from the first.
pub open spec fn outcome_goes(c: RestoreConsts, v: RestoreVars, s: AppRestore, x: RestoreAction) -> bool {
    if v.matched.len() == 0 {
        if is_quick_tray(c.app) && v.presence == AppPresence::RunningWithoutWindow {
            ends_logged(
                c,
                v,
                s,
                x,
                LogSeverity::Info,
                if v.launched {
                    AppRestoreStatus::Launched
                } else {
                    AppRestoreStatus::Success
                },
                if v.launched {
                    "App launched and is running in the tray; no movable window was exposed"@
                } else {
                    "App is running in the tray; no movable window was exposed"@
                },
                v.matched,
            )
        } else {
            ends_logged(
                c,
                v,
                s,
                x,
                LogSeverity::Warn,
                if v.launched {
                    AppRestoreStatus::LaunchedWindowNotFound
                } else {
                    AppRestoreStatus::ProcessRunningWindowNotFound
                },
                missing_text(v),
                v.matched,
            )
        }
    } else if !c.app.move_if_running && !v.launched {
        ends(
            c,
            v,
            s,
            x,
            AppRestoreStatus::Skipped,
            "Window is already running and move_if_running is disabled"@,
            v.matched,
        )
    } else {
        next_window_goes(
            c,
            RestoreVars {
                selected: selected(c.app, v.matched),
                moved_count: 0,
                already_current_count: 0,
                ..v
            },
            s,
            x,
            0,
        )
    }
}

/// The entry an app is launched with: the app's, with its arguments as
/// `app_for_restore_launch` gives them.
pub open spec fn launch_config(config: AppConfig, app: AppConfig) -> bool {
    &&& same_but_arguments(config, app)
    &&& !is_quick_tray(app) ==> config.arguments@ == app.arguments@
    &&& is_quick_tray(app) ==> config.arguments@.len() == kept_arguments(app.arguments@).len() + 1
        && config.arguments@.drop_last() == kept_arguments(app.arguments@)
        && config.arguments@.last()@ == "--show"@
}

/// An app that runs without a window and is to be woken, other than OBS.
pub open spec fn relaunches_running(c: RestoreConsts, v: RestoreVars) -> bool {
    v.presence == AppPresence::RunningWithoutWindow && c.app.wake_running_process && !is_obs(c.app)
}

/// The app is started: from its running process's executable when it is
/// started again to show a window, else from its configured executable.
pub open spec fn launches(c: RestoreConsts, v: RestoreVars, s: AppRestore, x: RestoreAction) -> bool {
    &&& moves_to(v, s, Phase::Launching)
    &&& x matches RestoreAction::Launch { config, path } && launch_config(config, c.app) && path
        == if relaunches_running(c, v) {
        match c.app.executable_path {
            Some(p) => Some(p),
            None => first_process_path(v.processes, 0),
        }
    } else {
        c.app.executable_path
    }
}

/// Launching is wanted for an app that is not running, or that runs
/// without a window and is to be woken (other than OBS).
pub open spec fn launch_wanted(c: RestoreConsts, v: RestoreVars) -> bool {
    v.presence == AppPresence::NotRunning || relaunches_running(c, v)
}

pub open spec fn begin_launch_goes(c: RestoreConsts, v: RestoreVars, s: AppRestore, x: RestoreAction) -> bool {
    if v.matched.len() == 0 && c.launch_missing && launch_wanted(c, v) {
        if c.mode.abort_for_latency_sensitive_foreground {
            moves_to(v, s, Phase::LaunchForeground) && x is CheckForeground
        } else {
            launches(c, v, s, x)
        }
    } else {
        outcome_goes(c, v, s, x)
    }
}

/// The first of the processes from `from` on that was not asked yet.
pub open spec fn first_unasked_process(activated: Seq<u32>, ps: Seq<MatchingProcess>, from: int) -> Option<
    int,
>
    decreases ps.len() - from,
{
    if from < 0 || from >= ps.len() {
        None
    } else if !activated.contains(ps[from].pid) {
        Some(from)
    } else {
        first_unasked_process(activated, ps, from + 1)
    }
}

/// The first of the windows from `from` on whose process was not asked yet.
pub open spec fn first_unasked_window(activated: Seq<u32>, ws: Seq<WindowInfo>, from: int) -> Option<
    int,
>
    decreases ws.len() - from,
{
    if from < 0 || from >= ws.len() {
        None
    } else if !activated.contains(ws[from].process_id) {
        Some(from)
    } else {
        first_unasked_window(activated, ws, from + 1)
    }
}

/// OBS running only in the tray: its processes are asked, one by one, to
/// show its window through the tray icon; once one answered, the restore
/// waits for the window; else it goes on to launching.
pub open spec fn continue_wake_goes(
    c: RestoreConsts,
    v: RestoreVars,
    s: AppRestore,
    x: RestoreAction,
    from: int,
) -> bool {
    match first_unasked_process(v.activated, v.processes, from) {
        Some(i) => moves_to(v, s, Phase::WakeActivating(i as usize))
            && x == RestoreAction::ActivateTrayIcon { pid: v.processes[i].pid },
        None => if v.activated.len() > 0 {
            let w = RestoreVars { surface_refresh_needed: true, ..v };
            if c.mode.log_events {
                moves_to(w, s, Phase::WakeLogged) && logs(
                    x,
                    LogSeverity::Info,
                    "Asked tray icon to restore running app"@,
                )
            } else {
                moves_to(w, s, Phase::WakeWaiting) && waits(c, x, None, false)
            }
        } else {
            begin_launch_goes(c, v, s, x)
        },
    }
}

pub open spec fn begin_wake_goes(c: RestoreConsts, v: RestoreVars, s: AppRestore, x: RestoreAction) -> bool {
    let w = RestoreVars { activated: Seq::empty(), ..v };
    if v.matched.len() == 0 && v.presence == AppPresence::RunningWithoutWindow
        && c.app.wake_running_process && is_obs(c.app) {
        continue_wake_goes(c, w, s, x, 0)
    } else {
        begin_launch_goes(c, w, s, x)
    }
}

/// After showing the selected windows: a failure is logged (and the restore
/// goes on to waking and launching); a success is logged and waited on.
pub open spec fn after_show_goes(c: RestoreConsts, v: RestoreVars, s: AppRestore, x: RestoreAction) -> bool {
    let shown = should_show(c.app, v.selected);
    let w = if shown && v.show_error is None && !is_obs(c.app) {
        RestoreVars { surface_refresh_needed: false, ..v }
    } else {
        v
    };
    match v.show_error {
        Some(e) => if c.mode.log_events {
            moves_to(w, s, Phase::ShowErrorLogged) && logs(
                x,
                LogSeverity::Warn,
                "Could not restore hidden running window: "@ + e@,
            )
        } else {
            begin_wake_goes(c, w, s, x)
        },
        None => if v.selected.len() > 0 && shown && c.mode.log_events {
            moves_to(w, s, Phase::ShowInfoLogged) && logs(
                x,
                LogSeverity::Info,
                "Restored hidden running window without launching another process"@,
            )
        } else {
            moves_to(w, s, Phase::ShowWaiting) && waits(c, x, None, false)
        },
    }
}

/// The selected windows are shown, one by one, when they are all hidden
/// or minimized.
pub open spec fn show_selected_goes(c: RestoreConsts, v: RestoreVars, s: AppRestore, x: RestoreAction) -> bool {
    let w = RestoreVars { selected: selected(c.app, v.matched), show_error: None, ..v };
    if should_show(c.app, w.selected) {
        moves_to(w, s, Phase::Showing(0)) && x == RestoreAction::ShowWindow {
            handle: w.selected[0].handle,
        }
    } else {
        after_show_goes(c, w, s, x)
    }
}

/// OBS hidden in the tray: the processes of the selected windows are asked,
/// one by one, through the tray icon; once one answered, the restore waits
/// for the window; else the windows are shown directly.
pub open spec fn continue_tray_goes(
    c: RestoreConsts,
    v: RestoreVars,
    s: AppRestore,
    x: RestoreAction,
    from: int,
) -> bool {
    match first_unasked_window(v.activated, v.selected, from) {
        Some(i) => moves_to(v, s, Phase::TrayActivating(i as usize))
            && x == RestoreAction::ActivateTrayIcon { pid: v.selected[i].process_id },
        None => if v.activated.len() > 0 {
            if c.mode.log_events {
                moves_to(v, s, Phase::TrayLogged) && logs(
                    x,
                    LogSeverity::Info,
                    "Asked tray icon to restore hidden running window"@,
                )
            } else {
                moves_to(v, s, Phase::TrayWaiting) && waits(c, x, None, false)
            }
        } else {
            show_selected_goes(c, v, s, x)
        },
    }
}

pub open spec fn start_tray_goes(c: RestoreConsts, v: RestoreVars, s: AppRestore, x: RestoreAction) -> bool {
    let w = RestoreVars { selected: selected(c.app, v.matched), activated: Seq::empty(), ..v };
    if restore_through_tray(c.app, w.selected) {
        continue_tray_goes(c, w, s, x, 0)
    } else {
        show_selected_goes(c, w, s, x)
    }
}

/// After the first look: hidden or minimized windows are brought forward
/// (after a look at the foreground when games pause restores), else the
/// restore goes on to waking and launching.
pub open spec fn begin_show_goes(c: RestoreConsts, v: RestoreVars, s: AppRestore, x: RestoreAction) -> bool {
    if should_show(c.app, v.matched) {
        if c.mode.abort_for_latency_sensitive_foreground {
            moves_to(v, s, Phase::ShowForeground) && x is CheckForeground
        } else {
            start_tray_goes(c, v, s, x)
        }
    } else {
        begin_wake_goes(c, v, s, x)
    }
}

/// The log line of a start: a launch, or asking a running app to show a
/// window, with the process's id when there is one.
pub open spec fn launched_text(presence: AppPresence, pid: Option<u32>) -> Seq<char> {
    (if presence == AppPresence::RunningWithoutWindow {
        "Asked running app to show a window"@
    } else {
        "Launched app"@
    }) + match pid {
        Some(p) => " with PID "@ + decimal(p as nat),
        None => Seq::empty(),
    }
}

/// The window just handled counts as moved or as already in place.
pub open spec fn counted(v: RestoreVars) -> RestoreVars {
    if v.current_window {
        RestoreVars { already_current_count: v.already_current_count + 1, ..v }
    } else {
        RestoreVars { moved_count: v.moved_count + 1, ..v }
    }
}

/// Window `i` was placed, or found in place: its surface is refreshed when
/// that is needed, else the next window is taken up.
pub open spec fn refresh_or_next(
    c: RestoreConsts,
    v: RestoreVars,
    s: AppRestore,
    x: RestoreAction,
    i: int,
) -> bool {
    if v.surface_refresh_needed {
        moves_to(v, s, Phase::MoveRefreshing(i as usize)) && x == RestoreAction::RefreshSurface {
            handle: v.selected[i].handle,
            keep_active: c.mode.activate_visible_windows,
            wake_renderer: is_obs(c.app),
        }
    } else {
        next_window_goes(c, counted(v), s, x, i + 1)
    }
}

/// Window `i` exists: it is placed unless it is already in place.
pub open spec fn handle_goes(c: RestoreConsts, v: RestoreVars, s: AppRestore, x: RestoreAction, i: int) -> bool {
    let w = v.selected[i];
    let pull = c.app.pull_hidden_windows && !w.is_visible;
    let restore_minimized = c.app.restore_if_minimized && w.is_minimized;
    let activate = c.mode.activate_visible_windows;
    if layout_is_current(w, c.monitor, c.app, c.layout, pull, restore_minimized, activate) {
        refresh_or_next(c, RestoreVars { current_window: true, ..v }, s, x, i)
    } else {
        moves_to(v, s, Phase::MoveApplying(i as usize)) && x == RestoreAction::ApplyLayout {
            handle: w.handle,
            restore_minimized,
            pull_hidden: pull,
            activate,
        }
    }
}

/// For every phase and the event it waits for: what the step does.
#[verifier::opaque]
pub open spec fn step_goes(b: AppRestore, e: RestoreEvent, s: AppRestore, x: RestoreAction) -> bool {
    let c = consts(b);
    let v = vars(b);
    match b.phase {
        Phase::Begin => lists(c, v, s, x, None, Stage::Initial),
        Phase::ListingWindows(stage) => match e {
            RestoreEvent::Listed(ws) => {
                &&& vars(s) =~= RestoreVars { matched: vars(s).matched, ..v }
                &&& vars(s).matched.to_multiset() == matching(ws@, c.app, v.observe_pid).to_multiset()
                &&& in_window_order(vars(s).matched)
                &&& exists|perm: Seq<int>|
                    #[trigger] stable_rearrangement(
                        matching(ws@, c.app, v.observe_pid),
                        vars(s).matched,
                        perm,
                        window_ties(),
                    )
                &&& s.phase == Phase::ListingProcesses(stage)
                &&& x is ListMatchingProcesses
            },
            _ => true,
        },
        Phase::ListingProcesses(stage) => match e {
            RestoreEvent::Processes(ps) => {
                let w = RestoreVars {
                    processes: ps@,
                    presence: presence_spec(v.matched.len() > 0, ps@.len() > 0),
                    ..v
                };
                match stage {
                    Stage::Initial => begin_show_goes(
                        c,
                        RestoreVars { surface_refresh_needed: should_show(c.app, v.matched), ..w },
                        s,
                        x,
                    ),
                    Stage::AfterTray => show_selected_goes(c, w, s, x),
                    Stage::AfterShow => begin_wake_goes(c, w, s, x),
                    Stage::AfterWake => begin_launch_goes(c, w, s, x),
                    Stage::AfterLaunch => outcome_goes(c, w, s, x),
                }
            },
            _ => true,
        },
        Phase::ShowForeground => match e {
            RestoreEvent::Foreground(busy) => if busy {
                pauses(c, v, s, x)
            } else {
                start_tray_goes(c, v, s, x)
            },
            _ => true,
        },
        Phase::TrayActivating(i) => match e {
            RestoreEvent::Activated(ok) => continue_tray_goes(
                c,
                if ok {
                    RestoreVars { activated: v.activated.push(v.selected[i as int].process_id), ..v }
                } else {
                    v
                },
                s,
                x,
                i + 1,
            ),
            _ => true,
        },
        Phase::TrayLogged => moves_to(v, s, Phase::TrayWaiting) && waits(c, x, None, false),
        Phase::TrayWaiting => match e {
            RestoreEvent::Waited(ws) => if exists|k: int|
                0 <= k < ws@.len() && (#[trigger] ws@[k]).is_visible && !ws@[k].is_minimized {
                moves_to(v, s, Phase::TraySettling(ws)) && settles(c, x)
            } else {
                show_selected_goes(c, v, s, x)
            },
            _ => true,
        },
        Phase::TraySettling(restored) => {
            &&& vars(s) =~= RestoreVars { matched: restored@, ..v }
            &&& s.phase == Phase::ListingProcesses(Stage::AfterTray)
            &&& x is ListMatchingProcesses
        },
        Phase::Showing(i) => match e {
            RestoreEvent::Shown(r) => match r {
                Err(m) => after_show_goes(c, RestoreVars { show_error: Some(m), ..v }, s, x),
                Ok(_) => if i + 1 < v.selected.len() {
                    moves_to(v, s, Phase::Showing((i + 1) as usize)) && x
                        == RestoreAction::ShowWindow { handle: v.selected[i + 1].handle }
                } else {
                    after_show_goes(c, v, s, x)
                },
            },
            _ => true,
        },
        Phase::ShowErrorLogged => begin_wake_goes(c, v, s, x),
        Phase::ShowInfoLogged => moves_to(v, s, Phase::ShowWaiting) && waits(c, x, None, false),
        Phase::ShowWaiting => moves_to(v, s, Phase::ShowSettling) && settles(c, x),
        Phase::ShowSettling => lists(c, v, s, x, None, Stage::AfterShow),
        Phase::WakeActivating(i) => match e {
            RestoreEvent::Activated(ok) => continue_wake_goes(
                c,
                if ok {
                    RestoreVars { activated: v.activated.push(v.processes[i as int].pid), ..v }
                } else {
                    v
                },
                s,
                x,
                i + 1,
            ),
            _ => true,
        },
        Phase::WakeLogged => moves_to(v, s, Phase::WakeWaiting) && waits(c, x, None, false),
        Phase::WakeWaiting => moves_to(v, s, Phase::WakeSettling) && settles(c, x),
        Phase::WakeSettling => lists(c, v, s, x, None, Stage::AfterWake),
        Phase::LaunchForeground => match e {
            RestoreEvent::Foreground(busy) => if busy {
                pauses(c, v, s, x)
            } else {
                launches(c, v, s, x)
            },
            _ => true,
        },
        Phase::Launching => match e {
            RestoreEvent::Launched(r) => match r {
                Ok(pid) => {
                    let w = RestoreVars {
                        launched: v.presence == AppPresence::NotRunning,
                        surface_refresh_needed: true,
                        observe_pid: pid,
                        ..v
                    };
                    if c.mode.log_events {
                        moves_to(w, s, Phase::LaunchLogged) && logs(
                            x,
                            LogSeverity::Info,
                            launched_text(v.presence, pid),
                        )
                    } else {
                        moves_to(w, s, Phase::LaunchWaiting) && waits(c, x, pid, true)
                    }
                },
                Err(AppError::InvalidExecutablePath(p)) => ends_logged(
                    c,
                    v,
                    s,
                    x,
                    LogSeverity::Error,
                    AppRestoreStatus::InvalidExecutablePath,
                    "Invalid executable path: "@ + p@,
                    v.matched,
                ),
                Err(error) => ends_logged(
                    c,
                    v,
                    s,
                    x,
                    LogSeverity::Error,
                    AppRestoreStatus::Failed,
                    error_message(error),
                    v.matched,
                ),
            },
            _ => true,
        },
        Phase::LaunchLogged => moves_to(v, s, Phase::LaunchWaiting) && waits(
            c,
            x,
            v.observe_pid,
            true,
        ),
        Phase::LaunchWaiting => moves_to(v, s, Phase::LaunchSettling) && settles(c, x),
        Phase::LaunchSettling => lists(c, v, s, x, v.observe_pid, Stage::AfterLaunch),
        Phase::MoveForeground(i) => match e {
            RestoreEvent::Foreground(busy) => if busy {
                pauses(c, v, s, x)
            } else {
                moves_to(v, s, Phase::MoveHandle(i)) && x == RestoreAction::ResolveHandle {
                    handle: v.selected[i as int].handle,
                }
            },
            _ => true,
        },
        Phase::MoveHandle(i) => match e {
            RestoreEvent::HandleResolved(r) => match r {
                Err(error) => ends(
                    c,
                    v,
                    s,
                    x,
                    AppRestoreStatus::Failed,
                    error_message(error),
                    v.matched,
                ),
                Ok(_) => handle_goes(c, v, s, x, i as int),
            },
            _ => true,
        },
        Phase::MoveApplying(i) => match e {
            RestoreEvent::Applied(r) => match r {
                Err(error) => ends_logged(
                    c,
                    v,
                    s,
                    x,
                    LogSeverity::Error,
                    move_failed_status(error_message(error)),
                    error_message(error),
                    v.matched,
                ),
                Ok(_) => refresh_or_next(c, RestoreVars { current_window: false, ..v }, s, x, i as int),
            },
            _ => true,
        },
        Phase::MoveRefreshing(i) => match e {
            RestoreEvent::Refreshed(ok) => if !ok && c.mode.log_events {
                moves_to(v, s, Phase::MoveRefreshLogged(i)) && logs(
                    x,
                    LogSeverity::Warn,
                    "OBS client surface stayed blank after bounded recovery"@,
                )
            } else {
                next_window_goes(c, counted(v), s, x, i + 1)
            },
            _ => true,
        },
        Phase::MoveRefreshLogged(i) => next_window_goes(c, counted(v), s, x, i + 1),
        Phase::FinishAfterLog(result) => moves_to(v, s, Phase::Finished) && x
            == RestoreAction::Finish { result },
        Phase::Finished => true,
    }
}

} // verus!
