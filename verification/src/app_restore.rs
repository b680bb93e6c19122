//! Restoring one app of a profile, as a state machine: the caller performs
//! each action (listing windows, launching, moving a window, ...) and hands
//! back what happened; the machine decides what comes next and, in the end,
//! the app's restore result.
use vstd::prelude::*;

use crate::errors::{error_message, AppError};
use crate::matching::{
    is_obs, is_obs_app, is_quick_tray, is_quick_tray_detection_app, names_match,
    names_match_spec, configured_name, configured_process_name,
};
use crate::models::{
    AppConfig, AppRestoreResult, AppRestoreStatus, LayoutRect, LogSeverity, MonitorInfo,
    WindowInfo,
};
use crate::placement::{absolute_fits, layout_is_current, window_layout_is_current};
use crate::processes::ProcessInfo;
use crate::restore::{app_result, background_restore_paused, move_failed_result};
use crate::selection::{
    app_for_restore_launch, find_matching_windows, launch_detection_timeout_seconds, matching,
    restore_through_tray, same_but_arguments, selected, selected_matching_windows,
    settle_delay_ms, should_restore_through_qt_tray, should_show, should_show_matched_windows,
    running_process_launch_path, MatchingProcess,
};
use crate::restore_steps::{
    after_show_goes, begin_launch_goes, begin_show_goes, begin_wake_goes, consts,
    continue_tray_goes, continue_wake_goes, ends, ends_logged, launches, lists, next_window_goes,
    first_unasked_process, first_unasked_window, launch_wanted, outcome_goes, pauses, settles,
    show_selected_goes, start_tray_goes, step_goes, vars, waits,
};
use crate::text::{copy_str, decimal, decimal_string, join2};

verus! {

/// Whether an app is running, and with a window the restore can use.
#[derive(Debug, Clone, Copy, PartialEq, Eq, Structural)]
pub enum AppPresence {
    NotRunning,
    RunningWithWindow,
    RunningWithoutWindow,
}

pub open spec fn presence_spec(windows_found: bool, processes_found: bool) -> AppPresence {
    if windows_found {
        AppPresence::RunningWithWindow
    } else if processes_found {
        AppPresence::RunningWithoutWindow
    } else {
        AppPresence::NotRunning
    }
}

pub fn presence_of(matched: &Vec<WindowInfo>, processes: &Vec<MatchingProcess>) -> (r: AppPresence)
    ensures
        r == presence_spec(matched@.len() > 0, processes@.len() > 0),
{
    if matched.len() > 0 {
        AppPresence::RunningWithWindow
    } else if processes.len() > 0 {
        AppPresence::RunningWithoutWindow
    } else {
        AppPresence::NotRunning
    }
}

/// The processes (by id) whose name matches the app's configured process
/// name; none when the app names no process.
pub open spec fn matching_pids(app: AppConfig, ps: Seq<ProcessInfo>) -> Seq<u32>
    decreases ps.len(),
{
    if ps.len() == 0 {
        Seq::empty()
    } else {
        let rest = matching_pids(app, ps.drop_last());
        match configured_name(app) {
            Some(e) => if names_match_spec(e, ps.last().name@) {
                rest.push(ps.last().pid)
            } else {
                rest
            },
            None => rest,
        }
    }
}

pub fn matching_process_ids(app: &AppConfig, processes: &Vec<ProcessInfo>) -> (r: Vec<u32>)
    ensures
        r@ == matching_pids(*app, processes@),
{
    let expected = configured_process_name(app);
    let mut r: Vec<u32> = Vec::new();
    let mut i: usize = 0;
    while i < processes.len()
        invariant
            i <= processes.len(),
            expected matches Some(n) ==> configured_name(*app) == Some(n@),
            expected is None ==> configured_name(*app) is None,
            r@ == matching_pids(*app, processes@.take(i as int)),
        decreases processes.len() - i,
    {
        assert(processes@.take(i + 1).drop_last() =~= processes@.take(i as int));
        match &expected {
            Some(e) => {
                if names_match(e.as_str(), processes[i].name.as_str()) {
                    r.push(processes[i].pid);
                }
            },
            None => {},
        }
        i = i + 1;
    }
    assert(processes@.take(processes.len() as int) =~= processes@);
    r
}

/// How one app is restored: whether events are logged, whether windows are
/// activated after they are placed, and whether a foreground game or
/// fullscreen app pauses the restore.
#[derive(Debug, Clone, Copy, PartialEq, Eq, Structural)]
pub struct RestoreMode {
    pub log_events: bool,
    pub activate_visible_windows: bool,
    pub abort_for_latency_sensitive_foreground: bool,
}

/// The interactive restore: logged, activating windows, pausing for games.
pub fn interactive_mode() -> (r: RestoreMode)
    ensures
        r == (RestoreMode {
            log_events: true,
            activate_visible_windows: true,
            abort_for_latency_sensitive_foreground: true,
        }),
{
    RestoreMode {
        log_events: true,
        activate_visible_windows: true,
        abort_for_latency_sensitive_foreground: true,
    }
}

/// The silent restore: nothing logged, no window activated.
pub fn silent_mode() -> (r: RestoreMode)
    ensures
        r == (RestoreMode {
            log_events: false,
            activate_visible_windows: false,
            abort_for_latency_sensitive_foreground: true,
        }),
{
    RestoreMode {
        log_events: false,
        activate_visible_windows: false,
        abort_for_latency_sensitive_foreground: true,
    }
}

/// The background restore: logged, no window activated.
pub fn background_mode() -> (r: RestoreMode)
    ensures
        r == (RestoreMode {
            log_events: true,
            activate_visible_windows: false,
            abort_for_latency_sensitive_foreground: true,
        }),
{
    RestoreMode {
        log_events: true,
        activate_visible_windows: false,
        abort_for_latency_sensitive_foreground: true,
    }
}

/// What the caller is asked to do next.
#[derive(Debug, Clone, PartialEq, Eq)]
pub enum RestoreAction {
    /// Tell whether a game or fullscreen app is in the foreground.
    CheckForeground,
    /// List the top-level windows (hidden ones too when asked).
    ListWindows { include_hidden: bool },
    /// List the running processes whose ids `matching_process_ids` picks,
    /// with their executables.
    ListMatchingProcesses,
    /// Ask the tray icon of a process to restore its window; tell whether it
    /// answered.
    ActivateTrayIcon { pid: u32 },
    /// Append a line to the log.
    Log { severity: LogSeverity, message: String },
    /// Wait until a visible window of the app appears (see
    /// `visible_window_appeared`), then hand back the app's windows.
    WaitForVisible {
        launched_pid: Option<u32>,
        timeout_seconds: u64,
        retry_interval_ms: u64,
        require_launch_ready_size: bool,
    },
    /// Sleep.
    Settle { ms: u64 },
    /// Show a hidden or minimized window without activating it.
    ShowWindow { handle: String },
    /// Start the app.
    Launch { config: AppConfig, path: Option<String> },
    /// Check that a window handle is valid.
    ResolveHandle { handle: String },
    /// Place a window and check that it keeps its place.
    ApplyLayout {
        handle: String,
        restore_minimized: bool,
        pull_hidden: bool,
        activate: bool,
    },
    /// Make a shown window repaint (waking OBS's renderer when asked); tell
    /// whether its surface came back.
    RefreshSurface { handle: String, keep_active: bool, wake_renderer: bool },
    /// The app's restore is over.
    Finish { result: AppRestoreResult },
}

/// What happened when the caller performed the last action.
#[derive(Debug)]
pub enum RestoreEvent {
    Started,
    Foreground(bool),
    Listed(Vec<WindowInfo>),
    Processes(Vec<MatchingProcess>),
    Activated(bool),
    Done,
    Waited(Vec<WindowInfo>),
    Shown(Result<(), String>),
    Launched(Result<Option<u32>, AppError>),
    HandleResolved(Result<(), AppError>),
    Applied(Result<(), AppError>),
    Refreshed(bool),
}

/// Where a listing of windows and processes leads.
#[derive(Debug, Clone, Copy, PartialEq, Eq, Structural)]
pub enum Stage {
    Initial,
    AfterTray,
    AfterShow,
    AfterWake,
    AfterLaunch,
}

/// The step the machine is waiting on.
#[derive(Debug, Clone, PartialEq, Eq)]
pub enum Phase {
    Begin,
    ListingWindows(Stage),
    ListingProcesses(Stage),
    ShowForeground,
    TrayActivating(usize),
    TrayLogged,
    TrayWaiting,
    TraySettling(Vec<WindowInfo>),
    Showing(usize),
    ShowErrorLogged,
    ShowInfoLogged,
    ShowWaiting,
    ShowSettling,
    WakeActivating(usize),
    WakeLogged,
    WakeWaiting,
    WakeSettling,
    LaunchForeground,
    Launching,
    LaunchLogged,
    LaunchWaiting,
    LaunchSettling,
    MoveForeground(usize),
    MoveHandle(usize),
    MoveApplying(usize),
    MoveRefreshing(usize),
    MoveRefreshLogged(usize),
    FinishAfterLog(AppRestoreResult),
    Finished,
}

/// One app's restore in progress.
pub struct AppRestore {
    pub app: AppConfig,
    pub monitor: MonitorInfo,
    pub layout: LayoutRect,
    pub launch_missing: bool,
    pub mode: RestoreMode,
    pub phase: Phase,
    pub matched: Vec<WindowInfo>,
    pub processes: Vec<MatchingProcess>,
    pub presence: AppPresence,
    pub launched: bool,
    pub surface_refresh_needed: bool,
    pub observe_pid: Option<u32>,
    pub activated: Vec<u32>,
    pub selected: Vec<WindowInfo>,
    pub show_error: Option<String>,
    pub moved_count: usize,
    pub already_current_count: usize,
    pub current_window: bool,
}

pub open spec fn in_move_phase(p: Phase) -> bool {
    ||| p is MoveForeground
    ||| p is MoveHandle
    ||| p is MoveApplying
    ||| p is MoveRefreshing
    ||| p is MoveRefreshLogged
}

pub open spec fn move_index(p: Phase) -> int {
    match p {
        Phase::MoveForeground(i) => i as int,
        Phase::MoveHandle(i) => i as int,
        Phase::MoveApplying(i) => i as int,
        Phase::MoveRefreshing(i) => i as int,
        Phase::MoveRefreshLogged(i) => i as int,
        _ => 0,
    }
}

pub open spec fn tray_index(p: Phase) -> int {
    match p {
        Phase::TrayActivating(i) => i as int,
        Phase::Showing(i) => i as int,
        Phase::WakeActivating(i) => i as int,
        _ => 0,
    }
}

/// A result the restore finishes with, for this app.
pub open spec fn result_for(r: AppRestoreResult, app: AppConfig) -> bool {
    r.app_id == app.id && r.display_name == app.display_name
}

/// A success without any window is owed only to apps that live in the tray.
pub open spec fn success_needs_window(r: AppRestoreResult, app: AppConfig) -> bool {
    (r.status == AppRestoreStatus::Success || r.status == AppRestoreStatus::Launched)
        && r.matched_windows@.len() == 0 ==> is_quick_tray(app)
}

/// What every transition that keeps the app's window list guarantees.
pub open spec fn flow_post(before: AppRestore, after: AppRestore, a: RestoreAction) -> bool {
    &&& after.wf()
    &&& after.app == before.app
    &&& after.mode == before.mode
    &&& after.launch_missing == before.launch_missing
    &&& after.launched == before.launched
    &&& after.matched@ == before.matched@
    &&& (a is CheckForeground ==> before.mode.abort_for_latency_sensitive_foreground)
    &&& (a matches RestoreAction::Log { .. } ==> before.mode.log_events)
    &&& (a matches RestoreAction::Launch { config, .. } ==> before.launch_missing
        && before.matched@.len() == 0 && same_but_arguments(config, before.app))
    &&& (a matches RestoreAction::ApplyLayout { activate, .. } ==> activate
        == before.mode.activate_visible_windows)
    &&& (a matches RestoreAction::RefreshSurface { keep_active, .. } ==> keep_active
        == before.mode.activate_visible_windows)
    &&& (a matches RestoreAction::Finish { result: r } ==> result_for(r, before.app)
        && success_needs_window(r, before.app) && r.status != AppRestoreStatus::Paused && (r.status
        == AppRestoreStatus::Skipped ==> !before.app.move_if_running && !before.launched))
    &&& (a is Finish ==> after.phase == Phase::Finished)
}

/// What every step guarantees: the app, mode and launch permission never
/// change; the foreground is checked only when games pause restores; the log
/// is written only when events are logged; an app is launched only when
/// launching is allowed and none of its windows was found, with the entry's
/// settings; a window is activated, or kept active while its surface is
/// refreshed, only when the mode activates windows; the
/// result is this app's, a success without a window only for a tray app, and
/// "skipped" only when running apps are not to be moved and nothing was
/// launched.
pub open spec fn step_post(before: AppRestore, after: AppRestore, a: RestoreAction) -> bool {
    &&& after.wf()
    &&& after.app == before.app
    &&& after.mode == before.mode
    &&& after.launch_missing == before.launch_missing
    &&& (a is CheckForeground ==> before.mode.abort_for_latency_sensitive_foreground)
    &&& (a matches RestoreAction::Log { .. } ==> before.mode.log_events)
    &&& (a matches RestoreAction::Launch { config, .. } ==> before.launch_missing
        && after.matched@.len() == 0 && same_but_arguments(config, before.app))
    &&& (a matches RestoreAction::ApplyLayout { activate, .. } ==> activate
        == before.mode.activate_visible_windows)
    &&& (a matches RestoreAction::RefreshSurface { keep_active, .. } ==> keep_active
        == before.mode.activate_visible_windows)
    &&& (a matches RestoreAction::Finish { result: r } ==> result_for(r, before.app)
        && success_needs_window(r, before.app))
    &&& (a matches RestoreAction::Finish { result: r } && r.status == AppRestoreStatus::Skipped
        ==> !before.app.move_if_running && !after.launched)
    &&& (a is Finish ==> after.phase == Phase::Finished)
}

/// No pause comes out of this transition.
pub open spec fn no_pause(a: RestoreAction) -> bool {
    !(a matches RestoreAction::Finish { result: r } && r.status == AppRestoreStatus::Paused)
}

impl AppRestore {
    pub open spec fn wf(&self) -> bool {
        &&& absolute_fits(self.monitor, self.layout)
        &&& (in_move_phase(self.phase) ==> 0 <= move_index(self.phase) < self.selected@.len()
            && self.matched@.len() > 0 && self.moved_count + self.already_current_count
            <= move_index(self.phase) && self.selected@ == selected(self.app, self.matched@))
        &&& (self.phase matches Phase::TrayActivating(i) ==> i < self.selected@.len())
        &&& (self.phase matches Phase::Showing(i) ==> i < self.selected@.len())
        &&& (self.phase matches Phase::WakeActivating(i) ==> i < self.processes@.len())
        &&& (self.phase matches Phase::FinishAfterLog(r) ==> result_for(r, self.app)
            && success_needs_window(r, self.app) && r.status != AppRestoreStatus::Paused
            && r.status != AppRestoreStatus::Skipped)
        &&& (self.phase is LaunchForeground || self.phase is Launching ==> self.launch_missing
            && self.matched@.len() == 0)
    }

    /// A restore of `app` to `layout` on `monitor`, not started yet.
    pub fn new(
        app: AppConfig,
        monitor: MonitorInfo,
        layout: LayoutRect,
        launch_missing: bool,
        mode: RestoreMode,
    ) -> (r: AppRestore)
        requires
            absolute_fits(monitor, layout),
        ensures
            r.wf(),
            r.app == app,
            r.monitor == monitor,
            r.layout == layout,
            r.launch_missing == launch_missing,
            r.mode == mode,
            r.phase == Phase::Begin,
            !r.launched,
    {
        AppRestore {
            app,
            monitor,
            layout,
            launch_missing,
            mode,
            phase: Phase::Begin,
            matched: Vec::new(),
            processes: Vec::new(),
            presence: AppPresence::NotRunning,
            launched: false,
            surface_refresh_needed: false,
            observe_pid: None,
            activated: Vec::new(),
            selected: Vec::new(),
            show_error: None,
            moved_count: 0,
            already_current_count: 0,
            current_window: false,
        }
    }

    /// The event the machine waits for in its current phase.
    pub open spec fn expects(&self, e: RestoreEvent) -> bool {
        match self.phase {
            Phase::Begin => e is Started,
            Phase::ListingWindows(_) => e is Listed,
            Phase::ListingProcesses(_) => e is Processes,
            Phase::ShowForeground => e is Foreground,
            Phase::TrayActivating(_) => e is Activated,
            Phase::TrayLogged => e is Done,
            Phase::TrayWaiting => e is Waited,
            Phase::TraySettling(_) => e is Done,
            Phase::Showing(_) => e is Shown,
            Phase::ShowErrorLogged => e is Done,
            Phase::ShowInfoLogged => e is Done,
            Phase::ShowWaiting => e is Waited,
            Phase::ShowSettling => e is Done,
            Phase::WakeActivating(_) => e is Activated,
            Phase::WakeLogged => e is Done,
            Phase::WakeWaiting => e is Waited,
            Phase::WakeSettling => e is Done,
            Phase::LaunchForeground => e is Foreground,
            Phase::Launching => e is Launched,
            Phase::LaunchLogged => e is Done,
            Phase::LaunchWaiting => e is Waited,
            Phase::LaunchSettling => e is Done,
            Phase::MoveForeground(_) => e is Foreground,
            Phase::MoveHandle(_) => e is HandleResolved,
            Phase::MoveApplying(_) => e is Applied,
            Phase::MoveRefreshing(_) => e is Refreshed,
            Phase::MoveRefreshLogged(_) => e is Done,
            Phase::FinishAfterLog(_) => e is Done,
            Phase::Finished => false,
        }
    }

    pub fn accepts(&self, e: &RestoreEvent) -> (r: bool)
        ensures
            r == self.expects(*e),
    {
        match &self.phase {
            Phase::Begin => matches!(e, RestoreEvent::Started),
            Phase::ListingWindows(_) => matches!(e, RestoreEvent::Listed(_)),
            Phase::ListingProcesses(_) => matches!(e, RestoreEvent::Processes(_)),
            Phase::ShowForeground => matches!(e, RestoreEvent::Foreground(_)),
            Phase::TrayActivating(_) => matches!(e, RestoreEvent::Activated(_)),
            Phase::TrayLogged => matches!(e, RestoreEvent::Done),
            Phase::TrayWaiting => matches!(e, RestoreEvent::Waited(_)),
            Phase::TraySettling(_) => matches!(e, RestoreEvent::Done),
            Phase::Showing(_) => matches!(e, RestoreEvent::Shown(_)),
            Phase::ShowErrorLogged => matches!(e, RestoreEvent::Done),
            Phase::ShowInfoLogged => matches!(e, RestoreEvent::Done),
            Phase::ShowWaiting => matches!(e, RestoreEvent::Waited(_)),
            Phase::ShowSettling => matches!(e, RestoreEvent::Done),
            Phase::WakeActivating(_) => matches!(e, RestoreEvent::Activated(_)),
            Phase::WakeLogged => matches!(e, RestoreEvent::Done),
            Phase::WakeWaiting => matches!(e, RestoreEvent::Waited(_)),
            Phase::WakeSettling => matches!(e, RestoreEvent::Done),
            Phase::LaunchForeground => matches!(e, RestoreEvent::Foreground(_)),
            Phase::Launching => matches!(e, RestoreEvent::Launched(_)),
            Phase::LaunchLogged => matches!(e, RestoreEvent::Done),
            Phase::LaunchWaiting => matches!(e, RestoreEvent::Waited(_)),
            Phase::LaunchSettling => matches!(e, RestoreEvent::Done),
            Phase::MoveForeground(_) => matches!(e, RestoreEvent::Foreground(_)),
            Phase::MoveHandle(_) => matches!(e, RestoreEvent::HandleResolved(_)),
            Phase::MoveApplying(_) => matches!(e, RestoreEvent::Applied(_)),
            Phase::MoveRefreshing(_) => matches!(e, RestoreEvent::Refreshed(_)),
            Phase::MoveRefreshLogged(_) => matches!(e, RestoreEvent::Done),
            Phase::FinishAfterLog(_) => matches!(e, RestoreEvent::Done),
            Phase::Finished => false,
        }
    }

    fn finish(&mut self, result: AppRestoreResult) -> (a: RestoreAction)
        ensures
            *final(self) == (AppRestore { phase: Phase::Finished, ..*old(self) }),
            a == (RestoreAction::Finish { result }),
    {
        self.phase = Phase::Finished;
        RestoreAction::Finish { result }
    }

    /// Ends with `result`, logging `message` first when events are logged.
    fn finish_logged(&mut self, severity: LogSeverity, message: String, result: AppRestoreResult) -> (a:
        RestoreAction)
        requires
            old(self).wf(),
            result_for(result, old(self).app),
            success_needs_window(result, old(self).app),
            result.status != AppRestoreStatus::Paused,
            result.status != AppRestoreStatus::Skipped,
            result.message@ == message@,
        ensures
            final(self).wf(),
            final(self).app == old(self).app,
            final(self).mode == old(self).mode,
            final(self).launch_missing == old(self).launch_missing,
            final(self).launched == old(self).launched,
            final(self).matched@ == old(self).matched@,
            a matches RestoreAction::Log { .. } ==> old(self).mode.log_events,
            a matches RestoreAction::Finish { result: r } ==> r == result,
            a is Log || a is Finish,
            a is Finish ==> final(self).phase == Phase::Finished,
            consts(*final(self)) == consts(*old(self)),
            ends_logged(
                consts(*old(self)),
                vars(*old(self)),
                *final(self),
                a,
                severity,
                result.status,
                message@,
                result.matched_windows@,
            ),
    {
        if self.mode.log_events {
            self.phase = Phase::FinishAfterLog(result);
            RestoreAction::Log { severity, message }
        } else {
            self.finish(result)
        }
    }

    fn pause(&mut self) -> (a: RestoreAction)
        requires
            old(self).phase == Phase::Finished,
            old(self).wf(),
        ensures
            final(self).phase == Phase::Finished,
            final(self).app == old(self).app,
            final(self).mode == old(self).mode,
            final(self).launch_missing == old(self).launch_missing,
            final(self).launched == old(self).launched,
            final(self).matched@ == old(self).matched@,
            final(self).wf(),
            a matches RestoreAction::Finish { result: r } && r.status == AppRestoreStatus::Paused
                && result_for(r, old(self).app) && success_needs_window(r, old(self).app),
            consts(*final(self)) == consts(*old(self)),
            pauses(consts(*old(self)), vars(*old(self)), *final(self), a),
    {
        let matched = crate::models::copy_windows(&self.matched);
        let r = background_restore_paused(&self.app, matched);
        self.finish(r)
    }

    fn list_windows(&mut self, pid: Option<u32>, stage: Stage) -> (a: RestoreAction)
        requires
            old(self).phase == Phase::Finished,
            old(self).wf(),
        ensures
            final(self).wf(),
            final(self).app == old(self).app,
            final(self).mode == old(self).mode,
            final(self).launch_missing == old(self).launch_missing,
            final(self).launched == old(self).launched,
            final(self).matched@ == old(self).matched@,
            a is ListWindows,
            consts(*final(self)) == consts(*old(self)),
            lists(consts(*old(self)), vars(*old(self)), *final(self), a, pid, stage),
    {
        self.observe_pid = pid;
        self.phase = Phase::ListingWindows(stage);
        RestoreAction::ListWindows {
            include_hidden: crate::selection::lists_hidden_windows(&self.app, pid),
        }
    }

    fn wait_action(&self, launched_pid: Option<u32>, require: bool) -> (a: RestoreAction)
        ensures
            a is WaitForVisible,
            waits(consts(*self), a, launched_pid, require),
    {
        let timeout = if require {
            launch_detection_timeout_seconds(&self.app)
        } else {
            self.app.detection_timeout_seconds
        };
        RestoreAction::WaitForVisible {
            launched_pid,
            timeout_seconds: timeout,
            retry_interval_ms: self.app.retry_interval_ms,
            require_launch_ready_size: require,
        }
    }

    fn settle(&self) -> (a: RestoreAction)
        ensures
            a is Settle,
            settles(consts(*self), a),
    {
        RestoreAction::Settle { ms: settle_delay_ms(&self.app) }
    }

    /// After the first look at the app: wake hidden windows first, when
    /// there are any to wake.
    fn begin_show(&mut self) -> (a: RestoreAction)
        requires
            old(self).phase == Phase::Finished,
            old(self).wf(),
        ensures
            flow_post(*old(self), *final(self), a),
            consts(*final(self)) == consts(*old(self)),
            begin_show_goes(consts(*old(self)), vars(*old(self)), *final(self), a),
    {
        if should_show_matched_windows(&self.app, &self.matched) {
            if self.mode.abort_for_latency_sensitive_foreground {
                self.phase = Phase::ShowForeground;
                return RestoreAction::CheckForeground;
            }
            self.start_tray()
        } else {
            self.begin_wake()
        }
    }

    fn start_tray(&mut self) -> (a: RestoreAction)
        requires
            old(self).phase == Phase::Finished,
            old(self).wf(),
        ensures
            flow_post(*old(self), *final(self), a),
            consts(*final(self)) == consts(*old(self)),
            start_tray_goes(consts(*old(self)), vars(*old(self)), *final(self), a),
    {
        self.selected = selected_matching_windows(&self.app, &self.matched);
        self.activated = Vec::new();
        if should_restore_through_qt_tray(&self.app, &self.selected) {
            self.continue_tray(0)
        } else {
            self.show_selected()
        }
    }

    fn continue_tray(&mut self, from: usize) -> (a: RestoreAction)
        requires
            old(self).phase == Phase::Finished,
            old(self).wf(),
            from <= old(self).selected@.len(),
        ensures
            flow_post(*old(self), *final(self), a),
            consts(*final(self)) == consts(*old(self)),
            continue_tray_goes(consts(*old(self)), vars(*old(self)), *final(self), a, from as int),
    {
        if let Some(i) = next_unactivated_window(&self.activated, &self.selected, from) {
            self.phase = Phase::TrayActivating(i);
            return RestoreAction::ActivateTrayIcon { pid: self.selected[i].process_id };
        }
        if self.activated.len() > 0 {
            if self.mode.log_events {
                self.phase = Phase::TrayLogged;
                return RestoreAction::Log {
                    severity: LogSeverity::Info,
                    message: copy_str("Asked tray icon to restore hidden running window"),
                };
            }
            self.phase = Phase::TrayWaiting;
            return self.wait_action(None, false);
        }
        self.show_selected()
    }

    /// Shows the selected windows when they are all hidden or minimized.
    fn show_selected(&mut self) -> (a: RestoreAction)
        requires
            old(self).phase == Phase::Finished,
            old(self).wf(),
        ensures
            flow_post(*old(self), *final(self), a),
            consts(*final(self)) == consts(*old(self)),
            show_selected_goes(consts(*old(self)), vars(*old(self)), *final(self), a),
    {
        self.selected = selected_matching_windows(&self.app, &self.matched);
        self.show_error = None;
        if should_show_matched_windows(&self.app, &self.selected) {
            self.phase = Phase::Showing(0);
            return RestoreAction::ShowWindow { handle: self.selected[0].handle.clone() };
        }
        self.after_show()
    }

    fn after_show(&mut self) -> (a: RestoreAction)
        requires
            old(self).phase == Phase::Finished,
            old(self).wf(),
        ensures
            flow_post(*old(self), *final(self), a),
            consts(*final(self)) == consts(*old(self)),
            after_show_goes(consts(*old(self)), vars(*old(self)), *final(self), a),
    {
        let shown = should_show_matched_windows(&self.app, &self.selected);
        if shown && self.show_error.is_none() && !is_obs_app(&self.app) {
            self.surface_refresh_needed = false;
        }
        match &self.show_error {
            Some(error) => {
                if self.mode.log_events {
                    let message = join2("Could not restore hidden running window: ", error.as_str());
                    self.phase = Phase::ShowErrorLogged;
                    return RestoreAction::Log { severity: LogSeverity::Warn, message };
                }
                self.begin_wake()
            },
            None => {
                if self.selected.len() > 0 && shown && self.mode.log_events {
                    self.phase = Phase::ShowInfoLogged;
                    return RestoreAction::Log {
                        severity: LogSeverity::Info,
                        message: copy_str(
                            "Restored hidden running window without launching another process",
                        ),
                    };
                }
                self.phase = Phase::ShowWaiting;
                self.wait_action(None, false)
            },
        }
    }

    /// An OBS running only in the tray is asked, through its tray icon, to
    /// show its window.
    fn begin_wake(&mut self) -> (a: RestoreAction)
        requires
            old(self).phase == Phase::Finished,
            old(self).wf(),
        ensures
            flow_post(*old(self), *final(self), a),
            consts(*final(self)) == consts(*old(self)),
            begin_wake_goes(consts(*old(self)), vars(*old(self)), *final(self), a),
    {
        let should_wake = self.presence == AppPresence::RunningWithoutWindow
            && self.app.wake_running_process;
        self.activated = Vec::new();
        if self.matched.len() == 0 && should_wake && is_obs_app(&self.app) {
            return self.continue_wake(0);
        }
        self.begin_launch()
    }

    fn continue_wake(&mut self, from: usize) -> (a: RestoreAction)
        requires
            old(self).phase == Phase::Finished,
            old(self).wf(),
            from <= old(self).processes@.len(),
        ensures
            flow_post(*old(self), *final(self), a),
            consts(*final(self)) == consts(*old(self)),
            continue_wake_goes(consts(*old(self)), vars(*old(self)), *final(self), a, from as int),
    {
        if let Some(i) = next_unactivated_process(&self.activated, &self.processes, from) {
            self.phase = Phase::WakeActivating(i);
            return RestoreAction::ActivateTrayIcon { pid: self.processes[i].pid };
        }
        if self.activated.len() > 0 {
            self.surface_refresh_needed = true;
            if self.mode.log_events {
                self.phase = Phase::WakeLogged;
                return RestoreAction::Log {
                    severity: LogSeverity::Info,
                    message: copy_str("Asked tray icon to restore running app"),
                };
            }
            self.phase = Phase::WakeWaiting;
            return self.wait_action(None, false);
        }
        self.begin_launch()
    }

    /// Launches the app when nothing of it is running (or, for an app other
    /// than OBS that runs without a window and asks to be woken, starts it
    /// again to make it show a window), when launching is allowed.
    fn begin_launch(&mut self) -> (a: RestoreAction)
        requires
            old(self).phase == Phase::Finished,
            old(self).wf(),
        ensures
            flow_post(*old(self), *final(self), a),
            consts(*final(self)) == consts(*old(self)),
            begin_launch_goes(consts(*old(self)), vars(*old(self)), *final(self), a),
    {
        if self.matched.len() == 0 && self.launch_missing && self.launch_wanted() {
            if self.mode.abort_for_latency_sensitive_foreground {
                self.phase = Phase::LaunchForeground;
                return RestoreAction::CheckForeground;
            }
            return self.launch();
        }
        self.outcome()
    }

    fn launch_wanted(&self) -> (r: bool)
        ensures
            r == launch_wanted(consts(*self), vars(*self)),
    {
        let should_launch_missing = self.presence == AppPresence::NotRunning;
        let should_wake = self.presence == AppPresence::RunningWithoutWindow
            && self.app.wake_running_process;
        should_launch_missing || (should_wake && !is_obs_app(&self.app))
    }

    fn launch(&mut self) -> (a: RestoreAction)
        requires
            old(self).phase == Phase::Finished,
            old(self).wf(),
            old(self).launch_missing,
            old(self).matched@.len() == 0,
        ensures
            flow_post(*old(self), *final(self), a),
            a is Launch,
            consts(*final(self)) == consts(*old(self)),
            launches(consts(*old(self)), vars(*old(self)), *final(self), a),
    {
        let running = self.presence == AppPresence::RunningWithoutWindow
            && self.app.wake_running_process && !is_obs_app(&self.app);
        let path = if running {
            running_process_launch_path(&self.app, &self.processes)
        } else {
            self.app.executable_path.clone()
        };
        let config = app_for_restore_launch(&self.app);
        self.phase = Phase::Launching;
        RestoreAction::Launch { config, path }
    }

    /// What the restore comes to once nothing more will be shown or launched.
    fn outcome(&mut self) -> (a: RestoreAction)
        requires
            old(self).phase == Phase::Finished,
            old(self).wf(),
        ensures
            flow_post(*old(self), *final(self), a),
            consts(*final(self)) == consts(*old(self)),
            outcome_goes(consts(*old(self)), vars(*old(self)), *final(self), a),
    {
        if self.matched.len() == 0 {
            let matched = crate::models::copy_windows(&self.matched);
            if is_quick_tray_detection_app(&self.app) && self.presence
                == AppPresence::RunningWithoutWindow {
                let message = if self.launched {
                    copy_str(
                        "App launched and is running in the tray; no movable window was exposed",
                    )
                } else {
                    copy_str("App is running in the tray; no movable window was exposed")
                };
                let status = if self.launched {
                    AppRestoreStatus::Launched
                } else {
                    AppRestoreStatus::Success
                };
                let result = app_result(&self.app, status, message.clone(), matched);
                return self.finish_logged(LogSeverity::Info, message, result);
            }
            let status = if self.launched {
                AppRestoreStatus::LaunchedWindowNotFound
            } else {
                AppRestoreStatus::ProcessRunningWindowNotFound
            };
            let message = if self.launched {
                copy_str("App launched, but no valid matching window appeared before the timeout")
            } else if self.presence == AppPresence::RunningWithoutWindow {
                copy_str(
                    "The process is running, but no pullable top-level window was found. Enable hidden-window pulling or tune title/class matching if this app lives in the tray.",
                )
            } else {
                copy_str("No valid matching window was found")
            };
            let result = app_result(&self.app, status, message.clone(), matched);
            return self.finish_logged(LogSeverity::Warn, message, result);
        }
        if !self.app.move_if_running && !self.launched {
            let matched = crate::models::copy_windows(&self.matched);
            let result = app_result(
                &self.app,
                AppRestoreStatus::Skipped,
                copy_str("Window is already running and move_if_running is disabled"),
                matched,
            );
            return self.finish(result);
        }
        self.selected = selected_matching_windows(&self.app, &self.matched);
        self.moved_count = 0;
        self.already_current_count = 0;
        self.next_window(0)
    }

    /// Moves on to window `i` of the selected windows (or wraps up).
    fn next_window(&mut self, i: usize) -> (a: RestoreAction)
        requires
            old(self).phase == Phase::Finished,
            old(self).wf(),
            old(self).matched@.len() > 0,
            old(self).selected@.len() > 0,
            i <= old(self).selected@.len(),
            old(self).selected@ == selected(old(self).app, old(self).matched@),
            old(self).moved_count + old(self).already_current_count <= i,
        ensures
            flow_post(*old(self), *final(self), a),
            a is CheckForeground || a is ResolveHandle || a is Log || a is Finish,
            consts(*final(self)) == consts(*old(self)),
            next_window_goes(consts(*old(self)), vars(*old(self)), *final(self), a, i as int),
    {
        if i < self.selected.len() {
            if self.mode.abort_for_latency_sensitive_foreground {
                self.phase = Phase::MoveForeground(i);
                return RestoreAction::CheckForeground;
            }
            self.phase = Phase::MoveHandle(i);
            return RestoreAction::ResolveHandle { handle: self.selected[i].handle.clone() };
        }
        let status = if self.launched {
            AppRestoreStatus::Launched
        } else {
            AppRestoreStatus::Success
        };
        let hidden = count_hidden(&self.selected);
        let message = applied_message(
            hidden,
            self.moved_count,
            self.already_current_count,
            self.selected.len(),
        );
        let selected = crate::models::copy_windows(&self.selected);
        let result = app_result(&self.app, status, message.clone(), selected);
        self.finish_logged(LogSeverity::Info, message, result)
    }

    /// Handles the outcome of the last action and says what to do next.
    #[verifier::spinoff_prover]
    pub fn step(&mut self, event: RestoreEvent) -> (a: RestoreAction)
        requires
            old(self).wf(),
            old(self).expects(event),
        ensures
            step_post(*old(self), *final(self), a),
            a matches RestoreAction::Finish { result: r } && r.status == AppRestoreStatus::Paused
                ==> event == RestoreEvent::Foreground(true),
            consts(*final(self)) == consts(*old(self)),
            step_goes(*old(self), event, *final(self), a),
    {
        let mut phase = Phase::Finished;
        core::mem::swap(&mut phase, &mut self.phase);
        match phase {
            Phase::ListingWindows(stage) => match event {
                RestoreEvent::Listed(ws) => self.on_listed(stage, ws),
                _ => {
                    proof {
                        assert(false);
                    }
                    RestoreAction::CheckForeground
                },
            },
            Phase::ListingProcesses(stage) => match event {
                RestoreEvent::Processes(ps) => self.on_processes(stage, ps),
                _ => {
                    proof {
                        assert(false);
                    }
                    RestoreAction::CheckForeground
                },
            },
            Phase::ShowForeground => match event {
                RestoreEvent::Foreground(b) => self.on_show_foreground(b),
                _ => {
                    proof {
                        assert(false);
                    }
                    RestoreAction::CheckForeground
                },
            },
            Phase::TrayActivating(i) => match event {
                RestoreEvent::Activated(ok) => self.on_tray_activated(i, ok),
                _ => {
                    proof {
                        assert(false);
                    }
                    RestoreAction::CheckForeground
                },
            },
            Phase::TrayWaiting => match event {
                RestoreEvent::Waited(ws) => self.on_tray_waited(ws),
                _ => {
                    proof {
                        assert(false);
                    }
                    RestoreAction::CheckForeground
                },
            },
            Phase::Showing(i) => match event {
                RestoreEvent::Shown(r) => self.on_shown(i, r),
                _ => {
                    proof {
                        assert(false);
                    }
                    RestoreAction::CheckForeground
                },
            },
            Phase::WakeActivating(i) => match event {
                RestoreEvent::Activated(ok) => self.on_wake_activated(i, ok),
                _ => {
                    proof {
                        assert(false);
                    }
                    RestoreAction::CheckForeground
                },
            },
            Phase::Launching => match event {
                RestoreEvent::Launched(r) => self.on_launched(r),
                _ => {
                    proof {
                        assert(false);
                    }
                    RestoreAction::CheckForeground
                },
            },
            Phase::MoveHandle(i) => match event {
                RestoreEvent::HandleResolved(r) => self.on_handle(i, r),
                _ => {
                    proof {
                        assert(false);
                    }
                    RestoreAction::CheckForeground
                },
            },
            Phase::MoveApplying(i) => match event {
                RestoreEvent::Applied(r) => self.on_applied(i, r),
                _ => {
                    proof {
                        assert(false);
                    }
                    RestoreAction::CheckForeground
                },
            },
            Phase::MoveRefreshing(i) => match event {
                RestoreEvent::Refreshed(ok) => self.on_refreshed(i, ok),
                _ => {
                    proof {
                        assert(false);
                    }
                    RestoreAction::CheckForeground
                },
            },
            other => self.on_other(other, event),
        }
    }

    /// The phases whose step does not look into the event.
    #[verifier::rlimit(60)]
    #[verifier::spinoff_prover]
    fn on_other(&mut self, phase: Phase, event: RestoreEvent) -> (a: RestoreAction)
        requires
            old(self).phase == Phase::Finished,
            (AppRestore { phase: phase, ..*old(self) }).wf(),
            (AppRestore { phase: phase, ..*old(self) }).expects(event),
            !(phase is ListingWindows || phase is ListingProcesses || phase is ShowForeground
                || phase is TrayActivating || phase is TrayWaiting || phase is Showing
                || phase is WakeActivating || phase is Launching || phase is MoveHandle
                || phase is MoveApplying || phase is MoveRefreshing),
        ensures
            step_post(AppRestore { phase: phase, ..*old(self) }, *final(self), a),
            a matches RestoreAction::Finish { result: r } && r.status == AppRestoreStatus::Paused
                ==> event == RestoreEvent::Foreground(true),
            consts(*final(self)) == consts(*old(self)),
            step_goes(AppRestore { phase: phase, ..*old(self) }, event, *final(self), a),
    {
        proof {
            reveal(step_goes);
        }
        match phase {
            Phase::Begin => self.list_windows(None, Stage::Initial),
            Phase::TrayLogged => {
                self.phase = Phase::TrayWaiting;
                self.wait_action(None, false)
            },
            Phase::TraySettling(restored) => {
                self.matched = restored;
                self.phase = Phase::ListingProcesses(Stage::AfterTray);
                RestoreAction::ListMatchingProcesses
            },
            Phase::ShowErrorLogged => self.begin_wake(),
            Phase::ShowInfoLogged => {
                self.phase = Phase::ShowWaiting;
                self.wait_action(None, false)
            },
            Phase::ShowWaiting => {
                self.phase = Phase::ShowSettling;
                self.settle()
            },
            Phase::ShowSettling => self.list_windows(None, Stage::AfterShow),
            Phase::WakeLogged => {
                self.phase = Phase::WakeWaiting;
                self.wait_action(None, false)
            },
            Phase::WakeWaiting => {
                self.phase = Phase::WakeSettling;
                self.settle()
            },
            Phase::WakeSettling => self.list_windows(None, Stage::AfterWake),
            Phase::LaunchForeground => match event {
                RestoreEvent::Foreground(b) => {
                    if b {
                        self.pause()
                    } else {
                        self.launch()
                    }
                },
                _ => {
                    proof {
                        assert(false);
                    }
                    RestoreAction::CheckForeground
                },
            },
            Phase::LaunchLogged => {
                self.phase = Phase::LaunchWaiting;
                self.wait_action(self.observe_pid, true)
            },
            Phase::LaunchWaiting => {
                self.phase = Phase::LaunchSettling;
                self.settle()
            },
            Phase::LaunchSettling => self.list_windows(self.observe_pid, Stage::AfterLaunch),
            Phase::MoveForeground(i) => match event {
                RestoreEvent::Foreground(b) => {
                    if b {
                        self.pause()
                    } else {
                        self.phase = Phase::MoveHandle(i);
                        RestoreAction::ResolveHandle { handle: self.selected[i].handle.clone() }
                    }
                },
                _ => {
                    proof {
                        assert(false);
                    }
                    RestoreAction::CheckForeground
                },
            },
            Phase::MoveRefreshLogged(i) => {
                let n = self.selected.len();
                self.count_window();
                self.next_window(i + 1)
            },
            Phase::FinishAfterLog(result) => self.finish(result),
            _ => {
                proof {
                    assert(false);
                }
                RestoreAction::CheckForeground
            },
        }
    }

    fn on_listed(&mut self, stage: Stage, ws: Vec<WindowInfo>) -> (a: RestoreAction)
        requires
            old(self).wf(),
            old(self).phase == Phase::Finished,
        ensures
            step_post(*old(self), *final(self), a),
            no_pause(a),
            consts(*final(self)) == consts(*old(self)),
            step_goes(AppRestore { phase: Phase::ListingWindows(stage), ..*old(self) }, RestoreEvent::Listed(ws), *final(self), a),
    {
        proof {
            reveal(step_goes);
        }
        self.matched = find_matching_windows(&self.app, self.observe_pid, &ws);
        self.phase = Phase::ListingProcesses(stage);
        RestoreAction::ListMatchingProcesses
    }

    fn on_processes(&mut self, stage: Stage, ps: Vec<MatchingProcess>) -> (a: RestoreAction)
        requires
            old(self).wf(),
            old(self).phase == Phase::Finished,
        ensures
            step_post(*old(self), *final(self), a),
            no_pause(a),
            consts(*final(self)) == consts(*old(self)),
            step_goes(AppRestore { phase: Phase::ListingProcesses(stage), ..*old(self) }, RestoreEvent::Processes(ps), *final(self), a),
    {
        proof {
            reveal(step_goes);
        }
        self.processes = ps;
        self.presence = presence_of(&self.matched, &self.processes);
        match stage {
            Stage::Initial => {
                self.surface_refresh_needed = should_show_matched_windows(&self.app, &self.matched);
                self.begin_show()
            },
            Stage::AfterTray => self.show_selected(),
            Stage::AfterShow => self.begin_wake(),
            Stage::AfterWake => self.begin_launch(),
            Stage::AfterLaunch => self.outcome(),
        }
    }

    fn on_show_foreground(&mut self, busy: bool) -> (a: RestoreAction)
        requires
            old(self).wf(),
            old(self).phase == Phase::Finished,
        ensures
            step_post(*old(self), *final(self), a),
            a matches RestoreAction::Finish { result: r } && r.status == AppRestoreStatus::Paused
                ==> busy,
            consts(*final(self)) == consts(*old(self)),
            step_goes(AppRestore { phase: Phase::ShowForeground, ..*old(self) }, RestoreEvent::Foreground(busy), *final(self), a),
    {
        proof {
            reveal(step_goes);
        }
        if busy {
            self.pause()
        } else {
            self.start_tray()
        }
    }

    fn on_tray_activated(&mut self, i: usize, ok: bool) -> (a: RestoreAction)
        requires
            old(self).wf(),
            old(self).phase == Phase::Finished,
            i < old(self).selected@.len(),
        ensures
            step_post(*old(self), *final(self), a),
            no_pause(a),
            consts(*final(self)) == consts(*old(self)),
            step_goes(AppRestore { phase: Phase::TrayActivating(i), ..*old(self) }, RestoreEvent::Activated(ok), *final(self), a),
    {
        proof {
            reveal(step_goes);
        }
        let n = self.selected.len();
        if ok {
            let pid = self.selected[i].process_id;
            self.activated.push(pid);
        }
        self.continue_tray(i + 1)
    }

    fn on_tray_waited(&mut self, restored: Vec<WindowInfo>) -> (a: RestoreAction)
        requires
            old(self).wf(),
            old(self).phase == Phase::Finished,
        ensures
            step_post(*old(self), *final(self), a),
            no_pause(a),
            consts(*final(self)) == consts(*old(self)),
            step_goes(AppRestore { phase: Phase::TrayWaiting, ..*old(self) }, RestoreEvent::Waited(restored), *final(self), a),
    {
        proof {
            reveal(step_goes);
        }
        if any_shown(&restored) {
            self.phase = Phase::TraySettling(restored);
            self.settle()
        } else {
            self.show_selected()
        }
    }

    fn on_shown(&mut self, i: usize, r: Result<(), String>) -> (a: RestoreAction)
        requires
            old(self).wf(),
            old(self).phase == Phase::Finished,
            i < old(self).selected@.len(),
        ensures
            step_post(*old(self), *final(self), a),
            no_pause(a),
            consts(*final(self)) == consts(*old(self)),
            step_goes(AppRestore { phase: Phase::Showing(i), ..*old(self) }, RestoreEvent::Shown(r), *final(self), a),
    {
        proof {
            reveal(step_goes);
        }
        let n = self.selected.len();
        match r {
            Err(message) => {
                self.show_error = Some(message);
                self.after_show()
            },
            Ok(()) => {
                if i + 1 < self.selected.len() {
                    self.phase = Phase::Showing(i + 1);
                    RestoreAction::ShowWindow { handle: self.selected[i + 1].handle.clone() }
                } else {
                    self.after_show()
                }
            },
        }
    }

    fn on_wake_activated(&mut self, i: usize, ok: bool) -> (a: RestoreAction)
        requires
            old(self).wf(),
            old(self).phase == Phase::Finished,
            i < old(self).processes@.len(),
        ensures
            step_post(*old(self), *final(self), a),
            no_pause(a),
            consts(*final(self)) == consts(*old(self)),
            step_goes(AppRestore { phase: Phase::WakeActivating(i), ..*old(self) }, RestoreEvent::Activated(ok), *final(self), a),
    {
        proof {
            reveal(step_goes);
        }
        let n = self.processes.len();
        if ok {
            let pid = self.processes[i].pid;
            self.activated.push(pid);
        }
        self.continue_wake(i + 1)
    }

    fn on_launched(&mut self, outcome: Result<Option<u32>, AppError>) -> (a: RestoreAction)
        requires
            old(self).wf(),
            old(self).phase == Phase::Finished,
        ensures
            step_post(*old(self), *final(self), a),
            no_pause(a),
            consts(*final(self)) == consts(*old(self)),
            step_goes(AppRestore { phase: Phase::Launching, ..*old(self) }, RestoreEvent::Launched(outcome), *final(self), a),
    {
        proof {
            reveal(step_goes);
        }
        match outcome {
            Ok(pid) => {
                self.launched = self.presence == AppPresence::NotRunning;
                self.surface_refresh_needed = true;
                self.observe_pid = pid;
                if self.mode.log_events {
                    let base = if self.presence == AppPresence::RunningWithoutWindow {
                        copy_str("Asked running app to show a window")
                    } else {
                        copy_str("Launched app")
                    };
                    let message = match pid {
                        Some(p) => join2(
                            base.as_str(),
                            join2(" with PID ", decimal_string(p as u64).as_str()).as_str(),
                        ),
                        None => base,
                    };
                    self.phase = Phase::LaunchLogged;
                    RestoreAction::Log { severity: LogSeverity::Info, message }
                } else {
                    self.phase = Phase::LaunchWaiting;
                    self.wait_action(pid, true)
                }
            },
            Err(AppError::InvalidExecutablePath(path)) => {
                let message = join2("Invalid executable path: ", path.as_str());
                let matched = crate::models::copy_windows(&self.matched);
                let result = app_result(
                    &self.app,
                    AppRestoreStatus::InvalidExecutablePath,
                    message.clone(),
                    matched,
                );
                self.finish_logged(LogSeverity::Error, message, result)
            },
            Err(error) => {
                let message = error.message();
                let matched = crate::models::copy_windows(&self.matched);
                let result = app_result(&self.app, AppRestoreStatus::Failed, message.clone(), matched);
                self.finish_logged(LogSeverity::Error, message, result)
            },
        }
    }

    fn on_handle(&mut self, i: usize, r: Result<(), AppError>) -> (a: RestoreAction)
        requires
            old(self).wf(),
            old(self).phase == Phase::Finished,
            i < old(self).selected@.len(),
            old(self).matched@.len() > 0,
            old(self).moved_count + old(self).already_current_count <= i,
            old(self).selected@ == selected(old(self).app, old(self).matched@),
        ensures
            step_post(*old(self), *final(self), a),
            no_pause(a),
            consts(*final(self)) == consts(*old(self)),
            step_goes(AppRestore { phase: Phase::MoveHandle(i), ..*old(self) }, RestoreEvent::HandleResolved(r), *final(self), a),
    {
        proof {
            reveal(step_goes);
        }
        let n = self.selected.len();
        match r {
            Err(error) => {
                let matched = crate::models::copy_windows(&self.matched);
                let result = app_result(&self.app, AppRestoreStatus::Failed, error.message(), matched);
                self.finish(result)
            },
            Ok(()) => {
                let w = &self.selected[i];
                let pull_hidden = self.app.pull_hidden_windows && !w.is_visible;
                let restore_minimized = self.app.restore_if_minimized && w.is_minimized;
                let activate = self.mode.activate_visible_windows;
                if window_layout_is_current(
                    w,
                    &self.monitor,
                    &self.app,
                    &self.layout,
                    pull_hidden,
                    restore_minimized,
                    activate,
                ) {
                    self.current_window = true;
                    if self.surface_refresh_needed {
                        let handle = self.selected[i].handle.clone();
                        self.phase = Phase::MoveRefreshing(i);
                        RestoreAction::RefreshSurface {
                            handle,
                            keep_active: activate,
                            wake_renderer: is_obs_app(&self.app),
                        }
                    } else {
                        self.already_current_count = self.already_current_count + 1;
                        self.next_window(i + 1)
                    }
                } else {
                    let handle = self.selected[i].handle.clone();
                    self.phase = Phase::MoveApplying(i);
                    RestoreAction::ApplyLayout { handle, restore_minimized, pull_hidden, activate }
                }
            },
        }
    }

    fn on_applied(&mut self, i: usize, r: Result<(), AppError>) -> (a: RestoreAction)
        requires
            old(self).wf(),
            old(self).phase == Phase::Finished,
            i < old(self).selected@.len(),
            old(self).matched@.len() > 0,
            old(self).moved_count + old(self).already_current_count <= i,
            old(self).selected@ == selected(old(self).app, old(self).matched@),
        ensures
            step_post(*old(self), *final(self), a),
            no_pause(a),
            consts(*final(self)) == consts(*old(self)),
            step_goes(AppRestore { phase: Phase::MoveApplying(i), ..*old(self) }, RestoreEvent::Applied(r), *final(self), a),
    {
        proof {
            reveal(step_goes);
        }
        let n = self.selected.len();
        match r {
            Err(error) => {
                let matched = crate::models::copy_windows(&self.matched);
                let result = move_failed_result(&self.app, matched, &error);
                let message = error.message();
                self.finish_logged(LogSeverity::Error, message, result)
            },
            Ok(()) => {
                self.current_window = false;
                if self.surface_refresh_needed {
                    let handle = self.selected[i].handle.clone();
                    self.phase = Phase::MoveRefreshing(i);
                    RestoreAction::RefreshSurface {
                        handle,
                        keep_active: self.mode.activate_visible_windows,
                        wake_renderer: is_obs_app(&self.app),
                    }
                } else {
                    self.moved_count = self.moved_count + 1;
                    self.next_window(i + 1)
                }
            },
        }
    }

    fn on_refreshed(&mut self, i: usize, ok: bool) -> (a: RestoreAction)
        requires
            old(self).wf(),
            old(self).phase == Phase::Finished,
            i < old(self).selected@.len(),
            old(self).matched@.len() > 0,
            old(self).moved_count + old(self).already_current_count <= i,
            old(self).selected@ == selected(old(self).app, old(self).matched@),
        ensures
            step_post(*old(self), *final(self), a),
            no_pause(a),
            consts(*final(self)) == consts(*old(self)),
            step_goes(AppRestore { phase: Phase::MoveRefreshing(i), ..*old(self) }, RestoreEvent::Refreshed(ok), *final(self), a),
    {
        proof {
            reveal(step_goes);
        }
        let n = self.selected.len();
        if !ok && self.mode.log_events {
            self.phase = Phase::MoveRefreshLogged(i);
            RestoreAction::Log {
                severity: LogSeverity::Warn,
                message: copy_str("OBS client surface stayed blank after bounded recovery"),
            }
        } else {
            self.count_window();
            self.next_window(i + 1)
        }
    }

    fn count_window(&mut self)
        requires
            old(self).moved_count + old(self).already_current_count < usize::MAX,
        ensures
            *final(self) == (AppRestore {
                moved_count: if old(self).current_window {
                    old(self).moved_count
                } else {
                    (old(self).moved_count + 1) as usize
                },
                already_current_count: if old(self).current_window {
                    (old(self).already_current_count + 1) as usize
                } else {
                    old(self).already_current_count
                },
                ..*old(self)
            }),
    {
        if self.current_window {
            self.already_current_count = self.already_current_count + 1;
        } else {
            self.moved_count = self.moved_count + 1;
        }
    }
}

/// The first window from `from` on whose process has not answered yet.
fn next_unactivated_window(activated: &Vec<u32>, ws: &Vec<WindowInfo>, from: usize) -> (r: Option<usize>)
    ensures
        r matches Some(i) ==> from <= i < ws@.len(),
        r matches Some(i) ==> first_unasked_window(activated@, ws@, from as int) == Some(i as int),
        r is None ==> first_unasked_window(activated@, ws@, from as int) is None,
{
    let mut i = from;
    while i < ws.len()
        invariant
            from <= i,
            first_unasked_window(activated@, ws@, from as int) == first_unasked_window(
                activated@,
                ws@,
                i as int,
            ),
        decreases ws.len() - i,
    {
        if !contains_pid(activated, ws[i].process_id) {
            return Some(i);
        }
        i = i + 1;
    }
    None
}

/// The first process from `from` on that has not answered yet.
fn next_unactivated_process(activated: &Vec<u32>, ps: &Vec<MatchingProcess>, from: usize) -> (r: Option<usize>)
    ensures
        r matches Some(i) ==> from <= i < ps@.len(),
        r matches Some(i) ==> first_unasked_process(activated@, ps@, from as int) == Some(i as int),
        r is None ==> first_unasked_process(activated@, ps@, from as int) is None,
{
    let mut i = from;
    while i < ps.len()
        invariant
            from <= i,
            first_unasked_process(activated@, ps@, from as int) == first_unasked_process(
                activated@,
                ps@,
                i as int,
            ),
        decreases ps.len() - i,
    {
        if !contains_pid(activated, ps[i].pid) {
            return Some(i);
        }
        i = i + 1;
    }
    None
}

/// Whether a visible, restored window is among `ws`.
pub fn any_shown(ws: &Vec<WindowInfo>) -> (r: bool)
    ensures
        r == exists|k: int| 0 <= k < ws@.len() && (#[trigger] ws@[k]).is_visible && !ws@[k].is_minimized,
{
    let mut i: usize = 0;
    while i < ws.len()
        invariant
            i <= ws.len(),
            forall|k: int| 0 <= k < i ==> !((#[trigger] ws@[k]).is_visible && !ws@[k].is_minimized),
        decreases ws.len() - i,
    {
        if ws[i].is_visible && !ws[i].is_minimized {
            return true;
        }
        i = i + 1;
    }
    false
}

pub fn contains_pid(v: &Vec<u32>, pid: u32) -> (r: bool)
    ensures
        r == v@.contains(pid),
{
    let mut i: usize = 0;
    while i < v.len()
        invariant
            i <= v.len(),
            forall|k: int| 0 <= k < i ==> v@[k] != pid,
        decreases v.len() - i,
    {
        if v[i] == pid {
            assert(v@[i as int] == pid);
            return true;
        }
        i = i + 1;
    }
    false
}

pub open spec fn hidden_count(ws: Seq<WindowInfo>) -> nat
    decreases ws.len(),
{
    if ws.len() == 0 {
        0
    } else {
        hidden_count(ws.drop_last()) + if !ws.last().is_visible {
            1nat
        } else {
            0nat
        }
    }
}

pub fn count_hidden(ws: &Vec<WindowInfo>) -> (r: usize)
    ensures
        r == hidden_count(ws@),
{
    let mut n: usize = 0;
    let mut i: usize = 0;
    while i < ws.len()
        invariant
            i <= ws.len(),
            n == hidden_count(ws@.take(i as int)),
            n <= i,
        decreases ws.len() - i,
    {
        assert(ws@.take(i + 1).drop_last() =~= ws@.take(i as int));
        if !ws[i].is_visible {
            n = n + 1;
        }
        i = i + 1;
    }
    assert(ws@.take(ws.len() as int) =~= ws@);
    n
}

/// The message an app's finished restore reports.
pub open spec fn applied_text(hidden: nat, moved: nat, already: nat, total: nat) -> Seq<char> {
    if hidden > 0 {
        "Pulled "@ + decimal(hidden) + " hidden/tray window(s) forward and applied layout to "@
            + decimal(total) + " window(s)"@
    } else if moved == 0 && already > 0 {
        decimal(already) + " window(s) already matched the saved layout"@
    } else if already > 0 {
        "Applied layout to "@ + decimal(moved) + " window(s); "@ + decimal(already)
            + " already matched"@
    } else {
        "Applied layout to "@ + decimal(moved) + " window(s)"@
    }
}

pub fn applied_message(hidden: usize, moved: usize, already: usize, total: usize) -> (r: String)
    ensures
        r@ == applied_text(hidden as nat, moved as nat, already as nat, total as nat),
{
    if hidden > 0 {
        let a = join2("Pulled ", decimal_string(hidden as u64).as_str());
        let b = join2(a.as_str(), " hidden/tray window(s) forward and applied layout to ");
        let c = join2(b.as_str(), decimal_string(total as u64).as_str());
        join2(c.as_str(), " window(s)")
    } else if moved == 0 && already > 0 {
        join2(decimal_string(already as u64).as_str(), " window(s) already matched the saved layout")
    } else if already > 0 {
        let a = join2("Applied layout to ", decimal_string(moved as u64).as_str());
        let b = join2(a.as_str(), " window(s); ");
        let c = join2(b.as_str(), decimal_string(already as u64).as_str());
        join2(c.as_str(), " already matched")
    } else {
        let a = join2("Applied layout to ", decimal_string(moved as u64).as_str());
        join2(a.as_str(), " window(s)")
    }
}

} // verus!
