//! Restoring a whole profile: the plan for each of its apps, and the result
//! the profile's restore comes to.
use vstd::prelude::*;

use crate::app_restore::{AppRestore, Phase, RestoreMode};
use crate::errors::AppError;
use crate::models::{
    AppConfig, AppRestoreResult, AppRestoreStatus, LogSeverity, MonitorInfo, Profile,
    RestoreResult, RestoreStatus, WindowAutoLayoutConfig,
};
use crate::placement::{lemma_captured_layout_fits, lemma_visible_layout_fits};
use crate::restore::{
    app_monitor_choice, monitor_missing_result, paused_restore_result, profile_monitor_choice,
    profile_status,
    resolve_profile_monitor, resolve_app_monitor, restore_layout,
    restore_layout_for_monitor, restore_status, MonitorResolution,
};
use crate::targets::monitors_wf;
use crate::text::{copy_str, join2};

verus! {

/// Whether apps that are not running are launched: as the caller says, else
/// as the startup settings say.
pub open spec fn launch_missing_spec(c: WindowAutoLayoutConfig, override_: Option<bool>) -> bool {
    match override_ {
        Some(b) => b,
        None => c.startup.launch_missing_apps,
    }
}

/// The monitor an app of the profile is restored to: its own when it
/// resolves, else the profile's.
pub open spec fn app_monitor(
    c: WindowAutoLayoutConfig,
    p: Profile,
    app: AppConfig,
    ms: Seq<MonitorInfo>,
    profile_monitor: MonitorResolution,
) -> MonitorResolution {
    match app_monitor_choice(c, p, app, ms) {
        Some(t) => MonitorResolution { monitor: ms[t.0], is_fallback: t.1 },
        None => profile_monitor,
    }
}

/// The restore of app `index` of the profile, ready to start: on its monitor
/// (see `app_monitor`), to its restore layout there, launching it when
/// missing as `launch_missing_spec` says.
pub fn plan_app_restore(
    config: &WindowAutoLayoutConfig,
    profile: &Profile,
    index: usize,
    monitors: &Vec<MonitorInfo>,
    profile_monitor: &MonitorResolution,
    launch_missing_override: Option<bool>,
    mode: RestoreMode,
) -> (r: AppRestore)
    requires
        index < profile.apps@.len(),
        monitors_wf(monitors@),
        profile_monitor.monitor.wf(),
        profile.apps@[index as int].layout.width >= 0,
        profile.apps@[index as int].layout.height >= 0,
    ensures
        r.wf(),
        r.app.same_as(profile.apps@[index as int]),
        r.monitor == app_monitor(
            *config,
            *profile,
            profile.apps@[index as int],
            monitors@,
            *profile_monitor,
        ).monitor,
        r.layout == restore_layout(
            profile.apps@,
            profile.apps@[index as int],
            app_monitor(*config, *profile, profile.apps@[index as int], monitors@, *profile_monitor),
        ),
        r.launch_missing == launch_missing_spec(*config, launch_missing_override),
        r.mode == mode,
        r.phase == Phase::Begin,
        !r.launched,
{
    let app = &profile.apps[index];
    let resolution = match resolve_app_monitor(config, profile, app, monitors) {
        Some(r) => r,
        None => MonitorResolution {
            monitor: profile_monitor.monitor.duplicate(),
            is_fallback: profile_monitor.is_fallback,
        },
    };
    proof {
        assert(resolution.monitor.wf());
        match app.captured_display {
            Some(d) => lemma_captured_layout_fits(app.layout, d, resolution.monitor),
            None => {},
        }
    }
    let layout = restore_layout_for_monitor(profile, app, &resolution);
    proof {
        lemma_visible_layout_fits(
            match app.captured_display {
                Some(d) => {
                    let t = crate::placement::captured_layout(app.layout, d, resolution.monitor);
                    crate::models::LayoutRect {
                        x: t.0 as i32,
                        y: t.1 as i32,
                        width: t.2 as i32,
                        height: t.3 as i32,
                    }
                },
                None => if resolution.is_fallback {
                    crate::placement::fallback_layout(profile.apps@, *app, resolution.monitor)
                } else {
                    app.layout
                },
            },
            resolution.monitor,
        );
    }
    let launch_missing = match launch_missing_override {
        Some(b) => b,
        None => config.startup.launch_missing_apps,
    };
    AppRestore::new(app.duplicate(), resolution.monitor, layout, launch_missing, mode)
}

/// Automatic restores pass "do not launch": whatever the startup settings
/// say, no app of theirs is launched (see `AppRestore::step`, which launches
/// only when its restore allows it).
pub proof fn automatic_restores_never_launch(c: WindowAutoLayoutConfig)
    ensures
        !launch_missing_spec(c, Some(false)),
{
}

/// Whether an app's result stops the profile's restore: it was paused.
pub fn stops_profile(result: &AppRestoreResult) -> (r: bool)
    ensures
        r == (result.status == AppRestoreStatus::Paused),
{
    result.status == AppRestoreStatus::Paused
}

/// The profile's restore result once its apps are done: its status from the
/// app results (see `profile_status`), on the profile's monitor.
pub fn finish_profile_restore(
    profile: &Profile,
    monitor: MonitorInfo,
    results: Vec<AppRestoreResult>,
    paused: bool,
    started_at: String,
    finished_at: String,
) -> (r: RestoreResult)
    ensures
        r.profile_id == profile.id,
        r.profile_name == profile.name,
        r.status == profile_status(results@, paused),
        r.started_at == started_at,
        r.finished_at == finished_at,
        r.monitor == Some(monitor),
        r.results@ == results@,
{
    let status = restore_status(&results, paused);
    RestoreResult {
        profile_id: profile.id.clone(),
        profile_name: profile.name.clone(),
        status,
        started_at,
        finished_at,
        monitor: Some(monitor),
        results,
    }
}

/// The name a status is logged under.
pub open spec fn status_name(s: RestoreStatus) -> Seq<char> {
    match s {
        RestoreStatus::Success => "Success"@,
        RestoreStatus::PartialSuccess => "PartialSuccess"@,
        RestoreStatus::Failed => "Failed"@,
        RestoreStatus::MonitorMissing => "MonitorMissing"@,
        RestoreStatus::Paused => "Paused"@,
    }
}

/// The log line that closes a profile's restore: informational for a
/// success or a pause, a warning otherwise.
pub fn finished_log(status: RestoreStatus) -> (r: (LogSeverity, String))
    ensures
        r.0 == (if status == RestoreStatus::Success || status == RestoreStatus::Paused {
            LogSeverity::Info
        } else {
            LogSeverity::Warn
        }),
        r.1@ == "Restore finished with status "@ + status_name(status),
{
    let name = match status {
        RestoreStatus::Success => "Success",
        RestoreStatus::PartialSuccess => "PartialSuccess",
        RestoreStatus::Failed => "Failed",
        RestoreStatus::MonitorMissing => "MonitorMissing",
        RestoreStatus::Paused => "Paused",
    };
    let severity = if status == RestoreStatus::Success || status == RestoreStatus::Paused {
        LogSeverity::Info
    } else {
        LogSeverity::Warn
    };
    (severity, join2("Restore finished with status ", name))
}

/// The warning logged when a fallback monitor stands in for the saved one.
pub fn fallback_monitor_message(name: &str) -> (r: String)
    ensures
        r@ == "Saved monitor is missing; using "@ + name@,
{
    join2("Saved monitor is missing; using ", name)
}

/// How long after a restore window events are ignored.
pub const RESTORE_EVENT_SUPPRESSION_MS: u64 = 1000;

/// Window events are ignored while a restore runs and for a second after one
/// finished (they are the restore's own doing).
pub fn restore_events_suppressed(active: bool, since_last_finished_ms: Option<u64>) -> (r: bool)
    ensures
        r == (active || (since_last_finished_ms matches Some(ms) && ms < 1000)),
{
    active || match since_last_finished_ms {
        Some(ms) => ms < RESTORE_EVENT_SUPPRESSION_MS,
        None => false,
    }
}

/// How a profile restore ends, once the clock has been read.
#[derive(Debug, Clone, Copy, PartialEq, Eq, Structural)]
pub enum Ending {
    /// A game was in front before anything was done.
    PausedAtStart,
    /// The profile's monitor is missing.
    MonitorMissing,
    /// The apps were gone through (all of them, or until a pause).
    AppsDone,
}

/// Where a profile restore stands.
#[derive(Debug, Clone, Copy, PartialEq, Eq, Structural)]
pub enum ProfilePhase {
    Begin,
    StartForeground,
    PausedLogged,
    StartedLogged,
    ListingMonitors,
    MissingLogged,
    FallbackLogged,
    AppForeground,
    RestoringApp,
    FinishedLogged,
    Clock(Ending),
    Done,
}

/// What the caller reports back.
pub enum ProfileEvent {
    /// The restore is to begin.
    Started,
    /// Whether a game or fullscreen app is in the foreground.
    Foreground(bool),
    /// The log line was written (or could not be).
    Logged,
    /// The connected monitors, or why they could not be listed.
    Monitors(Result<Vec<MonitorInfo>, AppError>),
    /// The app restore handed out ran to its end with this result.
    AppFinished(AppRestoreResult),
    /// The current time, as text.
    Now(String),
}

/// What the caller does next.
pub enum ProfileAction {
    /// Tell whether a game or fullscreen app is in the foreground.
    CheckForeground,
    /// Write a log line for the profile.
    Log { severity: LogSeverity, message: String },
    /// List the connected monitors.
    ListMonitors,
    /// Run this app restore to its end (see `AppRestore::step`).
    RestoreApp { restore: AppRestore },
    /// Read the clock.
    ReadClock,
    /// The profile restore is over.
    Finish { result: Result<RestoreResult, AppError> },
}

/// A restore of one profile, driven by the caller, who performs each action
/// and reports what came of it.
pub struct ProfileRestore {
    pub config: WindowAutoLayoutConfig,
    pub profile: Profile,
    pub launch_missing_override: Option<bool>,
    pub mode: RestoreMode,
    pub started_at: String,
    pub phase: ProfilePhase,
    pub monitors: Vec<MonitorInfo>,
    pub resolution: Option<MonitorResolution>,
    pub next_app: usize,
    pub results: Vec<AppRestoreResult>,
    pub paused: bool,
}

/// Every app of the profile has a layout of non-negative size. With a
/// negative saved size, a layout carried over from its captured display can
/// be placed so far into the work area that its offset leaves `i32` (see
/// `captured_layout_fits`). Normalization clamps every saved size to at
/// least 80, and every configuration is normalized when it is loaded, so
/// every profile a restore is started for meets this.
pub open spec fn sizes_ok(p: Profile) -> bool {
    forall|k: int|
        0 <= k < p.apps@.len() ==> (#[trigger] p.apps@[k]).layout.width >= 0
            && p.apps@[k].layout.height >= 0
}

pub fn layouts_have_size(profile: &Profile) -> (r: bool)
    ensures
        r == sizes_ok(*profile),
{
    let mut i: usize = 0;
    while i < profile.apps.len()
        invariant
            i <= profile.apps@.len(),
            forall|k: int|
                0 <= k < i ==> (#[trigger] profile.apps@[k]).layout.width >= 0
                    && profile.apps@[k].layout.height >= 0,
        decreases profile.apps@.len() - i,
    {
        if profile.apps[i].layout.width < 0 || profile.apps[i].layout.height < 0 {
            return false;
        }
        i = i + 1;
    }
    true
}

pub fn monitors_are_wf(monitors: &Vec<MonitorInfo>) -> (r: bool)
    ensures
        r == monitors_wf(monitors@),
{
    let mut i: usize = 0;
    while i < monitors.len()
        invariant
            i <= monitors@.len(),
            forall|k: int| 0 <= k < i ==> (#[trigger] monitors@[k]).wf(),
        decreases monitors@.len() - i,
    {
        if !monitors[i].is_wf() {
            return false;
        }
        i = i + 1;
    }
    true
}

/// What a profile restore never changes.
pub struct ProfileConsts {
    pub config: WindowAutoLayoutConfig,
    pub profile: Profile,
    pub launch_missing_override: Option<bool>,
    pub mode: RestoreMode,
    pub started_at: String,
}

pub open spec fn pconsts(s: ProfileRestore) -> ProfileConsts {
    ProfileConsts {
        config: s.config,
        profile: s.profile,
        launch_missing_override: s.launch_missing_override,
        mode: s.mode,
        started_at: s.started_at,
    }
}

/// What a profile restore keeps between steps (besides its phase).
#[verifier::ext_equal]
pub struct ProfileVars {
    pub monitors: Seq<MonitorInfo>,
    pub resolution: Option<MonitorResolution>,
    pub next_app: nat,
    pub results: Seq<AppRestoreResult>,
    pub paused: bool,
}

pub open spec fn pvars(s: ProfileRestore) -> ProfileVars {
    ProfileVars {
        monitors: s.monitors@,
        resolution: s.resolution,
        next_app: s.next_app as nat,
        results: s.results@,
        paused: s.paused,
    }
}

/// Nothing changes but the phase, which becomes `p`.
pub open spec fn pmoves_to(v: ProfileVars, s: ProfileRestore, p: ProfilePhase) -> bool {
    pvars(s) =~= v && s.phase == p
}

pub open spec fn plogs(x: ProfileAction, severity: LogSeverity, message: Seq<char>) -> bool {
    x matches ProfileAction::Log { severity: sv, message: m } && sv == severity && m@ == message
}

/// The restore starts: it logs that (when events are logged), then lists
/// the monitors.
pub open spec fn starts(c: ProfileConsts, v: ProfileVars, s: ProfileRestore, x: ProfileAction) -> bool {
    if c.mode.log_events {
        pmoves_to(v, s, ProfilePhase::StartedLogged) && plogs(x, LogSeverity::Info, "Restore started"@)
    } else {
        pmoves_to(v, s, ProfilePhase::ListingMonitors) && x is ListMonitors
    }
}

/// The apps are done: the status they come to is logged (when events are
/// logged), then the clock is read.
pub open spec fn finishes(c: ProfileConsts, v: ProfileVars, s: ProfileRestore, x: ProfileAction) -> bool {
    if c.mode.log_events {
        let status = profile_status(v.results, v.paused);
        pmoves_to(v, s, ProfilePhase::FinishedLogged) && plogs(
            x,
            if status == RestoreStatus::Success || status == RestoreStatus::Paused {
                LogSeverity::Info
            } else {
                LogSeverity::Warn
            },
            "Restore finished with status "@ + status_name(status),
        )
    } else {
        pmoves_to(v, s, ProfilePhase::Clock(Ending::AppsDone)) && x is ReadClock
    }
}

/// The next app of the profile is restored (see `restore_planned`).
pub open spec fn runs(v: ProfileVars, s: ProfileRestore, x: ProfileAction) -> bool {
    pmoves_to(v, s, ProfilePhase::RestoringApp) && (x matches ProfileAction::RestoreApp { restore }
        && restore_planned(s, restore))
}

/// The next app is taken up (after a look at the foreground when games
/// pause restores), or, past the last app, the restore finishes.
pub open spec fn next_step(c: ProfileConsts, v: ProfileVars, s: ProfileRestore, x: ProfileAction) -> bool {
    if v.next_app >= c.profile.apps@.len() {
        finishes(c, v, s, x)
    } else if c.mode.abort_for_latency_sensitive_foreground {
        pmoves_to(v, s, ProfilePhase::AppForeground) && x is CheckForeground
    } else {
        runs(v, s, x)
    }
}

/// For every phase and the event it waits for: what the step does.
#[verifier::opaque]
pub open spec fn profile_goes(b: ProfileRestore, e: ProfileEvent, s: ProfileRestore, x: ProfileAction) -> bool {
    let c = pconsts(b);
    let v = pvars(b);
    match b.phase {
        ProfilePhase::Begin => if c.mode.abort_for_latency_sensitive_foreground {
            pmoves_to(v, s, ProfilePhase::StartForeground) && x is CheckForeground
        } else {
            starts(c, v, s, x)
        },
        ProfilePhase::StartForeground => match e {
            ProfileEvent::Foreground(busy) => if busy {
                let w = ProfileVars { paused: true, ..v };
                if c.mode.log_events {
                    pmoves_to(w, s, ProfilePhase::PausedLogged) && plogs(
                        x,
                        LogSeverity::Info,
                        "Restore paused for a foreground game or fullscreen app"@,
                    )
                } else {
                    pmoves_to(w, s, ProfilePhase::Clock(Ending::PausedAtStart)) && x is ReadClock
                }
            } else {
                starts(c, v, s, x)
            },
            _ => true,
        },
        ProfilePhase::AppForeground => match e {
            ProfileEvent::Foreground(busy) => if busy {
                finishes(c, ProfileVars { paused: true, ..v }, s, x)
            } else {
                runs(v, s, x)
            },
            _ => true,
        },
        ProfilePhase::PausedLogged => pmoves_to(v, s, ProfilePhase::Clock(Ending::PausedAtStart))
            && x is ReadClock,
        ProfilePhase::StartedLogged => pmoves_to(v, s, ProfilePhase::ListingMonitors)
            && x is ListMonitors,
        ProfilePhase::MissingLogged => pmoves_to(v, s, ProfilePhase::Clock(Ending::MonitorMissing))
            && x is ReadClock,
        ProfilePhase::FallbackLogged => next_step(c, v, s, x),
        ProfilePhase::FinishedLogged => pmoves_to(v, s, ProfilePhase::Clock(Ending::AppsDone))
            && x is ReadClock,
        ProfilePhase::ListingMonitors => match e {
            ProfileEvent::Monitors(Err(error)) => pmoves_to(v, s, ProfilePhase::Done) && x
                == ProfileAction::Finish { result: Err(error) },
            ProfileEvent::Monitors(Ok(ms)) => {
                let w = ProfileVars { monitors: ms@, ..v };
                match profile_monitor_choice(c.config, c.profile, ms@) {
                    None => if c.mode.log_events {
                        pmoves_to(w, s, ProfilePhase::MissingLogged) && plogs(
                            x,
                            LogSeverity::Warn,
                            "Restore skipped because the saved monitor is missing"@,
                        )
                    } else {
                        pmoves_to(w, s, ProfilePhase::Clock(Ending::MonitorMissing))
                            && x is ReadClock
                    },
                    Some(t) => {
                        let r = MonitorResolution { monitor: ms@[t.0], is_fallback: t.1 };
                        let u = ProfileVars { resolution: Some(r), ..w };
                        if t.1 && c.mode.log_events {
                            pmoves_to(u, s, ProfilePhase::FallbackLogged) && plogs(
                                x,
                                LogSeverity::Warn,
                                "Saved monitor is missing; using "@ + r.monitor.name@,
                            )
                        } else {
                            next_step(c, u, s, x)
                        }
                    },
                }
            },
            _ => true,
        },
        ProfilePhase::RestoringApp => match e {
            ProfileEvent::AppFinished(r) => {
                let w = ProfileVars { results: v.results.push(r), next_app: v.next_app + 1, ..v };
                if r.status == AppRestoreStatus::Paused {
                    finishes(c, ProfileVars { paused: true, ..w }, s, x)
                } else {
                    next_step(c, w, s, x)
                }
            },
            _ => true,
        },
        ProfilePhase::Clock(_) => s.phase == ProfilePhase::Done && (x matches ProfileAction::Finish {
            result: Ok(r),
        } && finished_as(b, r, e)),
        ProfilePhase::Done => true,
    }
}

/// The phases in which the profile's monitor is known.
pub open spec fn resolved_phase(p: ProfilePhase) -> bool {
    ||| p is FallbackLogged
    ||| p is AppForeground
    ||| p is RestoringApp
    ||| p is FinishedLogged
    ||| p == ProfilePhase::Clock(Ending::AppsDone)
}


/// The app restore handed out is the next app of the profile (apps go in
/// order, one result each), on its monitor, to its layout there, launching
/// as `launch_missing_spec` says, in the restore's mode, not begun yet.
pub open spec fn restore_planned(after: ProfileRestore, restore: AppRestore) -> bool {
    let k = after.results@.len() as int;
    &&& k < after.profile.apps@.len()
    &&& after.resolution matches Some(res) && {
        let am = app_monitor(after.config, after.profile, after.profile.apps@[k], after.monitors@, res);
        &&& restore.monitor == am.monitor
        &&& restore.layout == restore_layout(after.profile.apps@, after.profile.apps@[k], am)
    }
    &&& restore.wf()
    &&& restore.app.same_as(after.profile.apps@[k])
    &&& restore.launch_missing == launch_missing_spec(after.config, after.launch_missing_override)
    &&& restore.mode == after.mode
    &&& restore.phase == Phase::Begin
    &&& !restore.launched
}

/// The result a finished profile restore reports: the profile's, stamped
/// with the start and the time just read; paused with no apps when a game
/// was in front at the start, skipped with no apps when the monitor is
/// missing, else the apps' results and the status they come to.
pub open spec fn finished_as(before: ProfileRestore, r: RestoreResult, e: ProfileEvent) -> bool {
    &&& e matches ProfileEvent::Now(t) && r.finished_at == t
    &&& r.started_at == before.started_at
    &&& r.profile_id == before.profile.id
    &&& r.profile_name == before.profile.name
    &&& match before.phase {
        ProfilePhase::Clock(Ending::PausedAtStart) => r.status == RestoreStatus::Paused
            && r.results@.len() == 0 && r.monitor is None,
        ProfilePhase::Clock(Ending::MonitorMissing) => r.status == RestoreStatus::MonitorMissing
            && r.results@.len() == 0 && r.monitor is None,
        ProfilePhase::Clock(Ending::AppsDone) => r.results@ == before.results@ && r.status
            == profile_status(before.results@, before.paused) && (before.resolution matches Some(
            res,
        ) && r.monitor == Some(res.monitor)),
        _ => false,
    }
}

/// What the transitions that do not take a result keep.
pub open spec fn profile_flow_post(before: ProfileRestore, after: ProfileRestore, a: ProfileAction) -> bool {
    &&& after.wf()
    &&& after.config == before.config
    &&& after.profile == before.profile
    &&& after.launch_missing_override == before.launch_missing_override
    &&& after.mode == before.mode
    &&& after.started_at == before.started_at
    &&& after.results@ == before.results@
    &&& after.paused == before.paused
    &&& (a is CheckForeground ==> before.mode.abort_for_latency_sensitive_foreground)
    &&& (a is Log ==> before.mode.log_events)
    &&& (a matches ProfileAction::RestoreApp { restore } ==> restore_planned(after, restore))
    &&& !(a is Finish)
}

/// What every step of a profile restore guarantees: the configuration,
/// profile, launch choice, mode and start never change; results are only
/// added, one per finished app, in the order of the profile's apps, and
/// handed over whole with the profile's result; a pause
/// is recorded only when a game was in front or an app restore paused; the
/// foreground is checked only when games pause restores; the log is written
/// only when events are logged; the result is as `finished_as` says, paused
/// only when a pause was recorded, and an error only the one listing the
/// monitors gave.
pub open spec fn profile_step_post(
    before: ProfileRestore,
    after: ProfileRestore,
    e: ProfileEvent,
    a: ProfileAction,
) -> bool {
    &&& after.wf()
    &&& after.config == before.config
    &&& after.profile == before.profile
    &&& after.launch_missing_override == before.launch_missing_override
    &&& after.mode == before.mode
    &&& after.started_at == before.started_at
    &&& (e matches ProfileEvent::AppFinished(r) ==> after.results@ == before.results@.push(r))
    &&& (!(e is AppFinished) && !(e is Now) ==> after.results@ == before.results@)
    &&& (before.paused ==> after.paused)
    &&& (!before.paused && after.paused ==> (e == ProfileEvent::Foreground(true) || (
    e matches ProfileEvent::AppFinished(r) && r.status == AppRestoreStatus::Paused)))
    &&& (a is CheckForeground ==> before.mode.abort_for_latency_sensitive_foreground)
    &&& (a is Log ==> before.mode.log_events)
    &&& (a matches ProfileAction::RestoreApp { restore } ==> restore_planned(after, restore))
    &&& (a matches ProfileAction::Finish { result: Ok(r) } ==> finished_as(before, r, e))
    &&& (a matches ProfileAction::Finish { result: Ok(r) } && r.status == RestoreStatus::Paused
        ==> before.paused)
    &&& (a matches ProfileAction::Finish { result: Err(x) } ==> e == ProfileEvent::Monitors(
        Err(x),
    ))
    &&& (a is Finish ==> after.phase == ProfilePhase::Done)
}

impl ProfileRestore {
    /// The app counter and the results agree, within the profile's apps.
    pub open spec fn wf_core(&self) -> bool {
        &&& sizes_ok(self.profile)
        &&& self.next_app <= self.profile.apps@.len()
        &&& self.results@.len() == self.next_app
    }

    pub open spec fn wf(&self) -> bool {
        &&& self.wf_core()
        &&& (self.phase is RestoringApp ==> self.next_app < self.profile.apps@.len())
        &&& (self.phase is AppForeground ==> self.next_app < self.profile.apps@.len())
        &&& (resolved_phase(self.phase) ==> (self.resolution matches Some(r) && r.monitor.wf()
            && monitors_wf(self.monitors@)))
        &&& (self.phase is PausedLogged || self.phase == ProfilePhase::Clock(Ending::PausedAtStart)
            ==> self.paused)
    }

    /// The event the restore waits for in its current phase; the monitors
    /// it is given have geometry within `GEOMETRY_LIMIT`.
    pub open spec fn expects(&self, e: ProfileEvent) -> bool {
        match self.phase {
            ProfilePhase::Begin => e is Started,
            ProfilePhase::StartForeground => e is Foreground,
            ProfilePhase::AppForeground => e is Foreground,
            ProfilePhase::PausedLogged => e is Logged,
            ProfilePhase::StartedLogged => e is Logged,
            ProfilePhase::MissingLogged => e is Logged,
            ProfilePhase::FallbackLogged => e is Logged,
            ProfilePhase::FinishedLogged => e is Logged,
            ProfilePhase::ListingMonitors => e matches ProfileEvent::Monitors(r) && (r matches Ok(
                ms,
            ) ==> monitors_wf(ms@)),
            ProfilePhase::RestoringApp => e is AppFinished,
            ProfilePhase::Clock(_) => e is Now,
            ProfilePhase::Done => false,
        }
    }

    pub fn accepts(&self, e: &ProfileEvent) -> (r: bool)
        ensures
            r == self.expects(*e),
    {
        match self.phase {
            ProfilePhase::Begin => matches!(e, ProfileEvent::Started),
            ProfilePhase::StartForeground => matches!(e, ProfileEvent::Foreground(_)),
            ProfilePhase::AppForeground => matches!(e, ProfileEvent::Foreground(_)),
            ProfilePhase::PausedLogged => matches!(e, ProfileEvent::Logged),
            ProfilePhase::StartedLogged => matches!(e, ProfileEvent::Logged),
            ProfilePhase::MissingLogged => matches!(e, ProfileEvent::Logged),
            ProfilePhase::FallbackLogged => matches!(e, ProfileEvent::Logged),
            ProfilePhase::FinishedLogged => matches!(e, ProfileEvent::Logged),
            ProfilePhase::ListingMonitors => match e {
                ProfileEvent::Monitors(Ok(ms)) => monitors_are_wf(ms),
                ProfileEvent::Monitors(Err(_)) => true,
                _ => false,
            },
            ProfilePhase::RestoringApp => matches!(e, ProfileEvent::AppFinished(_)),
            ProfilePhase::Clock(_) => matches!(e, ProfileEvent::Now(_)),
            ProfilePhase::Done => false,
        }
    }

    /// A restore of `profile` (of `config`), started at `started_at`, not
    /// begun yet.
    pub fn new(
        config: WindowAutoLayoutConfig,
        profile: Profile,
        launch_missing_override: Option<bool>,
        mode: RestoreMode,
        started_at: String,
    ) -> (r: ProfileRestore)
        requires
            sizes_ok(profile),
        ensures
            r.wf(),
            r.config == config,
            r.profile == profile,
            r.launch_missing_override == launch_missing_override,
            r.mode == mode,
            r.started_at == started_at,
            r.phase == ProfilePhase::Begin,
            r.results@.len() == 0,
            !r.paused,
    {
        ProfileRestore {
            config,
            profile,
            launch_missing_override,
            mode,
            started_at,
            phase: ProfilePhase::Begin,
            monitors: Vec::new(),
            resolution: None,
            next_app: 0,
            results: Vec::new(),
            paused: false,
        }
    }

    fn log(&mut self, severity: LogSeverity, message: String, next: ProfilePhase) -> (a:
        ProfileAction)
        ensures
            final(self).phase == next,
            final(self).config == old(self).config,
            final(self).profile == old(self).profile,
            final(self).launch_missing_override == old(self).launch_missing_override,
            final(self).mode == old(self).mode,
            final(self).started_at == old(self).started_at,
            final(self).monitors == old(self).monitors,
            final(self).resolution == old(self).resolution,
            final(self).next_app == old(self).next_app,
            final(self).results == old(self).results,
            final(self).paused == old(self).paused,
            a == (ProfileAction::Log { severity, message }),
    {
        self.phase = next;
        ProfileAction::Log { severity, message }
    }

    fn read_clock(&mut self, ending: Ending) -> (a: ProfileAction)
        ensures
            final(self).phase == ProfilePhase::Clock(ending),
            final(self).config == old(self).config,
            final(self).profile == old(self).profile,
            final(self).launch_missing_override == old(self).launch_missing_override,
            final(self).mode == old(self).mode,
            final(self).started_at == old(self).started_at,
            final(self).monitors == old(self).monitors,
            final(self).resolution == old(self).resolution,
            final(self).next_app == old(self).next_app,
            final(self).results == old(self).results,
            final(self).paused == old(self).paused,
            a is ReadClock,
    {
        self.phase = ProfilePhase::Clock(ending);
        ProfileAction::ReadClock
    }

    fn after_start(&mut self) -> (a: ProfileAction)
        requires
            old(self).wf_core(),
        ensures
            profile_flow_post(*old(self), *final(self), a),
            pconsts(*final(self)) == pconsts(*old(self)),
            starts(pconsts(*old(self)), pvars(*old(self)), *final(self), a),
    {
        if self.mode.log_events {
            self.log(LogSeverity::Info, copy_str("Restore started"), ProfilePhase::StartedLogged)
        } else {
            self.phase = ProfilePhase::ListingMonitors;
            ProfileAction::ListMonitors
        }
    }

    fn finish_apps(&mut self) -> (a: ProfileAction)
        requires
            old(self).wf_core(),
            old(self).resolution matches Some(r) && r.monitor.wf(),
            monitors_wf(old(self).monitors@),
        ensures
            profile_flow_post(*old(self), *final(self), a),
            pconsts(*final(self)) == pconsts(*old(self)),
            finishes(pconsts(*old(self)), pvars(*old(self)), *final(self), a),
    {
        if self.mode.log_events {
            let status = restore_status(&self.results, self.paused);
            let (severity, message) = finished_log(status);
            self.log(severity, message, ProfilePhase::FinishedLogged)
        } else {
            self.read_clock(Ending::AppsDone)
        }
    }

    fn run_app(&mut self) -> (a: ProfileAction)
        requires
            old(self).wf_core(),
            old(self).resolution matches Some(r) && r.monitor.wf(),
            monitors_wf(old(self).monitors@),
            old(self).next_app < old(self).profile.apps@.len(),
        ensures
            profile_flow_post(*old(self), *final(self), a),
            pconsts(*final(self)) == pconsts(*old(self)),
            runs(pvars(*old(self)), *final(self), a),
    {
        let restore = match &self.resolution {
            Some(res) => plan_app_restore(
                &self.config,
                &self.profile,
                self.next_app,
                &self.monitors,
                res,
                self.launch_missing_override,
                self.mode,
            ),
            None => {
                proof {
                    assert(false);
                }
                return ProfileAction::ReadClock;
            },
        };
        self.phase = ProfilePhase::RestoringApp;
        ProfileAction::RestoreApp { restore }
    }

    fn next_app_step(&mut self) -> (a: ProfileAction)
        requires
            old(self).wf_core(),
            old(self).resolution matches Some(r) && r.monitor.wf(),
            monitors_wf(old(self).monitors@),
        ensures
            profile_flow_post(*old(self), *final(self), a),
            pconsts(*final(self)) == pconsts(*old(self)),
            next_step(pconsts(*old(self)), pvars(*old(self)), *final(self), a),
    {
        if self.next_app >= self.profile.apps.len() {
            return self.finish_apps();
        }
        if self.mode.abort_for_latency_sensitive_foreground {
            self.phase = ProfilePhase::AppForeground;
            ProfileAction::CheckForeground
        } else {
            self.run_app()
        }
    }

    fn on_now(&mut self, now: String) -> (a: ProfileAction)
        requires
            old(self).wf(),
            old(self).phase is Clock,
        ensures
            profile_step_post(*old(self), *final(self), ProfileEvent::Now(now), a),
            profile_goes(*old(self), ProfileEvent::Now(now), *final(self), a),
    {
        proof {
            reveal(profile_goes);
        }
        let ending = match self.phase {
            ProfilePhase::Clock(e) => e,
            _ => {
                proof {
                    assert(false);
                }
                return ProfileAction::ReadClock;
            },
        };
        let started = self.started_at.clone();
        let result = match ending {
            Ending::PausedAtStart => paused_restore_result(&self.profile, started, now),
            Ending::MonitorMissing => monitor_missing_result(&self.profile, started, now),
            Ending::AppsDone => {
                let monitor = match &self.resolution {
                    Some(res) => res.monitor.duplicate(),
                    None => {
                        proof {
                            assert(false);
                        }
                        return ProfileAction::ReadClock;
                    },
                };
                let mut results: Vec<AppRestoreResult> = Vec::new();
                core::mem::swap(&mut results, &mut self.results);
                self.next_app = 0;
                finish_profile_restore(&self.profile, monitor, results, self.paused, started, now)
            },
        };
        self.phase = ProfilePhase::Done;
        ProfileAction::Finish { result: Ok(result) }
    }

    fn on_monitors(&mut self, monitors: Vec<MonitorInfo>) -> (a: ProfileAction)
        requires
            old(self).wf(),
            old(self).phase is ListingMonitors,
            monitors_wf(monitors@),
        ensures
            profile_flow_post(*old(self), *final(self), a),
            pconsts(*final(self)) == pconsts(*old(self)),
            profile_goes(*old(self), ProfileEvent::Monitors(Ok(monitors)), *final(self), a),
    {
        proof {
            reveal(profile_goes);
        }
        let resolution = resolve_profile_monitor(&self.config, &self.profile, &monitors);
        self.monitors = monitors;
        match resolution {
            None => {
                if self.mode.log_events {
                    self.log(
                        LogSeverity::Warn,
                        copy_str("Restore skipped because the saved monitor is missing"),
                        ProfilePhase::MissingLogged,
                    )
                } else {
                    self.read_clock(Ending::MonitorMissing)
                }
            },
            Some(res) => {
                let fallback = res.is_fallback;
                let message = fallback_monitor_message(res.monitor.name.as_str());
                self.resolution = Some(res);
                if fallback && self.mode.log_events {
                    self.log(LogSeverity::Warn, message, ProfilePhase::FallbackLogged)
                } else {
                    self.next_app_step()
                }
            },
        }
    }

    /// Handles the outcome of the last action and says what to do next.
    #[verifier::spinoff_prover]
    pub fn step(&mut self, event: ProfileEvent) -> (a: ProfileAction)
        requires
            old(self).wf(),
            old(self).expects(event),
        ensures
            profile_step_post(*old(self), *final(self), event, a),
            profile_goes(*old(self), event, *final(self), a),
    {
        proof {
            reveal(profile_goes);
        }
        match event {
            ProfileEvent::Started => {
                if self.mode.abort_for_latency_sensitive_foreground {
                    self.phase = ProfilePhase::StartForeground;
                    ProfileAction::CheckForeground
                } else {
                    self.after_start()
                }
            },
            ProfileEvent::Foreground(sensitive) => {
                if self.phase == ProfilePhase::StartForeground {
                    if sensitive {
                        self.paused = true;
                        if self.mode.log_events {
                            self.log(
                                LogSeverity::Info,
                                copy_str("Restore paused for a foreground game or fullscreen app"),
                                ProfilePhase::PausedLogged,
                            )
                        } else {
                            self.read_clock(Ending::PausedAtStart)
                        }
                    } else {
                        self.after_start()
                    }
                } else if sensitive {
                    self.paused = true;
                    self.finish_apps()
                } else {
                    self.run_app()
                }
            },
            ProfileEvent::Logged => match self.phase {
                ProfilePhase::PausedLogged => self.read_clock(Ending::PausedAtStart),
                ProfilePhase::StartedLogged => {
                    self.phase = ProfilePhase::ListingMonitors;
                    ProfileAction::ListMonitors
                },
                ProfilePhase::MissingLogged => self.read_clock(Ending::MonitorMissing),
                ProfilePhase::FallbackLogged => self.next_app_step(),
                ProfilePhase::FinishedLogged => self.read_clock(Ending::AppsDone),
                _ => {
                    proof {
                        assert(false);
                    }
                    ProfileAction::ReadClock
                },
            },
            ProfileEvent::Monitors(Err(error)) => {
                self.phase = ProfilePhase::Done;
                ProfileAction::Finish { result: Err(error) }
            },
            ProfileEvent::Monitors(Ok(monitors)) => self.on_monitors(monitors),
            ProfileEvent::AppFinished(result) => {
                let n = self.profile.apps.len();
                let stop = stops_profile(&result);
                self.results.push(result);
                self.next_app = self.next_app + 1;
                if stop {
                    self.paused = true;
                    self.finish_apps()
                } else {
                    self.next_app_step()
                }
            },
            ProfileEvent::Now(now) => self.on_now(now),
        }
    }
}

} // verus!
