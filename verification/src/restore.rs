//! Restore planning: which profile and monitor a restore uses, where each
//! app's layout lands, which matched windows are acted on, and how the
//! outcome of a profile is summed up.
use vstd::prelude::*;

use crate::config::clamp_int;
use crate::errors::AppError;
use crate::geometry::{abs_diff, canvas, layout_canvas};
use crate::matching::{is_obs, is_obs_app, is_quick_tray, is_quick_tray_detection_app};
use crate::models::{
    AppConfig, AppRestoreResult, AppRestoreStatus, CapturedDisplay, LayoutRect, MonitorInfo,
    MonitorMissingBehavior, Profile, RestoreResult, RestoreStatus, WindowAutoLayoutConfig,
    WindowInfo,
};
use crate::monitors::{
    find_monitor, find_monitor_from, find_monitor_index, lemma_find_monitor_from_bounds,
    monitor_matches,
};
use crate::placement::{
    absolute_fits, absolute_of, captured_layout, captured_layout_fits, fallback_layout,
    keep_layout_visible_on_monitor, relative_fits, relative_of, scaled_layout_for_monitor,
    scaled_layout_from_captured_display, usable_visible_area, visible_layout, Rect,
};
use crate::geometry::min_int;
use crate::targets::find_profile_from;
use crate::text::{copy_str, join2};

verus! {

/// A monitor chosen for a restore, and whether it stands in for a missing one.
#[derive(Debug, Clone, PartialEq, Eq)]
pub struct MonitorResolution {
    pub monitor: MonitorInfo,
    pub is_fallback: bool,
}

/// Index of the first primary monitor at or after `i`.
pub open spec fn first_primary_from(ms: Seq<MonitorInfo>, i: int) -> Option<int>
    decreases ms.len() - i,
{
    if i < 0 || i >= ms.len() {
        None
    } else if ms[i].is_primary {
        Some(i)
    } else {
        first_primary_from(ms, i + 1)
    }
}

pub proof fn lemma_first_primary_bounds(ms: Seq<MonitorInfo>, i: int)
    ensures
        first_primary_from(ms, i) matches Some(k) ==> i <= k < ms.len() && ms[k].is_primary,
    decreases ms.len() - i,
{
    if 0 <= i < ms.len() && !ms[i].is_primary {
        lemma_first_primary_bounds(ms, i + 1);
    }
}

fn first_primary_index(monitors: &Vec<MonitorInfo>) -> (r: Option<usize>)
    ensures
        r matches Some(k) ==> first_primary_from(monitors@, 0) == Some(k as int),
        r is None ==> first_primary_from(monitors@, 0) is None,
{
    let mut i: usize = 0;
    while i < monitors.len()
        invariant
            i <= monitors.len(),
            first_primary_from(monitors@, 0) == first_primary_from(monitors@, i as int),
        decreases monitors.len() - i,
    {
        if monitors[i].is_primary {
            return Some(i);
        }
        i = i + 1;
    }
    None
}

/// The primary monitor, else the first one.
pub open spec fn primary_or_first(ms: Seq<MonitorInfo>) -> Option<int> {
    match first_primary_from(ms, 0) {
        Some(k) => Some(k),
        None => if ms.len() > 0 {
            Some(0int)
        } else {
            None
        },
    }
}

/// How far a monitor is from a canvas size, ties broken towards a
/// non-primary monitor: `a` beats `b`.
pub open spec fn nearer(a: MonitorInfo, b: MonitorInfo, w: int, h: int) -> bool {
    let sa = abs_diff(a.width as int, w) + abs_diff(a.height as int, h);
    let sb = abs_diff(b.width as int, w) + abs_diff(b.height as int, h);
    sa < sb || (sa == sb && !a.is_primary && b.is_primary)
}

/// Index of the first monitor among the first `n` that no other beats.
pub open spec fn nearest_among(ms: Seq<MonitorInfo>, w: int, h: int, n: int) -> int
    decreases n,
{
    if n <= 1 {
        0
    } else {
        let b = nearest_among(ms, w, h, n - 1);
        if nearer(ms[n - 1], ms[b], w, h) {
            n - 1
        } else {
            b
        }
    }
}

pub proof fn lemma_nearest_bounds(ms: Seq<MonitorInfo>, w: int, h: int, n: int)
    requires
        1 <= n,
    ensures
        0 <= nearest_among(ms, w, h, n) < n,
    decreases n,
{
    if n > 1 {
        lemma_nearest_bounds(ms, w, h, n - 1);
    }
}

/// The monitor closest in size to the profile's canvas (see `nearer`); with
/// no apps, the primary monitor or the first.
pub open spec fn nearest_for_profile(apps: Seq<AppConfig>, ms: Seq<MonitorInfo>) -> Option<int> {
    match canvas(apps) {
        None => primary_or_first(ms),
        Some(c) => if ms.len() == 0 {
            None
        } else {
            Some(nearest_among(ms, c.2, c.3, ms.len() as int))
        },
    }
}

fn nearest_monitor_index(profile: &Profile, monitors: &Vec<MonitorInfo>) -> (r: Option<usize>)
    ensures
        r matches Some(k) ==> nearest_for_profile(profile.apps@, monitors@) == Some(k as int),
        r is None ==> nearest_for_profile(profile.apps@, monitors@) is None,
{
    let (cw, ch) = match layout_canvas(&profile.apps) {
        Some((_, _, w, h)) => (w, h),
        None => {
            return match first_primary_index(monitors) {
                Some(k) => Some(k),
                None => if monitors.len() > 0 {
                    Some(0)
                } else {
                    None
                },
            };
        },
    };
    if monitors.len() == 0 {
        return None;
    }
    let mut best: usize = 0;
    let mut best_score: u64 = crate::geometry::monitor_size_score(&monitors[0], cw, ch);
    let mut i: usize = 1;
    while i < monitors.len()
        invariant
            1 <= i <= monitors.len(),
            best < i,
            best as int == nearest_among(monitors@, cw as int, ch as int, i as int),
            best_score == abs_diff(monitors@[best as int].width as int, cw as int) + abs_diff(
                monitors@[best as int].height as int,
                ch as int,
            ),
        decreases monitors.len() - i,
    {
        let score = crate::geometry::monitor_size_score(&monitors[i], cw, ch);
        if score < best_score || (score == best_score && !monitors[i].is_primary
            && monitors[best].is_primary) {
            best = i;
            best_score = score;
        }
        i = i + 1;
    }
    Some(best)
}

/// The monitor closest in size to the profile's layouts (see
/// `nearest_for_profile`).
pub fn nearest_monitor_for_profile(profile: &Profile, monitors: &Vec<MonitorInfo>) -> (r: Option<
    MonitorInfo,
>)
    ensures
        match nearest_for_profile(profile.apps@, monitors@) {
            Some(k) => 0 <= k < monitors@.len() && r == Some(monitors@[k]),
            None => r is None,
        },
{
    proof {
        lemma_first_primary_bounds(monitors@, 0);
        if monitors@.len() >= 1 {
            match canvas(profile.apps@) {
                Some(c) => lemma_nearest_bounds(monitors@, c.2, c.3, monitors@.len() as int),
                None => {},
            }
        }
    }
    match nearest_monitor_index(profile, monitors) {
        Some(k) => Some(monitors[k].duplicate()),
        None => None,
    }
}

/// The monitor a profile restores to, as an index and whether it is a
/// fallback: the profile's monitor (or the configured default) when
/// connected; when it is not, as the missing-monitor behaviour says; with
/// neither configured, the primary monitor or the first.
pub open spec fn profile_monitor_choice(c: WindowAutoLayoutConfig, p: Profile, ms: Seq<MonitorInfo>) -> Option<(int, bool)> {
    let requested = match p.target_monitor_id {
        Some(id) => Some(id),
        None => c.global.default_monitor_id,
    };
    match requested {
        Some(id) => match find_monitor(ms, id@) {
            Some(k) => Some((k, false)),
            None => match c.global.monitor_missing_behavior {
                MonitorMissingBehavior::DoNothing => None,
                MonitorMissingBehavior::UsePrimary => match first_primary_from(ms, 0) {
                    Some(k) => Some((k, true)),
                    None => None,
                },
                MonitorMissingBehavior::NearestMatch => match nearest_for_profile(p.apps@, ms) {
                    Some(k) => Some((k, true)),
                    None => None,
                },
            },
        },
        None => match primary_or_first(ms) {
            Some(k) => Some((k, false)),
            None => None,
        },
    }
}

proof fn lemma_find_monitor_first(ms: Seq<MonitorInfo>, id: Seq<char>, i: int, k: int)
    requires
        0 <= i <= k < ms.len(),
        monitor_matches(ms[k], id),
    ensures
        find_monitor_from(ms, id, i) matches Some(j) && i <= j <= k && monitor_matches(ms[j], id)
            && forall|t: int| i <= t < j ==> !monitor_matches(#[trigger] ms[t], id),
    decreases k - i,
{
    if !monitor_matches(ms[i], id) {
        lemma_find_monitor_first(ms, id, i + 1, k);
    }
}

/// A profile whose own target names a connected monitor restores to the
/// first monitor that the target names, never as a fallback, whatever the
/// global default monitor is.
pub proof fn profile_target_monitor_is_chosen(
    c: WindowAutoLayoutConfig,
    p: Profile,
    ms: Seq<MonitorInfo>,
    k: int,
)
    requires
        p.target_monitor_id is Some,
        0 <= k < ms.len(),
        monitor_matches(ms[k], p.target_monitor_id->0@),
    ensures
        profile_monitor_choice(c, p, ms) matches Some(t) && !t.1 && t.0 <= k && monitor_matches(
            ms[t.0],
            p.target_monitor_id->0@,
        ) && forall|j: int| 0 <= j < t.0 ==> !monitor_matches(#[trigger] ms[j], p.target_monitor_id->0@),
{
    lemma_find_monitor_first(ms, p.target_monitor_id->0@, 0, k);
}

/// The global default monitor is consulted only for a profile without a
/// target of its own: for one with a target, changing the default changes
/// nothing.
pub proof fn global_default_only_for_untargeted_profiles(
    c: WindowAutoLayoutConfig,
    d: WindowAutoLayoutConfig,
    p: Profile,
    ms: Seq<MonitorInfo>,
)
    requires
        p.target_monitor_id is Some,
        d.global.monitor_missing_behavior == c.global.monitor_missing_behavior,
    ensures
        profile_monitor_choice(c, p, ms) == profile_monitor_choice(d, p, ms),
{
}

pub open spec fn resolution_is(r: Option<MonitorResolution>, choice: Option<(int, bool)>, ms: Seq<MonitorInfo>) -> bool {
    match choice {
        Some(t) => 0 <= t.0 < ms.len() && r == Some(
            MonitorResolution { monitor: ms[t.0], is_fallback: t.1 },
        ),
        None => r is None,
    }
}

pub fn resolve_profile_monitor(
    config: &WindowAutoLayoutConfig,
    profile: &Profile,
    monitors: &Vec<MonitorInfo>,
) -> (r: Option<MonitorResolution>)
    ensures
        resolution_is(r, profile_monitor_choice(*config, *profile, monitors@), monitors@),
{
    proof {
        lemma_first_primary_bounds(monitors@, 0);
    }
    let requested = match &profile.target_monitor_id {
        Some(id) => Some(id),
        None => match &config.global.default_monitor_id {
            Some(id) => Some(id),
            None => None,
        },
    };
    if let Some(id) = requested {
        proof {
            lemma_find_monitor_from_bounds(monitors@, id@, 0);
        }
        if let Some(k) = find_monitor_index(monitors, id.as_str()) {
            return Some(MonitorResolution { monitor: monitors[k].duplicate(), is_fallback: false });
        }
        return match config.global.monitor_missing_behavior {
            MonitorMissingBehavior::DoNothing => None,
            MonitorMissingBehavior::UsePrimary => match first_primary_index(monitors) {
                Some(k) => Some(MonitorResolution { monitor: monitors[k].duplicate(), is_fallback: true }),
                None => None,
            },
            MonitorMissingBehavior::NearestMatch => match nearest_monitor_for_profile(
                profile,
                monitors,
            ) {
                Some(m) => Some(MonitorResolution { monitor: m, is_fallback: true }),
                None => None,
            },
        };
    }
    match first_primary_index(monitors) {
        Some(k) => Some(MonitorResolution { monitor: monitors[k].duplicate(), is_fallback: false }),
        None => if monitors.len() > 0 {
            Some(MonitorResolution { monitor: monitors[0].duplicate(), is_fallback: false })
        } else {
            None
        },
    }
}

/// The monitor an app restores to: its own monitor when connected; when its
/// own monitor is missing and the behaviour is to do nothing, none; else the
/// profile's monitor.
pub open spec fn app_monitor_choice(
    c: WindowAutoLayoutConfig,
    p: Profile,
    app: AppConfig,
    ms: Seq<MonitorInfo>,
) -> Option<(int, bool)> {
    match app.target_monitor_id {
        Some(id) => match find_monitor(ms, id@) {
            Some(k) => Some((k, false)),
            None => if c.global.monitor_missing_behavior == MonitorMissingBehavior::DoNothing {
                None
            } else {
                profile_monitor_choice(c, p, ms)
            },
        },
        None => profile_monitor_choice(c, p, ms),
    }
}

/// An app whose own target names a connected monitor goes to the first
/// monitor that the target names, never as a fallback, whatever its profile
/// and the global settings say; an app without a target goes where its
/// profile goes.
pub proof fn app_target_monitor_is_chosen(
    c: WindowAutoLayoutConfig,
    p: Profile,
    app: AppConfig,
    ms: Seq<MonitorInfo>,
    k: int,
)
    requires
        0 <= k < ms.len(),
        app.target_monitor_id is Some ==> monitor_matches(ms[k], app.target_monitor_id->0@),
    ensures
        app.target_monitor_id is Some ==> (app_monitor_choice(c, p, app, ms) matches Some(t) && !t.1
            && t.0 <= k && monitor_matches(ms[t.0], app.target_monitor_id->0@)),
        app.target_monitor_id is None ==> app_monitor_choice(c, p, app, ms)
            == profile_monitor_choice(c, p, ms),
{
    if app.target_monitor_id is Some {
        lemma_find_monitor_first(ms, app.target_monitor_id->0@, 0, k);
    }
}

pub fn resolve_app_monitor(
    config: &WindowAutoLayoutConfig,
    profile: &Profile,
    app: &AppConfig,
    monitors: &Vec<MonitorInfo>,
) -> (r: Option<MonitorResolution>)
    ensures
        resolution_is(r, app_monitor_choice(*config, *profile, *app, monitors@), monitors@),
{
    if let Some(id) = &app.target_monitor_id {
        proof {
            lemma_find_monitor_from_bounds(monitors@, id@, 0);
        }
        if let Some(k) = find_monitor_index(monitors, id.as_str()) {
            return Some(MonitorResolution { monitor: monitors[k].duplicate(), is_fallback: false });
        }
        if config.global.monitor_missing_behavior == MonitorMissingBehavior::DoNothing {
            return None;
        }
    }
    resolve_profile_monitor(config, profile, monitors)
}

/// The layout an app is restored to on the chosen monitor: carried over from
/// the display it was saved on when that is known; scaled from the
/// profile's canvas on a fallback monitor; else as saved; and then kept
/// visible on the monitor.
pub open spec fn restore_layout(apps: Seq<AppConfig>, app: AppConfig, res: MonitorResolution) -> LayoutRect {
    let base = match app.captured_display {
        Some(d) => {
            let t = captured_layout(app.layout, d, res.monitor);
            LayoutRect { x: t.0 as i32, y: t.1 as i32, width: t.2 as i32, height: t.3 as i32 }
        },
        None => if res.is_fallback {
            fallback_layout(apps, app, res.monitor)
        } else {
            app.layout
        },
    };
    visible_layout(base, res.monitor)
}

pub fn restore_layout_for_monitor(profile: &Profile, app: &AppConfig, resolution: &MonitorResolution) -> (r:
    LayoutRect)
    requires
        resolution.monitor.wf(),
        app.captured_display matches Some(d) ==> captured_layout_fits(
            app.layout,
            d,
            resolution.monitor,
        ),
    ensures
        r == restore_layout(profile.apps@, *app, *resolution),
{
    let layout = match &app.captured_display {
        Some(captured) => scaled_layout_from_captured_display(
            &app.layout,
            captured,
            &resolution.monitor,
        ),
        None => if resolution.is_fallback {
            scaled_layout_for_monitor(profile, app, &resolution.monitor)
        } else {
            app.layout
        },
    };
    keep_layout_visible_on_monitor(&layout, &resolution.monitor)
}

/// A window saved on a monitor comes back to the same place when it is
/// restored to that monitor with its geometry unchanged: the restore layout
/// of an entry saved as the window's rectangle relative to the monitor (with
/// the monitor's geometry captured) is that saved layout, and placed on the
/// monitor it is the window's rectangle again. This holds for a window no
/// larger than the monitor, at least 80 pixels across (or as wide and tall
/// as the monitor), with a usable part on the monitor.
pub proof fn saved_window_returns_in_place(
    apps: Seq<AppConfig>,
    app: AppConfig,
    res: MonitorResolution,
    r: Rect,
)
    requires
        res.monitor.wf(),
        res.monitor.width >= 1,
        res.monitor.height >= 1,
        relative_fits(res.monitor, r),
        app.layout == relative_of(res.monitor, r),
        app.captured_display == Some(CapturedDisplay::of_monitor(res.monitor)),
        min_int(80, res.monitor.width as int) <= r.right - r.left <= res.monitor.width,
        min_int(80, res.monitor.height as int) <= r.bottom - r.top <= res.monitor.height,
        usable_visible_area(relative_of(res.monitor, r), res.monitor),
    ensures
        restore_layout(apps, app, res) == app.layout,
        absolute_fits(res.monitor, app.layout),
        absolute_of(res.monitor, app.layout) == r,
{
}

/// The profile a restore runs: the one asked for by id (an error when no
/// profile has it); with none asked for, the startup default when it names
/// a profile, else the first profile (an error when there is none).
pub open spec fn profile_choice(c: WindowAutoLayoutConfig, id: Option<Seq<char>>) -> Option<int> {
    match id {
        Some(i) => find_profile_from(c.profiles@, i, 0),
        None => match c.startup.default_profile_id {
            Some(d) => match find_profile_from(c.profiles@, d@, 0) {
                Some(k) => Some(k),
                None => if c.profiles@.len() > 0 {
                    Some(0int)
                } else {
                    None
                },
            },
            None => if c.profiles@.len() > 0 {
                Some(0int)
            } else {
                None
            },
        },
    }
}

pub proof fn lemma_find_profile_bounds(ps: Seq<Profile>, id: Seq<char>, i: int)
    ensures
        find_profile_from(ps, id, i) matches Some(k) ==> i <= k < ps.len() && ps[k].id@ == id,
    decreases ps.len() - i,
{
    if 0 <= i < ps.len() && ps[i].id@ != id {
        lemma_find_profile_bounds(ps, id, i + 1);
    }
}

fn find_profile_index(profiles: &Vec<Profile>, id: &str) -> (r: Option<usize>)
    ensures
        r matches Some(k) ==> find_profile_from(profiles@, id@, 0) == Some(k as int),
        r is None ==> find_profile_from(profiles@, id@, 0) is None,
{
    let mut i: usize = 0;
    while i < profiles.len()
        invariant
            i <= profiles.len(),
            find_profile_from(profiles@, id@, 0) == find_profile_from(profiles@, id@, i as int),
        decreases profiles.len() - i,
    {
        if crate::text::str_eq(profiles[i].id.as_str(), id) {
            return Some(i);
        }
        i = i + 1;
    }
    None
}

pub fn resolve_profile<'a>(config: &'a WindowAutoLayoutConfig, profile_id: Option<&str>) -> (r:
    Result<&'a Profile, AppError>)
    ensures
        match profile_choice(
            *config,
            match profile_id {
                Some(i) => Some(i@),
                None => None,
            },
        ) {
            Some(k) => 0 <= k < config.profiles@.len() && (r matches Ok(p) && *p
                == config.profiles@[k]),
            None => match profile_id {
                Some(i) => (r matches Err(AppError::ProfileNotFound(d)) && d@ == i@),
                None => (r matches Err(AppError::ProfileNotFound(d)) && d@
                    == "No profiles configured"@),
            },
        },
{
    if let Some(id) = profile_id {
        proof {
            lemma_find_profile_bounds(config.profiles@, id@, 0);
        }
        return match find_profile_index(&config.profiles, id) {
            Some(k) => Ok(&config.profiles[k]),
            None => Err(AppError::ProfileNotFound(copy_str(id))),
        };
    }
    if let Some(id) = &config.startup.default_profile_id {
        proof {
            lemma_find_profile_bounds(config.profiles@, id@, 0);
        }
        if let Some(k) = find_profile_index(&config.profiles, id.as_str()) {
            return Ok(&config.profiles[k]);
        }
    }
    if config.profiles.len() > 0 {
        Ok(&config.profiles[0])
    } else {
        Err(AppError::ProfileNotFound(copy_str("No profiles configured")))
    }
}

/// A profile restore's status from its app results: paused when it was
/// paused; success when every app succeeded, was launched or was skipped;
/// partial success when some did; else failed.
pub open spec fn app_succeeded(s: AppRestoreStatus) -> bool {
    s == AppRestoreStatus::Success || s == AppRestoreStatus::Launched || s
        == AppRestoreStatus::Skipped
}

pub open spec fn success_count(rs: Seq<AppRestoreResult>) -> nat
    decreases rs.len(),
{
    if rs.len() == 0 {
        0
    } else {
        success_count(rs.drop_last()) + if app_succeeded(rs.last().status) {
            1nat
        } else {
            0nat
        }
    }
}

pub proof fn lemma_success_count_bound(rs: Seq<AppRestoreResult>)
    ensures
        success_count(rs) <= rs.len(),
    decreases rs.len(),
{
    if rs.len() > 0 {
        lemma_success_count_bound(rs.drop_last());
    }
}

pub open spec fn profile_status(rs: Seq<AppRestoreResult>, paused: bool) -> RestoreStatus {
    if paused {
        RestoreStatus::Paused
    } else if success_count(rs) == rs.len() {
        RestoreStatus::Success
    } else if success_count(rs) > 0 {
        RestoreStatus::PartialSuccess
    } else {
        RestoreStatus::Failed
    }
}

pub fn restore_status(results: &Vec<AppRestoreResult>, paused: bool) -> (r: RestoreStatus)
    ensures
        r == profile_status(results@, paused),
{
    let mut count: usize = 0;
    let mut i: usize = 0;
    while i < results.len()
        invariant
            i <= results.len(),
            count == success_count(results@.take(i as int)),
            count <= i,
        decreases results.len() - i,
    {
        assert(results@.take(i + 1).drop_last() =~= results@.take(i as int));
        let s = results[i].status;
        if s == AppRestoreStatus::Success || s == AppRestoreStatus::Launched || s
            == AppRestoreStatus::Skipped {
            count = count + 1;
        }
        i = i + 1;
    }
    assert(results@.take(results.len() as int) =~= results@);
    if paused {
        RestoreStatus::Paused
    } else if count == results.len() {
        RestoreStatus::Success
    } else if count > 0 {
        RestoreStatus::PartialSuccess
    } else {
        RestoreStatus::Failed
    }
}

/// A profile restore that stopped before it did anything: no successes, no
/// failures, just paused. Without app results it is never reported as a
/// success.
pub fn paused_restore_result(profile: &Profile, started_at: String, finished_at: String) -> (r:
    RestoreResult)
    ensures
        r.profile_id == profile.id,
        r.profile_name == profile.name,
        r.status == RestoreStatus::Paused,
        r.started_at == started_at,
        r.finished_at == finished_at,
        r.monitor is None,
        r.results@.len() == 0,
{
    RestoreResult {
        profile_id: profile.id.clone(),
        profile_name: profile.name.clone(),
        status: RestoreStatus::Paused,
        started_at,
        finished_at,
        monitor: None,
        results: Vec::new(),
    }
}

/// A profile restore skipped because its monitor is missing.
pub fn monitor_missing_result(profile: &Profile, started_at: String, finished_at: String) -> (r:
    RestoreResult)
    ensures
        r.profile_id == profile.id,
        r.profile_name == profile.name,
        r.status == RestoreStatus::MonitorMissing,
        r.started_at == started_at,
        r.finished_at == finished_at,
        r.monitor is None,
        r.results@.len() == 0,
{
    RestoreResult {
        profile_id: profile.id.clone(),
        profile_name: profile.name.clone(),
        status: RestoreStatus::MonitorMissing,
        started_at,
        finished_at,
        monitor: None,
        results: Vec::new(),
    }
}

/// One app's restore outcome.
pub fn app_result(
    app: &AppConfig,
    status: AppRestoreStatus,
    message: String,
    matched_windows: Vec<WindowInfo>,
) -> (r: AppRestoreResult)
    ensures
        r.app_id == app.id,
        r.display_name == app.display_name,
        r.status == status,
        r.message == message,
        r.matched_windows@ == matched_windows@,
{
    AppRestoreResult {
        app_id: app.id.clone(),
        display_name: app.display_name.clone(),
        status,
        message,
        matched_windows,
    }
}

pub fn background_restore_paused(app: &AppConfig, matched: Vec<WindowInfo>) -> (r: AppRestoreResult)
    ensures
        r.app_id == app.id,
        r.display_name == app.display_name,
        r.status == AppRestoreStatus::Paused,
        r.message@ == "Restore paused for a foreground game or fullscreen app"@,
        r.matched_windows@ == matched@,
{
    app_result(
        app,
        AppRestoreStatus::Paused,
        copy_str("Restore paused for a foreground game or fullscreen app"),
        matched,
    )
}

/// A failed move reads as a permission problem when its message mentions
/// access (in any ASCII case).
pub open spec fn move_failed_status(message: Seq<char>) -> AppRestoreStatus {
    if crate::text::contains(crate::text::lower(message), "access"@) {
        AppRestoreStatus::PermissionDenied
    } else {
        AppRestoreStatus::MoveFailed
    }
}

pub fn move_failed_result(app: &AppConfig, matched: Vec<WindowInfo>, error: &AppError) -> (r:
    AppRestoreResult)
    ensures
        r.app_id == app.id,
        r.display_name == app.display_name,
        r.message@ == crate::errors::error_message(*error),
        r.status == move_failed_status(crate::errors::error_message(*error)),
        r.matched_windows@ == matched@,
{
    let message = error.message();
    let lowered = crate::text::to_lower(message.as_str());
    let status = if crate::text::str_contains(lowered.as_str(), "access") {
        AppRestoreStatus::PermissionDenied
    } else {
        AppRestoreStatus::MoveFailed
    };
    app_result(app, status, message, matched)
}

} // verus!
