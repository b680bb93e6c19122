//! Keeping saved monitor targets and captured display geometry in step with
//! the monitors that are connected.
use vstd::prelude::*;

use crate::config::{
    all_same, config_same, lemma_all_same_push, lemma_profiles_same_push, profile_same,
    profiles_same,
};
use crate::models::{
    copy_opt, AppConfig, CapturedDisplay, GlobalSettings, MonitorInfo, Profile,
    WindowAutoLayoutConfig,
};
use crate::geometry::{
    app_size, app_target_size, monitor_size_score, profile_size, profile_target_size, sat_add,
    sat_add_i32, size_score,
};
use crate::monitors::{find_monitor, find_monitor_index};
use crate::text::{eq_ignore_case, lower};

verus! {

pub open spec fn monitors_wf(ms: Seq<MonitorInfo>) -> bool {
    forall|k: int| 0 <= k < ms.len() ==> (#[trigger] ms[k]).wf()
}

/// The monitor a profile targets: its own choice, else the default monitor.
pub open spec fn profile_target(p: Profile, default_id: Option<String>) -> Option<String> {
    if p.target_monitor_id is Some {
        p.target_monitor_id
    } else {
        default_id
    }
}

/// The captured display an app entry gets: the one it has, else the geometry
/// of the connected monitor its own target (or else the profile's target)
/// names, if any.
pub open spec fn hydrated_display(
    app: AppConfig,
    profile_target: Option<String>,
    ms: Seq<MonitorInfo>,
) -> Option<CapturedDisplay> {
    if app.captured_display is Some {
        app.captured_display
    } else {
        let id = if app.target_monitor_id is Some {
            app.target_monitor_id
        } else {
            profile_target
        };
        match id {
            Some(i) => match find_monitor(ms, i@) {
                Some(k) => Some(CapturedDisplay::of_monitor(ms[k])),
                None => None,
            },
            None => None,
        }
    }
}

pub open spec fn hydrated_app(app: AppConfig, profile_target: Option<String>, ms: Seq<MonitorInfo>) -> AppConfig {
    AppConfig { captured_display: hydrated_display(app, profile_target, ms), ..app }
}

pub open spec fn profile_hydrated_from(
    new: Profile,
    old: Profile,
    default_id: Option<String>,
    ms: Seq<MonitorInfo>,
) -> bool {
    &&& new.id == old.id
    &&& new.name == old.name
    &&& new.description == old.description
    &&& new.target_monitor_id == old.target_monitor_id
    &&& new.apps@.len() == old.apps@.len()
    &&& forall|k: int|
        0 <= k < new.apps@.len() ==> #[trigger] new.apps@[k] == hydrated_app(
            old.apps@[k],
            profile_target(old, default_id),
            ms,
        )
}

/// `new` is `old` with every app entry's captured display filled in as
/// `hydrated_display` says.
pub open spec fn hydrated_from(
    new: WindowAutoLayoutConfig,
    old: WindowAutoLayoutConfig,
    ms: Seq<MonitorInfo>,
) -> bool {
    &&& new.schema_version == old.schema_version
    &&& new.app_version == old.app_version
    &&& new.global == old.global
    &&& new.startup == old.startup
    &&& new.tray == old.tray
    &&& new.hotkey == old.hotkey
    &&& new.enforcement == old.enforcement
    &&& new.profiles@.len() == old.profiles@.len()
    &&& forall|i: int|
        0 <= i < new.profiles@.len() ==> profile_hydrated_from(
            #[trigger] new.profiles@[i],
            old.profiles@[i],
            old.global.default_monitor_id,
            ms,
        )
}

fn hydrate_app(app: &mut AppConfig, profile_target: &Option<String>, monitors: &Vec<MonitorInfo>) -> (changed: bool)
    requires
        monitors_wf(monitors@),
    ensures
        *final(app) == hydrated_app(*old(app), *profile_target, monitors@),
        changed == !final(app).same_as(*old(app)),
{
    if app.captured_display.is_some() {
        return false;
    }
    let target = if app.target_monitor_id.is_some() {
        copy_opt(&app.target_monitor_id)
    } else {
        copy_opt(profile_target)
    };
    match target {
        Some(id) => match find_monitor_index(monitors, id.as_str()) {
            Some(k) => {
                app.captured_display = Some(CapturedDisplay::from_monitor(&monitors[k]));
                true
            },
            None => false,
        },
        None => false,
    }
}

/// Gives every app entry without captured display geometry the geometry of
/// the connected monitor it targets (its own target, else its profile's,
/// else the default monitor). Returns whether anything changed.
pub fn hydrate_captured_displays(config: &mut WindowAutoLayoutConfig, monitors: &Vec<MonitorInfo>) -> (changed: bool)
    requires
        monitors_wf(monitors@),
    ensures
        hydrated_from(*final(config), *old(config), monitors@),
        changed == !config_same(*final(config), *old(config)),
{
    let ghost old_config = *config;
    let default_monitor_id = copy_opt(&config.global.default_monitor_id);
    let mut profiles: Vec<Profile> = Vec::new();
    std::mem::swap(&mut profiles, &mut config.profiles);
    let ghost old_profiles = profiles@;
    let n = profiles.len();
    let mut out: Vec<Profile> = Vec::new();
    let mut changed = false;
    let mut i: usize = 0;
    while i < n
        invariant
            n == old_profiles.len(),
            i <= n,
            profiles@ == old_profiles.subrange(i as int, n as int),
            out@.len() == i,
            monitors_wf(monitors@),
            default_monitor_id == old_config.global.default_monitor_id,
            forall|k: int|
                0 <= k < i ==> profile_hydrated_from(
                    #[trigger] out@[k],
                    old_profiles[k],
                    default_monitor_id,
                    monitors@,
                ),
            changed == !profiles_same(out@, old_profiles.take(i as int)),
        decreases n - i,
    {
        let mut profile = profiles.remove(0);
        let ghost old_profile = profile;
        assert(old_profile == old_profiles[i as int]);
        let target = if profile.target_monitor_id.is_some() {
            copy_opt(&profile.target_monitor_id)
        } else {
            copy_opt(&default_monitor_id)
        };
        let mut apps: Vec<AppConfig> = Vec::new();
        std::mem::swap(&mut apps, &mut profile.apps);
        let m = apps.len();
        let mut new_apps: Vec<AppConfig> = Vec::new();
        let mut apps_changed = false;
        let mut j: usize = 0;
        while j < m
            invariant
                m == old_profile.apps@.len(),
                j <= m,
                apps@ == old_profile.apps@.subrange(j as int, m as int),
                new_apps@.len() == j,
                monitors_wf(monitors@),
                target == profile_target(old_profile, default_monitor_id),
                forall|k: int|
                    0 <= k < j ==> #[trigger] new_apps@[k] == hydrated_app(
                        old_profile.apps@[k],
                        target,
                        monitors@,
                    ),
                apps_changed == !all_same(new_apps@, old_profile.apps@.take(j as int)),
            decreases m - j,
        {
            let mut app = apps.remove(0);
            assert(app == old_profile.apps@[j as int]);
            let c = hydrate_app(&mut app, &target, monitors);
            proof {
                lemma_all_same_push(new_apps@, old_profile.apps@, app);
            }
            new_apps.push(app);
            apps_changed = apps_changed || c;
            j = j + 1;
        }
        profile.apps = new_apps;
        proof {
            assert(old_profile.apps@.take(m as int) =~= old_profile.apps@);
            assert(profile_same(profile, old_profile) == !apps_changed);
            lemma_profiles_same_push(out@, old_profiles, profile);
        }
        out.push(profile);
        changed = changed || apps_changed;
        i = i + 1;
    }
    config.profiles = out;
    assert(old_profiles.take(n as int) =~= old_profiles);
    changed
}

/// Hydrating a second time changes nothing: every entry either kept the
/// geometry it had, or found no monitor the first time and finds none again.
pub proof fn hydrate_is_idempotent(
    a: WindowAutoLayoutConfig,
    b: WindowAutoLayoutConfig,
    c: WindowAutoLayoutConfig,
    ms: Seq<MonitorInfo>,
)
    requires
        hydrated_from(b, a, ms),
        hydrated_from(c, b, ms),
    ensures
        config_same(c, b),
{
    assert forall|i: int| 0 <= i < c.profiles@.len() implies profile_same(
        #[trigger] c.profiles@[i],
        b.profiles@[i],
    ) by {
        assert(profile_hydrated_from(b.profiles@[i], a.profiles@[i], a.global.default_monitor_id, ms));
        assert(profile_hydrated_from(c.profiles@[i], b.profiles@[i], b.global.default_monitor_id, ms));
        assert forall|k: int| 0 <= k < c.profiles@[i].apps@.len() implies (
        #[trigger] c.profiles@[i].apps@[k]).same_as(b.profiles@[i].apps@[k]) by {
            assert(b.profiles@[i].apps@[k] == hydrated_app(
                a.profiles@[i].apps@[k],
                profile_target(a.profiles@[i], a.global.default_monitor_id),
                ms,
            ));
        }
    }
}


/// The monitor's stable identifier is `id` (ignoring ASCII case) and its
/// device name is not.
pub open spec fn stable_match(m: MonitorInfo, id: Seq<char>) -> bool {
    lower(m.id@) == lower(id) && lower(m.device_name@) != lower(id)
}

pub open spec fn device_match(m: MonitorInfo, id: Seq<char>) -> bool {
    lower(m.device_name@) == lower(id)
}

pub open spec fn id_match(m: MonitorInfo, id: Seq<char>) -> bool {
    lower(m.id@) == lower(id)
}

/// Kinds of search for a saved identifier among monitors.
pub enum SearchKind {
    Stable,
    Device,
    Id,
}

pub open spec fn search_hit(kind: SearchKind, m: MonitorInfo, id: Seq<char>) -> bool {
    match kind {
        SearchKind::Stable => stable_match(m, id),
        SearchKind::Device => device_match(m, id),
        SearchKind::Id => id_match(m, id),
    }
}

/// Index of the first monitor at or after `i` that the search hits.
pub open spec fn first_hit(kind: SearchKind, ms: Seq<MonitorInfo>, id: Seq<char>, i: int) -> Option<int>
    decreases ms.len() - i,
{
    if i < 0 || i >= ms.len() {
        None
    } else if search_hit(kind, ms[i], id) {
        Some(i)
    } else {
        first_hit(kind, ms, id, i + 1)
    }
}

pub proof fn lemma_first_hit_bounds(kind: SearchKind, ms: Seq<MonitorInfo>, id: Seq<char>, i: int)
    ensures
        first_hit(kind, ms, id, i) matches Some(k) ==> 0 <= i <= k < ms.len(),
    decreases ms.len() - i,
{
    if 0 <= i < ms.len() && !search_hit(kind, ms[i], id) {
        lemma_first_hit_bounds(kind, ms, id, i + 1);
    }
}

fn first_hit_index(kind: &SearchKind, monitors: &Vec<MonitorInfo>, id: &str) -> (r: Option<usize>)
    ensures
        r matches Some(k) ==> first_hit(*kind, monitors@, id@, 0) == Some(k as int)
            && k < monitors@.len(),
        r is None ==> first_hit(*kind, monitors@, id@, 0) is None,
{
    let mut i: usize = 0;
    while i < monitors.len()
        invariant
            i <= monitors.len(),
            first_hit(*kind, monitors@, id@, 0) == first_hit(*kind, monitors@, id@, i as int),
        decreases monitors.len() - i,
    {
        let m = &monitors[i];
        let hit = match kind {
            SearchKind::Stable => eq_ignore_case(m.id.as_str(), id) && !eq_ignore_case(
                m.device_name.as_str(),
                id,
            ),
            SearchKind::Device => eq_ignore_case(m.device_name.as_str(), id),
            SearchKind::Id => eq_ignore_case(m.id.as_str(), id),
        };
        if hit {
            return Some(i);
        }
        i = i + 1;
    }
    None
}

/// A monitor that can hold a canvas of `width` x `height` with 16 pixels to
/// spare.
pub open spec fn fits(m: MonitorInfo, width: int, height: int) -> bool {
    width <= sat_add(m.width as int, 16) && height <= sat_add(m.height as int, 16)
}

/// Index of the first fitting monitor with the smallest size score, scanning
/// from `i` with `best` the best so far.
pub open spec fn best_fit_from(
    ms: Seq<MonitorInfo>,
    width: int,
    height: int,
    i: int,
    best: Option<int>,
) -> Option<int>
    decreases ms.len() - i,
{
    if i < 0 || i >= ms.len() {
        best
    } else if fits(ms[i], width, height) && (best matches Some(b) ==> size_score(ms[i], width, height)
        < size_score(ms[b], width, height)) {
        best_fit_from(ms, width, height, i + 1, Some(i))
    } else {
        best_fit_from(ms, width, height, i + 1, best)
    }
}

pub proof fn lemma_best_fit_bounds(
    ms: Seq<MonitorInfo>,
    width: int,
    height: int,
    i: int,
    best: Option<int>,
)
    requires
        i >= 0,
        best matches Some(b) ==> 0 <= b < ms.len(),
    ensures
        best_fit_from(ms, width, height, i, best) matches Some(k) ==> 0 <= k < ms.len(),
    decreases ms.len() - i,
{
    if i < ms.len() {
        if fits(ms[i], width, height) && (best matches Some(b) ==> size_score(ms[i], width, height)
            < size_score(ms[b], width, height)) {
            lemma_best_fit_bounds(ms, width, height, i + 1, Some(i));
        } else {
            lemma_best_fit_bounds(ms, width, height, i + 1, best);
        }
    }
}

fn best_fit_index(monitors: &Vec<MonitorInfo>, width: i32, height: i32) -> (r: Option<usize>)
    ensures
        r matches Some(k) ==> best_fit_from(monitors@, width as int, height as int, 0, None) == Some(
            k as int,
        ) && k < monitors@.len(),
        r is None ==> best_fit_from(monitors@, width as int, height as int, 0, None) is None,
{
    let mut best: Option<usize> = None;
    let mut best_score: u64 = 0;
    let mut i: usize = 0;
    while i < monitors.len()
        invariant
            i <= monitors.len(),
            best matches Some(b) ==> b < i && best_score == size_score(
                monitors@[b as int],
                width as int,
                height as int,
            ),
            best_fit_from(monitors@, width as int, height as int, 0, None) == best_fit_from(
                monitors@,
                width as int,
                height as int,
                i as int,
                match best {
                    Some(b) => Some(b as int),
                    None => None,
                },
            ),
        decreases monitors.len() - i,
    {
        let m = &monitors[i];
        let fits_here = width <= sat_add_i32(m.width, 16) && height <= sat_add_i32(m.height, 16);
        if fits_here {
            let score = monitor_size_score(m, width, height);
            if best.is_none() || score < best_score {
                best = Some(i);
                best_score = score;
            }
        }
        i = i + 1;
    }
    proof {
        lemma_best_fit_bounds(monitors@, width as int, height as int, i as int, match best {
            Some(b) => Some(b as int),
            None => None,
        });
    }
    best
}

/// Which connected monitor a saved identifier resolves to, and whether that
/// repairs a legacy display number that Windows reassigned: a monitor whose
/// stable identifier is `id` wins; else the monitor with that device name (or
/// identifier); when the saved canvas does not fit on it and another monitor
/// fits best, that one, as a retarget.
pub open spec fn resolve_saved(id: Seq<char>, size: Option<(int, int)>, ms: Seq<MonitorInfo>) -> Option<(int, bool)> {
    match first_hit(SearchKind::Stable, ms, id, 0) {
        Some(k) => Some((k, false)),
        None => {
            let legacy = match first_hit(SearchKind::Device, ms, id, 0) {
                Some(k) => Some(k),
                None => first_hit(SearchKind::Id, ms, id, 0),
            };
            match legacy {
                None => None,
                Some(l) => match size {
                    None => Some((l, false)),
                    Some(s) => {
                        if !fits(ms[l], s.0, s.1) {
                            match best_fit_from(ms, s.0, s.1, 0, None) {
                                Some(b) => if ms[b].id@ != ms[l].id@ {
                                    Some((b, true))
                                } else {
                                    Some((l, false))
                                },
                                None => Some((l, false)),
                            }
                        } else {
                            Some((l, false))
                        }
                    },
                },
            }
        },
    }
}

pub open spec fn size_of(t: Option<(i32, i32)>) -> Option<(int, int)> {
    match t {
        Some(s) => Some((s.0 as int, s.1 as int)),
        None => None,
    }
}

pub fn resolve_saved_monitor(saved_id: &str, target_size: Option<(i32, i32)>, monitors: &Vec<MonitorInfo>) -> (r: Option<(usize, bool)>)
    ensures
        r matches Some(p) ==> resolve_saved(saved_id@, size_of(target_size), monitors@) == Some(
            (p.0 as int, p.1),
        ) && p.0 < monitors@.len(),
        r is None ==> resolve_saved(saved_id@, size_of(target_size), monitors@) is None,
{
    if let Some(k) = first_hit_index(&SearchKind::Stable, monitors, saved_id) {
        return Some((k, false));
    }
    let legacy = match first_hit_index(&SearchKind::Device, monitors, saved_id) {
        Some(k) => Some(k),
        None => first_hit_index(&SearchKind::Id, monitors, saved_id),
    };
    let l = match legacy {
        None => {
            return None;
        },
        Some(l) => l,
    };
    let (target_width, target_height) = match target_size {
        None => {
            return Some((l, false));
        },
        Some(s) => s,
    };
    let overflows_legacy = target_width > sat_add_i32(monitors[l].width, 16) || target_height
        > sat_add_i32(monitors[l].height, 16);
    if overflows_legacy {
        if let Some(b) = best_fit_index(monitors, target_width, target_height) {
            if monitors[b].id != monitors[l].id {
                return Some((b, true));
            }
        }
    }
    Some((l, false))
}


pub open spec fn resolution_of(id: Option<String>, size: Option<(int, int)>, ms: Seq<MonitorInfo>) -> Option<(int, bool)> {
    match id {
        Some(i) => resolve_saved(i@, size, ms),
        None => None,
    }
}

pub open spec fn is_retarget(res: Option<(int, bool)>) -> bool {
    res matches Some(r) && r.1
}

/// An explicit saved identifier is rewritten to the identifier of the monitor
/// it resolved to, unless they already agree ignoring ASCII case.
pub open spec fn retargeted_id(explicit: Option<String>, res: Option<(int, bool)>, ms: Seq<MonitorInfo>) -> Option<String> {
    match explicit {
        Some(e) => match res {
            Some(r) => if lower(e@) != lower(ms[r.0].id@) {
                Some(ms[r.0].id)
            } else {
                explicit
            },
            None => explicit,
        },
        None => explicit,
    }
}

pub open spec fn find_profile_from(ps: Seq<Profile>, id: Seq<char>, i: int) -> Option<int>
    decreases ps.len() - i,
{
    if i < 0 || i >= ps.len() {
        None
    } else if ps[i].id@ == id {
        Some(i)
    } else {
        find_profile_from(ps, id, i + 1)
    }
}

/// The canvas size of the startup profile (or of the first profile).
pub open spec fn default_profile_size(c: WindowAutoLayoutConfig) -> Option<(int, int)> {
    let found = match c.startup.default_profile_id {
        Some(id) => find_profile_from(c.profiles@, id@, 0),
        None => None,
    };
    let chosen = match found {
        Some(k) => Some(k),
        None => if c.profiles@.len() > 0 {
            Some(0int)
        } else {
            None
        },
    };
    match chosen {
        Some(k) => profile_size(c.profiles@[k].apps@),
        None => None,
    }
}

pub open spec fn app_reconciled(
    new: AppConfig,
    old: AppConfig,
    inherited: Option<int>,
    profile_retargeted: bool,
    ms: Seq<MonitorInfo>,
) -> bool {
    let ares = resolution_of(old.target_monitor_id, Some(app_size(old)), ms);
    let monitor = match ares {
        Some(r) => Some(r.0),
        None => inherited,
    };
    let retargeted = is_retarget(ares) || (old.target_monitor_id is None && profile_retargeted);
    new == AppConfig {
        target_monitor_id: retargeted_id(old.target_monitor_id, ares, ms),
        captured_display: if retargeted && monitor is Some {
            Some(CapturedDisplay::of_monitor(ms[monitor->0]))
        } else {
            old.captured_display
        },
        ..old
    }
}

pub open spec fn profile_reconciled(
    new: Profile,
    old: Profile,
    default_id: Option<String>,
    default_retargeted: bool,
    ms: Seq<MonitorInfo>,
) -> bool {
    let requested = if old.target_monitor_id is Some {
        old.target_monitor_id
    } else {
        default_id
    };
    let pres = resolution_of(requested, profile_size(old.apps@), ms);
    let retargeted = is_retarget(pres) || (old.target_monitor_id is None && default_retargeted);
    let inherited = match pres {
        Some(r) => Some(r.0),
        None => None,
    };
    &&& new.id == old.id
    &&& new.name == old.name
    &&& new.description == old.description
    &&& new.target_monitor_id == retargeted_id(old.target_monitor_id, pres, ms)
    &&& new.apps@.len() == old.apps@.len()
    &&& forall|k: int|
        0 <= k < new.apps@.len() ==> app_reconciled(
            #[trigger] new.apps@[k],
            old.apps@[k],
            inherited,
            retargeted,
            ms,
        )
}

/// `new` is `old` with saved monitor identifiers resolved against the
/// connected monitors `ms`: the default monitor, each profile's target and
/// each app's target rewritten to the monitor they resolve to; and every app
/// whose target (own or inherited) was retargeted gets that monitor's
/// geometry as its captured display. With no monitors nothing changes.
pub open spec fn reconciled_from(new: WindowAutoLayoutConfig, old: WindowAutoLayoutConfig, ms: Seq<MonitorInfo>) -> bool {
    if ms.len() == 0 {
        config_same(new, old)
    } else {
        let dres = resolution_of(old.global.default_monitor_id, default_profile_size(old), ms);
        &&& new.schema_version == old.schema_version
        &&& new.app_version == old.app_version
        &&& new.global == (GlobalSettings {
            default_monitor_id: retargeted_id(old.global.default_monitor_id, dres, ms),
            ..old.global
        })
        &&& new.startup == old.startup
        &&& new.tray == old.tray
        &&& new.hotkey == old.hotkey
        &&& new.enforcement == old.enforcement
        &&& new.profiles@.len() == old.profiles@.len()
        &&& forall|i: int|
            0 <= i < new.profiles@.len() ==> profile_reconciled(
                #[trigger] new.profiles@[i],
                old.profiles@[i],
                new.global.default_monitor_id,
                is_retarget(dres),
                ms,
            )
    }
}

fn find_profile_index(profiles: &Vec<Profile>, id: &String) -> (r: Option<usize>)
    ensures
        r matches Some(k) ==> find_profile_from(profiles@, id@, 0) == Some(k as int) && k
            < profiles@.len(),
        r is None ==> find_profile_from(profiles@, id@, 0) is None,
{
    let mut i: usize = 0;
    while i < profiles.len()
        invariant
            i <= profiles.len(),
            find_profile_from(profiles@, id@, 0) == find_profile_from(profiles@, id@, i as int),
        decreases profiles.len() - i,
    {
        if profiles[i].id == *id {
            return Some(i);
        }
        i = i + 1;
    }
    None
}

fn retarget(explicit: &mut Option<String>, res: Option<(usize, bool)>, monitors: &Vec<MonitorInfo>) -> (changed: bool)
    requires
        res matches Some(r) ==> r.0 < monitors@.len(),
    ensures
        *final(explicit) == retargeted_id(
            *old(explicit),
            match res {
                Some(r) => Some((r.0 as int, r.1)),
                None => None,
            },
            monitors@,
        ),
        changed == (*final(explicit) != *old(explicit)),
{
    if let Some(r) = res {
        let matches_now = match explicit {
            Some(e) => eq_ignore_case(e.as_str(), monitors[r.0].id.as_str()),
            None => true,
        };
        if !matches_now {
            *explicit = Some(monitors[r.0].id.clone());
            return true;
        }
    }
    false
}

fn reconcile_app(
    app: &mut AppConfig,
    inherited: Option<usize>,
    profile_retargeted: bool,
    monitors: &Vec<MonitorInfo>,
) -> (changed: bool)
    requires
        monitors_wf(monitors@),
        inherited matches Some(k) ==> k < monitors@.len(),
    ensures
        app_reconciled(
            *final(app),
            *old(app),
            match inherited {
                Some(k) => Some(k as int),
                None => None,
            },
            profile_retargeted,
            monitors@,
        ),
        changed == !final(app).same_as(*old(app)),
{
    let size = app_target_size(app);
    let ares = match &app.target_monitor_id {
        Some(id) => resolve_saved_monitor(id.as_str(), Some(size), monitors),
        None => None,
    };
    let monitor = match ares {
        Some(r) => Some(r.0),
        None => inherited,
    };
    let retargeted = (match ares {
        Some(r) => r.1,
        None => false,
    }) || (app.target_monitor_id.is_none() && profile_retargeted);
    let mut changed = retarget(&mut app.target_monitor_id, ares, monitors);
    if retargeted {
        if let Some(k) = monitor {
            let captured = CapturedDisplay::from_monitor(&monitors[k]);
            if app.captured_display != Some(captured) {
                app.captured_display = Some(captured);
                changed = true;
            }
        }
    }
    changed
}

/// Resolves every saved monitor identifier against the connected monitors
/// and repairs legacy display numbers that Windows reassigned (see
/// `reconciled_from`). Returns whether anything changed.
pub fn reconcile_monitor_targets(config: &mut WindowAutoLayoutConfig, monitors: &Vec<MonitorInfo>) -> (changed: bool)
    requires
        monitors_wf(monitors@),
    ensures
        reconciled_from(*final(config), *old(config), monitors@),
        changed == !config_same(*final(config), *old(config)),
{
    let ghost old_config = *config;
    if monitors.len() == 0 {
        return false;
    }
    let found = match &config.startup.default_profile_id {
        Some(id) => find_profile_index(&config.profiles, id),
        None => None,
    };
    let chosen = match found {
        Some(k) => Some(k),
        None => if config.profiles.len() > 0 {
            Some(0usize)
        } else {
            None
        },
    };
    let default_size = match chosen {
        Some(k) => profile_target_size(&config.profiles[k].apps),
        None => None,
    };
    let dres = match &config.global.default_monitor_id {
        Some(id) => resolve_saved_monitor(id.as_str(), default_size, monitors),
        None => None,
    };
    let default_retargeted = match dres {
        Some(r) => r.1,
        None => false,
    };
    let mut changed = retarget(&mut config.global.default_monitor_id, dres, monitors);
    let default_monitor_id = copy_opt(&config.global.default_monitor_id);
    let mut profiles: Vec<Profile> = Vec::new();
    std::mem::swap(&mut profiles, &mut config.profiles);
    let ghost old_profiles = profiles@;
    let n = profiles.len();
    let mut out: Vec<Profile> = Vec::new();
    let mut profiles_changed = false;
    let mut i: usize = 0;
    while i < n
        invariant
            n == old_profiles.len(),
            i <= n,
            profiles@ == old_profiles.subrange(i as int, n as int),
            out@.len() == i,
            monitors_wf(monitors@),
            forall|k: int|
                0 <= k < i ==> profile_reconciled(
                    #[trigger] out@[k],
                    old_profiles[k],
                    default_monitor_id,
                    default_retargeted,
                    monitors@,
                ),
            profiles_changed == !profiles_same(out@, old_profiles.take(i as int)),
        decreases n - i,
    {
        let mut profile = profiles.remove(0);
        let ghost old_profile = profile;
        assert(old_profile == old_profiles[i as int]);
        let size = profile_target_size(&profile.apps);
        let pres = if profile.target_monitor_id.is_some() {
            match &profile.target_monitor_id {
                Some(id) => resolve_saved_monitor(id.as_str(), size, monitors),
                None => None,
            }
        } else {
            match &default_monitor_id {
                Some(id) => resolve_saved_monitor(id.as_str(), size, monitors),
                None => None,
            }
        };
        let retargeted = (match pres {
            Some(r) => r.1,
            None => false,
        }) || (profile.target_monitor_id.is_none() && default_retargeted);
        let inherited = match pres {
            Some(r) => Some(r.0),
            None => None,
        };
        let mut this_changed = retarget(&mut profile.target_monitor_id, pres, monitors);
        let mut apps: Vec<AppConfig> = Vec::new();
        std::mem::swap(&mut apps, &mut profile.apps);
        let m = apps.len();
        let mut new_apps: Vec<AppConfig> = Vec::new();
        let mut apps_changed = false;
        let mut j: usize = 0;
        while j < m
            invariant
                m == old_profile.apps@.len(),
                j <= m,
                apps@ == old_profile.apps@.subrange(j as int, m as int),
                new_apps@.len() == j,
                monitors_wf(monitors@),
                inherited matches Some(k) ==> k < monitors@.len(),
                forall|k: int|
                    0 <= k < j ==> app_reconciled(
                        #[trigger] new_apps@[k],
                        old_profile.apps@[k],
                        match inherited {
                            Some(x) => Some(x as int),
                            None => None,
                        },
                        retargeted,
                        monitors@,
                    ),
                apps_changed == !all_same(new_apps@, old_profile.apps@.take(j as int)),
            decreases m - j,
        {
            let mut app = apps.remove(0);
            assert(app == old_profile.apps@[j as int]);
            let c = reconcile_app(&mut app, inherited, retargeted, monitors);
            proof {
                lemma_all_same_push(new_apps@, old_profile.apps@, app);
            }
            new_apps.push(app);
            apps_changed = apps_changed || c;
            j = j + 1;
        }
        profile.apps = new_apps;
        proof {
            assert(old_profile.apps@.take(m as int) =~= old_profile.apps@);
            assert(profile_same(profile, old_profile) == (!apps_changed && !this_changed));
            lemma_profiles_same_push(out@, old_profiles, profile);
        }
        this_changed = this_changed || apps_changed;
        out.push(profile);
        profiles_changed = profiles_changed || this_changed;
        i = i + 1;
    }
    config.profiles = out;
    assert(old_profiles.take(n as int) =~= old_profiles);
    changed || profiles_changed
}

} // verus!
