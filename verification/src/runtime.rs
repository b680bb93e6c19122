//! Runtime decisions: games that pause restores, the desktop events that
//! trigger an automatic restore, the automatic-restore switch, the startup
//! registration, and the tray's labels.
use vstd::prelude::*;

use crate::errors::AppError;
use crate::models::{
    LogSeverity, MonitorInfo, Profile, RestoreResult, RestoreStatus, RuntimeStatus, TrayClickAction,
    WindowAutoLayoutConfig, WindowInfo,
};
use crate::text::{
    contains, copy_str, decimal, eq_ignore_case, join2, lower, str_contains, to_lower, trim, trim_str,
};

verus! {

/// Games whose process alone pauses restores, in ASCII lowercase.
pub open spec fn known_game(p: Seq<char>) -> bool {
    ||| p == "valorant-win64-shipping.exe"@
    ||| p == "valorant.exe"@
    ||| p == "cs2.exe"@
    ||| p == "csgo.exe"@
    ||| p == "fortniteclient-win64-shipping.exe"@
    ||| p == "r5apex.exe"@
    ||| p == "overwatch.exe"@
    ||| p == "league of legends.exe"@
    ||| p == "rocketleague.exe"@
    ||| p == "tslgame.exe"@
    ||| p == "rainbowsix.exe"@
    ||| p == "rainbowsix_vulkan.exe"@
    ||| p == "escapefromtarkov.exe"@
    ||| p == "minecraft.windows.exe"@
    ||| p == "javaw.exe"@
    ||| p == "osu!.exe"@
    ||| p == "eldenring.exe"@
    ||| p == "gta5.exe"@
    ||| p == "fivem.exe"@
    ||| p == "helldivers2.exe"@
}

pub fn is_latency_sensitive_game_process(process_name: &str) -> (r: bool)
    ensures
        r == known_game(lower(trim(process_name@))),
{
    let p = to_lower(trim_str(process_name).as_str());
    let s = p.as_str();
    crate::text::str_eq(s, "valorant-win64-shipping.exe") || crate::text::str_eq(s, "valorant.exe")
        || crate::text::str_eq(s, "cs2.exe") || crate::text::str_eq(s, "csgo.exe")
        || crate::text::str_eq(s, "fortniteclient-win64-shipping.exe") || crate::text::str_eq(
        s,
        "r5apex.exe",
    ) || crate::text::str_eq(s, "overwatch.exe") || crate::text::str_eq(s, "league of legends.exe")
        || crate::text::str_eq(s, "rocketleague.exe") || crate::text::str_eq(s, "tslgame.exe")
        || crate::text::str_eq(s, "rainbowsix.exe") || crate::text::str_eq(
        s,
        "rainbowsix_vulkan.exe",
    ) || crate::text::str_eq(s, "escapefromtarkov.exe") || crate::text::str_eq(
        s,
        "minecraft.windows.exe",
    ) || crate::text::str_eq(s, "javaw.exe") || crate::text::str_eq(s, "osu!.exe")
        || crate::text::str_eq(s, "eldenring.exe") || crate::text::str_eq(s, "gta5.exe")
        || crate::text::str_eq(s, "fivem.exe") || crate::text::str_eq(s, "helldivers2.exe")
}

/// A visible, restored window that covers its monitor to within four
/// pixels: a fullscreen app.
pub open spec fn covers(w: WindowInfo, m: MonitorInfo) -> bool {
    &&& w.is_visible
    &&& !w.is_minimized
    &&& -4 <= w.x - m.x <= 4
    &&& -4 <= w.y - m.y <= 4
    &&& w.width >= m.width - 4
    &&& w.height >= m.height - 4
}

pub fn covers_monitor(window: &WindowInfo, monitor: &MonitorInfo) -> (r: bool)
    requires
        window.wf(),
        monitor.wf(),
    ensures
        r == covers(*window, *monitor),
{
    if !window.is_visible || window.is_minimized {
        return false;
    }
    let dx = window.x - monitor.x;
    let dy = window.y - monitor.y;
    -4 <= dx && dx <= 4 && -4 <= dy && dy <= 4 && window.width >= monitor.width - 4 && window.height
        >= monitor.height - 4
}

/// A foreground window that pauses restores: a known game, or an app
/// covering the monitor its rectangle is on (when that is known).
pub fn is_latency_sensitive_window(window: &WindowInfo, monitor: &Option<MonitorInfo>) -> (r: bool)
    requires
        window.wf(),
        *monitor matches Some(m) ==> m.wf(),
    ensures
        r == (known_game(lower(trim(window.process_name@))) || (*monitor matches Some(m) && covers(
            *window,
            m,
        ))),
{
    if is_latency_sensitive_game_process(window.process_name.as_str()) {
        return true;
    }
    match monitor {
        Some(m) => covers_monitor(window, m),
        None => false,
    }
}

/// The number of registered raw input devices, unless the query failed.
pub fn raw_input_device_count(result: u32, count: u32) -> (r: Option<u32>)
    ensures
        r == (if result == u32::MAX {
            None
        } else {
            Some(count)
        }),
{
    if result == u32::MAX {
        None
    } else {
        Some(count)
    }
}

/// The startup log line on raw input: none registered is as it should be;
/// any registration, or a failed query, is a warning.
pub fn raw_input_status(count: Option<u32>) -> (r: (LogSeverity, String))
    ensures
        count == Some(0u32) ==> r.0 == LogSeverity::Info && r.1@ == "Raw input capture disabled"@,
        count matches Some(n) ==> (n > 0 ==> r.0 == LogSeverity::Warn && r.1@
            == "Unexpected raw input registration count: "@ + decimal(n as nat)),
        count is None ==> r.0 == LogSeverity::Warn && r.1@
            == "Could not verify raw input registration state"@,
{
    match count {
        Some(0) => (LogSeverity::Info, copy_str("Raw input capture disabled")),
        Some(n) => (
            LogSeverity::Warn,
            join2(
                "Unexpected raw input registration count: ",
                crate::text::decimal_string(n as u64).as_str(),
            ),
        ),
        None => (LogSeverity::Warn, copy_str("Could not verify raw input registration state")),
    }
}

/// Windows the shell uses for the desktop and taskbar, tooltips and input
/// methods: never listed.
pub open spec fn shell_or_helper(w: WindowInfo) -> bool {
    let class = lower(w.class_name@);
    let title = lower(w.title@);
    class == "tooltips_class32"@ || class == "progman"@ || class == "workerw"@ || contains(
        class,
        "ime"@,
    ) || title == "program manager"@
}

pub fn is_shell_or_helper_window(window: &WindowInfo) -> (r: bool)
    ensures
        r == shell_or_helper(*window),
{
    let class = to_lower(window.class_name.as_str());
    let title = to_lower(window.title.as_str());
    crate::text::str_eq(class.as_str(), "tooltips_class32") || crate::text::str_eq(
        class.as_str(),
        "progman",
    ) || crate::text::str_eq(class.as_str(), "workerw") || str_contains(class.as_str(), "ime")
        || crate::text::str_eq(title.as_str(), "program manager")
}

/// This program's own windows.
pub open spec fn own_window(w: WindowInfo) -> bool {
    let p = lower(trim(w.process_name@));
    p == "windowautolayout.exe"@ || p == "windowautolayout"@
}

pub fn is_own_window(window: &WindowInfo) -> (r: bool)
    ensures
        r == own_window(*window),
{
    let p = to_lower(trim_str(window.process_name.as_str()).as_str());
    crate::text::str_eq(p.as_str(), "windowautolayout.exe") || crate::text::str_eq(
        p.as_str(),
        "windowautolayout",
    )
}

/// The desktop itself came to the foreground.
pub open spec fn desktop_shell(w: WindowInfo) -> bool {
    let class = lower(trim(w.class_name@));
    let title = lower(trim(w.title@));
    lower(trim(w.process_name@)) == "explorer.exe"@ && (class == "progman"@ || class == "workerw"@
        || title == "program manager"@)
}

pub fn is_desktop_shell_window(window: &WindowInfo) -> (r: bool)
    ensures
        r == desktop_shell(*window),
{
    let class = to_lower(trim_str(window.class_name.as_str()).as_str());
    let title = to_lower(trim_str(window.title.as_str()).as_str());
    let process = to_lower(trim_str(window.process_name.as_str()).as_str());
    crate::text::str_eq(process.as_str(), "explorer.exe") && (crate::text::str_eq(
        class.as_str(),
        "progman",
    ) || crate::text::str_eq(class.as_str(), "workerw") || crate::text::str_eq(
        title.as_str(),
        "program manager",
    ))
}

/// The taskbar came to the foreground.
pub open spec fn taskbar_shell(w: WindowInfo) -> bool {
    lower(trim(w.process_name@)) == "explorer.exe"@ && lower(trim(w.class_name@)) == "shell_traywnd"@
}

pub fn is_taskbar_shell_window(window: &WindowInfo) -> (r: bool)
    ensures
        r == taskbar_shell(*window),
{
    let class = to_lower(trim_str(window.class_name.as_str()).as_str());
    let process = to_lower(trim_str(window.process_name.as_str()).as_str());
    crate::text::str_eq(process.as_str(), "explorer.exe") && crate::text::str_eq(
        class.as_str(),
        "shell_traywnd",
    )
}

/// Delay before a restore after the desktop is revealed.
pub const DESKTOP_RESTORE_DELAY_MS: u64 = 500;

/// Delay before a restore after a game left the foreground.
pub const GAME_EXIT_RESTORE_DELAY_MS: u64 = 750;

/// No automatic restore within this long of the last one.
pub const RESTORE_DEBOUNCE_MS: u64 = 3000;

/// A minimize this recent makes the taskbar coming forward count as the
/// desktop being revealed.
pub const RECENT_MINIMIZE_MS: u64 = 2000;

/// What the desktop guard remembers between events.
#[derive(Debug, Clone, Copy, PartialEq, Eq, Structural)]
pub struct GuardTiming {
    pub latency_sensitive_foreground: bool,
}

/// A window came to the foreground: a restore is asked for (after the
/// returned delay) when the desktop was revealed (the desktop itself, or the
/// taskbar right after a minimize), or when a game left the foreground for
/// another app than this one.
pub open spec fn foreground_delay(
    was_sensitive: bool,
    w: WindowInfo,
    sensitive: bool,
    recent_minimize: bool,
) -> Option<u64> {
    if desktop_shell(w) || (recent_minimize && taskbar_shell(w)) {
        Some(DESKTOP_RESTORE_DELAY_MS)
    } else if was_sensitive && !sensitive && !own_window(w) {
        Some(GAME_EXIT_RESTORE_DELAY_MS)
    } else {
        None
    }
}

impl GuardTiming {
    pub fn on_foreground(
        &mut self,
        window: &WindowInfo,
        is_latency_sensitive: bool,
        since_minimize_ms: Option<u64>,
    ) -> (r: Option<u64>)
        ensures
            final(self).latency_sensitive_foreground == is_latency_sensitive,
            r == foreground_delay(
                old(self).latency_sensitive_foreground,
                *window,
                is_latency_sensitive,
                since_minimize_ms matches Some(ms) && ms <= RECENT_MINIMIZE_MS,
            ),
    {
        let was = self.latency_sensitive_foreground;
        self.latency_sensitive_foreground = is_latency_sensitive;
        let recent = match since_minimize_ms {
            Some(ms) => ms <= RECENT_MINIMIZE_MS,
            None => false,
        };
        let left = was && !is_latency_sensitive && !is_own_window(window);
        let reveal = is_desktop_shell_window(window) || (recent && is_taskbar_shell_window(window));
        if reveal {
            Some(DESKTOP_RESTORE_DELAY_MS)
        } else if left {
            Some(GAME_EXIT_RESTORE_DELAY_MS)
        } else {
            None
        }
    }
}

/// A restore asked for is scheduled when automatic restore is on, the last
/// one is not too recent, and none is scheduled yet.
pub fn should_schedule_restore(lock_enabled: bool, since_last_restore_ms: Option<u64>, scheduled: bool) -> (r:
    bool)
    ensures
        r == (lock_enabled && !(since_last_restore_ms matches Some(ms) && ms < RESTORE_DEBOUNCE_MS)
            && !scheduled),
{
    if !lock_enabled {
        return false;
    }
    if let Some(ms) = since_last_restore_ms {
        if ms < RESTORE_DEBOUNCE_MS {
            return false;
        }
    }
    !scheduled
}

/// A scheduled automatic restore runs when automatic restore is still on
/// and no game is in the foreground.
pub fn worker_should_restore(lock_enabled: bool, foreground_sensitive: bool) -> (r: bool)
    ensures
        r == (lock_enabled && !foreground_sensitive),
{
    lock_enabled && !foreground_sensitive
}

/// The profile automatic restores use: the configured one, else the startup
/// default.
pub fn automatic_profile_id(config: &WindowAutoLayoutConfig) -> (r: Option<String>)
    ensures
        r == (if config.enforcement.profile_id is Some {
            config.enforcement.profile_id
        } else {
            config.startup.default_profile_id
        }),
{
    match &config.enforcement.profile_id {
        Some(id) => Some(id.clone()),
        None => crate::models::copy_opt(&config.startup.default_profile_id),
    }
}

/// An automatic restore counts (for the debounce) when it ran and was not
/// paused.
pub fn restore_counts(result: &Result<RestoreResult, AppError>) -> (r: bool)
    ensures
        r == (result matches Ok(res) && res.status != RestoreStatus::Paused),
{
    match result {
        Ok(res) => res.status != RestoreStatus::Paused,
        Err(_) => false,
    }
}

/// Turning automatic restore on sticks only when the first restore got
/// somewhere (it was not paused, failed or without its monitor).
pub fn enables_lock_after(status: RestoreStatus) -> (r: bool)
    ensures
        r == !(status == RestoreStatus::Paused || status == RestoreStatus::Failed || status
            == RestoreStatus::MonitorMissing),
{
    !(status == RestoreStatus::Paused || status == RestoreStatus::Failed || status
        == RestoreStatus::MonitorMissing)
}

/// The argument the startup entry passes.
pub const STARTUP_ARG: &'static str = "--startup-restore";

/// The command registered to run at sign-in: the quoted executable and the
/// startup argument.
pub fn startup_command(exe: &str) -> (r: String)
    ensures
        r@ == seq!['"'] + exe@ + seq!['"'] + " --startup-restore"@,
{
    let a = join2("\"", exe);
    let b = join2(a.as_str(), "\"");
    let r = join2(b.as_str(), " --startup-restore");
    proof {
        reveal_strlit("\"");
        assert("\""@ =~= seq!['"']);
    }
    r
}

/// The registered command is ours: equal to the expected one once trimmed,
/// ignoring ASCII case.
pub open spec fn commands_match(actual: Seq<char>, expected: Seq<char>) -> bool {
    lower(trim(actual)) == lower(trim(expected))
}

pub fn startup_commands_match(actual: &str, expected: &str) -> (r: bool)
    ensures
        r == commands_match(actual@, expected@),
{
    eq_ignore_case(trim_str(actual).as_str(), trim_str(expected).as_str())
}

/// A registered command always matches itself.
pub proof fn startup_command_matches_itself(c: Seq<char>)
    ensures
        commands_match(c, c),
{
}

/// The program was started by its startup entry.
pub fn is_startup_restore(args: &Vec<String>) -> (r: bool)
    ensures
        r == exists|k: int| 0 <= k < args@.len() && (#[trigger] args@[k])@ == "--startup-restore"@,
{
    let mut i: usize = 0;
    while i < args.len()
        invariant
            i <= args.len(),
            forall|k: int| 0 <= k < i ==> (#[trigger] args@[k])@ != "--startup-restore"@,
        decreases args.len() - i,
    {
        if crate::text::str_eq(args[i].as_str(), STARTUP_ARG) {
            return true;
        }
        i = i + 1;
    }
    false
}

/// At startup a restore is scheduled (after the startup delay) when the
/// startup restore or automatic restore is on.
pub fn startup_restore_wanted(config: &WindowAutoLayoutConfig) -> (r: Option<u64>)
    ensures
        r == (if config.startup.restore_on_launch || config.enforcement.enabled {
            Some(config.startup.delay_seconds)
        } else {
            None
        }),
{
    if !config.startup.restore_on_launch && !config.enforcement.enabled {
        None
    } else {
        Some(config.startup.delay_seconds)
    }
}

/// A left click on the tray icon restores the layout instead of opening the
/// window.
pub fn tray_left_click_restores(config: &WindowAutoLayoutConfig) -> (r: bool)
    ensures
        r == (config.tray.left_click_action == TrayClickAction::RestoreLayout),
{
    config.tray.left_click_action == TrayClickAction::RestoreLayout
}

/// The automatic-restore switch.
#[derive(Debug, Clone, PartialEq, Eq)]
pub struct LayoutLockState {
    pub enabled: bool,
    pub profile_id: Option<String>,
    pub generation: u64,
}

pub open spec fn first_some(a: Option<String>, b: Option<String>) -> Option<String> {
    if a is Some {
        a
    } else {
        b
    }
}

pub open spec fn bump(g: u64) -> u64 {
    if g == u64::MAX {
        0
    } else {
        (g + 1) as u64
    }
}

fn copy_first(a: &Option<String>, b: &Option<String>) -> (r: Option<String>)
    ensures
        r == first_some(*a, *b),
{
    match a {
        Some(x) => Some(x.clone()),
        None => crate::models::copy_opt(b),
    }
}

pub open spec fn opt_view(o: Option<String>) -> Option<Seq<char>> {
    match o {
        Some(s) => Some(s@),
        None => None,
    }
}

fn same_opt(a: &Option<String>, b: &Option<String>) -> (r: bool)
    ensures
        r == (opt_view(*a) == opt_view(*b)),
{
    match (a, b) {
        (Some(x), Some(y)) => crate::text::str_eq(x.as_str(), y.as_str()),
        (None, None) => true,
        _ => false,
    }
}

impl LayoutLockState {
    /// Turns automatic restore on or off for a profile (the one asked for,
    /// else the one it had, else the configured one, else the startup
    /// default), in the switch and in the configuration alike.
    pub fn set(&mut self, config: &mut WindowAutoLayoutConfig, enabled: bool, profile_id: Option<String>)
        ensures
            final(self).enabled == enabled,
            final(self).profile_id == first_some(
                profile_id,
                first_some(
                    old(self).profile_id,
                    first_some(old(config).enforcement.profile_id, old(config).startup.default_profile_id),
                ),
            ),
            final(self).generation == bump(old(self).generation),
            final(config).enforcement.enabled == enabled,
            final(config).enforcement.profile_id == final(self).profile_id,
            *final(config) == (WindowAutoLayoutConfig {
                enforcement: crate::models::EnforcementSettings {
                    enabled,
                    profile_id: final(self).profile_id,
                    ..old(config).enforcement
                },
                ..*old(config)
            }),
    {
        let fallback = copy_first(&config.enforcement.profile_id, &config.startup.default_profile_id);
        let next = match profile_id {
            Some(p) => Some(p),
            None => copy_first(&self.profile_id, &fallback),
        };
        self.generation = self.generation.wrapping_add(1);
        self.enabled = enabled;
        self.profile_id = crate::models::copy_opt(&next);
        config.enforcement.enabled = enabled;
        config.enforcement.profile_id = next;
    }

    /// Follows a configuration that was saved: the switch takes its on/off
    /// setting and its profile (else the startup default), counting a new
    /// generation when anything changed.
    pub fn sync_from_config(&mut self, config: &WindowAutoLayoutConfig)
        ensures
            ({
                let next = first_some(config.enforcement.profile_id, config.startup.default_profile_id);
                if old(self).enabled != config.enforcement.enabled || opt_view(old(self).profile_id)
                    != opt_view(next) {
                    final(self).enabled == config.enforcement.enabled && final(self).profile_id == next
                        && final(self).generation == bump(old(self).generation)
                } else {
                    *final(self) == *old(self)
                }
            }),
    {
        let next = copy_first(&config.enforcement.profile_id, &config.startup.default_profile_id);
        if self.enabled != config.enforcement.enabled || !same_opt(&self.profile_id, &next) {
            self.generation = self.generation.wrapping_add(1);
            self.enabled = config.enforcement.enabled;
            self.profile_id = next;
        }
    }

    /// Flips automatic restore.
    pub fn toggle(&mut self, config: &mut WindowAutoLayoutConfig, profile_id: Option<String>) -> (r: bool)
        ensures
            r == !old(self).enabled,
            final(self).enabled == r,
            final(config).enforcement.enabled == r,
            final(config).enforcement.profile_id == final(self).profile_id,
    {
        let next = !self.enabled;
        self.set(config, next, profile_id);
        next
    }
}

/// Setting the switch and then following the saved configuration changes
/// nothing: the switch and the configuration agree.
pub proof fn set_then_sync_is_stable(
    lock: LayoutLockState,
    config: WindowAutoLayoutConfig,
    enabled: bool,
    profile: Option<String>,
)
    ensures
        ({
            let next = first_some(
                profile,
                first_some(
                    lock.profile_id,
                    first_some(config.enforcement.profile_id, config.startup.default_profile_id),
                ),
            );
            let c2 = WindowAutoLayoutConfig {
                enforcement: crate::models::EnforcementSettings {
                    enabled,
                    profile_id: next,
                    ..config.enforcement
                },
                ..config
            };
            let l2 = LayoutLockState { enabled, profile_id: next, generation: bump(lock.generation) };
            !(l2.enabled != c2.enforcement.enabled || opt_view(l2.profile_id) != opt_view(
                first_some(c2.enforcement.profile_id, c2.startup.default_profile_id),
            ))
        }),
{
}

/// The log line of a change of the switch.
pub fn lock_change_message(enabled: bool) -> (r: String)
    ensures
        r@ == (if enabled {
            "Event-driven layout lock enabled"@
        } else {
            "Layout lock disabled"@
        }),
{
    if enabled {
        copy_str("Event-driven layout lock enabled")
    } else {
        copy_str("Layout lock disabled")
    }
}

/// The tray's labels for a runtime status: the automatic-restore item, the
/// restore item and the icon's tooltip.
pub fn tray_labels(status: &RuntimeStatus) -> (r: (String, String, String))
    ensures
        r.0@ == (if status.automatic_restore_enabled {
            "Automatic restore: On"@
        } else {
            "Automatic restore: Off"@
        }),
        r.1@ == (if status.restoring {
            "Restoring windows..."@
        } else {
            "Restore windows now"@
        }),
        r.2@ == (if status.restoring {
            "WindowAutoLayout - Restoring windows"@
        } else if status.automatic_restore_enabled {
            "WindowAutoLayout - Automatic restore on"@
        } else {
            "WindowAutoLayout - Automatic restore off"@
        }),
{
    let automatic = if status.automatic_restore_enabled {
        copy_str("Automatic restore: On")
    } else {
        copy_str("Automatic restore: Off")
    };
    let restore = if status.restoring {
        copy_str("Restoring windows...")
    } else {
        copy_str("Restore windows now")
    };
    let tooltip = if status.restoring {
        copy_str("WindowAutoLayout - Restoring windows")
    } else if status.automatic_restore_enabled {
        copy_str("WindowAutoLayout - Automatic restore on")
    } else {
        copy_str("WindowAutoLayout - Automatic restore off")
    };
    (automatic, restore, tooltip)
}

/// Index of the profile whose id equals `id`.
pub open spec fn profile_with_id(ps: Seq<Profile>, id: Seq<char>) -> Option<int> {
    crate::targets::find_profile_from(ps, id, 0)
}

fn profile_index_of(profiles: &Vec<Profile>, id: &str) -> (r: Option<usize>)
    ensures
        r matches Some(k) ==> profile_with_id(profiles@, id@) == Some(k as int) && k < profiles@.len(),
        r is None ==> profile_with_id(profiles@, id@) is None,
{
    let mut i: usize = 0;
    while i < profiles.len()
        invariant
            i <= profiles.len(),
            profile_with_id(profiles@, id@) == crate::targets::find_profile_from(profiles@, id@, i as int),
        decreases profiles.len() - i,
    {
        if crate::text::str_eq(profiles[i].id.as_str(), id) {
            return Some(i);
        }
        i = i + 1;
    }
    None
}

/// What the tray and the window show of the running program.
pub fn runtime_status(
    lock: &LayoutLockState,
    profiles: &Vec<Profile>,
    restoring: bool,
    startup_registered: bool,
) -> (r: RuntimeStatus)
    ensures
        r.automatic_restore_enabled == lock.enabled,
        r.automatic_restore_profile_id == lock.profile_id,
        r.restoring == restoring,
        r.startup_registered == startup_registered,
        match lock.profile_id {
            Some(id) => match profile_with_id(profiles@, id@) {
                Some(k) => 0 <= k < profiles@.len() && r.automatic_restore_profile_name == Some(
                    profiles@[k].name,
                ),
                None => r.automatic_restore_profile_name is None,
            },
            None => r.automatic_restore_profile_name is None,
        },
{
    let name = match &lock.profile_id {
        Some(id) => match profile_index_of(profiles, id.as_str()) {
            Some(k) => Some(profiles[k].name.clone()),
            None => None,
        },
        None => None,
    };
    RuntimeStatus {
        automatic_restore_enabled: lock.enabled,
        automatic_restore_profile_id: crate::models::copy_opt(&lock.profile_id),
        automatic_restore_profile_name: name,
        restoring,
        startup_registered,
    }
}

/// Whether the foreground window (when there is one) pauses restores (see
/// `is_latency_sensitive_window`).
pub fn foreground_is_latency_sensitive(foreground: &Option<WindowInfo>, monitor: &Option<MonitorInfo>) -> (r:
    bool)
    requires
        *foreground matches Some(w) ==> w.wf(),
        *monitor matches Some(m) ==> m.wf(),
    ensures
        r == (*foreground matches Some(w) && (known_game(lower(trim(w.process_name@))) || (
        *monitor matches Some(m) && covers(w, m)))),
{
    match foreground {
        Some(w) => is_latency_sensitive_window(w, monitor),
        None => false,
    }
}

/// Whether a restore is running, as the tray shows it.
#[derive(Debug, Clone, Copy, PartialEq, Eq, Structural)]
pub struct RestoringFlag {
    pub value: bool,
}

impl RestoringFlag {
    /// Records whether a restore is running; tells whether that changed
    /// (the tray is then refreshed).
    pub fn set_restoring(&mut self, restoring: bool) -> (changed: bool)
        ensures
            final(self).value == restoring,
            changed == (old(self).value != restoring),
    {
        let changed = self.value != restoring;
        self.value = restoring;
        changed
    }

    pub fn restoring(&self) -> (r: bool)
        ensures
            r == self.value,
    {
        self.value
    }
}

/// The program's shared state: where its files live, its configuration and
/// its automatic-restore switch.
pub struct AppState {
    pub config_dir: String,
    pub config: WindowAutoLayoutConfig,
    pub layout_lock: LayoutLockState,
}

impl AppState {
    /// The state at startup: the switch follows the configuration.
    pub fn new(config_dir: String, config: WindowAutoLayoutConfig) -> (r: AppState)
        ensures
            r.config_dir == config_dir,
            r.config == config,
            r.layout_lock.enabled == config.enforcement.enabled,
            r.layout_lock.profile_id == first_some(
                config.enforcement.profile_id,
                config.startup.default_profile_id,
            ),
            r.layout_lock.generation == 0,
    {
        let profile_id = copy_first(&config.enforcement.profile_id, &config.startup.default_profile_id);
        let lock = LayoutLockState {
            enabled: config.enforcement.enabled,
            profile_id,
            generation: 0,
        };
        AppState { config_dir, config, layout_lock: lock }
    }
}

} // verus!
