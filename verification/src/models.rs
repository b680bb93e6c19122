//! The configuration and runtime data model.
use vstd::prelude::*;

use crate::text::copy_str;

verus! {

pub const CONFIG_SCHEMA_VERSION: u32 = 3;

pub const APP_VERSION: &'static str = "0.1.17";

/// Largest absolute coordinate or extent that monitor and window geometry may
/// hold (2^29). Windows keeps virtual-screen coordinates and window sizes far
/// inside this range (a virtual screen spans tens of thousands of pixels at
/// most), so every real monitor and window meets it; the bound leaves room
/// for sums and differences of coordinates to stay within `i32`.
pub const GEOMETRY_LIMIT: i32 = 0x2000_0000;

pub open spec fn coord_ok(v: i32) -> bool {
    -GEOMETRY_LIMIT <= v <= GEOMETRY_LIMIT
}

#[derive(Debug, Clone, Copy, PartialEq, Eq, Structural)]
pub enum MonitorMissingBehavior {
    DoNothing,
    UsePrimary,
    NearestMatch,
}

#[derive(Debug, Clone, Copy, PartialEq, Eq, Structural)]
pub enum WindowStatePreference {
    Normal,
    Maximized,
    Minimized,
}

#[derive(Debug, Clone, Copy, PartialEq, Eq, Structural)]
pub enum TitleMatchMode {
    Contains,
    Exact,
    StartsWith,
    EndsWith,
    Regex,
}

#[derive(Debug, Clone, Copy, PartialEq, Eq, Structural)]
pub enum RestoreStatus {
    Success,
    PartialSuccess,
    Failed,
    MonitorMissing,
    Paused,
}

#[derive(Debug, Clone, Copy, PartialEq, Eq, Structural)]
pub enum AppRestoreStatus {
    Success,
    Skipped,
    Launched,
    LaunchedWindowNotFound,
    ProcessRunningWindowNotFound,
    MonitorMissing,
    InvalidExecutablePath,
    PermissionDenied,
    MoveFailed,
    Failed,
    Paused,
}

#[derive(Debug, Clone, Copy, PartialEq, Eq, Structural)]
pub enum LogSeverity {
    Info,
    Warn,
    Error,
}

#[derive(Debug, Clone, Copy, PartialEq, Eq, Structural)]
pub enum TrayClickAction {
    OpenWindow,
    RestoreLayout,
}

#[derive(Debug, Clone, Copy, PartialEq, Eq, Structural)]
pub struct LayoutRect {
    pub x: i32,
    pub y: i32,
    pub width: i32,
    pub height: i32,
}

impl LayoutRect {
    pub open spec fn wf(self) -> bool {
        coord_ok(self.x) && coord_ok(self.y) && coord_ok(self.width) && coord_ok(self.height)
    }
}

impl Default for LayoutRect {
    fn default() -> (r: Self)
        ensures
            r == (LayoutRect { x: 80, y: 80, width: 1280, height: 720 }),
    {
        LayoutRect { x: 80, y: 80, width: 1280, height: 720 }
    }
}

/// Geometry of the display a layout was saved on, relative to that display.
#[derive(Debug, Clone, Copy, PartialEq, Eq, Structural)]
pub struct CapturedDisplay {
    pub width: i32,
    pub height: i32,
    pub work_x: i32,
    pub work_y: i32,
    pub work_width: i32,
    pub work_height: i32,
    pub scale_percent: i32,
}

#[derive(Debug, Clone, PartialEq, Eq)]
pub struct MatchRule {
    pub mode: TitleMatchMode,
    pub value: String,
    pub case_sensitive: bool,
}

#[derive(Debug, Clone, PartialEq, Eq)]
pub struct AppConfig {
    pub id: String,
    pub display_name: String,
    pub executable_path: Option<String>,
    pub arguments: Vec<String>,
    pub working_directory: Option<String>,
    pub process_name: Option<String>,
    pub title_rule: Option<MatchRule>,
    pub class_name: Option<String>,
    pub target_monitor_id: Option<String>,
    pub captured_display: Option<CapturedDisplay>,
    pub layout: LayoutRect,
    pub window_state: WindowStatePreference,
    pub launch_delay_seconds: u64,
    pub detection_timeout_seconds: u64,
    pub retry_interval_ms: u64,
    pub move_if_running: bool,
    pub force_resize: bool,
    pub apply_to_all_matching_windows: bool,
    pub restore_if_minimized: bool,
    pub pull_hidden_windows: bool,
    pub wake_running_process: bool,
    pub allow_empty_title: bool,
    pub notes: Option<String>,
}

#[derive(Debug, Clone, PartialEq, Eq)]
pub struct Profile {
    pub id: String,
    pub name: String,
    pub description: Option<String>,
    pub target_monitor_id: Option<String>,
    pub apps: Vec<AppConfig>,
}

#[derive(Debug, Clone, PartialEq, Eq)]
pub struct GlobalSettings {
    pub default_monitor_id: Option<String>,
    pub monitor_missing_behavior: MonitorMissingBehavior,
    pub warn_when_monitor_missing: bool,
    pub advanced_mode: bool,
}

#[derive(Debug, Clone, PartialEq, Eq)]
pub struct StartupSettings {
    pub enabled: bool,
    pub start_minimized_to_tray: bool,
    pub default_profile_id: Option<String>,
    pub delay_seconds: u64,
    pub restore_on_launch: bool,
    pub launch_missing_apps: bool,
    pub enforce_after_startup: bool,
}

#[derive(Debug, Clone, PartialEq, Eq)]
pub struct TraySettings {
    pub minimize_to_tray_on_close: bool,
    pub show_restore_status: bool,
    pub left_click_action: TrayClickAction,
}

#[derive(Debug, Clone, PartialEq, Eq)]
pub struct HotkeySettings {
    pub enabled: bool,
    pub accelerator: String,
    pub restore_without_opening: bool,
}

#[derive(Debug, Clone, PartialEq, Eq)]
pub struct EnforcementSettings {
    pub enabled: bool,
    pub profile_id: Option<String>,
    pub duration_seconds: u64,
    pub interval_ms: u64,
}

#[derive(Debug, Clone, PartialEq, Eq)]
pub struct WindowAutoLayoutConfig {
    pub schema_version: u32,
    pub app_version: String,
    pub global: GlobalSettings,
    pub startup: StartupSettings,
    pub tray: TraySettings,
    pub hotkey: HotkeySettings,
    pub enforcement: EnforcementSettings,
    pub profiles: Vec<Profile>,
}

/// A connected display. `scale_percent` is the DPI scale in percent
/// (100 for 96 DPI).
#[derive(Debug, Clone, PartialEq, Eq)]
pub struct MonitorInfo {
    pub id: String,
    pub name: String,
    pub device_name: String,
    pub x: i32,
    pub y: i32,
    pub width: i32,
    pub height: i32,
    pub work_x: i32,
    pub work_y: i32,
    pub work_width: i32,
    pub work_height: i32,
    pub scale_percent: i32,
    pub is_primary: bool,
}

impl MonitorInfo {
    pub open spec fn wf(self) -> bool {
        &&& coord_ok(self.x)
        &&& coord_ok(self.y)
        &&& coord_ok(self.width)
        &&& coord_ok(self.height)
        &&& coord_ok(self.work_x)
        &&& coord_ok(self.work_y)
        &&& coord_ok(self.work_width)
        &&& coord_ok(self.work_height)
    }
}

#[derive(Debug, Clone, PartialEq, Eq)]
pub struct WindowInfo {
    pub handle: String,
    pub title: String,
    pub class_name: String,
    pub process_id: u32,
    pub process_name: String,
    pub executable_path: Option<String>,
    pub monitor_id: Option<String>,
    pub x: i32,
    pub y: i32,
    pub width: i32,
    pub height: i32,
    pub is_visible: bool,
    pub is_minimized: bool,
    pub is_maximized: bool,
}

impl WindowInfo {
    pub open spec fn wf(self) -> bool {
        coord_ok(self.x) && coord_ok(self.y) && coord_ok(self.width) && coord_ok(self.height)
    }
}

#[derive(Debug, Clone, PartialEq, Eq)]
pub struct AppRestoreResult {
    pub app_id: String,
    pub display_name: String,
    pub status: AppRestoreStatus,
    pub message: String,
    pub matched_windows: Vec<WindowInfo>,
}

#[derive(Debug, Clone, PartialEq, Eq)]
pub struct RestoreResult {
    pub profile_id: String,
    pub profile_name: String,
    pub status: RestoreStatus,
    pub started_at: String,
    pub finished_at: String,
    pub monitor: Option<MonitorInfo>,
    pub results: Vec<AppRestoreResult>,
}

#[derive(Debug, Clone, PartialEq, Eq)]
pub struct CapturedWindowSummary {
    pub app_id: String,
    pub display_name: String,
    pub process_name: String,
    pub title: String,
}

#[derive(Debug, Clone, PartialEq, Eq)]
pub struct CaptureLayoutResult {
    pub config: WindowAutoLayoutConfig,
    pub profile_id: String,
    pub monitor: MonitorInfo,
    pub captured_count: usize,
    pub skipped_count: usize,
    pub captured_windows: Vec<CapturedWindowSummary>,
}

#[derive(Debug, Clone, PartialEq, Eq)]
pub struct LogEntry {
    pub timestamp: String,
    pub severity: LogSeverity,
    pub profile: Option<String>,
    pub app: Option<String>,
    pub message: String,
}

#[derive(Debug, Clone, PartialEq, Eq)]
pub struct RuntimeStatus {
    pub automatic_restore_enabled: bool,
    pub automatic_restore_profile_id: Option<String>,
    pub automatic_restore_profile_name: Option<String>,
    pub restoring: bool,
    pub startup_registered: bool,
}

impl CapturedDisplay {
    /// The captured geometry of a monitor: its size, and its work area
    /// relative to its top-left corner.
    pub open spec fn of_monitor(m: MonitorInfo) -> CapturedDisplay {
        CapturedDisplay {
            width: m.width,
            height: m.height,
            work_x: (m.work_x - m.x) as i32,
            work_y: (m.work_y - m.y) as i32,
            work_width: m.work_width,
            work_height: m.work_height,
            scale_percent: m.scale_percent,
        }
    }

    pub fn from_monitor(monitor: &MonitorInfo) -> (r: CapturedDisplay)
        requires
            monitor.wf(),
        ensures
            r == CapturedDisplay::of_monitor(*monitor),
    {
        CapturedDisplay {
            width: monitor.width,
            height: monitor.height,
            work_x: monitor.work_x - monitor.x,
            work_y: monitor.work_y - monitor.y,
            work_width: monitor.work_width,
            work_height: monitor.work_height,
            scale_percent: monitor.scale_percent,
        }
    }
}

pub fn copy_opt(v: &Option<String>) -> (r: Option<String>)
    ensures
        r == *v,
{
    v.clone()
}

pub fn copy_strings(v: &Vec<String>) -> (r: Vec<String>)
    ensures
        r@ == v@,
{
    let r = v.clone();
    assert(r@ =~= v@);
    r
}

impl MatchRule {
    pub fn duplicate(&self) -> (r: MatchRule)
        ensures
            r == *self,
    {
        MatchRule { mode: self.mode, value: self.value.clone(), case_sensitive: self.case_sensitive }
    }
}

pub fn copy_rule(v: &Option<MatchRule>) -> (r: Option<MatchRule>)
    ensures
        r == *v,
{
    match v {
        Some(rule) => Some(rule.duplicate()),
        None => None,
    }
}

/// Every field of an app entry as a preset makes it, but for the title rule
/// and the detection timeout.
pub open spec fn preset_fields(
    a: AppConfig,
    id: Seq<char>,
    name: Seq<char>,
    process: Seq<char>,
    layout: LayoutRect,
) -> bool {
    &&& a.id@ == id
    &&& a.display_name@ == name
    &&& a.process_name is Some
    &&& a.process_name->0@ == process
    &&& a.executable_path is None
    &&& a.arguments@.len() == 0
    &&& a.working_directory is None
    &&& a.class_name is None
    &&& a.target_monitor_id is None
    &&& a.captured_display is None
    &&& a.layout == layout
    &&& a.window_state == WindowStatePreference::Normal
    &&& a.launch_delay_seconds == 0
    &&& a.retry_interval_ms == 700
    &&& a.move_if_running
    &&& a.force_resize
    &&& !a.apply_to_all_matching_windows
    &&& a.restore_if_minimized
    &&& a.pull_hidden_windows
    &&& a.wake_running_process
    &&& !a.allow_empty_title
    &&& a.notes is None
}

/// A preset without a title rule, detected within 25 seconds.
pub open spec fn is_preset(
    a: AppConfig,
    id: Seq<char>,
    name: Seq<char>,
    process: Seq<char>,
    layout: LayoutRect,
) -> bool {
    preset_fields(a, id, name, process, layout) && a.title_rule is None
        && a.detection_timeout_seconds == 25
}

/// A case-insensitive title rule of the given mode and text.
pub open spec fn insensitive_rule(r: Option<MatchRule>, mode: TitleMatchMode, value: Seq<char>) -> bool {
    r is Some && r->0.mode == mode && r->0.value@ == value && !r->0.case_sensitive
}

/// The rectangle `LayoutRect::default` gives.
pub open spec fn default_rect() -> LayoutRect {
    LayoutRect { x: 80, y: 80, width: 1280, height: 720 }
}

/// The OBS Studio preset.
pub open spec fn is_obs_preset(a: AppConfig) -> bool {
    preset_fields(
        a,
        "preset-obs"@,
        "OBS Studio"@,
        "obs64.exe"@,
        LayoutRect { x: 0, y: 0, width: 1280, height: 720 },
    ) && insensitive_rule(a.title_rule, TitleMatchMode::StartsWith, "OBS"@)
        && a.detection_timeout_seconds == 25
}

/// The Discord preset.
pub open spec fn is_discord_preset(a: AppConfig) -> bool {
    is_preset(
        a,
        "preset-discord"@,
        "Discord"@,
        "Discord.exe"@,
        LayoutRect { x: 1280, y: 0, width: 640, height: 720 },
    )
}

/// The built-in presets, entry by entry.
pub open spec fn is_preset_list(r: Seq<AppConfig>) -> bool {
    &&& r.len() == 8
    &&& is_obs_preset(r[0])
    &&& is_discord_preset(r[1])
    &&& is_preset(r[2], "preset-steam"@, "Steam"@, "steam.exe"@, default_rect())
    &&& is_preset(r[3], "preset-spotify"@, "Spotify"@, "Spotify.exe"@, default_rect())
    &&& is_preset(r[4], "preset-chrome"@, "Chrome"@, "chrome.exe"@, default_rect())
    &&& is_preset(r[5], "preset-firefox"@, "Firefox"@, "firefox.exe"@, default_rect())
    &&& is_preset(r[6], "preset-edge"@, "Microsoft Edge"@, "msedge.exe"@, default_rect())
    &&& preset_fields(
        r[7],
        "preset-github-desktop"@,
        "GitHub Desktop"@,
        "GitHubDesktop.exe"@,
        default_rect(),
    )
    &&& insensitive_rule(r[7].title_rule, TitleMatchMode::Contains, "GitHub Desktop"@)
    &&& r[7].detection_timeout_seconds == 45
}

/// The configuration written on a first start, field by field.
pub open spec fn is_default_config(c: WindowAutoLayoutConfig) -> bool {
    &&& c.schema_version == CONFIG_SCHEMA_VERSION
    &&& c.app_version@ == APP_VERSION@
    &&& c.global.default_monitor_id is None
    &&& c.global.monitor_missing_behavior == MonitorMissingBehavior::NearestMatch
    &&& c.global.warn_when_monitor_missing
    &&& !c.global.advanced_mode
    &&& !c.startup.enabled
    &&& c.startup.start_minimized_to_tray
    &&& c.startup.default_profile_id is Some
    &&& c.startup.default_profile_id->0@ == "profile-streaming"@
    &&& c.startup.delay_seconds == 8
    &&& c.startup.restore_on_launch
    &&& c.startup.launch_missing_apps
    &&& c.startup.enforce_after_startup
    &&& c.tray.minimize_to_tray_on_close
    &&& c.tray.show_restore_status
    &&& c.tray.left_click_action == TrayClickAction::OpenWindow
    &&& c.hotkey.enabled
    &&& c.hotkey.accelerator@ == "Ctrl+Alt+L"@
    &&& c.hotkey.restore_without_opening
    &&& !c.enforcement.enabled
    &&& c.enforcement.profile_id is Some
    &&& c.enforcement.profile_id->0@ == "profile-streaming"@
    &&& c.enforcement.duration_seconds == 30
    &&& c.enforcement.interval_ms == 250
    &&& is_default_profiles(c.profiles@)
}

/// The profiles of the configuration written on a first start: one
/// "Streaming" profile with the OBS and Discord presets.
pub open spec fn is_default_profiles(ps: Seq<Profile>) -> bool {
    &&& ps.len() == 1
    &&& ps[0].id@ == "profile-streaming"@
    &&& ps[0].name@ == "Streaming"@
    &&& ps[0].description is Some
    &&& ps[0].description->0@ == "OBS and Discord arranged on a selected monitor."@
    &&& ps[0].target_monitor_id is None
    &&& ps[0].apps@.len() == 2
    &&& is_obs_preset(ps[0].apps@[0])
    &&& is_discord_preset(ps[0].apps@[1])
}

impl AppConfig {
    /// Equal in every field, the argument list compared by its contents.
    pub open spec fn same_as(self, other: AppConfig) -> bool {
        &&& self.id == other.id
        &&& self.display_name == other.display_name
        &&& self.executable_path == other.executable_path
        &&& self.arguments@ == other.arguments@
        &&& self.working_directory == other.working_directory
        &&& self.process_name == other.process_name
        &&& self.title_rule == other.title_rule
        &&& self.class_name == other.class_name
        &&& self.target_monitor_id == other.target_monitor_id
        &&& self.captured_display == other.captured_display
        &&& self.layout == other.layout
        &&& self.window_state == other.window_state
        &&& self.launch_delay_seconds == other.launch_delay_seconds
        &&& self.detection_timeout_seconds == other.detection_timeout_seconds
        &&& self.retry_interval_ms == other.retry_interval_ms
        &&& self.move_if_running == other.move_if_running
        &&& self.force_resize == other.force_resize
        &&& self.apply_to_all_matching_windows == other.apply_to_all_matching_windows
        &&& self.restore_if_minimized == other.restore_if_minimized
        &&& self.pull_hidden_windows == other.pull_hidden_windows
        &&& self.wake_running_process == other.wake_running_process
        &&& self.allow_empty_title == other.allow_empty_title
        &&& self.notes == other.notes
    }

    /// A field-by-field copy.
    pub fn duplicate(&self) -> (r: AppConfig)
        ensures
            r.same_as(*self),
    {
        AppConfig {
            id: self.id.clone(),
            display_name: self.display_name.clone(),
            executable_path: copy_opt(&self.executable_path),
            arguments: copy_strings(&self.arguments),
            working_directory: copy_opt(&self.working_directory),
            process_name: copy_opt(&self.process_name),
            title_rule: copy_rule(&self.title_rule),
            class_name: copy_opt(&self.class_name),
            target_monitor_id: copy_opt(&self.target_monitor_id),
            captured_display: self.captured_display,
            layout: self.layout,
            window_state: self.window_state,
            launch_delay_seconds: self.launch_delay_seconds,
            detection_timeout_seconds: self.detection_timeout_seconds,
            retry_interval_ms: self.retry_interval_ms,
            move_if_running: self.move_if_running,
            force_resize: self.force_resize,
            apply_to_all_matching_windows: self.apply_to_all_matching_windows,
            restore_if_minimized: self.restore_if_minimized,
            pull_hidden_windows: self.pull_hidden_windows,
            wake_running_process: self.wake_running_process,
            allow_empty_title: self.allow_empty_title,
            notes: copy_opt(&self.notes),
        }
    }

    /// A preset entry for a well-known app: matched by process name, restored
    /// to `layout` in the normal state, no title rule, detected within 25 s.
    pub fn new_preset(id: &str, display_name: &str, process_name: &str, layout: LayoutRect) -> (r:
        Self)
        ensures
            is_preset(r, id@, display_name@, process_name@, layout),
    {
        AppConfig {
            id: copy_str(id),
            display_name: copy_str(display_name),
            executable_path: None,
            arguments: Vec::new(),
            working_directory: None,
            process_name: Some(copy_str(process_name)),
            title_rule: None,
            class_name: None,
            target_monitor_id: None,
            captured_display: None,
            layout,
            window_state: WindowStatePreference::Normal,
            launch_delay_seconds: 0,
            detection_timeout_seconds: 25,
            retry_interval_ms: 700,
            move_if_running: true,
            force_resize: true,
            apply_to_all_matching_windows: false,
            restore_if_minimized: true,
            pull_hidden_windows: true,
            wake_running_process: true,
            allow_empty_title: false,
            notes: None,
        }
    }
}

/// Whether a coordinate or extent is within `GEOMETRY_LIMIT`.
pub fn coord_in_limit(v: i32) -> (r: bool)
    ensures
        r == coord_ok(v),
{
    -GEOMETRY_LIMIT <= v && v <= GEOMETRY_LIMIT
}

impl MonitorInfo {
    /// Whether the monitor's geometry is within `GEOMETRY_LIMIT`.
    pub fn is_wf(&self) -> (r: bool)
        ensures
            r == self.wf(),
    {
        coord_in_limit(self.x) && coord_in_limit(self.y) && coord_in_limit(self.width)
            && coord_in_limit(self.height) && coord_in_limit(self.work_x) && coord_in_limit(
            self.work_y,
        ) && coord_in_limit(self.work_width) && coord_in_limit(self.work_height)
    }

    pub fn duplicate(&self) -> (r: MonitorInfo)
        ensures
            r == *self,
    {
        MonitorInfo {
            id: self.id.clone(),
            name: self.name.clone(),
            device_name: self.device_name.clone(),
            x: self.x,
            y: self.y,
            width: self.width,
            height: self.height,
            work_x: self.work_x,
            work_y: self.work_y,
            work_width: self.work_width,
            work_height: self.work_height,
            scale_percent: self.scale_percent,
            is_primary: self.is_primary,
        }
    }
}

impl WindowInfo {
    /// Whether the window's geometry is within `GEOMETRY_LIMIT`.
    pub fn is_wf(&self) -> (r: bool)
        ensures
            r == self.wf(),
    {
        coord_in_limit(self.x) && coord_in_limit(self.y) && coord_in_limit(self.width)
            && coord_in_limit(self.height)
    }

    pub fn duplicate(&self) -> (r: WindowInfo)
        ensures
            r == *self,
    {
        WindowInfo {
            handle: self.handle.clone(),
            title: self.title.clone(),
            class_name: self.class_name.clone(),
            process_id: self.process_id,
            process_name: self.process_name.clone(),
            executable_path: copy_opt(&self.executable_path),
            monitor_id: copy_opt(&self.monitor_id),
            x: self.x,
            y: self.y,
            width: self.width,
            height: self.height,
            is_visible: self.is_visible,
            is_minimized: self.is_minimized,
            is_maximized: self.is_maximized,
        }
    }
}

pub fn copy_windows(v: &Vec<WindowInfo>) -> (r: Vec<WindowInfo>)
    ensures
        r@ == v@,
{
    let mut r: Vec<WindowInfo> = Vec::new();
    let mut i: usize = 0;
    while i < v.len()
        invariant
            i <= v.len(),
            r@ == v@.take(i as int),
        decreases v.len() - i,
    {
        r.push(v[i].duplicate());
        i = i + 1;
        assert(r@ =~= v@.take(i as int));
    }
    assert(v@.take(v.len() as int) =~= v@);
    r
}

fn preset_with_rule(
    id: &str,
    display_name: &str,
    process_name: &str,
    layout: LayoutRect,
    mode: TitleMatchMode,
    value: &str,
) -> (r: AppConfig)
    ensures
        preset_fields(r, id@, display_name@, process_name@, layout),
        insensitive_rule(r.title_rule, mode, value@),
        r.detection_timeout_seconds == 25,
{
    let mut app = AppConfig::new_preset(id, display_name, process_name, layout);
    app.title_rule = Some(MatchRule { mode, value: copy_str(value), case_sensitive: false });
    app
}

/// The built-in app presets offered when adding an app to a profile.
pub fn preset_apps() -> (r: Vec<AppConfig>)
    ensures
        is_preset_list(r@),
{
    let obs = preset_with_rule(
        "preset-obs",
        "OBS Studio",
        "obs64.exe",
        LayoutRect { x: 0, y: 0, width: 1280, height: 720 },
        TitleMatchMode::StartsWith,
        "OBS",
    );
    let mut github_desktop = preset_with_rule(
        "preset-github-desktop",
        "GitHub Desktop",
        "GitHubDesktop.exe",
        LayoutRect::default(),
        TitleMatchMode::Contains,
        "GitHub Desktop",
    );
    github_desktop.detection_timeout_seconds = 45;
    let mut r: Vec<AppConfig> = Vec::new();
    r.push(obs);
    r.push(
        AppConfig::new_preset(
            "preset-discord",
            "Discord",
            "Discord.exe",
            LayoutRect { x: 1280, y: 0, width: 640, height: 720 },
        ),
    );
    r.push(AppConfig::new_preset("preset-steam", "Steam", "steam.exe", LayoutRect::default()));
    r.push(AppConfig::new_preset("preset-spotify", "Spotify", "Spotify.exe", LayoutRect::default()));
    r.push(AppConfig::new_preset("preset-chrome", "Chrome", "chrome.exe", LayoutRect::default()));
    r.push(AppConfig::new_preset("preset-firefox", "Firefox", "firefox.exe", LayoutRect::default()));
    r.push(
        AppConfig::new_preset("preset-edge", "Microsoft Edge", "msedge.exe", LayoutRect::default()),
    );
    r.push(github_desktop);
    r
}

/// The configuration a first start writes: one "Streaming" profile with OBS
/// and Discord, automatic restore off, startup restore of that profile.
pub fn default_config() -> (c: WindowAutoLayoutConfig)
    ensures
        is_default_config(c),
{
    let presets = preset_apps();
    let mut streaming_apps: Vec<AppConfig> = Vec::new();
    streaming_apps.push(presets[0].duplicate());
    streaming_apps.push(presets[1].duplicate());
    WindowAutoLayoutConfig {
        schema_version: CONFIG_SCHEMA_VERSION,
        app_version: copy_str(APP_VERSION),
        global: GlobalSettings {
            default_monitor_id: None,
            monitor_missing_behavior: MonitorMissingBehavior::NearestMatch,
            warn_when_monitor_missing: true,
            advanced_mode: false,
        },
        startup: StartupSettings {
            enabled: false,
            start_minimized_to_tray: true,
            default_profile_id: Some(copy_str("profile-streaming")),
            delay_seconds: 8,
            restore_on_launch: true,
            launch_missing_apps: true,
            enforce_after_startup: true,
        },
        tray: TraySettings {
            minimize_to_tray_on_close: true,
            show_restore_status: true,
            left_click_action: TrayClickAction::OpenWindow,
        },
        hotkey: HotkeySettings {
            enabled: true,
            accelerator: copy_str("Ctrl+Alt+L"),
            restore_without_opening: true,
        },
        enforcement: EnforcementSettings {
            enabled: false,
            profile_id: Some(copy_str("profile-streaming")),
            duration_seconds: 30,
            interval_ms: 250,
        },
        profiles: vec![Profile {
            id: copy_str("profile-streaming"),
            name: copy_str("Streaming"),
            description: Some(copy_str("OBS and Discord arranged on a selected monitor.")),
            target_monitor_id: None,
            apps: streaming_apps,
        }],
    }
}

impl Default for WindowAutoLayoutConfig {
    fn default() -> (c: Self)
        ensures
            is_default_config(c),
    {
        default_config()
    }
}

} // verus!
