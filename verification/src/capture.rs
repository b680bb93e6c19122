//! Capturing layouts: turning the windows open on a monitor into app
//! entries, and saving where configured apps' windows are now.
use vstd::prelude::*;

use crate::errors::AppError;
use crate::matching::{title_matches_spec};
use crate::models::{
    AppConfig, CaptureLayoutResult, CapturedDisplay, CapturedWindowSummary, LayoutRect,
    MatchRule, MonitorInfo, Profile, TitleMatchMode, WindowAutoLayoutConfig, WindowInfo,
    WindowStatePreference,
};
use crate::monitors::{find_monitor, find_monitor_index, lemma_find_monitor_from_bounds};
use crate::placement::{relative_of, relative_rect, Rect};
use crate::selection::{
    lemma_title_less_asymmetric, lemma_title_less_irreflexive, stable_rearrangement, title_less,
};
use crate::targets::monitors_wf;
use crate::text::{
    blank, chars_of, copy_str, decimal, eq_ignore_case, is_ascii_alnum, is_blank, join2, lower,
    lower_char, lower_of, push_char, starts_with, str_starts_with, str_trim_end_all, string_from,
    to_lower, trim, trim_end_all, trim_end_char, trim_end_char_chars, trim_str,
};

verus! {

/// The trimmed text, or none when it is blank.
pub open spec fn non_empty_spec(s: Seq<char>) -> Option<Seq<char>> {
    if blank(s) {
        None
    } else {
        Some(trim(s))
    }
}

pub fn non_empty(value: &str) -> (r: Option<String>)
    ensures
        match non_empty_spec(value@) {
            Some(t) => r matches Some(v) && v@ == t,
            None => r is None,
        },
{
    if is_blank(value) {
        None
    } else {
        Some(trim_str(value))
    }
}

/// The slug's characters before trailing dashes are dropped, and whether the
/// last one written was a dash.
pub open spec fn slug_build(s: Seq<char>) -> (Seq<char>, bool)
    decreases s.len(),
{
    if s.len() == 0 {
        (Seq::empty(), false)
    } else {
        let (out, last_dash) = slug_build(s.drop_last());
        let c = s.last();
        if is_ascii_alnum(c) {
            (out.push(lower_char(c)), false)
        } else if !last_dash && out.len() > 0 {
            (out.push('-'), true)
        } else {
            (out, last_dash)
        }
    }
}

/// A text reduced to an identifier: ASCII letters (lowercased) and digits,
/// every other run of characters after the first letter or digit becoming one
/// dash, no trailing dash; "window" when nothing is left.
pub open spec fn slug_spec(s: Seq<char>) -> Seq<char> {
    let t = trim_end_char(slug_build(s).0, '-');
    if t.len() == 0 {
        "window"@
    } else {
        t
    }
}

pub fn slug(value: &str) -> (r: String)
    ensures
        r@ == slug_spec(value@),
{
    let v = chars_of(value);
    let mut out: Vec<char> = Vec::new();
    let mut last_dash = false;
    let mut i: usize = 0;
    while i < v.len()
        invariant
            i <= v.len(),
            (out@, last_dash) == slug_build(v@.take(i as int)),
        decreases v.len() - i,
    {
        assert(v@.take(i + 1).drop_last() =~= v@.take(i as int));
        let c = v[i];
        if crate::text::char_is_ascii_alnum(c) {
            out.push(lower_of(c));
            last_dash = false;
        } else if !last_dash && out.len() > 0 {
            out.push('-');
            last_dash = true;
        }
        i = i + 1;
    }
    assert(v@.take(v.len() as int) =~= v@);
    let t = trim_end_char_chars(&out, '-');
    if t.len() == 0 {
        copy_str("window")
    } else {
        string_from(&t)
    }
}

pub open spec fn slug_char(c: char) -> bool {
    ('a' <= c && c <= 'z') || ('0' <= c && c <= '9') || c == '-'
}

proof fn lemma_slug_build_chars(s: Seq<char>)
    ensures
        forall|k: int| 0 <= k < slug_build(s).0.len() ==> slug_char(#[trigger] slug_build(s).0[k]),
        slug_build(s).0.len() > 0 ==> slug_build(s).0[0] != '-',
        slug_build(s).1 ==> slug_build(s).0.len() > 0 && slug_build(s).0.last() == '-',
    decreases s.len(),
{
    if s.len() > 0 {
        lemma_slug_build_chars(s.drop_last());
        let prev = slug_build(s.drop_last()).0;
        assert forall|k: int| 0 <= k < slug_build(s).0.len() implies slug_char(
            #[trigger] slug_build(s).0[k],
        ) by {
            if k < prev.len() {
                assert(slug_build(s).0[k] == prev[k]);
            }
        }
    }
}

proof fn lemma_trim_end_char_prefix(s: Seq<char>, c: char)
    ensures
        trim_end_char(s, c).len() <= s.len(),
        forall|k: int| 0 <= k < trim_end_char(s, c).len() ==> #[trigger] trim_end_char(s, c)[k]
            == s[k],
        trim_end_char(s, c).len() > 0 ==> trim_end_char(s, c).last() != c,
    decreases s.len(),
{
    if s.len() > 0 && s.last() == c {
        lemma_trim_end_char_prefix(s.drop_last(), c);
    }
}

/// A slug is made of lowercase ASCII letters, digits and dashes, and neither
/// starts nor ends with a dash.
pub proof fn slug_is_identifier(s: Seq<char>)
    ensures
        forall|k: int| 0 <= k < slug_spec(s).len() ==> slug_char(#[trigger] slug_spec(s)[k]),
        slug_spec(s).len() > 0,
        slug_spec(s)[0] != '-',
        slug_spec(s).last() != '-',
{
    lemma_slug_build_chars(s);
    lemma_trim_end_char_prefix(slug_build(s).0, '-');
    reveal_strlit("window");
}

/// The window's process is `expected`, ignoring ASCII case and a trailing
/// ".exe" on either side.
pub open spec fn process_is_spec(w: WindowInfo, expected: Seq<char>) -> bool {
    lower(w.process_name@) == lower(expected) || lower(trim_end_all(w.process_name@, ".exe"@))
        == lower(trim_end_all(expected, ".exe"@))
}

pub fn process_is(window: &WindowInfo, expected: &str) -> (r: bool)
    ensures
        r == process_is_spec(*window, expected@),
{
    eq_ignore_case(window.process_name.as_str(), expected) || eq_ignore_case(
        str_trim_end_all(window.process_name.as_str(), ".exe").as_str(),
        str_trim_end_all(expected, ".exe").as_str(),
    )
}

/// The name a captured window's entry gets: "OBS Studio" for OBS, else its
/// title, else its process name without ".exe", else "Captured window".
pub open spec fn display_name_spec(w: WindowInfo) -> Seq<char> {
    if process_is_spec(w, "obs64.exe"@) {
        "OBS Studio"@
    } else {
        match non_empty_spec(w.title@) {
            Some(t) => t,
            None => match non_empty_spec(trim_end_all(w.process_name@, ".exe"@)) {
                Some(p) => p,
                None => "Captured window"@,
            },
        }
    }
}

pub fn display_name_for_window(window: &WindowInfo) -> (r: String)
    ensures
        r@ == display_name_spec(*window),
{
    if process_is(window, "obs64.exe") {
        return copy_str("OBS Studio");
    }
    match non_empty(window.title.as_str()) {
        Some(t) => t,
        None => match non_empty(str_trim_end_all(window.process_name.as_str(), ".exe").as_str()) {
            Some(p) => p,
            None => copy_str("Captured window"),
        },
    }
}

/// The id of the `index`-th captured entry: "captured-<slug>-<index + 1>",
/// the slug taken from the process name without ".exe", else the title, else
/// "window".
pub open spec fn captured_id_spec(w: WindowInfo, index: nat) -> Seq<char> {
    let base = match non_empty_spec(trim_end_all(w.process_name@, ".exe"@)) {
        Some(p) => p,
        None => match non_empty_spec(w.title@) {
            Some(t) => t,
            None => "window"@,
        },
    };
    "captured-"@ + slug_spec(base) + "-"@ + decimal(index + 1)
}

pub fn captured_app_id(window: &WindowInfo, index: usize) -> (r: String)
    requires
        index < usize::MAX,
    ensures
        r@ == captured_id_spec(*window, index as nat),
{
    let base = match non_empty(str_trim_end_all(window.process_name.as_str(), ".exe").as_str()) {
        Some(p) => p,
        None => match non_empty(window.title.as_str()) {
            Some(t) => t,
            None => copy_str("window"),
        },
    };
    let a = join2("captured-", slug(base.as_str()).as_str());
    let b = join2(a.as_str(), "-");
    join2(b.as_str(), crate::text::decimal_string(index as u64 + 1).as_str())
}

/// The title rule a captured window's entry gets: OBS's main window is found
/// by a title starting with "OBS"; a window whose process has other windows
/// captured too is told apart by its exact title; else none (and none for an
/// untitled window).
pub open spec fn title_rule_spec(w: WindowInfo, duplicate: bool) -> Option<(TitleMatchMode, Seq<char>)> {
    match non_empty_spec(w.title@) {
        None => None,
        Some(t) => if process_is_spec(w, "obs64.exe"@) && starts_with(lower(t), "obs"@) {
            Some((TitleMatchMode::StartsWith, "OBS"@))
        } else if duplicate {
            Some((TitleMatchMode::Exact, t))
        } else {
            None
        },
    }
}

pub open spec fn rule_is(r: Option<MatchRule>, s: Option<(TitleMatchMode, Seq<char>)>) -> bool {
    match s {
        Some(t) => r matches Some(rule) && rule.mode == t.0 && rule.value@ == t.1
            && !rule.case_sensitive,
        None => r is None,
    }
}

pub fn title_rule_for_window(window: &WindowInfo, duplicate_process: bool) -> (r: Option<MatchRule>)
    ensures
        rule_is(r, title_rule_spec(*window, duplicate_process)),
{
    let title = match non_empty(window.title.as_str()) {
        Some(t) => t,
        None => {
            return None;
        },
    };
    if process_is(window, "obs64.exe") && str_starts_with(to_lower(title.as_str()).as_str(), "obs") {
        return Some(
            MatchRule { mode: TitleMatchMode::StartsWith, value: copy_str("OBS"), case_sensitive: false },
        );
    }
    if duplicate_process {
        return Some(MatchRule { mode: TitleMatchMode::Exact, value: title, case_sensitive: false });
    }
    None
}

/// This program's own window.
pub open spec fn is_self_spec(w: WindowInfo) -> bool {
    let p = lower(trim(w.process_name@));
    p == "windowautolayout.exe"@ || p == "windowautolayout"@ || lower(trim(w.title@)) == lower(
        "WindowAutoLayout"@,
    )
}

pub fn is_self_window(window: &WindowInfo) -> (r: bool)
    ensures
        r == is_self_spec(*window),
{
    let p = to_lower(trim_str(window.process_name.as_str()).as_str());
    crate::text::str_eq(p.as_str(), "windowautolayout.exe") || crate::text::str_eq(
        p.as_str(),
        "windowautolayout",
    ) || eq_ignore_case(trim_str(window.title.as_str()).as_str(), "WindowAutoLayout")
}

/// The window's centre lies on the monitor.
pub open spec fn center_on(w: WindowInfo, m: MonitorInfo) -> bool {
    let cx = w.x + crate::selection::half(w.width as int);
    let cy = w.y + crate::selection::half(w.height as int);
    m.x <= cx < m.x + m.width && m.y <= cy < m.y + m.height
}

pub fn window_center_is_on_monitor(window: &WindowInfo, monitor: &MonitorInfo) -> (r: bool)
    requires
        window.wf(),
        monitor.wf(),
    ensures
        r == center_on(*window, *monitor),
{
    let half_w = if window.width >= 0 {
        window.width / 2
    } else {
        -((-window.width) / 2)
    };
    let half_h = if window.height >= 0 {
        window.height / 2
    } else {
        -((-window.height) / 2)
    };
    let center_x = window.x + half_w;
    let center_y = window.y + half_h;
    let monitor_right = monitor.x + monitor.width;
    let monitor_bottom = monitor.y + monitor.height;
    center_x >= monitor.x && center_x < monitor_right && center_y >= monitor.y && center_y
        < monitor_bottom
}

/// The window is on the monitor: by the monitor it reports, else by its
/// centre.
pub open spec fn on_capture_monitor(w: WindowInfo, m: MonitorInfo) -> bool {
    match w.monitor_id {
        Some(id) => id@ == m.id@,
        None => center_on(w, m),
    }
}

pub fn window_matches_capture_monitor(window: &WindowInfo, monitor: &MonitorInfo) -> (r: bool)
    requires
        window.wf(),
        monitor.wf(),
    ensures
        r == on_capture_monitor(*window, *monitor),
{
    match &window.monitor_id {
        Some(id) => *id == monitor.id,
        None => window_center_is_on_monitor(window, monitor),
    }
}

/// A window worth capturing on the monitor: visible, not minimized, not this
/// program's, with a process name, and on the monitor.
pub open spec fn capture_candidate(w: WindowInfo, m: MonitorInfo) -> bool {
    w.is_visible && !w.is_minimized && !is_self_spec(w) && !blank(w.process_name@)
        && on_capture_monitor(w, m)
}

pub fn capture_window_candidate(window: &WindowInfo, monitor: &MonitorInfo) -> (r: bool)
    requires
        window.wf(),
        monitor.wf(),
    ensures
        r == capture_candidate(*window, *monitor),
{
    window.is_visible && !window.is_minimized && !is_self_window(window) && !is_blank(
        window.process_name.as_str(),
    ) && window_matches_capture_monitor(window, monitor)
}

/// The key windows of one process share, for counting: the trimmed process
/// name in ASCII lowercase.
pub open spec fn process_key(w: WindowInfo) -> Option<Seq<char>> {
    match non_empty_spec(w.process_name@) {
        Some(p) => Some(lower(p)),
        None => None,
    }
}

pub open spec fn count_key(ws: Seq<WindowInfo>, key: Seq<char>) -> nat
    decreases ws.len(),
{
    if ws.len() == 0 {
        0
    } else {
        count_key(ws.drop_last(), key) + if process_key(ws.last()) == Some(key) {
            1nat
        } else {
            0nat
        }
    }
}

/// Other captured windows share the window's process.
pub open spec fn duplicate_process(ws: Seq<WindowInfo>, w: WindowInfo) -> bool {
    match process_key(w) {
        Some(k) => count_key(ws, k) > 1,
        None => false,
    }
}

proof fn lemma_count_key(ws: Seq<WindowInfo>, key: Seq<char>)
    ensures
        count_key(ws, key) > 0 <==> exists|i: int|
            0 <= i < ws.len() && process_key(#[trigger] ws[i]) == Some(key),
        count_key(ws, key) > 1 <==> exists|i: int, j: int|
            0 <= i < j < ws.len() && process_key(#[trigger] ws[i]) == Some(key) && process_key(
                #[trigger] ws[j],
            ) == Some(key),
    decreases ws.len(),
{
    if ws.len() > 0 {
        let prev = ws.drop_last();
        lemma_count_key(prev, key);
        let n = ws.len() - 1;
        assert forall|i: int| 0 <= i < prev.len() implies #[trigger] prev[i] == ws[i] by {}
        if count_key(ws, key) > 0 {
            if count_key(prev, key) > 0 {
                let i = choose|i: int| 0 <= i < prev.len() && process_key(#[trigger] prev[i]) == Some(key);
                assert(process_key(ws[i]) == Some(key));
            } else {
                assert(process_key(ws[n]) == Some(key));
            }
        }
        if exists|i: int| 0 <= i < ws.len() && process_key(#[trigger] ws[i]) == Some(key) {
            let i = choose|i: int| 0 <= i < ws.len() && process_key(#[trigger] ws[i]) == Some(key);
            if i < n {
                assert(process_key(prev[i]) == Some(key));
            }
        }
        if count_key(ws, key) > 1 {
            if count_key(prev, key) > 1 {
                let (i, j) = choose|i: int, j: int|
                    0 <= i < j < prev.len() && process_key(#[trigger] prev[i]) == Some(key)
                        && process_key(#[trigger] prev[j]) == Some(key);
                assert(process_key(ws[i]) == Some(key) && process_key(ws[j]) == Some(key));
            } else {
                let i = choose|i: int| 0 <= i < prev.len() && process_key(#[trigger] prev[i]) == Some(key);
                assert(process_key(ws[i]) == Some(key) && process_key(ws[n]) == Some(key));
            }
        }
        if exists|i: int, j: int|
            0 <= i < j < ws.len() && process_key(#[trigger] ws[i]) == Some(key) && process_key(
                #[trigger] ws[j],
            ) == Some(key) {
            let (i, j) = choose|i: int, j: int|
                0 <= i < j < ws.len() && process_key(#[trigger] ws[i]) == Some(key) && process_key(
                    #[trigger] ws[j],
                ) == Some(key);
            if j < n {
                assert(process_key(prev[i]) == Some(key) && process_key(prev[j]) == Some(key));
            } else {
                assert(process_key(prev[i]) == Some(key));
            }
        }
    }
}

/// A window's process counts as shared exactly when at least two of the
/// captured windows have that process (process names compared trimmed and
/// lowercased).
pub proof fn duplicate_means_two_windows_of_the_process(ws: Seq<WindowInfo>, w: WindowInfo)
    ensures
        duplicate_process(ws, w) <==> (process_key(w) is Some && exists|i: int, j: int|
            0 <= i < j < ws.len() && process_key(#[trigger] ws[i]) == process_key(w) && process_key(
                #[trigger] ws[j],
            ) == process_key(w)),
{
    if let Some(k) = process_key(w) {
        lemma_count_key(ws, k);
    }
}

/// A captured window that is the only one of its process gets no exact
/// title rule: its entry keeps matching when the window's title changes.
pub proof fn lone_process_window_gets_no_exact_title_rule(
    ws: Seq<WindowInfo>,
    m: MonitorInfo,
    i: int,
    a: AppConfig,
)
    requires
        0 <= i < ws.len(),
        is_captured_app(a, m, ws[i], i as nat, duplicate_process(ws, ws[i])),
        forall|j: int| 0 <= j < ws.len() && j != i ==> process_key(#[trigger] ws[j]) != process_key(ws[i]),
    ensures
        !(a.title_rule matches Some(r) && r.mode == TitleMatchMode::Exact),
{
    duplicate_means_two_windows_of_the_process(ws, ws[i]);
    if duplicate_process(ws, ws[i]) {
        let (p, q) = choose|p: int, q: int|
            0 <= p < q < ws.len() && process_key(#[trigger] ws[p]) == process_key(ws[i]) && process_key(
                #[trigger] ws[q],
            ) == process_key(ws[i]);
        assert(p == i || q == i);
    }
}

fn process_key_of(w: &WindowInfo) -> (r: Option<String>)
    ensures
        match process_key(*w) {
            Some(k) => r matches Some(v) && v@ == k,
            None => r is None,
        },
{
    match non_empty(w.process_name.as_str()) {
        Some(p) => Some(to_lower(p.as_str())),
        None => None,
    }
}

pub fn has_duplicate_process(windows: &Vec<WindowInfo>, window: &WindowInfo) -> (r: bool)
    ensures
        r == duplicate_process(windows@, *window),
{
    let key = match process_key_of(window) {
        Some(k) => k,
        None => {
            return false;
        },
    };
    let mut count: usize = 0;
    let mut i: usize = 0;
    while i < windows.len()
        invariant
            i <= windows.len(),
            count == count_key(windows@.take(i as int), key@),
            count <= i,
        decreases windows.len() - i,
    {
        assert(windows@.take(i + 1).drop_last() =~= windows@.take(i as int));
        let k = process_key_of(&windows[i]);
        let same = match &k {
            Some(v) => crate::text::str_eq(v.as_str(), key.as_str()),
            None => false,
        };
        if same {
            count = count + 1;
        }
        i = i + 1;
    }
    assert(windows@.take(windows.len() as int) =~= windows@);
    count > 1
}

/// A window's rectangle on the virtual desktop.
pub open spec fn window_rect(w: WindowInfo) -> Rect {
    Rect {
        left: w.x,
        top: w.y,
        right: (w.x + w.width) as i32,
        bottom: (w.y + w.height) as i32,
    }
}

/// The entry a captured window becomes (index `index` of the capture).
pub open spec fn is_captured_app(
    a: AppConfig,
    m: MonitorInfo,
    w: WindowInfo,
    index: nat,
    duplicate: bool,
) -> bool {
    &&& a.id@ == captured_id_spec(w, index)
    &&& a.display_name@ == display_name_spec(w)
    &&& a.executable_path == w.executable_path
    &&& a.arguments@.len() == 0
    &&& a.working_directory is None
    &&& (match non_empty_spec(w.process_name@) {
        Some(p) => a.process_name matches Some(n) && n@ == p,
        None => a.process_name is None,
    })
    &&& rule_is(a.title_rule, title_rule_spec(w, duplicate))
    &&& (match non_empty_spec(w.class_name@) {
        Some(c) => a.class_name matches Some(n) && n@ == c,
        None => a.class_name is None,
    })
    &&& a.target_monitor_id == Some(m.id)
    &&& a.captured_display == Some(CapturedDisplay::of_monitor(m))
    &&& a.layout == relative_of(m, window_rect(w))
    &&& a.window_state == (if w.is_maximized {
        WindowStatePreference::Maximized
    } else {
        WindowStatePreference::Normal
    })
    &&& a.launch_delay_seconds == 0
    &&& a.detection_timeout_seconds == 25
    &&& a.retry_interval_ms == 700
    &&& a.move_if_running
    &&& a.force_resize
    &&& !a.apply_to_all_matching_windows
    &&& a.restore_if_minimized
    &&& a.pull_hidden_windows
    &&& a.wake_running_process
    &&& a.allow_empty_title == (non_empty_spec(w.title@) is None)
    &&& a.notes is None
}

pub fn captured_app_for_window(
    monitor: &MonitorInfo,
    window: &WindowInfo,
    index: usize,
    duplicate: bool,
) -> (r: AppConfig)
    requires
        monitor.wf(),
        window.wf(),
        index < usize::MAX,
    ensures
        is_captured_app(r, *monitor, *window, index as nat, duplicate),
{
    let title = non_empty(window.title.as_str());
    let rect = Rect {
        left: window.x,
        top: window.y,
        right: window.x + window.width,
        bottom: window.y + window.height,
    };
    AppConfig {
        id: captured_app_id(window, index),
        display_name: display_name_for_window(window),
        executable_path: crate::models::copy_opt(&window.executable_path),
        arguments: Vec::new(),
        working_directory: None,
        process_name: non_empty(window.process_name.as_str()),
        title_rule: title_rule_for_window(window, duplicate),
        class_name: non_empty(window.class_name.as_str()),
        target_monitor_id: Some(monitor.id.clone()),
        captured_display: Some(CapturedDisplay::from_monitor(monitor)),
        layout: relative_rect(monitor, rect),
        window_state: if window.is_maximized {
            WindowStatePreference::Maximized
        } else {
            WindowStatePreference::Normal
        },
        launch_delay_seconds: 0,
        detection_timeout_seconds: 25,
        retry_interval_ms: 700,
        move_if_running: true,
        force_resize: true,
        apply_to_all_matching_windows: false,
        restore_if_minimized: true,
        pull_hidden_windows: true,
        wake_running_process: true,
        allow_empty_title: title.is_none(),
        notes: None,
    }
}

pub open spec fn windows_wf(ws: Seq<WindowInfo>) -> bool {
    forall|k: int| 0 <= k < ws.len() ==> (#[trigger] ws[k]).wf()
}

/// Whether every window's geometry is within `GEOMETRY_LIMIT`.
pub fn windows_are_wf(windows: &Vec<WindowInfo>) -> (r: bool)
    ensures
        r == windows_wf(windows@),
{
    let mut i: usize = 0;
    while i < windows.len()
        invariant
            i <= windows@.len(),
            forall|k: int| 0 <= k < i ==> (#[trigger] windows@[k]).wf(),
        decreases windows@.len() - i,
    {
        if !windows[i].is_wf() {
            return false;
        }
        i = i + 1;
    }
    true
}

/// One entry per captured window, in order.
pub fn captured_apps_for_windows(monitor: &MonitorInfo, windows: &Vec<WindowInfo>) -> (r: Vec<
    AppConfig,
>)
    requires
        monitor.wf(),
        windows_wf(windows@),
    ensures
        r@.len() == windows@.len(),
        forall|k: int|
            0 <= k < windows@.len() ==> is_captured_app(
                #[trigger] r@[k],
                *monitor,
                windows@[k],
                k as nat,
                duplicate_process(windows@, windows@[k]),
            ),
{
    let mut apps: Vec<AppConfig> = Vec::new();
    let mut i: usize = 0;
    while i < windows.len()
        invariant
            i <= windows.len(),
            monitor.wf(),
            windows_wf(windows@),
            apps@.len() == i,
            forall|k: int|
                0 <= k < i ==> is_captured_app(
                    #[trigger] apps@[k],
                    *monitor,
                    windows@[k],
                    k as nat,
                    duplicate_process(windows@, windows@[k]),
                ),
        decreases windows.len() - i,
    {
        let duplicate = has_duplicate_process(windows, &windows[i]);
        let app = captured_app_for_window(monitor, &windows[i], i, duplicate);
        apps.push(app);
        i = i + 1;
    }
    apps
}

/// The order captured windows are listed in: top to bottom, left to right,
/// then by process name and title.
pub open spec fn capture_before(a: WindowInfo, b: WindowInfo) -> bool {
    ||| a.y < b.y
    ||| (a.y == b.y && a.x < b.x)
    ||| (a.y == b.y && a.x == b.x && title_less(a.process_name@, b.process_name@))
    ||| (a.y == b.y && a.x == b.x && a.process_name@ == b.process_name@ && title_less(
        a.title@,
        b.title@,
    ))
}

proof fn lemma_capture_before_asymmetric(a: WindowInfo, b: WindowInfo)
    ensures
        capture_before(a, b) ==> !capture_before(b, a),
{
    lemma_title_less_asymmetric(a.process_name@, b.process_name@);
    lemma_title_less_asymmetric(a.title@, b.title@);
    if title_less(a.process_name@, b.process_name@) {
        lemma_title_less_irreflexive(a.process_name@);
    }
    if a.process_name@ == b.process_name@ {
        lemma_title_less_irreflexive(a.process_name@);
    }
}

/// Two windows that the capture order cannot tell apart: the same position,
/// process name and title.
pub open spec fn capture_ties(a: WindowInfo, b: WindowInfo) -> bool {
    a.y == b.y && a.x == b.x && a.process_name@ == b.process_name@ && a.title@ == b.title@
}

pub open spec fn capture_ties_fn() -> spec_fn(WindowInfo, WindowInfo) -> bool {
    |a: WindowInfo, b: WindowInfo| capture_ties(a, b)
}

proof fn lemma_capture_before_is_no_tie(a: WindowInfo, b: WindowInfo)
    ensures
        capture_before(a, b) ==> !capture_ties(a, b),
{
    lemma_title_less_irreflexive(a.process_name@);
    lemma_title_less_irreflexive(a.title@);
}

fn is_capture_before(a: &WindowInfo, b: &WindowInfo) -> (r: bool)
    ensures
        r == capture_before(*a, *b),
{
    if a.y != b.y {
        return a.y < b.y;
    }
    if a.x != b.x {
        return a.x < b.x;
    }
    let ap = chars_of(a.process_name.as_str());
    let bp = chars_of(b.process_name.as_str());
    if crate::text::seq_eq(&ap, &bp) {
        proof {
            lemma_title_less_irreflexive(a.process_name@);
        }
        return crate::selection::title_is_less(&chars_of(a.title.as_str()), &chars_of(b.title.as_str()));
    }
    crate::selection::title_is_less(&ap, &bp)
}

pub open spec fn in_capture_order(ws: Seq<WindowInfo>) -> bool {
    forall|k: int| 0 <= k < ws.len() - 1 ==> !capture_before(#[trigger] ws[k + 1], ws[k])
}

proof fn lemma_insert_multiset(s: Seq<WindowInfo>, p: int, x: WindowInfo)
    requires
        0 <= p <= s.len(),
    ensures
        s.insert(p, x).to_multiset() =~= s.to_multiset().insert(x),
{
    broadcast use vstd::seq_lib::group_to_multiset_ensures;

    let t = s.insert(p, x);
    assert(t.remove(p) =~= s);
    assert(t[p] == x);
    assert(t.to_multiset().count(x) > 0);
}

/// The capture candidates among `ws`, in listing order.
pub open spec fn candidates(ws: Seq<WindowInfo>, m: MonitorInfo) -> Seq<WindowInfo>
    decreases ws.len(),
{
    if ws.len() == 0 {
        ws
    } else if capture_candidate(ws.last(), m) {
        candidates(ws.drop_last(), m).push(ws.last())
    } else {
        candidates(ws.drop_last(), m)
    }
}

proof fn lemma_candidates_len(ws: Seq<WindowInfo>, m: MonitorInfo)
    ensures
        candidates(ws, m).len() <= ws.len(),
        forall|k: int| 0 <= k < candidates(ws, m).len() ==> ws.contains(#[trigger] candidates(ws, m)[k]),
    decreases ws.len(),
{
    if ws.len() > 0 {
        lemma_candidates_len(ws.drop_last(), m);
        assert forall|k: int| 0 <= k < candidates(ws, m).len() implies ws.contains(
            #[trigger] candidates(ws, m)[k],
        ) by {
            let prev = candidates(ws.drop_last(), m);
            if k < prev.len() {
                assert(candidates(ws, m)[k] == prev[k]);
                assert(ws.drop_last().contains(prev[k]));
                let j = choose|j: int| 0 <= j < ws.drop_last().len() && ws.drop_last()[j] == prev[k];
                assert(ws[j] == prev[k]);
            } else {
                assert(ws[ws.len() - 1] == ws.last());
            }
        }
    }
}

/// The windows captured on the monitor, sorted into capture order, and how
/// many windows were skipped.
pub fn capture_candidates(windows: &Vec<WindowInfo>, monitor: &MonitorInfo) -> (r: (Vec<WindowInfo>, usize))
    requires
        monitor.wf(),
        windows_wf(windows@),
    ensures
        r.0@.to_multiset() == candidates(windows@, *monitor).to_multiset(),
        in_capture_order(r.0@),
        exists|perm: Seq<int>|
            #[trigger] stable_rearrangement(candidates(windows@, *monitor), r.0@, perm, capture_ties_fn()),
        r.1 == windows@.len() - candidates(windows@, *monitor).len(),
        windows_wf(r.0@),
{
    broadcast use vstd::seq_lib::group_to_multiset_ensures;

    let mut picked: Vec<WindowInfo> = Vec::new();
    let mut i: usize = 0;
    while i < windows.len()
        invariant
            i <= windows.len(),
            monitor.wf(),
            windows_wf(windows@),
            picked@ == candidates(windows@.take(i as int), *monitor),
        decreases windows.len() - i,
    {
        assert(windows@.take(i + 1).drop_last() =~= windows@.take(i as int));
        if capture_window_candidate(&windows[i], monitor) {
            picked.push(windows[i].duplicate());
        }
        i = i + 1;
    }
    assert(windows@.take(windows.len() as int) =~= windows@);
    proof {
        lemma_candidates_len(windows@, *monitor);
    }
    let skipped = windows.len() - picked.len();
    let mut out: Vec<WindowInfo> = Vec::new();
    let ghost mut perm: Seq<int> = Seq::empty();
    let mut j: usize = 0;
    while j < picked.len()
        invariant
            j <= picked.len(),
            out@.to_multiset() == picked@.take(j as int).to_multiset(),
            in_capture_order(out@),
            forall|k: int| 0 <= k < out@.len() ==> picked@.contains(#[trigger] out@[k]),
            out@.len() == j,
            perm.len() == j,
            forall|k: int| 0 <= k < j ==> 0 <= #[trigger] perm[k] < j,
            forall|k: int| 0 <= k < j ==> #[trigger] out@[k] == picked@[perm[k]],
            forall|k: int, l: int| 0 <= k < l < j ==> perm[k] != perm[l],
            forall|k: int, l: int|
                0 <= k < l < j && capture_ties(#[trigger] out@[k], #[trigger] out@[l]) ==> perm[k]
                    < perm[l],
        decreases picked.len() - j,
    {
        let x = picked[j].duplicate();
        let mut p: usize = out.len();
        while p > 0 && is_capture_before(&x, &out[p - 1])
            invariant
                p <= out.len(),
                p < out.len() ==> capture_before(x, out@[p as int]),
                forall|q: int| p <= q < out@.len() ==> capture_before(x, #[trigger] out@[q]),
            decreases p,
        {
            p = p - 1;
        }
        let ghost before = out@;
        let ghost old_perm = perm;
        let ghost xv = x;
        proof {
            if p < out.len() {
                lemma_capture_before_asymmetric(x, out@[p as int]);
            }
            lemma_insert_multiset(before, p as int, x);
            vstd::seq_lib::to_multiset_build(picked@.take(j as int), picked@[j as int]);
            assert(picked@.take(j + 1) =~= picked@.take(j as int).push(picked@[j as int]));
        }
        out.insert(p, x);
        proof {
            assert(out@ == before.insert(p as int, xv));
            perm = old_perm.insert(p as int, j as int);
            assert forall|k: int| 0 <= k < j + 1 implies 0 <= #[trigger] perm[k] < j + 1
                && out@[k] == picked@[perm[k]] by {
                if k < p {
                    assert(perm[k] == old_perm[k]);
                } else if k > p {
                    assert(perm[k] == old_perm[k - 1]);
                }
            }
            assert forall|k: int, l: int| 0 <= k < l < j + 1 implies perm[k] != perm[l] by {
                if k < p && l > p {
                    assert(perm[l] == old_perm[l - 1]);
                } else if k > p {
                    assert(perm[k] == old_perm[k - 1]);
                    assert(perm[l] == old_perm[l - 1]);
                } else if l == p {
                    assert(old_perm[k] < j);
                } else if k == p {
                    assert(old_perm[l - 1] < j);
                }
            }
            assert forall|k: int, l: int|
                0 <= k < l < j + 1 && capture_ties(#[trigger] out@[k], #[trigger] out@[l]) implies
                perm[k] < perm[l] by {
                if k == p {
                    assert(out@[l] == before[l - 1]);
                    assert(capture_before(xv, before[l - 1]));
                    lemma_capture_before_is_no_tie(xv, before[l - 1]);
                } else if l == p {
                    assert(old_perm[k] < j);
                } else if k < p && l < p {
                    assert(out@[k] == before[k] && out@[l] == before[l]);
                    assert(capture_ties(before[k], before[l]));
                } else if k < p {
                    assert(out@[k] == before[k] && out@[l] == before[l - 1]);
                    assert(capture_ties(before[k], before[l - 1]));
                    assert(perm[l] == old_perm[l - 1]);
                } else {
                    assert(out@[k] == before[k - 1] && out@[l] == before[l - 1]);
                    assert(capture_ties(before[k - 1], before[l - 1]));
                    assert(perm[k] == old_perm[k - 1]);
                    assert(perm[l] == old_perm[l - 1]);
                }
            }
            assert forall|k: int| 0 <= k < out@.len() implies picked@.contains(#[trigger] out@[k]) by {
                if k < p {
                    assert(out@[k] == before[k]);
                } else if k == p {
                    assert(out@[k] == picked@[j as int]);
                } else {
                    assert(out@[k] == before[k - 1]);
                }
            }
            assert forall|k: int| 0 <= k < out@.len() - 1 implies !capture_before(
                #[trigger] out@[k + 1],
                out@[k],
            ) by {
                if k + 1 < p {
                    assert(out@[k] == before[k]);
                    assert(out@[k + 1] == before[k + 1]);
                    assert(!capture_before(before[k + 1], before[k]));
                } else if k + 1 == p {
                    assert(out@[k] == before[k]);
                    assert(out@[k + 1] == xv);
                } else if k == p {
                    assert(out@[k] == xv);
                    assert(out@[k + 1] == before[k]);
                } else {
                    assert(out@[k] == before[k - 1]);
                    assert(out@[k + 1] == before[k]);
                    assert(!capture_before(before[(k - 1) + 1], before[k - 1]));
                }
            }
        }
        j = j + 1;
    }
    assert(picked@.take(picked.len() as int) =~= picked@);
    assert(stable_rearrangement(picked@, out@, perm, capture_ties_fn()));
    proof {
        assert forall|k: int| 0 <= k < out@.len() implies (#[trigger] out@[k]).wf() by {
            assert(picked@.contains(out@[k]));
            let t = choose|t: int| 0 <= t < picked@.len() && picked@[t] == out@[k];
            assert(candidates(windows@, *monitor)[t] == out@[k]);
            assert(windows@.contains(candidates(windows@, *monitor)[t]));
        }
    }
    (out, skipped)
}

/// Index of the profile with the given id.
pub open spec fn profile_index(ps: Seq<Profile>, id: Seq<char>) -> Option<int> {
    crate::targets::find_profile_from(ps, id, 0)
}

fn find_profile(profiles: &Vec<Profile>, id: &str) -> (r: Option<usize>)
    ensures
        r matches Some(i) ==> profile_index(profiles@, id@) == Some(i as int) && i < profiles@.len(),
        r is None ==> profile_index(profiles@, id@) is None,
{
    proof {
        crate::restore::lemma_find_profile_bounds(profiles@, id@, 0);
    }
    let mut i: usize = 0;
    while i < profiles.len()
        invariant
            i <= profiles.len(),
            profile_index(profiles@, id@) == crate::targets::find_profile_from(profiles@, id@, i as int),
        decreases profiles.len() - i,
    {
        if crate::text::str_eq(profiles[i].id.as_str(), id) {
            return Some(i);
        }
        i = i + 1;
    }
    None
}

/// Index of the app with the given id in a profile.
pub open spec fn app_index_from(apps: Seq<AppConfig>, id: Seq<char>, i: int) -> Option<int>
    decreases apps.len() - i,
{
    if i < 0 || i >= apps.len() {
        None
    } else if apps[i].id@ == id {
        Some(i)
    } else {
        app_index_from(apps, id, i + 1)
    }
}

proof fn lemma_app_index_bounds(apps: Seq<AppConfig>, id: Seq<char>, i: int)
    ensures
        app_index_from(apps, id, i) matches Some(k) ==> i <= k < apps.len(),
    decreases apps.len() - i,
{
    if 0 <= i < apps.len() && apps[i].id@ != id {
        lemma_app_index_bounds(apps, id, i + 1);
    }
}

fn find_app(apps: &Vec<AppConfig>, id: &str) -> (r: Option<usize>)
    ensures
        r matches Some(i) ==> app_index_from(apps@, id@, 0) == Some(i as int) && i < apps@.len(),
        r is None ==> app_index_from(apps@, id@, 0) is None,
{
    proof {
        lemma_app_index_bounds(apps@, id@, 0);
    }
    let mut i: usize = 0;
    while i < apps.len()
        invariant
            i <= apps.len(),
            app_index_from(apps@, id@, 0) == app_index_from(apps@, id@, i as int),
        decreases apps.len() - i,
    {
        if crate::text::str_eq(apps[i].id.as_str(), id) {
            return Some(i);
        }
        i = i + 1;
    }
    None
}

/// The error a capture without windows reports.
pub open spec fn no_windows_text(m: MonitorInfo) -> Seq<char> {
    "No visible windows were found on "@ + m.name@
}

/// A summary lines up with the entry and the window it was captured from.
pub open spec fn summarizes(s: CapturedWindowSummary, a: AppConfig, w: WindowInfo) -> bool {
    s.app_id == a.id && s.display_name == a.display_name && s.process_name == w.process_name
        && s.title == w.title
}

/// Replaces a profile's apps with one entry per window visible on the chosen
/// monitor (see `is_captured_app`), in capture order, and points the profile
/// at that monitor. Fails when the monitor is not connected, when no window
/// is on it, or when no profile has the id.
pub fn capture_current_layout(
    config: WindowAutoLayoutConfig,
    profile_id: String,
    monitor_id: &str,
    monitors: &Vec<MonitorInfo>,
    windows: &Vec<WindowInfo>,
) -> (r: Result<CaptureLayoutResult, AppError>)
    requires
        monitors_wf(monitors@),
        windows_wf(windows@),
    ensures
        find_monitor(monitors@, monitor_id@) is None ==> r == Err::<CaptureLayoutResult, AppError>(
            AppError::MonitorNotFound,
        ),
        find_monitor(monitors@, monitor_id@) matches Some(k) ==> {
            let m = monitors@[k];
            let n = candidates(windows@, m).len();
            &&& (n == 0 ==> (r matches Err(AppError::Config(msg)) && msg@ == no_windows_text(m)))
            &&& (n > 0 && profile_index(config.profiles@, profile_id@) is None ==> r == Err::<
                CaptureLayoutResult,
                AppError,
            >(AppError::ProfileNotFound(profile_id)))
            &&& (n > 0 ==> (profile_index(config.profiles@, profile_id@) matches Some(p) ==> (
            r matches Ok(res) && {
                &&& res.profile_id == profile_id
                &&& res.monitor == m
                &&& res.captured_count == n
                &&& res.skipped_count == windows@.len() - n
                &&& res.config == (WindowAutoLayoutConfig { profiles: res.config.profiles, ..config })
                &&& res.config.profiles@.len() == config.profiles@.len()
                &&& (forall|q: int|
                    0 <= q < config.profiles@.len() && q != p ==> #[trigger] res.config.profiles@[q]
                        == config.profiles@[q])
                &&& res.config.profiles@[p].id == config.profiles@[p].id
                &&& res.config.profiles@[p].name == config.profiles@[p].name
                &&& res.config.profiles@[p].description == config.profiles@[p].description
                &&& res.config.profiles@[p].target_monitor_id == Some(m.id)
                &&& exists|ws: Seq<WindowInfo>|
                    {
                        &&& ws.to_multiset() == candidates(windows@, m).to_multiset()
                        &&& #[trigger] in_capture_order(ws)
                        &&& exists|perm: Seq<int>|
                            #[trigger] stable_rearrangement(
                                candidates(windows@, m),
                                ws,
                                perm,
                                capture_ties_fn(),
                            )
                        &&& ws.len() == n
                        &&& res.config.profiles@[p].apps@.len() == n
                        &&& res.captured_windows@.len() == n
                        &&& forall|i: int|
                            0 <= i < n ==> is_captured_app(
                                #[trigger] res.config.profiles@[p].apps@[i],
                                m,
                                ws[i],
                                i as nat,
                                duplicate_process(ws, ws[i]),
                            ) && summarizes(
                                res.captured_windows@[i],
                                res.config.profiles@[p].apps@[i],
                                ws[i],
                            )
                    }
            })))
        },
{
    proof {
        lemma_find_monitor_from_bounds(monitors@, monitor_id@, 0);
    }
    let k = match find_monitor_index(monitors, monitor_id) {
        Some(k) => k,
        None => {
            return Err(AppError::MonitorNotFound);
        },
    };
    let monitor = monitors[k].duplicate();
    let (sorted, skipped_count) = capture_candidates(windows, &monitor);
    proof {
        broadcast use vstd::seq_lib::group_to_multiset_ensures;

        assert(sorted@.len() == sorted@.to_multiset().len());
        assert(candidates(windows@, monitor).len() == candidates(windows@, monitor).to_multiset().len());
    }
    if sorted.len() == 0 {
        return Err(AppError::Config(join2("No visible windows were found on ", monitor.name.as_str())));
    }
    let apps = captured_apps_for_windows(&monitor, &sorted);
    let mut summaries: Vec<CapturedWindowSummary> = Vec::new();
    let mut i: usize = 0;
    while i < sorted.len()
        invariant
            i <= sorted.len(),
            apps@.len() == sorted@.len(),
            summaries@.len() == i,
            forall|t: int| 0 <= t < i ==> summarizes(#[trigger] summaries@[t], apps@[t], sorted@[t]),
        decreases sorted.len() - i,
    {
        summaries.push(
            CapturedWindowSummary {
                app_id: apps[i].id.clone(),
                display_name: apps[i].display_name.clone(),
                process_name: sorted[i].process_name.clone(),
                title: sorted[i].title.clone(),
            },
        );
        i = i + 1;
    }
    let mut config = config;
    let p = match find_profile(&config.profiles, profile_id.as_str()) {
        Some(p) => p,
        None => {
            return Err(AppError::ProfileNotFound(profile_id));
        },
    };
    let ghost old_profiles = config.profiles@;
    let mut profile = config.profiles.remove(p);
    profile.target_monitor_id = Some(monitor.id.clone());
    profile.apps = apps;
    config.profiles.insert(p, profile);
    proof {
        assert(config.profiles@ =~= old_profiles.remove(p as int).insert(p as int, profile));
        assert forall|q: int| 0 <= q < old_profiles.len() && q != p implies #[trigger] config.profiles@[q]
            == old_profiles[q] by {
            if q < p {
            } else {
            }
        }
        assert(config.profiles@[p as int] == profile);
    }
    let count = summaries.len();
    proof {
        assert(in_capture_order(sorted@));
        assert(config.profiles@[p as int].apps@ == apps@);
    }
    Ok(
        CaptureLayoutResult {
            config,
            profile_id,
            monitor,
            captured_count: count,
            skipped_count,
            captured_windows: summaries,
        },
    )
}

/// The log line of a capture.
pub fn capture_log_message(count: usize, monitor_name: &str) -> (r: String)
    ensures
        r@ == "Captured "@ + decimal(count as nat) + " visible window(s) on "@ + monitor_name@,
{
    let a = join2("Captured ", crate::text::decimal_string(count as u64).as_str());
    let b = join2(a.as_str(), " visible window(s) on ");
    join2(b.as_str(), monitor_name)
}

/// An app entry after its window was captured on monitor `m`: its layout is
/// the window's rectangle relative to the monitor, its display geometry and
/// monitor are the monitor's; the rest is unchanged.
pub open spec fn captured_into(new: AppConfig, old: AppConfig, m: MonitorInfo, w: WindowInfo) -> bool {
    &&& new.layout == relative_of(m, window_rect(w))
    &&& new.captured_display == Some(CapturedDisplay::of_monitor(m))
    &&& new.target_monitor_id == Some(m.id)
    &&& new.id == old.id
    &&& new.display_name == old.display_name
    &&& new.arguments@ == old.arguments@
    &&& new.working_directory == old.working_directory
    &&& new.title_rule == old.title_rule
    &&& new.class_name == old.class_name
    &&& new.window_state == old.window_state
    &&& new.launch_delay_seconds == old.launch_delay_seconds
    &&& new.detection_timeout_seconds == old.detection_timeout_seconds
    &&& new.retry_interval_ms == old.retry_interval_ms
    &&& new.move_if_running == old.move_if_running
    &&& new.force_resize == old.force_resize
    &&& new.apply_to_all_matching_windows == old.apply_to_all_matching_windows
    &&& new.restore_if_minimized == old.restore_if_minimized
    &&& new.pull_hidden_windows == old.pull_hidden_windows
    &&& new.wake_running_process == old.wake_running_process
    &&& new.allow_empty_title == old.allow_empty_title
    &&& new.notes == old.notes
}

/// What a save gives back on restore: an app entry into which a window was
/// captured on monitor `m` (see `save_window_layout`) is restored, to the
/// same monitor with its geometry unchanged, to the saved layout, and that
/// layout placed on the monitor is the window's rectangle again. This holds
/// for a window no larger than the monitor, at least 80 pixels across (or as
/// wide and tall as the monitor), with a usable part on the monitor.
pub proof fn saved_window_restores_in_place(
    apps: Seq<AppConfig>,
    new: AppConfig,
    old: AppConfig,
    m: MonitorInfo,
    w: WindowInfo,
    res: crate::restore::MonitorResolution,
)
    requires
        captured_into(new, old, m, w),
        res.monitor == m,
        m.wf(),
        w.wf(),
        m.width >= 1,
        m.height >= 1,
        crate::geometry::min_int(80, m.width as int) <= w.width <= m.width,
        crate::geometry::min_int(80, m.height as int) <= w.height <= m.height,
        crate::placement::usable_visible_area(new.layout, m),
    ensures
        crate::restore::restore_layout(apps, new, res) == new.layout,
        crate::placement::absolute_of(m, new.layout) == window_rect(w),
{
    crate::restore::saved_window_returns_in_place(apps, new, res, window_rect(w));
}

/// The app entry with one of its windows captured (see `save_window_layout`).
fn take_window_capture(app: AppConfig, monitor: &MonitorInfo, window: &WindowInfo) -> (r: AppConfig)
    requires
        monitor.wf(),
        window.wf(),
    ensures
        captured_into(r, app, *monitor, *window),
        r.process_name == (match app.process_name {
            Some(n) => if blank(n@) {
                Some(window.process_name)
            } else {
                Some(n)
            },
            None => Some(window.process_name),
        }),
        r.executable_path == (if app.executable_path is None {
            window.executable_path
        } else {
            app.executable_path
        }),
{
    let mut app = app;
    let rect = Rect {
        left: window.x,
        top: window.y,
        right: window.x + window.width,
        bottom: window.y + window.height,
    };
    app.layout = relative_rect(monitor, rect);
    app.captured_display = Some(CapturedDisplay::from_monitor(monitor));
    app.target_monitor_id = Some(monitor.id.clone());
    let missing_name = match &app.process_name {
        Some(n) => is_blank(n.as_str()),
        None => true,
    };
    if missing_name {
        app.process_name = Some(window.process_name.clone());
    }
    if app.executable_path.is_none() {
        app.executable_path = crate::models::copy_opt(&window.executable_path);
    }
    app
}

/// Saves where one window of an app is now: the app's layout, display and
/// monitor are taken from the window; the app keeps its process name unless
/// it has none (then the window's) and its executable unless it has none; the
/// profile is pointed at the monitor when it has none. Fails when the window
/// is on no known monitor, or when the profile or the app is missing.
#[verifier::rlimit(40)]
pub fn save_window_layout(
    config: WindowAutoLayoutConfig,
    profile_id: &str,
    app_id: &str,
    window: &WindowInfo,
    monitors: &Vec<MonitorInfo>,
) -> (r: Result<WindowAutoLayoutConfig, AppError>)
    requires
        monitors_wf(monitors@),
        window.wf(),
    ensures
        window.monitor_id is None ==> r == Err::<WindowAutoLayoutConfig, AppError>(
            AppError::MonitorNotFound,
        ),
        window.monitor_id matches Some(mid) ==> match find_monitor(monitors@, mid@) {
            None => r == Err::<WindowAutoLayoutConfig, AppError>(AppError::MonitorNotFound),
            Some(k) => match profile_index(config.profiles@, profile_id@) {
                None => (r matches Err(AppError::ProfileNotFound(d)) && d@ == profile_id@),
                Some(p) => match app_index_from(config.profiles@[p].apps@, app_id@, 0) {
                    None => (r matches Err(AppError::AppNotFound(d)) && d@ == app_id@),
                    Some(a) => r matches Ok(c) && {
                        let m = monitors@[k];
                        let op = config.profiles@[p];
                        let np = c.profiles@[p];
                        let oa = op.apps@[a];
                        let na = np.apps@[a];
                        &&& c == (WindowAutoLayoutConfig { profiles: c.profiles, ..config })
                        &&& c.profiles@.len() == config.profiles@.len()
                        &&& (forall|q: int|
                            0 <= q < config.profiles@.len() && q != p
                                ==> #[trigger] c.profiles@[q] == config.profiles@[q])
                        &&& np.id == op.id && np.name == op.name && np.description
                            == op.description
                        &&& np.target_monitor_id == (if op.target_monitor_id is None {
                            Some(m.id)
                        } else {
                            op.target_monitor_id
                        })
                        &&& np.apps@.len() == op.apps@.len()
                        &&& (forall|j: int|
                            0 <= j < op.apps@.len() && j != a ==> #[trigger] np.apps@[j]
                                == op.apps@[j])
                        &&& captured_into(na, oa, m, *window)
                        &&& na.process_name == (match oa.process_name {
                            Some(n) => if blank(n@) {
                                Some(window.process_name)
                            } else {
                                Some(n)
                            },
                            None => Some(window.process_name),
                        })
                        &&& na.executable_path == (if oa.executable_path is None {
                            window.executable_path
                        } else {
                            oa.executable_path
                        })
                    },
                },
            },
        },
{
    let monitor_id = match &window.monitor_id {
        Some(id) => id,
        None => {
            return Err(AppError::MonitorNotFound);
        },
    };
    proof {
        lemma_find_monitor_from_bounds(monitors@, monitor_id@, 0);
    }
    let k = match find_monitor_index(monitors, monitor_id.as_str()) {
        Some(k) => k,
        None => {
            return Err(AppError::MonitorNotFound);
        },
    };
    let monitor = &monitors[k];
    let mut config = config;
    let p = match find_profile(&config.profiles, profile_id) {
        Some(p) => p,
        None => {
            return Err(AppError::ProfileNotFound(copy_str(profile_id)));
        },
    };
    let ghost old_profiles = config.profiles@;
    let mut profile = config.profiles.remove(p);
    let ghost op = profile;
    if profile.target_monitor_id.is_none() {
        profile.target_monitor_id = Some(monitor.id.clone());
    }
    assert(old_profiles[p as int].apps@ == profile.apps@);
    let a = match find_app(&profile.apps, app_id) {
        Some(a) => a,
        None => {
            return Err(AppError::AppNotFound(copy_str(app_id)));
        },
    };
    let ghost old_apps = profile.apps@;
    let app = take_window_capture(profile.apps.remove(a), monitor, window);
    let ghost na = app;
    profile.apps.insert(a, app);
    proof {
        assert(profile.apps@ =~= old_apps.remove(a as int).insert(a as int, na));
        assert forall|j: int| 0 <= j < old_apps.len() && j != a implies #[trigger] profile.apps@[j]
            == old_apps[j] by {
            if j < a {
            } else {
            }
        }
    }
    config.profiles.insert(p, profile);
    proof {
        assert(config.profiles@ =~= old_profiles.remove(p as int).insert(p as int, profile));
        assert forall|q: int| 0 <= q < old_profiles.len() && q != p implies #[trigger] config.profiles@[q]
            == old_profiles[q] by {
            if q < p {
            } else {
            }
        }
    }
    Ok(config)
}

/// The windows an app's saved layout is looked up among: all windows when
/// it pulls hidden windows, else the visible ones.
pub open spec fn listing_for(app: AppConfig, visible: Seq<WindowInfo>, all: Seq<WindowInfo>) -> Seq<WindowInfo> {
    if app.pull_hidden_windows {
        all
    } else {
        visible
    }
}

/// How an app entry comes out of saving all current layouts: unchanged when
/// none of its windows is open (or the window found reports no known
/// monitor); else its layout, display and monitor taken from one of its
/// windows, the rest unchanged.
pub open spec fn app_saved(
    new: AppConfig,
    old: AppConfig,
    ms: Seq<MonitorInfo>,
    visible: Seq<WindowInfo>,
    all: Seq<WindowInfo>,
) -> bool {
    let found = crate::selection::matching(listing_for(old, visible, all), old, None);
    ||| (new.same_as(old) && found.len() == 0)
    ||| (new.same_as(old) && exists|w: WindowInfo|
        found.contains(w) && match w.monitor_id {
            Some(mid) => find_monitor(ms, mid@) is None,
            None => true,
        })
    ||| exists|w: WindowInfo, k: int|
        found.contains(w) && 0 <= k < ms.len() && (w.monitor_id matches Some(mid) && find_monitor(
            ms,
            mid@,
        ) == Some(k)) && captured_into(new, old, ms[k], w) && new.process_name == old.process_name
            && new.executable_path == old.executable_path
}

fn take_layout_capture(app: &AppConfig, monitor: &MonitorInfo, window: &WindowInfo) -> (r: AppConfig)
    requires
        monitor.wf(),
        window.wf(),
    ensures
        captured_into(r, *app, *monitor, *window),
        r.process_name == app.process_name,
        r.executable_path == app.executable_path,
{
    let mut r = app.duplicate();
    let rect = Rect {
        left: window.x,
        top: window.y,
        right: window.x + window.width,
        bottom: window.y + window.height,
    };
    r.layout = relative_rect(monitor, rect);
    r.captured_display = Some(CapturedDisplay::from_monitor(monitor));
    r.target_monitor_id = Some(monitor.id.clone());
    r
}

/// Saves, for every app of the profile with an open window, where that
/// window is now (see `app_saved`), and points the profile at the monitor of
/// the first app saved when it has no monitor yet. Fails when no profile has
/// the id.
pub fn save_all_current_layouts(
    config: WindowAutoLayoutConfig,
    profile_id: &str,
    monitors: &Vec<MonitorInfo>,
    visible_windows: &Vec<WindowInfo>,
    all_windows: &Vec<WindowInfo>,
) -> (r: Result<WindowAutoLayoutConfig, AppError>)
    requires
        monitors_wf(monitors@),
        windows_wf(visible_windows@),
        windows_wf(all_windows@),
    ensures
        profile_index(config.profiles@, profile_id@) is None ==> (r matches Err(
            AppError::ProfileNotFound(d),
        ) && d@ == profile_id@),
        profile_index(config.profiles@, profile_id@) matches Some(p) ==> (r matches Ok(c) && {
            let op = config.profiles@[p];
            let np = c.profiles@[p];
            &&& c == (WindowAutoLayoutConfig { profiles: c.profiles, ..config })
            &&& c.profiles@.len() == config.profiles@.len()
            &&& (forall|q: int|
                0 <= q < config.profiles@.len() && q != p ==> #[trigger] c.profiles@[q]
                    == config.profiles@[q])
            &&& np.id == op.id && np.name == op.name && np.description == op.description
            &&& (op.target_monitor_id is Some ==> np.target_monitor_id == op.target_monitor_id)
            &&& np.apps@.len() == op.apps@.len()
            &&& forall|j: int|
                0 <= j < op.apps@.len() ==> app_saved(
                    #[trigger] np.apps@[j],
                    op.apps@[j],
                    monitors@,
                    visible_windows@,
                    all_windows@,
                )
        }),
{
    let mut config = config;
    let p = match find_profile(&config.profiles, profile_id) {
        Some(p) => p,
        None => {
            return Err(AppError::ProfileNotFound(copy_str(profile_id)));
        },
    };
    let ghost old_profiles = config.profiles@;
    let profile = config.profiles.remove(p);
    let mut target = profile.target_monitor_id;
    let mut apps: Vec<AppConfig> = Vec::new();
    let mut j: usize = 0;
    while j < profile.apps.len()
        invariant
            j <= profile.apps.len(),
            monitors_wf(monitors@),
            windows_wf(visible_windows@),
            windows_wf(all_windows@),
            apps@.len() == j,
            profile.target_monitor_id is Some ==> target == profile.target_monitor_id,
            forall|t: int|
                0 <= t < j ==> app_saved(
                    #[trigger] apps@[t],
                    profile.apps@[t],
                    monitors@,
                    visible_windows@,
                    all_windows@,
                ),
        decreases profile.apps.len() - j,
    {
        let app = &profile.apps[j];
        let listing = if app.pull_hidden_windows {
            all_windows
        } else {
            visible_windows
        };
        let matched = crate::selection::find_matching_windows(app, None, listing);
        let ghost found = crate::selection::matching(listing@, *app, None);
        proof {
            broadcast use vstd::seq_lib::group_to_multiset_ensures;

            assert(matched@.len() == matched@.to_multiset().len());
            assert(found.len() == found.to_multiset().len());
        }
        let mut saved: Option<AppConfig> = None;
        if matched.len() > 0 {
            let w = &matched[0];
            proof {
                broadcast use vstd::seq_lib::group_to_multiset_ensures;

                assert(matched@.contains(matched@[0]));
                assert(matched@.to_multiset().count(matched@[0]) > 0);
                assert(found.contains(matched@[0]));
                lemma_matching_wf(listing@, *app);
            }
            if let Some(mid) = &w.monitor_id {
                proof {
                    lemma_find_monitor_from_bounds(monitors@, mid@, 0);
                }
                if let Some(k) = find_monitor_index(monitors, mid.as_str()) {
                    let updated = take_layout_capture(app, &monitors[k], w);
                    if target.is_none() {
                        target = Some(monitors[k].id.clone());
                    }
                    saved = Some(updated);
                }
            }
        }
        let next = match saved {
            Some(u) => u,
            None => app.duplicate(),
        };
        apps.push(next);
        j = j + 1;
    }
    let new_profile = Profile {
        id: profile.id,
        name: profile.name,
        description: profile.description,
        target_monitor_id: target,
        apps,
    };
    let ghost np = new_profile;
    config.profiles.insert(p, new_profile);
    proof {
        assert(config.profiles@ =~= old_profiles.remove(p as int).insert(p as int, np));
        assert forall|q: int| 0 <= q < old_profiles.len() && q != p implies #[trigger] config.profiles@[q]
            == old_profiles[q] by {
            if q < p {
            } else {
            }
        }
    }
    Ok(config)
}

proof fn lemma_matching_wf(ws: Seq<WindowInfo>, app: AppConfig)
    requires
        windows_wf(ws),
    ensures
        forall|w: WindowInfo| crate::selection::matching(ws, app, None).contains(w) ==> w.wf(),
    decreases ws.len(),
{
    if ws.len() > 0 {
        lemma_matching_wf(ws.drop_last(), app);
        assert(ws.drop_last().len() < ws.len());
        assert forall|w: WindowInfo| crate::selection::matching(ws, app, None).contains(w) implies w.wf() by {
            let prev = crate::selection::matching(ws.drop_last(), app, None);
            if prev.contains(w) {
            } else {
                let i = choose|i: int| 0 <= i < crate::selection::matching(ws, app, None).len()
                    && crate::selection::matching(ws, app, None)[i] == w;
                if i < prev.len() {
                    assert(prev[i] == w);
                    assert(prev.contains(w));
                } else {
                    assert(ws[ws.len() - 1].wf());
                }
            }
        }
    }
}

} // verus!
