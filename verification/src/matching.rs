//! Deciding which windows belong to an app entry.
use vstd::prelude::*;

use crate::models::{AppConfig, MatchRule, TitleMatchMode, WindowInfo};
use crate::outside::{regex_compiles, regex_finds, regex_match};
use crate::processes::{file_name, file_name_from_path, package_family, same_windows_app_package};
use crate::text::{
    blank, char_is_ascii_alnum, chars_of, contains, ends_with, eq_ignore_case, is_ascii_alnum,
    is_ascii_digit, is_blank, lower, lower_chars, seq_contains, seq_eq, starts_with,
    str_contains, str_ends_with, str_starts_with, str_trim_end_all, string_from, to_lower,
    trim, trim_end_all, trim_str,
};

verus! {

/// ASCII letters and digits of `s`, in order.
pub open spec fn alnum_only(s: Seq<char>) -> Seq<char>
    decreases s.len(),
{
    if s.len() == 0 {
        s
    } else if is_ascii_alnum(s.last()) {
        alnum_only(s.drop_last()).push(s.last())
    } else {
        alnum_only(s.drop_last())
    }
}

/// A process name reduced to lowercase letters and digits, ".exe" removed.
pub open spec fn normal_process_name(name: Seq<char>) -> Seq<char> {
    lower(alnum_only(trim_end_all(trim(name), ".exe"@)))
}

pub fn normalize_process_name(name: &str) -> (r: String)
    ensures
        r@ == normal_process_name(name@),
{
    let t = trim_str(name);
    let u = str_trim_end_all(t.as_str(), ".exe");
    let v = chars_of(u.as_str());
    let mut kept: Vec<char> = Vec::new();
    let mut i: usize = 0;
    while i < v.len()
        invariant
            i <= v.len(),
            kept@ == alnum_only(v@.take(i as int)),
        decreases v.len() - i,
    {
        assert(v@.take(i + 1).drop_last() =~= v@.take(i as int));
        if char_is_ascii_alnum(v[i]) {
            kept.push(v[i]);
        }
        i = i + 1;
    }
    assert(v@.take(v.len() as int) =~= v@);
    string_from(&lower_chars(&kept))
}

/// GitHub Desktop runs as `GitHubDesktop.exe` but is often configured as
/// `GitHub`.
pub open spec fn github_desktop_pair(expected: Seq<char>, actual: Seq<char>) -> bool {
    let e = normal_process_name(expected);
    (e == "github"@ || e == "githubdesktop"@) && normal_process_name(actual) == "githubdesktop"@
}

fn is_github_desktop_name_pair(expected: &str, actual: &str) -> (r: bool)
    ensures
        r == github_desktop_pair(expected@, actual@),
{
    let e = normalize_process_name(expected);
    let a = normalize_process_name(actual);
    let github = crate::text::copy_str("github");
    let desktop = crate::text::copy_str("githubdesktop");
    (e == github || e == desktop) && a == desktop
}

/// Process names match ignoring surrounding spaces and ASCII case, with or
/// without a trailing ".exe" on either side; `GitHub` also matches GitHub
/// Desktop's process.
pub open spec fn names_match_spec(expected: Seq<char>, actual: Seq<char>) -> bool {
    let e = lower(trim(expected));
    let a = lower(trim(actual));
    ||| e == a
    ||| trim_end_all(e, ".exe"@) == a
    ||| e == trim_end_all(a, ".exe"@)
    ||| github_desktop_pair(e, a)
}

pub fn names_match(expected: &str, actual: &str) -> (r: bool)
    ensures
        r == names_match_spec(expected@, actual@),
{
    let e = to_lower(trim_str(expected).as_str());
    let a = to_lower(trim_str(actual).as_str());
    let ev = chars_of(e.as_str());
    let av = chars_of(a.as_str());
    if seq_eq(&ev, &av) {
        return true;
    }
    let e_stem = chars_of(str_trim_end_all(e.as_str(), ".exe").as_str());
    if seq_eq(&e_stem, &av) {
        return true;
    }
    let a_stem = chars_of(str_trim_end_all(a.as_str(), ".exe").as_str());
    if seq_eq(&ev, &a_stem) {
        return true;
    }
    is_github_desktop_name_pair(e.as_str(), a.as_str())
}

/// A name always matches itself.
pub proof fn names_match_is_reflexive(name: Seq<char>)
    ensures
        names_match_spec(name, name),
{
}

/// What a title rule accepts: the title and the rule's value compared as the
/// mode says, both lowered to ASCII lowercase unless the rule is case
/// sensitive; a regex rule asks the `regex` crate and rejects when the
/// pattern does not build.
pub open spec fn title_matches_spec(title: Seq<char>, rule: MatchRule) -> bool {
    let t = if rule.case_sensitive {
        title
    } else {
        lower(title)
    };
    let v = if rule.case_sensitive {
        rule.value@
    } else {
        lower(rule.value@)
    };
    match rule.mode {
        TitleMatchMode::Contains => contains(t, v),
        TitleMatchMode::Exact => t == v,
        TitleMatchMode::StartsWith => starts_with(t, v),
        TitleMatchMode::EndsWith => ends_with(t, v),
        TitleMatchMode::Regex => regex_compiles(rule.value@, !rule.case_sensitive) && regex_finds(
            rule.value@,
            !rule.case_sensitive,
            t,
        ),
    }
}

pub fn title_matches(title: &str, rule: &MatchRule) -> (r: bool)
    ensures
        r == title_matches_spec(title@, *rule),
{
    let (t, v) = if rule.case_sensitive {
        (crate::text::copy_str(title), rule.value.clone())
    } else {
        (to_lower(title), to_lower(rule.value.as_str()))
    };
    match rule.mode {
        TitleMatchMode::Contains => str_contains(t.as_str(), v.as_str()),
        TitleMatchMode::Exact => t == v,
        TitleMatchMode::StartsWith => str_starts_with(t.as_str(), v.as_str()),
        TitleMatchMode::EndsWith => str_ends_with(t.as_str(), v.as_str()),
        TitleMatchMode::Regex => match regex_match(rule.value.as_str(), !rule.case_sensitive, t.as_str()) {
            Some(found) => found,
            None => false,
        },
    }
}

/// Tooltips, toasts, shadows and splash screens are never an app's window.
pub open spec fn is_helper_window(w: WindowInfo) -> bool {
    let class = lower(w.class_name@);
    let title = lower(w.title@);
    ||| class == "tooltips_class32"@
    ||| contains(class, "toast"@)
    ||| contains(class, "shadow"@)
    ||| contains(title, "splash"@)
}

pub fn is_obvious_helper_window(window: &WindowInfo) -> (r: bool)
    ensures
        r == is_helper_window(*window),
{
    let class = to_lower(window.class_name.as_str());
    let title = to_lower(window.title.as_str());
    crate::text::str_eq(class.as_str(), "tooltips_class32") || str_contains(class.as_str(), "toast")
        || str_contains(class.as_str(), "shadow") || str_contains(title.as_str(), "splash")
}

/// OBS's main window: titled "OBS", "OBS <version>..." or "... - Profile: ...".
pub open spec fn is_obs_main_window_spec(w: WindowInfo) -> bool {
    let title = lower(trim(w.title@));
    ||| title == "obs"@
    ||| (starts_with(title, "obs "@) && title.len() > 4 && is_ascii_digit(title[4]))
    ||| contains(title, " - profile:"@)
}

pub fn is_obs_main_window(window: &WindowInfo) -> (r: bool)
    ensures
        r == is_obs_main_window_spec(*window),
{
    let title = to_lower(trim_str(window.title.as_str()).as_str());
    let tv = chars_of(title.as_str());
    proof {
        reveal_strlit("obs ");
    }
    let versioned = str_starts_with(title.as_str(), "obs ") && tv.len() > 4 && '0' <= tv[4] && tv[4]
        <= '9';
    crate::text::str_eq(title.as_str(), "obs") || versioned || str_contains(
        title.as_str(),
        " - profile:",
    )
}

/// A window of OBS (by its process or by the entry's configured process)
/// other than the main window: docks, stats and the like.
pub open spec fn is_tool_window(w: WindowInfo, configured: Option<Seq<char>>) -> bool {
    let is_obs = names_match_spec("obs64.exe"@, w.process_name@) || (configured matches Some(p)
        && names_match_spec("obs64.exe"@, p));
    is_obs && !is_obs_main_window_spec(w)
}

pub fn is_known_process_tool_window(window: &WindowInfo, configured: &Option<String>) -> (r: bool)
    ensures
        r == is_tool_window(
            *window,
            match configured {
                Some(p) => Some(p@),
                None => None,
            },
        ),
{
    let is_obs = names_match("obs64.exe", window.process_name.as_str()) || match configured {
        Some(p) => names_match("obs64.exe", p.as_str()),
        None => false,
    };
    is_obs && !is_obs_main_window(window)
}

/// An exact title rule names a tool window on purpose.
pub open spec fn targets_tool_window(app: AppConfig, w: WindowInfo) -> bool {
    app.title_rule matches Some(rule) && rule.mode == TitleMatchMode::Exact && title_matches_spec(
        w.title@,
        rule,
    )
}

pub fn explicitly_targets_tool_window(app: &AppConfig, window: &WindowInfo) -> (r: bool)
    ensures
        r == targets_tool_window(*app, *window),
{
    match &app.title_rule {
        Some(rule) => rule.mode == TitleMatchMode::Exact && title_matches(window.title.as_str(), rule),
        None => false,
    }
}

/// The process name an entry is matched by: its process name when not
/// blank, else the file name of its executable path.
pub open spec fn configured_name(app: AppConfig) -> Option<Seq<char>> {
    match app.process_name {
        Some(n) if !blank(n@) => Some(n@),
        _ => match app.executable_path {
            Some(p) => file_name(p@),
            None => None,
        },
    }
}

pub fn configured_process_name(app: &AppConfig) -> (r: Option<String>)
    ensures
        r matches Some(n) ==> configured_name(*app) == Some(n@),
        r is None ==> configured_name(*app) is None,
{
    if let Some(n) = &app.process_name {
        if !is_blank(n.as_str()) {
            return Some(n.clone());
        }
    }
    match &app.executable_path {
        Some(p) => file_name_from_path(p.as_str()),
        None => None,
    }
}

/// The window comes from the entry's process: the process just launched, a
/// process whose name matches the configured one, or the same executable
/// (same path ignoring ASCII case, or the same Store package).
pub open spec fn process_matches(w: WindowInfo, app: AppConfig, launched_pid: Option<u32>) -> bool {
    ||| launched_pid == Some(w.process_id)
    ||| (configured_name(app) matches Some(e) && names_match_spec(e, w.process_name@))
    ||| (app.executable_path matches Some(e) && w.executable_path matches Some(a) && (lower(e@)
        == lower(a@) || (package_family(e@) is Some && package_family(a@) is Some && lower(
        package_family(e@)->0,
    ) == lower(package_family(a@)->0))))
}

/// Whether a window belongs to an app entry: it is visible, or hidden windows
/// may be pulled, or it comes from the process just launched; it has a title
/// unless empty titles are allowed; it is no helper window; it comes from the
/// entry's process; it is no OBS tool window unless an exact title rule asks
/// for it; its class contains the configured class (ASCII case ignored); and
/// its title satisfies the title rule.
pub open spec fn window_matches(w: WindowInfo, app: AppConfig, launched_pid: Option<u32>) -> bool {
    &&& (w.is_visible || app.pull_hidden_windows || launched_pid == Some(w.process_id))
    &&& (app.allow_empty_title || !blank(w.title@))
    &&& !is_helper_window(w)
    &&& process_matches(w, app, launched_pid)
    &&& !(is_tool_window(w, configured_name(app)) && !targets_tool_window(app, w))
    &&& (app.class_name matches Some(c) ==> blank(c@) || contains(lower(w.class_name@), lower(c@)))
    &&& (app.title_rule matches Some(rule) ==> title_matches_spec(w.title@, rule))
}

/// What every window matched to an app satisfies: it is visible, unless the
/// app pulls hidden windows or the window belongs to the process just
/// launched for it; its title is not blank unless the app allows empty
/// titles; it is no helper window; and its title meets the app's title rule.
pub proof fn matched_window_requirements(w: WindowInfo, app: AppConfig, launched_pid: Option<u32>)
    requires
        window_matches(w, app, launched_pid),
    ensures
        w.is_visible || app.pull_hidden_windows || launched_pid == Some(w.process_id),
        app.allow_empty_title || !blank(w.title@),
        !is_helper_window(w),
        app.title_rule matches Some(rule) ==> title_matches_spec(w.title@, rule),
{
}

/// A configured class name that is not blank must occur in the window's
/// class name, ASCII case ignored: a window whose class does not contain it
/// never matches the app.
pub proof fn class_name_rule_excludes(w: WindowInfo, app: AppConfig, launched_pid: Option<u32>)
    requires
        app.class_name is Some,
        !blank(app.class_name->0@),
        !contains(lower(w.class_name@), lower(app.class_name->0@)),
    ensures
        !window_matches(w, app, launched_pid),
{
}

pub fn window_matches_app(window: &WindowInfo, app: &AppConfig, launched_pid: Option<u32>) -> (r: bool)
    ensures
        r == window_matches(*window, *app, launched_pid),
{
    if !window.is_visible && !app.pull_hidden_windows && launched_pid != Some(window.process_id) {
        return false;
    }
    if !app.allow_empty_title && is_blank(window.title.as_str()) {
        return false;
    }
    if is_obvious_helper_window(window) {
        return false;
    }
    let configured = configured_process_name(app);
    let by_name = match &configured {
        Some(expected) => names_match(expected.as_str(), window.process_name.as_str()),
        None => false,
    };
    let by_path = match (&app.executable_path, &window.executable_path) {
        (Some(expected), Some(actual)) => eq_ignore_case(expected.as_str(), actual.as_str())
            || same_windows_app_package(expected.as_str(), actual.as_str()),
        _ => false,
    };
    let process_ok = launched_pid == Some(window.process_id) || by_name || by_path;
    if !process_ok {
        return false;
    }
    if is_known_process_tool_window(window, &configured) && !explicitly_targets_tool_window(
        app,
        window,
    ) {
        return false;
    }
    if let Some(class_name) = &app.class_name {
        if !is_blank(class_name.as_str()) && !str_contains(
            to_lower(window.class_name.as_str()).as_str(),
            to_lower(class_name.as_str()).as_str(),
        ) {
            return false;
        }
    }
    if let Some(rule) = &app.title_rule {
        if !title_matches(window.title.as_str(), rule) {
            return false;
        }
    }
    true
}

/// OBS Studio's entry (its configured process is `obs64.exe`).
pub open spec fn is_obs(app: AppConfig) -> bool {
    configured_name(app) matches Some(n) && names_match_spec("obs64.exe"@, n)
}

pub fn is_obs_app(app: &AppConfig) -> (r: bool)
    ensures
        r == is_obs(*app),
{
    match configured_process_name(app) {
        Some(n) => names_match("obs64.exe", n.as_str()),
        None => false,
    }
}

/// OpenLaunchDeck's entry: a tray app that is detected quickly.
pub open spec fn is_quick_tray(app: AppConfig) -> bool {
    configured_name(app) matches Some(n) && names_match_spec("OpenLaunchDeck.exe"@, n)
}

pub fn is_quick_tray_detection_app(app: &AppConfig) -> (r: bool)
    ensures
        r == is_quick_tray(*app),
{
    match configured_process_name(app) {
        Some(n) => names_match("OpenLaunchDeck.exe", n.as_str()),
        None => false,
    }
}

} // verus!
