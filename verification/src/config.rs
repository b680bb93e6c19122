//! Configuration normalization, migration and validation.
use vstd::prelude::*;

use crate::models::{
    copy_opt, default_config, is_default_profiles, AppConfig, StartupSettings, CapturedDisplay, LayoutRect, Profile, WindowAutoLayoutConfig, APP_VERSION,
    CONFIG_SCHEMA_VERSION,
};
use crate::outside::{fresh_uuid_text, uuid_v4_text};
use crate::text::{
    blank, char_len, copy_str, decimal, decimal_string, is_blank, is_ws, join2, lemma_prefix_not_blank,
    lemma_starts_with_push, lemma_trim_end_all_prefix, push_char, starts_with, str_trim_end_all,
    trim, trim_end, trim_end_all, trim_start, trim_str,
};

verus! {

pub const MAX_STARTUP_DELAY_SECONDS: u64 = 300;

pub const MAX_LAUNCH_DELAY_SECONDS: u64 = 120;

pub const MAX_LAYOUT_DIMENSION: i32 = 32768;

pub const MAX_LAYOUT_OFFSET: i32 = 131072;

pub open spec fn clamp_int(v: int, lo: int, hi: int) -> int {
    if v < lo {
        lo
    } else if v > hi {
        hi
    } else {
        v
    }
}

pub fn clamp_i32(v: i32, lo: i32, hi: i32) -> (r: i32)
    requires
        lo <= hi,
    ensures
        r == clamp_int(v as int, lo as int, hi as int),
{
    if v < lo {
        lo
    } else if v > hi {
        hi
    } else {
        v
    }
}

pub fn clamp_u64(v: u64, lo: u64, hi: u64) -> (r: u64)
    requires
        lo <= hi,
    ensures
        r == clamp_int(v as int, lo as int, hi as int),
{
    if v < lo {
        lo
    } else if v > hi {
        hi
    } else {
        v
    }
}

/// The saved rectangle kept within the offsets and sizes a window can take.
pub open spec fn normal_layout(l: LayoutRect) -> LayoutRect {
    LayoutRect {
        x: clamp_int(l.x as int, -131072, 131072) as i32,
        y: clamp_int(l.y as int, -131072, 131072) as i32,
        width: clamp_int(l.width as int, 80, 32768) as i32,
        height: clamp_int(l.height as int, 80, 32768) as i32,
    }
}

/// A captured display that has a positive size and a positive work area.
pub open spec fn display_usable(d: CapturedDisplay) -> bool {
    d.width > 0 && d.height > 0 && d.work_width > 0 && d.work_height > 0
}

/// The captured display with its work area clamped inside its bounds.
pub open spec fn normal_display(d: CapturedDisplay) -> CapturedDisplay {
    let width = clamp_int(d.width as int, 1, 32768);
    let height = clamp_int(d.height as int, 1, 32768);
    let work_x = clamp_int(d.work_x as int, 0, width - 1);
    let work_y = clamp_int(d.work_y as int, 0, height - 1);
    CapturedDisplay {
        width: width as i32,
        height: height as i32,
        work_x: work_x as i32,
        work_y: work_y as i32,
        work_width: clamp_int(d.work_width as int, 1, width - work_x) as i32,
        work_height: clamp_int(d.work_height as int, 1, height - work_y) as i32,
        scale_percent: clamp_int(d.scale_percent as int, 50, 500) as i32,
    }
}

pub open spec fn normal_captured(c: Option<CapturedDisplay>) -> Option<CapturedDisplay> {
    match c {
        Some(d) => if display_usable(d) {
            Some(normal_display(d))
        } else {
            None
        },
        None => None,
    }
}

pub open spec fn numbered(prefix: Seq<char>, index: int) -> Seq<char> {
    prefix + decimal((index + 1) as nat)
}

/// The display name given to an app entry whose name is blank: its process
/// name without surrounding spaces and without trailing ".exe", or
/// "App <n>" when that leaves nothing.
pub open spec fn fallback_display_name(process_name: Option<String>, index: int) -> Seq<char> {
    match process_name {
        Some(n) => {
            let t = trim(n@);
            let u = trim_end_all(t, ".exe"@);
            if t.len() > 0 && u.len() > 0 {
                u
            } else {
                numbered("App "@, index)
            }
        },
        None => numbered("App "@, index),
    }
}

/// What normalization makes of app entry `old` at position `index`, its
/// identifier aside.
pub open spec fn app_normalized_from(new: AppConfig, old: AppConfig, index: int) -> bool {
    &&& new.display_name@ == (if blank(old.display_name@) {
        fallback_display_name(old.process_name, index)
    } else {
        old.display_name@
    })
    &&& !blank(old.display_name@) ==> new.display_name == old.display_name
    &&& new.launch_delay_seconds == clamp_int(old.launch_delay_seconds as int, 0, 120)
    &&& new.retry_interval_ms == clamp_int(old.retry_interval_ms as int, 250, 5000)
    &&& new.detection_timeout_seconds == clamp_int(old.detection_timeout_seconds as int, 1, 120)
    &&& new.layout == normal_layout(old.layout)
    &&& new.captured_display == normal_captured(old.captured_display)
    &&& new.executable_path == old.executable_path
    &&& new.arguments@ == old.arguments@
    &&& new.working_directory == old.working_directory
    &&& new.process_name == old.process_name
    &&& new.title_rule == old.title_rule
    &&& new.class_name == old.class_name
    &&& new.target_monitor_id == old.target_monitor_id
    &&& new.window_state == old.window_state
    &&& new.move_if_running == old.move_if_running
    &&& new.force_resize == old.force_resize
    &&& new.apply_to_all_matching_windows == old.apply_to_all_matching_windows
    &&& new.restore_if_minimized == old.restore_if_minimized
    &&& new.pull_hidden_windows == old.pull_hidden_windows
    &&& new.wake_running_process == old.wake_running_process
    &&& new.allow_empty_title == old.allow_empty_title
    &&& new.notes == old.notes
}

/// An app entry that normalization leaves as it is, its identifier aside.
pub open spec fn app_is_normal(a: AppConfig) -> bool {
    &&& !blank(a.id@)
    &&& !blank(a.display_name@)
    &&& a.launch_delay_seconds <= 120
    &&& 250 <= a.retry_interval_ms <= 5000
    &&& 1 <= a.detection_timeout_seconds <= 120
    &&& normal_layout(a.layout) == a.layout
    &&& a.captured_display matches Some(d) ==> display_usable(d) && normal_display(d) == d
}

/// Identifier `old_id` survives when it is not blank and not already taken by
/// an earlier entry.
pub open spec fn id_kept(old_id: Seq<char>, earlier: Seq<Seq<char>>) -> bool {
    !blank(old_id) && !earlier.contains(old_id)
}

pub open spec fn distinct(ids: Seq<Seq<char>>) -> bool {
    forall|i: int, j: int| 0 <= i < j < ids.len() ==> ids[i] != ids[j]
}

pub open spec fn app_ids(apps: Seq<AppConfig>) -> Seq<Seq<char>> {
    Seq::new(apps.len(), |k: int| apps[k].id@)
}

pub open spec fn profile_ids(profiles: Seq<Profile>) -> Seq<Seq<char>> {
    Seq::new(profiles.len(), |k: int| profiles[k].id@)
}

/// A generated identifier: `prefix`, '-', the text of a random version-4
/// UUID, and possibly '0's after it.
pub open spec fn fresh_id(s: Seq<char>, prefix: Seq<char>) -> bool {
    &&& starts_with(s, prefix + "-"@)
    &&& s.len() >= prefix.len() + 37
    &&& uuid_v4_text(s.subrange(prefix.len() + 1 as int, prefix.len() + 37 as int))
}

proof fn lemma_fresh_id_push(s: Seq<char>, prefix: Seq<char>, c: char)
    requires
        fresh_id(s, prefix),
    ensures
        fresh_id(s.push(c), prefix),
{
    lemma_starts_with_push(s, prefix + "-"@, c);
    assert(s.push(c).subrange(prefix.len() + 1 as int, prefix.len() + 37 as int) =~= s.subrange(
        prefix.len() + 1 as int,
        prefix.len() + 37 as int,
    ));
}

/// Identifier `new_id` replaces `old_id` as normalization does: the old one
/// when it survives, else a fresh one that starts with `prefix` and "-".
pub open spec fn id_from(new_id: String, old_id: String, earlier: Seq<Seq<char>>, prefix: Seq<char>) -> bool {
    &&& id_kept(old_id@, earlier) ==> new_id == old_id
    &&& !id_kept(old_id@, earlier) ==> fresh_id(new_id@, prefix)
}

pub open spec fn apps_normalized_from(new: Seq<AppConfig>, old: Seq<AppConfig>) -> bool {
    &&& new.len() == old.len()
    &&& forall|k: int| 0 <= k < new.len() ==> app_normalized_from(#[trigger] new[k], old[k], k)
    &&& forall|k: int|
        0 <= k < new.len() ==> id_from(
            #[trigger] new[k].id,
            old[k].id,
            app_ids(new).take(k),
            "app"@,
        )
}

pub open spec fn apps_are_normal(apps: Seq<AppConfig>) -> bool {
    &&& forall|k: int| 0 <= k < apps.len() ==> app_is_normal(#[trigger] apps[k])
    &&& distinct(app_ids(apps))
}

pub open spec fn profile_normalized_from(new: Profile, old: Profile, index: int) -> bool {
    &&& new.name@ == (if blank(old.name@) {
        numbered("Profile "@, index)
    } else {
        old.name@
    })
    &&& !blank(old.name@) ==> new.name == old.name
    &&& new.description == old.description
    &&& new.target_monitor_id == old.target_monitor_id
    &&& apps_normalized_from(new.apps@, old.apps@)
}

pub open spec fn profile_is_normal(p: Profile) -> bool {
    !blank(p.id@) && !blank(p.name@) && apps_are_normal(p.apps@)
}

pub open spec fn profiles_normalized_from(new: Seq<Profile>, old: Seq<Profile>) -> bool {
    &&& new.len() == old.len()
    &&& forall|k: int| 0 <= k < new.len() ==> profile_normalized_from(#[trigger] new[k], old[k], k)
    &&& forall|k: int|
        0 <= k < new.len() ==> id_from(
            #[trigger] new[k].id,
            old[k].id,
            profile_ids(new).take(k),
            "profile"@,
        )
}

pub open spec fn profiles_are_normal(profiles: Seq<Profile>) -> bool {
    &&& forall|k: int| 0 <= k < profiles.len() ==> profile_is_normal(#[trigger] profiles[k])
    &&& distinct(profile_ids(profiles))
}

/// `id` names one of `profiles`.
pub open spec fn names_profile(id: Option<String>, profiles: Seq<Profile>) -> bool {
    id matches Some(x) && profile_ids(profiles).contains(x@)
}

/// A configuration that normalization leaves as it is.
pub open spec fn is_normalized(c: WindowAutoLayoutConfig) -> bool {
    &&& c.schema_version == CONFIG_SCHEMA_VERSION
    &&& c.app_version@ == APP_VERSION@
    &&& c.startup.delay_seconds <= 300
    &&& c.profiles@.len() > 0
    &&& profiles_are_normal(c.profiles@)
    &&& names_profile(c.startup.default_profile_id, c.profiles@)
    &&& names_profile(c.enforcement.profile_id, c.profiles@)
}

pub open spec fn profile_same(p: Profile, q: Profile) -> bool {
    &&& p.id == q.id
    &&& p.name == q.name
    &&& p.description == q.description
    &&& p.target_monitor_id == q.target_monitor_id
    &&& p.apps@.len() == q.apps@.len()
    &&& forall|k: int| 0 <= k < p.apps@.len() ==> (#[trigger] p.apps@[k]).same_as(q.apps@[k])
}

pub open spec fn profiles_same(a: Seq<Profile>, b: Seq<Profile>) -> bool {
    a.len() == b.len() && forall|k: int| 0 <= k < a.len() ==> profile_same(#[trigger] a[k], b[k])
}

/// Equal in every setting, profiles and apps compared by their contents.
pub open spec fn config_same(a: WindowAutoLayoutConfig, b: WindowAutoLayoutConfig) -> bool {
    &&& a.schema_version == b.schema_version
    &&& a.app_version == b.app_version
    &&& a.global == b.global
    &&& a.startup == b.startup
    &&& a.tray == b.tray
    &&& a.hotkey == b.hotkey
    &&& a.enforcement == b.enforcement
    &&& profiles_same(a.profiles@, b.profiles@)
}

pub fn numbered_name(prefix: &str, index: usize) -> (r: String)
    requires
        index < usize::MAX,
    ensures
        r@ == numbered(prefix@, index as int),
{
    let digits = decimal_string((index + 1) as u64);
    join2(prefix, digits.as_str())
}

proof fn lemma_numbered_not_blank(prefix: Seq<char>, index: int)
    requires
        prefix.len() > 0,
        !is_ws(prefix[0]),
    ensures
        !blank(numbered(prefix, index)),
{
    assert(numbered(prefix, index)[0] == prefix[0]);
}

proof fn lemma_app_prefix()
    ensures
        "App "@.len() > 0 && !is_ws("App "@[0]),
        "Profile "@.len() > 0 && !is_ws("Profile "@[0]),
{
    reveal_strlit("App ");
    reveal_strlit("Profile ");
}

proof fn lemma_fallback_not_blank(process_name: Option<String>, index: int)
    ensures
        !blank(fallback_display_name(process_name, index)),
{
    lemma_app_prefix();
    lemma_numbered_not_blank("App "@, index);
    if let Some(n) = process_name {
        let t = trim(n@);
        let u = trim_end_all(t, ".exe"@);
        if t.len() > 0 && u.len() > 0 {
            lemma_trim_end_all_prefix(t, ".exe"@);
            lemma_trim_nonempty_edges(n@);
            lemma_prefix_not_blank(t, u.len() as int);
        }
    }
}

/// A trimmed text that is not empty starts with a non-space.
pub proof fn lemma_trim_nonempty_edges(s: Seq<char>)
    ensures
        trim(s).len() > 0 ==> !is_ws(trim(s)[0]),
    decreases s.len(),
{
    lemma_trim_start_first(s);
    lemma_trim_end_keeps_first(trim_start(s));
}

proof fn lemma_trim_start_first(s: Seq<char>)
    ensures
        trim_start(s).len() > 0 ==> !is_ws(trim_start(s)[0]),
    decreases s.len(),
{
    if s.len() > 0 && is_ws(s[0]) {
        lemma_trim_start_first(s.drop_first());
    }
}

proof fn lemma_trim_end_keeps_first(s: Seq<char>)
    ensures
        trim_end(s).len() > 0 ==> trim_end(s)[0] == s[0],
        trim_end(s).len() <= s.len(),
    decreases s.len(),
{
    if s.len() > 0 && is_ws(s.last()) {
        lemma_trim_end_keeps_first(s.drop_last());
    }
}

fn fallback_display_name_of(process_name: &Option<String>, index: usize) -> (r: String)
    requires
        index < usize::MAX,
    ensures
        r@ == fallback_display_name(*process_name, index as int),
{
    if let Some(name) = process_name {
        let t = trim_str(name.as_str());
        if char_len(t.as_str()) > 0 {
            let u = str_trim_end_all(t.as_str(), ".exe");
            if char_len(u.as_str()) > 0 {
                return u;
            }
        }
    }
    numbered_name("App ", index)
}

/// Normalizes one app entry, its identifier aside; reports whether anything
/// changed.
fn normalize_app(app: AppConfig, index: usize) -> (r: (AppConfig, bool))
    requires
        index < usize::MAX,
    ensures
        app_normalized_from(r.0, app, index as int),
        r.0.id == app.id,
        r.1 == !r.0.same_as(app),
        app_is_normal(app) ==> !r.1,
        !blank(r.0.display_name@),
        r.0.launch_delay_seconds <= 120,
        250 <= r.0.retry_interval_ms <= 5000,
        1 <= r.0.detection_timeout_seconds <= 120,
        normal_layout(r.0.layout) == r.0.layout,
        r.0.captured_display matches Some(d) ==> display_usable(d) && normal_display(d) == d,
{
    let ghost old_app = app;
    let mut app = app;
    let mut changed = false;
    if is_blank(app.display_name.as_str()) {
        app.display_name = fallback_display_name_of(&app.process_name, index);
        proof {
            lemma_fallback_not_blank(old_app.process_name, index as int);
        }
        changed = true;
    }
    let launch_delay_seconds = clamp_u64(app.launch_delay_seconds, 0, MAX_LAUNCH_DELAY_SECONDS);
    if app.launch_delay_seconds != launch_delay_seconds {
        app.launch_delay_seconds = launch_delay_seconds;
        changed = true;
    }
    let retry_interval_ms = clamp_u64(app.retry_interval_ms, 250, 5000);
    if app.retry_interval_ms != retry_interval_ms {
        app.retry_interval_ms = retry_interval_ms;
        changed = true;
    }
    let detection_timeout_seconds = clamp_u64(app.detection_timeout_seconds, 1, 120);
    if app.detection_timeout_seconds != detection_timeout_seconds {
        app.detection_timeout_seconds = detection_timeout_seconds;
        changed = true;
    }
    let x = clamp_i32(app.layout.x, -MAX_LAYOUT_OFFSET, MAX_LAYOUT_OFFSET);
    let y = clamp_i32(app.layout.y, -MAX_LAYOUT_OFFSET, MAX_LAYOUT_OFFSET);
    let width = clamp_i32(app.layout.width, 80, MAX_LAYOUT_DIMENSION);
    let height = clamp_i32(app.layout.height, 80, MAX_LAYOUT_DIMENSION);
    if app.layout.x != x || app.layout.y != y || app.layout.width != width || app.layout.height
        != height {
        app.layout = LayoutRect { x, y, width, height };
        changed = true;
    }
    match app.captured_display {
        Some(display) => {
            if !(display.width > 0 && display.height > 0 && display.work_width > 0
                && display.work_height > 0) {
                app.captured_display = None;
                changed = true;
            } else {
                let width = clamp_i32(display.width, 1, MAX_LAYOUT_DIMENSION);
                let height = clamp_i32(display.height, 1, MAX_LAYOUT_DIMENSION);
                let work_x = clamp_i32(display.work_x, 0, width - 1);
                let work_y = clamp_i32(display.work_y, 0, height - 1);
                let work_width = clamp_i32(display.work_width, 1, width - work_x);
                let work_height = clamp_i32(display.work_height, 1, height - work_y);
                let scale_percent = clamp_i32(display.scale_percent, 50, 500);
                let normal = CapturedDisplay {
                    width,
                    height,
                    work_x,
                    work_y,
                    work_width,
                    work_height,
                    scale_percent,
                };
                if normal != display {
                    app.captured_display = Some(normal);
                    changed = true;
                }
            }
        },
        None => {},
    }
    (app, changed)
}

pub open spec fn has_text(seen: Seq<String>, s: Seq<char>) -> bool {
    exists|k: int| 0 <= k < seen.len() && (#[trigger] seen[k])@ == s
}

/// True when some string in `seen` has the view of `s`.
pub fn contains_text(seen: &Vec<String>, s: &String) -> (r: bool)
    ensures
        r == has_text(seen@, s@),
{
    let mut i: usize = 0;
    while i < seen.len()
        invariant
            i <= seen.len(),
            forall|k: int| 0 <= k < i ==> seen@[k]@ != s@,
        decreases seen.len() - i,
    {
        if seen[i] == *s {
            assert(seen@[i as int]@ == s@);
            return true;
        }
        i = i + 1;
    }
    false
}

/// `<prefix>-` followed by a fresh random identifier.
fn random_id(prefix: &str) -> (r: String)
    ensures
        fresh_id(r@, prefix@),
{
    let mut candidate = join2(prefix, "-");
    let random = fresh_uuid_text();
    proof {
        assert(candidate@.subrange(0, (prefix@ + "-"@).len() as int) =~= prefix@ + "-"@);
    }
    let ghost before = candidate@;
    candidate.append(random.as_str());
    assert(candidate@.subrange(0, (prefix@ + "-"@).len() as int) =~= before);
    assert(candidate@ == before + random@);
    proof {
        reveal_strlit("-");
    }
    assert(before.len() == prefix@.len() + 1);
    assert(candidate@.subrange(prefix@.len() + 1 as int, prefix@.len() + 37 as int) =~= random@);
    candidate
}

/// A new identifier `<prefix>-<random>` that no string in `seen` has; it is
/// appended to `seen`. A random identifier that is already taken is drawn
/// again until one is free; only after `u64::MAX` draws that all collided,
/// which no run reaches, would the last one be lengthened with '0's until it
/// is longer than every string in `seen` (the bound makes the loop finite).
fn unique_id(prefix: &str, seen: &mut Vec<String>) -> (r: String)
    ensures
        !has_text(old(seen)@, r@),
        final(seen)@ == old(seen)@.push(r),
        fresh_id(r@, prefix@),
{
    let mut candidate = random_id(prefix);
    let mut draws: u64 = 1;
    while draws < u64::MAX && contains_text(seen, &candidate)
        invariant
            fresh_id(candidate@, prefix@),
        decreases u64::MAX - draws,
    {
        candidate = random_id(prefix);
        draws = draws + 1;
    }
    if contains_text(seen, &candidate) {
        let mut longest: usize = 0;
        let mut i: usize = 0;
        while i < seen.len()
            invariant
                i <= seen.len(),
                forall|k: int| 0 <= k < i ==> seen@[k]@.len() <= longest,
            decreases seen.len() - i,
        {
            let n = char_len(seen[i].as_str());
            if n > longest {
                longest = n;
            }
            i = i + 1;
        }
        while char_len(candidate.as_str()) <= longest
            invariant
                fresh_id(candidate@, prefix@),
                forall|k: int| 0 <= k < seen@.len() ==> seen@[k]@.len() <= longest,
            decreases longest + 1 - candidate@.len(),
        {
            proof {
                lemma_fresh_id_push(candidate@, prefix@, '0');
            }
            push_char(&mut candidate, '0');
        }
    }
    seen.push(candidate.clone());
    candidate
}


proof fn lemma_fresh_id_not_blank(id: Seq<char>, prefix: Seq<char>)
    requires
        starts_with(id, prefix + "-"@),
        prefix.len() > 0,
        !is_ws(prefix[0]),
    ensures
        !blank(id),
{
    assert(id[0] == (prefix + "-"@)[0]);
}

proof fn lemma_id_prefixes()
    ensures
        "app"@.len() > 0 && !is_ws("app"@[0]),
        "profile"@.len() > 0 && !is_ws("profile"@[0]),
{
    reveal_strlit("app");
    reveal_strlit("profile");
}

/// Gives an entry a fresh identifier when its own is blank or already taken;
/// records the identifier it ends with in `seen`.
fn settle_id(id: &mut String, prefix: &str, seen: &mut Vec<String>) -> (replaced: bool)
    requires
        prefix@.len() > 0,
        !is_ws(prefix@[0]),
    ensures
        replaced == !id_kept(old(id)@, old(seen)@.map_values(|t: String| t@)),
        !replaced ==> *final(id) == *old(id),
        replaced ==> fresh_id(final(id)@, prefix@),
        replaced ==> blank(old(id)@) || has_text(old(seen)@, old(id)@),
        !blank(final(id)@),
        !has_text(old(seen)@, final(id)@),
        final(seen)@ == old(seen)@.push(*final(id)),
{
    let ghost texts = old(seen)@.map_values(|t: String| t@);
    assert(texts.contains(id@) == has_text(old(seen)@, id@)) by {
        if has_text(old(seen)@, id@) {
            let k = choose|k: int| 0 <= k < old(seen)@.len() && (#[trigger] old(seen)@[k])@ == id@;
            assert(texts[k] == id@);
        }
        if texts.contains(id@) {
            let k = choose|k: int| 0 <= k < texts.len() && texts[k] == id@;
            assert(old(seen)@[k]@ == id@);
        }
    }
    if is_blank(id.as_str()) || contains_text(seen, id) {
        *id = unique_id(prefix, seen);
        proof {
            lemma_fresh_id_not_blank(id@, prefix@);
        }
        true
    } else {
        seen.push(id.clone());
        false
    }
}

pub open spec fn all_same(a: Seq<AppConfig>, b: Seq<AppConfig>) -> bool {
    a.len() == b.len() && forall|k: int| 0 <= k < a.len() ==> (#[trigger] a[k]).same_as(b[k])
}

proof fn lemma_texts_of_ids(seen: Seq<String>, apps: Seq<AppConfig>, n: int)
    requires
        seen.len() == n,
        n <= apps.len(),
        forall|k: int| 0 <= k < n ==> (#[trigger] seen[k])@ == apps[k].id@,
    ensures
        seen.map_values(|t: String| t@) == app_ids(apps).take(n),
{
    assert(seen.map_values(|t: String| t@) =~= app_ids(apps).take(n));
}

proof fn lemma_texts_of_profile_ids(seen: Seq<String>, ps: Seq<Profile>, n: int)
    requires
        seen.len() == n,
        n <= ps.len(),
        forall|k: int| 0 <= k < n ==> (#[trigger] seen[k])@ == ps[k].id@,
    ensures
        seen.map_values(|t: String| t@) == profile_ids(ps).take(n),
{
    assert(seen.map_values(|t: String| t@) =~= profile_ids(ps).take(n));
}

fn normalize_apps(apps: Vec<AppConfig>) -> (r: (Vec<AppConfig>, bool))
    ensures
        apps_normalized_from(r.0@, apps@),
        apps_are_normal(r.0@),
        r.1 == !all_same(r.0@, apps@),
        apps_are_normal(apps@) ==> !r.1,
{
    let ghost old_apps = apps@;
    let n = apps.len();
    let mut rest = apps;
    let mut out: Vec<AppConfig> = Vec::new();
    let mut seen: Vec<String> = Vec::new();
    let mut changed = false;
    let mut i: usize = 0;
    proof {
        lemma_id_prefixes();
    }
    while i < n
        invariant
            n == old_apps.len(),
            i <= n,
            rest@ == old_apps.subrange(i as int, n as int),
            out@.len() == i,
            seen@.len() == i,
            forall|k: int| 0 <= k < i ==> (#[trigger] seen@[k])@ == out@[k].id@,
            forall|k: int| 0 <= k < i ==> app_normalized_from(#[trigger] out@[k], old_apps[k], k),
            forall|k: int|
                0 <= k < i ==> id_from(
                    #[trigger] out@[k].id,
                    old_apps[k].id,
                    app_ids(out@).take(k),
                    "app"@,
                ),
            forall|k: int| 0 <= k < i ==> app_is_normal(#[trigger] out@[k]),
            distinct(app_ids(out@)),
            changed == !all_same(out@, old_apps.take(i as int)),
            apps_are_normal(old_apps) ==> !changed,
            "app"@.len() > 0 && !is_ws("app"@[0]),
        decreases n - i,
    {
        assert(rest@.len() > 0);
        let app = rest.remove(0);
        assert(app == old_apps[i as int]);
        let (mut a, c) = normalize_app(app, i);
        proof {
            if apps_are_normal(old_apps) {
                assert(app_is_normal(old_apps[i as int]));
                assert(!has_text(seen@, a.id@)) by {
                    if has_text(seen@, a.id@) {
                        let k = choose|k: int| 0 <= k < seen@.len() && (#[trigger] seen@[k])@ == a.id@;
                        assert(out@[k].same_as(old_apps[k]));
                        assert(app_ids(old_apps)[k] == app_ids(old_apps)[i as int]);
                    }
                }
            }
        }
        let ghost before_ids = app_ids(out@);
        proof {
            lemma_texts_of_ids(seen@, out@, i as int);
            assert(app_ids(out@).take(i as int) =~= app_ids(out@));
        }
        let ghost old_seen = seen@;
        let ghost a0 = a;
        let ghost prev_out = out@;
        let replaced = settle_id(&mut a.id, "app", &mut seen);
        proof {
            if !replaced {
                assert(a.same_as(old_apps[i as int]) == a0.same_as(old_apps[i as int]));
            } else {
                assert(!a.same_as(old_apps[i as int]));
            }
            assert(a.same_as(old_apps[i as int]) == (!c && !replaced));
        }
        out.push(a);
        proof {
            assert(app_ids(out@).take(i as int) =~= before_ids);
            assert forall|k: int| 0 <= k < i implies app_ids(out@).take(k) == app_ids(
                out@.take(i as int),
            ).take(k) by {
                assert(app_ids(out@).take(k) =~= app_ids(out@.take(i as int)).take(k));
            }
            assert(out@.take(i as int) =~= out@.subrange(0, i as int));
            assert forall|k: int| 0 <= k < i implies (app_ids(out@)[k] != app_ids(out@)[i as int]) by {
                assert(old_seen[k]@ == app_ids(out@)[k]);
            }
            assert forall|x: int, y: int| 0 <= x < y < app_ids(out@).len() implies app_ids(out@)[x]
                != app_ids(out@)[y] by {
                if y < i {
                    assert(app_ids(out@)[x] == app_ids(prev_out)[x]);
                    assert(app_ids(out@)[y] == app_ids(prev_out)[y]);
                }
            }
            assert(distinct(app_ids(out@)));
            assert(all_same(out@, old_apps.take(i + 1)) == (all_same(prev_out, old_apps.take(
                i as int,
            )) && a.same_as(old_apps[i as int]))) by {
                if all_same(out@, old_apps.take(i + 1)) {
                    assert forall|k: int| 0 <= k < i implies (#[trigger] prev_out[k]).same_as(
                        old_apps.take(i as int)[k],
                    ) by {
                        assert(out@[k].same_as(old_apps.take(i + 1)[k]));
                    }
                }
                if all_same(prev_out, old_apps.take(i as int)) && a.same_as(old_apps[i as int]) {
                    assert forall|k: int| 0 <= k < i + 1 implies (#[trigger] out@[k]).same_as(
                        old_apps.take(i + 1)[k],
                    ) by {
                        if k < i {
                            assert(prev_out[k].same_as(old_apps.take(i as int)[k]));
                        }
                    }
                }
            }
            if replaced {
                assert(out@[i as int].id@ != old_apps[i as int].id@);
            }
        }
        changed = changed || c || replaced;
        i = i + 1;
        proof {
            assert(old_apps.take(i as int).drop_last() =~= old_apps.take(i - 1));
            assert(out@.drop_last() =~= out@.take(i - 1));
        }
    }
    assert(old_apps.take(n as int) =~= old_apps);
    (out, changed)
}


fn normalize_profile(profile: Profile, index: usize) -> (r: (Profile, bool))
    requires
        index < usize::MAX,
    ensures
        profile_normalized_from(r.0, profile, index as int),
        r.0.id == profile.id,
        r.1 == !profile_same(r.0, profile),
        apps_are_normal(r.0.apps@),
        !blank(r.0.name@),
        !blank(profile.id@) && profile_is_normal(profile) ==> !r.1,
{
    let ghost old_profile = profile;
    let mut profile = profile;
    let mut changed = false;
    if is_blank(profile.name.as_str()) {
        profile.name = numbered_name("Profile ", index);
        proof {
            lemma_app_prefix();
            lemma_numbered_not_blank("Profile "@, index as int);
        }
        changed = true;
    }
    let mut apps: Vec<AppConfig> = Vec::new();
    std::mem::swap(&mut apps, &mut profile.apps);
    let (apps, apps_changed) = normalize_apps(apps);
    profile.apps = apps;
    (profile, changed || apps_changed)
}

fn normalize_profiles(profiles: Vec<Profile>) -> (r: (Vec<Profile>, bool))
    ensures
        profiles_normalized_from(r.0@, profiles@),
        profiles_are_normal(r.0@),
        r.1 == !profiles_same(r.0@, profiles@),
        profiles_are_normal(profiles@) ==> !r.1,
{
    let ghost old_profiles = profiles@;
    let n = profiles.len();
    let mut rest = profiles;
    let mut out: Vec<Profile> = Vec::new();
    let mut seen: Vec<String> = Vec::new();
    let mut changed = false;
    let mut i: usize = 0;
    proof {
        lemma_id_prefixes();
    }
    while i < n
        invariant
            n == old_profiles.len(),
            i <= n,
            rest@ == old_profiles.subrange(i as int, n as int),
            out@.len() == i,
            seen@.len() == i,
            forall|k: int| 0 <= k < i ==> (#[trigger] seen@[k])@ == out@[k].id@,
            forall|k: int|
                0 <= k < i ==> profile_normalized_from(#[trigger] out@[k], old_profiles[k], k),
            forall|k: int|
                0 <= k < i ==> id_from(
                    #[trigger] out@[k].id,
                    old_profiles[k].id,
                    profile_ids(out@).take(k),
                    "profile"@,
                ),
            forall|k: int| 0 <= k < i ==> profile_is_normal(#[trigger] out@[k]),
            distinct(profile_ids(out@)),
            changed == !profiles_same(out@, old_profiles.take(i as int)),
            profiles_are_normal(old_profiles) ==> !changed,
            "profile"@.len() > 0 && !is_ws("profile"@[0]),
        decreases n - i,
    {
        assert(rest@.len() > 0);
        let profile = rest.remove(0);
        assert(profile == old_profiles[i as int]);
        let (mut p, c) = normalize_profile(profile, i);
        proof {
            if profiles_are_normal(old_profiles) {
                assert(profile_is_normal(old_profiles[i as int]));
                assert(!has_text(seen@, p.id@)) by {
                    if has_text(seen@, p.id@) {
                        let k = choose|k: int| 0 <= k < seen@.len() && (#[trigger] seen@[k])@ == p.id@;
                        assert(profile_same(out@[k], old_profiles.take(i as int)[k]));
                        assert(profile_ids(old_profiles)[k] == profile_ids(old_profiles)[i as int]);
                    }
                }
            }
        }
        let ghost before_ids = profile_ids(out@);
        proof {
            lemma_texts_of_profile_ids(seen@, out@, i as int);
            assert(profile_ids(out@).take(i as int) =~= profile_ids(out@));
        }
        let ghost old_seen = seen@;
        let ghost p0 = p;
        let ghost prev_out = out@;
        let replaced = settle_id(&mut p.id, "profile", &mut seen);
        proof {
            if !replaced {
                assert(profile_same(p, old_profiles[i as int]) == profile_same(p0, old_profiles[i as int]));
            } else {
                assert(!profile_same(p, old_profiles[i as int]));
            }
            assert(profile_same(p, old_profiles[i as int]) == (!c && !replaced));
            assert(p.apps@ == p0.apps@);
        }
        out.push(p);
        proof {
            assert(profile_ids(out@).take(i as int) =~= before_ids);
            assert forall|k: int| 0 <= k < i implies profile_ids(out@).take(k) == profile_ids(
                out@.take(i as int),
            ).take(k) by {
                assert(profile_ids(out@).take(k) =~= profile_ids(out@.take(i as int)).take(k));
            }
            assert(out@.take(i as int) =~= out@.subrange(0, i as int));
            assert forall|k: int| 0 <= k < i implies (profile_ids(out@)[k] != profile_ids(out@)[i as int]) by {
                assert(old_seen[k]@ == profile_ids(out@)[k]);
            }
            assert forall|x: int, y: int| 0 <= x < y < profile_ids(out@).len() implies profile_ids(out@)[x]
                != profile_ids(out@)[y] by {
                if y < i {
                    assert(profile_ids(out@)[x] == profile_ids(prev_out)[x]);
                    assert(profile_ids(out@)[y] == profile_ids(prev_out)[y]);
                }
            }
            assert(distinct(profile_ids(out@)));
            if replaced {
                assert(out@[i as int].id@ != old_profiles[i as int].id@);
            }
            assert(profiles_same(out@, old_profiles.take(i + 1)) == (profiles_same(prev_out, old_profiles.take(
                i as int,
            )) && profile_same(p, old_profiles[i as int]))) by {
                if profiles_same(out@, old_profiles.take(i + 1)) {
                    assert forall|k: int| 0 <= k < i implies profile_same(#[trigger] prev_out[k],
                        old_profiles.take(i as int)[k],
                    ) by {
                        assert(profile_same(out@[k], old_profiles.take(i + 1)[k]));
                    }
                }
                if profiles_same(prev_out, old_profiles.take(i as int)) && profile_same(p, old_profiles[i as int]) {
                    assert forall|k: int| 0 <= k < i + 1 implies profile_same(#[trigger] out@[k],
                        old_profiles.take(i + 1)[k],
                    ) by {
                        if k < i {
                            assert(profile_same(prev_out[k], old_profiles.take(i as int)[k]));
                        }
                    }
                }
            }
        }
        changed = changed || c || replaced;
        i = i + 1;
    }
    assert(old_profiles.take(n as int) =~= old_profiles);
    (out, changed)
}


/// Whether `id` names one of `profiles`.
pub fn names_profile_of(id: &Option<String>, profiles: &Vec<Profile>) -> (r: bool)
    ensures
        r == names_profile(*id, profiles@),
{
    match id {
        None => false,
        Some(x) => {
            let mut i: usize = 0;
            while i < profiles.len()
                invariant
                    i <= profiles.len(),
                    *id == Some(*x),
                    forall|k: int| 0 <= k < i ==> profiles@[k].id@ != x@,
                decreases profiles.len() - i,
            {
                if profiles[i].id == *x {
                    assert(profile_ids(profiles@)[i as int] == x@);
                    assert(profile_ids(profiles@).contains(x@));
                    return true;
                }
                i = i + 1;
            }
            assert(!profile_ids(profiles@).contains(x@));
            false
        },
    }
}

proof fn lemma_same_ids(a: Seq<Profile>, b: Seq<Profile>)
    requires
        profiles_same(a, b),
    ensures
        profile_ids(a) == profile_ids(b),
{
    assert forall|k: int| 0 <= k < a.len() implies profile_ids(a)[k] == profile_ids(b)[k] by {
        assert(profile_same(a[k], b[k]));
    }
    assert(profile_ids(a) =~= profile_ids(b));
}

/// Points the startup and automatic-restore profile choices at existing
/// profiles.
fn repair_profile_refs(config: &mut WindowAutoLayoutConfig) -> (changed: bool)
    requires
        old(config).profiles@.len() > 0,
    ensures
        final(config).profiles == old(config).profiles,
        final(config).schema_version == old(config).schema_version,
        final(config).app_version == old(config).app_version,
        final(config).global == old(config).global,
        final(config).tray == old(config).tray,
        final(config).hotkey == old(config).hotkey,
        final(config).startup.delay_seconds == old(config).startup.delay_seconds,
        final(config).startup.enabled == old(config).startup.enabled,
        final(config).startup.start_minimized_to_tray == old(config).startup.start_minimized_to_tray,
        final(config).startup.restore_on_launch == old(config).startup.restore_on_launch,
        final(config).startup.launch_missing_apps == old(config).startup.launch_missing_apps,
        final(config).startup.enforce_after_startup == old(config).startup.enforce_after_startup,
        final(config).enforcement.enabled == old(config).enforcement.enabled,
        final(config).enforcement.duration_seconds == old(config).enforcement.duration_seconds,
        final(config).enforcement.interval_ms == old(config).enforcement.interval_ms,
        names_profile(final(config).startup.default_profile_id, final(config).profiles@),
        names_profile(final(config).enforcement.profile_id, final(config).profiles@),
        names_profile(old(config).startup.default_profile_id, old(config).profiles@)
            ==> final(config).startup.default_profile_id == old(config).startup.default_profile_id,
        !names_profile(old(config).startup.default_profile_id, old(config).profiles@)
            ==> final(config).startup.default_profile_id is Some
            && final(config).startup.default_profile_id->0@ == final(config).profiles@[0].id@,
        names_profile(old(config).enforcement.profile_id, old(config).profiles@)
            ==> final(config).enforcement.profile_id == old(config).enforcement.profile_id,
        !names_profile(old(config).enforcement.profile_id, old(config).profiles@)
            ==> final(config).enforcement.profile_id == final(config).startup.default_profile_id,
        changed == !(final(config).startup == old(config).startup && final(config).enforcement
            == old(config).enforcement),
{
    let mut changed = false;
    let first_profile_id = config.profiles[0].id.clone();
    if !names_profile_of(&config.startup.default_profile_id, &config.profiles) {
        config.startup.default_profile_id = Some(first_profile_id);
        proof {
            assert(profile_ids(config.profiles@)[0] == first_profile_id@);
            assert(profile_ids(config.profiles@).contains(first_profile_id@));
        }
        changed = true;
    }
    if !names_profile_of(&config.enforcement.profile_id, &config.profiles) {
        config.enforcement.profile_id = copy_opt(&config.startup.default_profile_id);
        changed = true;
    }
    changed
}

/// Brings schema version, app version and startup delay to their current
/// values and bounds.
fn normalize_header(config: &mut WindowAutoLayoutConfig) -> (changed: bool)
    ensures
        final(config).schema_version == CONFIG_SCHEMA_VERSION,
        final(config).app_version@ == APP_VERSION@,
        final(config).startup.delay_seconds == clamp_int(
            old(config).startup.delay_seconds as int,
            0,
            300,
        ),
        final(config).profiles == old(config).profiles,
        final(config).global == old(config).global,
        final(config).tray == old(config).tray,
        final(config).hotkey == old(config).hotkey,
        final(config).enforcement == old(config).enforcement,
        final(config).startup == (StartupSettings {
            delay_seconds: final(config).startup.delay_seconds,
            ..old(config).startup
        }),
        changed == !(final(config).schema_version == old(config).schema_version
            && final(config).app_version == old(config).app_version
            && final(config).startup == old(config).startup),
        (old(config).schema_version == CONFIG_SCHEMA_VERSION && old(config).app_version@
            == APP_VERSION@ && old(config).startup.delay_seconds <= 300) ==> !changed,
{
    let mut changed = false;
    if config.schema_version != CONFIG_SCHEMA_VERSION {
        config.schema_version = CONFIG_SCHEMA_VERSION;
        changed = true;
    }
    let version = copy_str(APP_VERSION);
    if config.app_version != version {
        config.app_version = version;
        changed = true;
    }
    let startup_delay = clamp_u64(config.startup.delay_seconds, 0, MAX_STARTUP_DELAY_SECONDS);
    if config.startup.delay_seconds != startup_delay {
        config.startup.delay_seconds = startup_delay;
        changed = true;
    }
    changed
}

/// Repairs a configuration in place so that it satisfies `is_normalized`:
/// current schema and app version, bounded delays, retry and timeout limits
/// and layout bounds, captured displays with their work area inside their
/// bounds, non-blank names, present and unique identifiers, and startup and
/// automatic-restore profiles that exist. Returns whether anything changed.
/// What normalization makes of configuration `old`: a normalized
/// configuration of the current schema and app version, with the startup
/// delay clamped, every profile and app repaired as `profiles_normalized_from`
/// says (the default profile when there was none), the startup and
/// enforcement profiles kept when they still name a profile and otherwise
/// pointed at the first one, and every other setting kept. The schema and app
/// version of `old` play no part.
pub open spec fn normalized_result(new: WindowAutoLayoutConfig, old: WindowAutoLayoutConfig) -> bool {
    &&& is_normalized(new)
    &&& new.schema_version == CONFIG_SCHEMA_VERSION
    &&& new.app_version@ == APP_VERSION@
    &&& new.global == old.global
    &&& new.tray == old.tray
    &&& new.hotkey == old.hotkey
    &&& new.startup.delay_seconds == clamp_int(old.startup.delay_seconds as int, 0, 300)
    &&& new.startup.enabled == old.startup.enabled
    &&& new.startup.start_minimized_to_tray == old.startup.start_minimized_to_tray
    &&& new.startup.restore_on_launch == old.startup.restore_on_launch
    &&& new.startup.launch_missing_apps == old.startup.launch_missing_apps
    &&& new.startup.enforce_after_startup == old.startup.enforce_after_startup
    &&& new.enforcement.enabled == old.enforcement.enabled
    &&& new.enforcement.duration_seconds == old.enforcement.duration_seconds
    &&& new.enforcement.interval_ms == old.enforcement.interval_ms
    &&& old.profiles@.len() > 0 ==> profiles_normalized_from(new.profiles@, old.profiles@)
    &&& old.profiles@.len() == 0 ==> is_default_profiles(new.profiles@)
    &&& names_profile(old.startup.default_profile_id, new.profiles@)
        ==> new.startup.default_profile_id == old.startup.default_profile_id
    &&& !names_profile(old.startup.default_profile_id, new.profiles@)
        ==> new.startup.default_profile_id is Some && new.startup.default_profile_id->0@
        == new.profiles@[0].id@
    &&& names_profile(old.enforcement.profile_id, new.profiles@) ==> new.enforcement.profile_id
        == old.enforcement.profile_id
    &&& !names_profile(old.enforcement.profile_id, new.profiles@) ==> new.enforcement.profile_id
        == new.startup.default_profile_id
}

pub fn normalize_config(config: &mut WindowAutoLayoutConfig) -> (changed: bool)
    ensures
        normalized_result(*final(config), *old(config)),
        changed == !config_same(*final(config), *old(config)),
        is_normalized(*old(config)) ==> !changed,
{
    let ghost old_config = *config;
    let header_changed = normalize_header(config);
    let mut profiles: Vec<Profile> = Vec::new();
    std::mem::swap(&mut profiles, &mut config.profiles);
    let mut filled = false;
    if profiles.len() == 0 {
        let defaults = default_config();
        proof {
            crate::config_file::default_config_is_normal_and_valid(defaults);
        }
        profiles = defaults.profiles;
        proof {
            reveal_strlit("profile-streaming");
            assert(!blank("profile-streaming"@)) by {
                assert(!is_ws("profile-streaming"@[0]));
            }
            assert(profile_ids(profiles@).take(0) =~= Seq::<Seq<char>>::empty());
        }
        filled = true;
    }
    let ghost source = profiles@;
    let (normalized, profiles_changed) = normalize_profiles(profiles);
    config.profiles = normalized;
    let ghost mid = *config;
    let refs_changed = repair_profile_refs(config);
    proof {
        if old_config.profiles@.len() == 0 {
            assert(!profiles_same(config.profiles@, old_config.profiles@));
            assert(config.profiles@[0].id == source[0].id);
            assert(profiles_same(mid.profiles@, source));
            assert(profile_same(mid.profiles@[0], source[0]));
            assert(mid.profiles@[0].apps@[0].same_as(source[0].apps@[0]));
            assert(mid.profiles@[0].apps@[1].same_as(source[0].apps@[1]));
            assert(is_default_profiles(mid.profiles@));
        }
        if is_normalized(old_config) {
            assert(!filled);
            assert(!profiles_changed);
            lemma_same_ids(mid.profiles@, old_config.profiles@);
            assert(!header_changed);
        }
    }
    header_changed || filled || profiles_changed || refs_changed
}


pub proof fn lemma_all_same_push(prev: Seq<AppConfig>, old: Seq<AppConfig>, x: AppConfig)
    requires
        prev.len() < old.len(),
    ensures
        all_same(prev.push(x), old.take(prev.len() + 1 as int)) == (all_same(prev, old.take(prev.len() as int))
            && x.same_as(old[prev.len() as int])),
{
    let j = prev.len() as int;
    if all_same(prev.push(x), old.take(j + 1)) {
        assert forall|k: int| 0 <= k < j implies (#[trigger] prev[k]).same_as(old.take(j)[k]) by {
            assert(prev.push(x)[k].same_as(old.take(j + 1)[k]));
        }
        assert(prev.push(x)[j].same_as(old.take(j + 1)[j]));
    }
    if all_same(prev, old.take(j)) && x.same_as(old[j]) {
        assert forall|k: int| 0 <= k < j + 1 implies (#[trigger] prev.push(x)[k]).same_as(
            old.take(j + 1)[k],
        ) by {
            if k < j {
                assert(prev[k].same_as(old.take(j)[k]));
            }
        }
    }
}

pub proof fn lemma_profiles_same_push(prev: Seq<Profile>, old: Seq<Profile>, x: Profile)
    requires
        prev.len() < old.len(),
    ensures
        profiles_same(prev.push(x), old.take(prev.len() + 1 as int)) == (profiles_same(
            prev,
            old.take(prev.len() as int),
        ) && profile_same(x, old[prev.len() as int])),
{
    let j = prev.len() as int;
    if profiles_same(prev.push(x), old.take(j + 1)) {
        assert forall|k: int| 0 <= k < j implies profile_same(#[trigger] prev[k], old.take(j)[k]) by {
            assert(profile_same(prev.push(x)[k], old.take(j + 1)[k]));
        }
        assert(profile_same(prev.push(x)[j], old.take(j + 1)[j]));
    }
    if profiles_same(prev, old.take(j)) && profile_same(x, old[j]) {
        assert forall|k: int| 0 <= k < j + 1 implies profile_same(
            #[trigger] prev.push(x)[k],
            old.take(j + 1)[k],
        ) by {
            if k < j {
                assert(profile_same(prev[k], old.take(j)[k]));
            }
        }
    }
}

} // verus!
