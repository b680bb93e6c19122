//! Which of an app's windows a restore acts on, in what order, and how a
//! launched app is asked to show itself.
use vstd::prelude::*;

use crate::config::clamp_int;
use crate::matching::{
    is_obs, is_obs_app, is_quick_tray, is_quick_tray_detection_app, window_matches,
    window_matches_app,
};
use crate::models::{AppConfig, WindowInfo};
use crate::text::{chars_of, copy_str, lower, to_lower, trim, trim_str};

verus! {

/// A running process of an app, with its executable when it could be read.
#[derive(Debug, Clone, PartialEq, Eq)]
pub struct MatchingProcess {
    pub pid: u32,
    pub executable_path: Option<String>,
}

pub open spec fn all_hidden_or_minimized(ws: Seq<WindowInfo>) -> bool {
    forall|k: int| 0 <= k < ws.len() ==> !(#[trigger] ws[k]).is_visible || ws[k].is_minimized
}

pub open spec fn all_hidden(ws: Seq<WindowInfo>) -> bool {
    forall|k: int| 0 <= k < ws.len() ==> !(#[trigger] ws[k]).is_visible
}

/// The app's running windows are all hidden or minimized and the entry asks
/// to wake a running process: they are shown before anything is launched.
pub open spec fn should_show(app: AppConfig, ws: Seq<WindowInfo>) -> bool {
    app.wake_running_process && ws.len() > 0 && all_hidden_or_minimized(ws)
}

pub fn should_show_matched_windows(app: &AppConfig, matched: &Vec<WindowInfo>) -> (r: bool)
    ensures
        r == should_show(*app, matched@),
{
    if !app.wake_running_process || matched.len() == 0 {
        return false;
    }
    let mut i: usize = 0;
    while i < matched.len()
        invariant
            i <= matched.len(),
            forall|k: int| 0 <= k < i ==> !(#[trigger] matched@[k]).is_visible
                || matched@[k].is_minimized,
        decreases matched.len() - i,
    {
        if matched[i].is_visible && !matched[i].is_minimized {
            return false;
        }
        i = i + 1;
    }
    true
}

/// OBS hidden in the tray (every matched window hidden) is brought back
/// through its tray icon.
pub open spec fn restore_through_tray(app: AppConfig, ws: Seq<WindowInfo>) -> bool {
    is_obs(app) && ws.len() > 0 && all_hidden(ws)
}

pub fn should_restore_through_qt_tray(app: &AppConfig, matched: &Vec<WindowInfo>) -> (r: bool)
    ensures
        r == restore_through_tray(*app, matched@),
{
    if !is_obs_app(app) || matched.len() == 0 {
        return false;
    }
    let mut i: usize = 0;
    while i < matched.len()
        invariant
            i <= matched.len(),
            forall|k: int| 0 <= k < i ==> !(#[trigger] matched@[k]).is_visible,
        decreases matched.len() - i,
    {
        if matched[i].is_visible {
            return false;
        }
        i = i + 1;
    }
    true
}

/// The windows a restore acts on: all matched windows when the entry asks
/// for that, else only the first.
pub open spec fn selected(app: AppConfig, ws: Seq<WindowInfo>) -> Seq<WindowInfo> {
    if app.apply_to_all_matching_windows || ws.len() <= 1 {
        ws
    } else {
        ws.take(1)
    }
}

pub fn selected_matching_windows(app: &AppConfig, matched: &Vec<WindowInfo>) -> (r: Vec<WindowInfo>)
    ensures
        r@ == selected(*app, matched@),
{
    if app.apply_to_all_matching_windows || matched.len() <= 1 {
        crate::models::copy_windows(matched)
    } else {
        let mut r: Vec<WindowInfo> = Vec::new();
        r.push(matched[0].duplicate());
        assert(r@ =~= matched@.take(1));
        r
    }
}

/// Half of `v`, rounded toward zero.
pub open spec fn half(v: int) -> int {
    if v >= 0 {
        v / 2
    } else {
        -((-v) / 2)
    }
}

/// A launched app's window counts as ready once it is at least half the
/// saved size (between 160 and 960 wide, 120 and 720 tall, and never more
/// than the saved size); without a forced size any window is ready.
pub open spec fn launch_ready(app: AppConfig, w: WindowInfo) -> bool {
    let lw = app.layout.width as int;
    let lh = app.layout.height as int;
    let min_w = crate::geometry::min_int(clamp_int(half(lw), 160, 960), lw);
    let min_h = crate::geometry::min_int(clamp_int(half(lh), 120, 720), lh);
    !app.force_resize || (w.width >= min_w && w.height >= min_h)
}

fn half_i32(v: i32) -> (r: i32)
    ensures
        r == half(v as int),
{
    if v >= 0 {
        v / 2
    } else {
        let a: i64 = -(v as i64);
        -((a / 2) as i32)
    }
}

pub fn launch_window_is_ready(app: &AppConfig, window: &WindowInfo) -> (r: bool)
    ensures
        r == launch_ready(*app, *window),
{
    if !app.force_resize {
        return true;
    }
    let w = crate::config::clamp_i32(half_i32(app.layout.width), 160, 960);
    let minimum_width = if w < app.layout.width {
        w
    } else {
        app.layout.width
    };
    let h = crate::config::clamp_i32(half_i32(app.layout.height), 120, 720);
    let minimum_height = if h < app.layout.height {
        h
    } else {
        app.layout.height
    };
    window.width >= minimum_width && window.height >= minimum_height
}

/// How long to wait for a launched app's window: OpenLaunchDeck lives in the
/// tray and shows itself quickly, so at most five seconds (at least one).
pub open spec fn launch_timeout(app: AppConfig) -> int {
    if is_quick_tray(app) {
        clamp_int(app.detection_timeout_seconds as int, 1, 5)
    } else {
        app.detection_timeout_seconds as int
    }
}

pub fn launch_detection_timeout_seconds(app: &AppConfig) -> (r: u64)
    ensures
        r == launch_timeout(*app),
{
    if is_quick_tray_detection_app(app) {
        crate::config::clamp_u64(app.detection_timeout_seconds, 1, 5)
    } else {
        app.detection_timeout_seconds
    }
}

/// How long to let a window settle after it was shown: longer for OBS, whose
/// renderer takes time to come back.
pub open spec fn settle_delay(app: AppConfig) -> int {
    if is_obs(app) {
        clamp_int(app.retry_interval_ms as int, 2500, 3500)
    } else {
        clamp_int(app.retry_interval_ms as int, 250, 1200)
    }
}

pub fn settle_delay_ms(app: &AppConfig) -> (r: u64)
    ensures
        r == settle_delay(*app),
{
    if is_obs_app(app) {
        crate::config::clamp_u64(app.retry_interval_ms, 2500, 3500)
    } else {
        crate::config::clamp_u64(app.retry_interval_ms, 250, 1200)
    }
}

/// The executable to start to make a running app show a window: the
/// configured one, else the first running process's executable.
pub open spec fn first_process_path(ps: Seq<MatchingProcess>, i: int) -> Option<String>
    decreases ps.len() - i,
{
    if i < 0 || i >= ps.len() {
        None
    } else if ps[i].executable_path is Some {
        ps[i].executable_path
    } else {
        first_process_path(ps, i + 1)
    }
}

pub fn running_process_launch_path(app: &AppConfig, processes: &Vec<MatchingProcess>) -> (r: Option<
    String,
>)
    ensures
        r == (match app.executable_path {
            Some(p) => Some(p),
            None => first_process_path(processes@, 0),
        }),
{
    if let Some(p) = &app.executable_path {
        return Some(p.clone());
    }
    let mut i: usize = 0;
    while i < processes.len()
        invariant
            i <= processes.len(),
            app.executable_path is None,
            first_process_path(processes@, 0) == first_process_path(processes@, i as int),
        decreases processes.len() - i,
    {
        proof {
            assert(first_process_path(processes@, i as int) == if processes@[i as int].executable_path is Some {
                processes@[i as int].executable_path
            } else {
                first_process_path(processes@, i + 1)
            });
        }
        if let Some(p) = &processes[i].executable_path {
            return Some(p.clone());
        }
        i = i + 1;
    }
    None
}

/// Arguments that would keep OpenLaunchDeck hidden or that it gets anyway.
pub open spec fn control_flag(a: Seq<char>) -> bool {
    let t = lower(trim(a));
    t == "--background"@ || t == "--start-minimized"@ || t == "--show"@ || t == "--focus"@
}

pub open spec fn kept_arguments(args: Seq<String>) -> Seq<String>
    decreases args.len(),
{
    if args.len() == 0 {
        args
    } else if control_flag(args.last()@) {
        kept_arguments(args.drop_last())
    } else {
        kept_arguments(args.drop_last()).push(args.last())
    }
}

/// Equal in every field but the argument list.
pub open spec fn same_but_arguments(a: AppConfig, b: AppConfig) -> bool {
    &&& a.id == b.id
    &&& a.display_name == b.display_name
    &&& a.executable_path == b.executable_path
    &&& a.working_directory == b.working_directory
    &&& a.process_name == b.process_name
    &&& a.title_rule == b.title_rule
    &&& a.class_name == b.class_name
    &&& a.target_monitor_id == b.target_monitor_id
    &&& a.captured_display == b.captured_display
    &&& a.layout == b.layout
    &&& a.window_state == b.window_state
    &&& a.launch_delay_seconds == b.launch_delay_seconds
    &&& a.detection_timeout_seconds == b.detection_timeout_seconds
    &&& a.retry_interval_ms == b.retry_interval_ms
    &&& a.move_if_running == b.move_if_running
    &&& a.force_resize == b.force_resize
    &&& a.apply_to_all_matching_windows == b.apply_to_all_matching_windows
    &&& a.restore_if_minimized == b.restore_if_minimized
    &&& a.pull_hidden_windows == b.pull_hidden_windows
    &&& a.wake_running_process == b.wake_running_process
    &&& a.allow_empty_title == b.allow_empty_title
    &&& a.notes == b.notes
}

fn is_control_flag(a: &String) -> (r: bool)
    ensures
        r == control_flag(a@),
{
    let t = to_lower(trim_str(a.as_str()).as_str());
    crate::text::str_eq(t.as_str(), "--background") || crate::text::str_eq(
        t.as_str(),
        "--start-minimized",
    ) || crate::text::str_eq(t.as_str(), "--show") || crate::text::str_eq(t.as_str(), "--focus")
}

/// The entry used to launch an app during a restore: OpenLaunchDeck is told
/// to show its window (its flags that hide or focus it are dropped and
/// `--show` is appended); other apps launch as configured.
pub fn app_for_restore_launch(app: &AppConfig) -> (r: AppConfig)
    ensures
        same_but_arguments(r, *app),
        !is_quick_tray(*app) ==> r.arguments@ == app.arguments@,
        is_quick_tray(*app) ==> r.arguments@.len() == kept_arguments(app.arguments@).len() + 1
            && r.arguments@.drop_last() == kept_arguments(app.arguments@) && r.arguments@.last()@
            == "--show"@,
{
    let mut launch_config = app.duplicate();
    if is_quick_tray_detection_app(app) {
        let mut kept: Vec<String> = Vec::new();
        let mut i: usize = 0;
        while i < app.arguments.len()
            invariant
                i <= app.arguments.len(),
                kept@ == kept_arguments(app.arguments@.take(i as int)),
            decreases app.arguments.len() - i,
        {
            assert(app.arguments@.take(i + 1).drop_last() =~= app.arguments@.take(i as int));
            if !is_control_flag(&app.arguments[i]) {
                kept.push(app.arguments[i].clone());
            }
            i = i + 1;
        }
        assert(app.arguments@.take(app.arguments.len() as int) =~= app.arguments@);
        let show = copy_str("--show");
        kept.push(show);
        assert(kept@.drop_last() =~= kept_arguments(app.arguments@));
        launch_config.arguments = kept;
    }
    launch_config
}

/// No argument kept for a restore launch is a hiding or focusing flag.
pub proof fn kept_arguments_have_no_control_flags(args: Seq<String>)
    ensures
        forall|k: int|
            0 <= k < kept_arguments(args).len() ==> !control_flag(
                (#[trigger] kept_arguments(args)[k])@,
            ),
    decreases args.len(),
{
    if args.len() > 0 {
        kept_arguments_have_no_control_flags(args.drop_last());
        let prev = kept_arguments(args.drop_last());
        assert forall|k: int| 0 <= k < kept_arguments(args).len() implies !control_flag(
            (#[trigger] kept_arguments(args)[k])@,
        ) by {
            if !control_flag(args.last()@) && k == prev.len() {
            } else {
                assert(kept_arguments(args)[k] == prev[k]);
            }
        }
    }
}

/// Lexicographic order of titles by code point (how `String` orders).
pub open spec fn title_less(a: Seq<char>, b: Seq<char>) -> bool
    decreases a.len(),
{
    if a.len() == 0 {
        b.len() > 0
    } else if b.len() == 0 {
        false
    } else if a[0] != b[0] {
        (a[0] as u32) < (b[0] as u32)
    } else {
        title_less(a.drop_first(), b.drop_first())
    }
}

pub proof fn lemma_title_less_asymmetric(a: Seq<char>, b: Seq<char>)
    ensures
        title_less(a, b) ==> !title_less(b, a),
    decreases a.len(),
{
    if a.len() > 0 && b.len() > 0 && a[0] == b[0] {
        lemma_title_less_asymmetric(a.drop_first(), b.drop_first());
    }
}

pub fn title_is_less(a: &Vec<char>, b: &Vec<char>) -> (r: bool)
    ensures
        r == title_less(a@, b@),
{
    let mut i: usize = 0;
    assert(a@.skip(0) =~= a@);
    assert(b@.skip(0) =~= b@);
    while i < a.len() && i < b.len() && a[i] == b[i]
        invariant
            i <= a.len(),
            i <= b.len(),
            title_less(a@, b@) == title_less(a@.skip(i as int), b@.skip(i as int)),
        decreases a.len() - i,
    {
        assert(a@.skip(i as int).drop_first() =~= a@.skip(i + 1));
        assert(b@.skip(i as int).drop_first() =~= b@.skip(i + 1));
        i = i + 1;
    }
    if i == a.len() {
        i < b.len()
    } else if i == b.len() {
        false
    } else {
        (a[i] as u32) < (b[i] as u32)
    }
}

pub open spec fn area(w: WindowInfo) -> int {
    w.width as int * w.height as int
}

/// The order in which matched windows are tried: visible before hidden,
/// restored before minimized, larger before smaller, then by title.
pub open spec fn window_before(a: WindowInfo, b: WindowInfo) -> bool {
    ||| (a.is_visible && !b.is_visible)
    ||| (a.is_visible == b.is_visible && !a.is_minimized && b.is_minimized)
    ||| (a.is_visible == b.is_visible && a.is_minimized == b.is_minimized && area(a) > area(b))
    ||| (a.is_visible == b.is_visible && a.is_minimized == b.is_minimized && area(a) == area(b)
        && title_less(a.title@, b.title@))
}

pub proof fn lemma_window_before_asymmetric(a: WindowInfo, b: WindowInfo)
    ensures
        window_before(a, b) ==> !window_before(b, a),
{
    lemma_title_less_asymmetric(a.title@, b.title@);
}

pub proof fn lemma_title_less_irreflexive(a: Seq<char>)
    ensures
        !title_less(a, a),
    decreases a.len(),
{
    if a.len() > 0 {
        lemma_title_less_irreflexive(a.drop_first());
    }
}

/// Two windows that the order cannot tell apart: the same visibility,
/// minimized state, area and title.
pub open spec fn ties(a: WindowInfo, b: WindowInfo) -> bool {
    &&& a.is_visible == b.is_visible
    &&& a.is_minimized == b.is_minimized
    &&& area(a) == area(b)
    &&& a.title@ == b.title@
}

pub open spec fn window_ties() -> spec_fn(WindowInfo, WindowInfo) -> bool {
    |a: WindowInfo, b: WindowInfo| ties(a, b)
}

proof fn lemma_before_is_no_tie(a: WindowInfo, b: WindowInfo)
    ensures
        window_before(a, b) ==> !ties(a, b),
{
    lemma_title_less_irreflexive(a.title@);
}

/// `out` holds the items of `input` rearranged by `perm` (item `k` of `out`
/// is item `perm[k]` of `input`, each taken once), and items that `tie` keep
/// the order they had in `input`.
pub open spec fn stable_rearrangement<T>(
    input: Seq<T>,
    out: Seq<T>,
    perm: Seq<int>,
    tie: spec_fn(T, T) -> bool,
) -> bool {
    &&& out.len() == input.len()
    &&& perm.len() == out.len()
    &&& forall|k: int| 0 <= k < out.len() ==> 0 <= #[trigger] perm[k] < input.len()
    &&& forall|k: int| 0 <= k < out.len() ==> #[trigger] out[k] == input[perm[k]]
    &&& forall|k: int, l: int| 0 <= k < l < out.len() ==> perm[k] != perm[l]
    &&& forall|k: int, l: int|
        0 <= k < l < out.len() && tie(#[trigger] out[k], #[trigger] out[l]) ==> perm[k] < perm[l]
}

proof fn lemma_title_less_transitive(a: Seq<char>, b: Seq<char>, c: Seq<char>)
    requires
        title_less(a, b),
        title_less(b, c),
    ensures
        title_less(a, c),
    decreases a.len(),
{
    if a.len() > 0 && b.len() > 0 && c.len() > 0 && a[0] == b[0] && b[0] == c[0] {
        lemma_title_less_transitive(a.drop_first(), b.drop_first(), c.drop_first());
    }
}

proof fn lemma_title_less_total(a: Seq<char>, b: Seq<char>)
    ensures
        a == b || title_less(a, b) || title_less(b, a),
    decreases a.len(),
{
    if a.len() > 0 && b.len() > 0 && a[0] == b[0] {
        lemma_title_less_total(a.drop_first(), b.drop_first());
        if a.drop_first() == b.drop_first() {
            assert forall|i: int| 0 <= i < a.len() implies a[i] == b[i] by {
                if i > 0 {
                    assert(a[i] == a.drop_first()[i - 1]);
                    assert(b[i] == b.drop_first()[i - 1]);
                }
            }
            assert(a =~= b);
        }
    } else if a.len() == 0 && b.len() == 0 {
        assert(a =~= b);
    } else if a.len() > 0 && b.len() > 0 {
        vstd::utf8::char_u32_cast(a[0], a[0] as u32);
        vstd::utf8::char_u32_cast(b[0], b[0] as u32);
        assert((a[0] as u32) != (b[0] as u32));
    }
}

/// `c` before `a` puts `c` before `b` or `b` before `a`: what lets the order
/// of neighbours extend to the whole sequence.
proof fn lemma_window_before_split(a: WindowInfo, b: WindowInfo, c: WindowInfo)
    requires
        window_before(c, a),
    ensures
        window_before(c, b) || window_before(b, a),
{
    lemma_title_less_total(c.title@, b.title@);
    lemma_title_less_total(b.title@, a.title@);
    if title_less(c.title@, b.title@) && title_less(b.title@, a.title@) {
        lemma_title_less_transitive(c.title@, b.title@, a.title@);
    }
    if title_less(b.title@, c.title@) && title_less(c.title@, a.title@) {
        lemma_title_less_transitive(b.title@, c.title@, a.title@);
    }
    if title_less(c.title@, a.title@) && title_less(a.title@, b.title@) {
        lemma_title_less_transitive(c.title@, a.title@, b.title@);
    }
    lemma_title_less_asymmetric(c.title@, b.title@);
    lemma_title_less_asymmetric(b.title@, a.title@);
    lemma_title_less_irreflexive(c.title@);
    lemma_title_less_irreflexive(a.title@);
}

/// In a sequence in window order no window comes before an earlier one: the
/// order of neighbours holds between any two windows.
pub proof fn window_order_holds_throughout(ws: Seq<WindowInfo>, k: int, l: int)
    requires
        in_window_order(ws),
        0 <= k < l < ws.len(),
    ensures
        !window_before(ws[l], ws[k]),
    decreases l - k,
{
    if l > k + 1 {
        window_order_holds_throughout(ws, k, l - 1);
        assert(!window_before(ws[(l - 1) + 1], ws[l - 1]));
        if window_before(ws[l], ws[k]) {
            lemma_window_before_split(ws[k], ws[l - 1], ws[l]);
        }
    }
}

/// Matched windows in the order they are tried: every visible window comes
/// before every hidden one; among windows of the same visibility, restored
/// ones come before minimized ones; and among windows of the same visibility
/// and minimized state, a larger one (by width times height) comes before a
/// smaller one, whatever their titles. So the first window is the largest of
/// its kind.
pub proof fn larger_windows_are_tried_first(ws: Seq<WindowInfo>, k: int, l: int)
    requires
        in_window_order(ws),
        0 <= k < l < ws.len(),
    ensures
        ws[l].is_visible ==> ws[k].is_visible,
        ws[k].is_visible == ws[l].is_visible && ws[k].is_minimized ==> ws[l].is_minimized,
        ws[k].is_visible == ws[l].is_visible && ws[k].is_minimized == ws[l].is_minimized
            ==> ws[k].width as int * ws[k].height as int >= ws[l].width as int * ws[l].height as int,
{
    window_order_holds_throughout(ws, k, l);
}

fn window_area(w: &WindowInfo) -> (r: i64)
    ensures
        r == area(*w),
{
    let a: i64 = w.width as i64;
    let b: i64 = w.height as i64;
    assert(-0x4000_0000_0000_0000 <= a * b <= 0x4000_0000_0000_0000) by (nonlinear_arith)
        requires
            -0x8000_0000 <= a <= 0x8000_0000,
            -0x8000_0000 <= b <= 0x8000_0000,
    ;
    a * b
}

fn is_window_before(a: &WindowInfo, b: &WindowInfo) -> (r: bool)
    ensures
        r == window_before(*a, *b),
{
    if a.is_visible != b.is_visible {
        return a.is_visible;
    }
    if a.is_minimized != b.is_minimized {
        return !a.is_minimized;
    }
    let aa = window_area(a);
    let ba = window_area(b);
    if aa != ba {
        return aa > ba;
    }
    title_is_less(&chars_of(a.title.as_str()), &chars_of(b.title.as_str()))
}

/// No window is placed after one it should come before.
pub open spec fn in_window_order(ws: Seq<WindowInfo>) -> bool {
    forall|k: int| 0 <= k < ws.len() - 1 ==> !window_before(#[trigger] ws[k + 1], ws[k])
}

proof fn lemma_insert_multiset(s: Seq<WindowInfo>, p: int, x: WindowInfo)
    requires
        0 <= p <= s.len(),
    ensures
        s.insert(p, x).to_multiset() =~= s.to_multiset().insert(x),
{
    broadcast use vstd::seq_lib::group_to_multiset_ensures;

    let t = s.insert(p, x);
    assert(t.remove(p) =~= s);
    assert(t[p] == x);
    assert(t.to_multiset().count(x) > 0);
}

/// Sorts matched windows into the order they are tried (see
/// `window_before`), keeping every window.
pub fn sort_matching_windows(matched: &mut Vec<WindowInfo>)
    ensures
        final(matched)@.to_multiset() == old(matched)@.to_multiset(),
        in_window_order(final(matched)@),
        exists|perm: Seq<int>| #[trigger] stable_rearrangement(
            old(matched)@,
            final(matched)@,
            perm,
            window_ties(),
        ),
{
    broadcast use vstd::seq_lib::group_to_multiset_ensures;

    let mut out: Vec<WindowInfo> = Vec::new();
    let ghost mut perm: Seq<int> = Seq::empty();
    let mut i: usize = 0;
    while i < matched.len()
        invariant
            i <= matched.len(),
            out@.to_multiset() == matched@.take(i as int).to_multiset(),
            in_window_order(out@),
            out@.len() == i,
            perm.len() == i,
            forall|k: int| 0 <= k < i ==> 0 <= #[trigger] perm[k] < i,
            forall|k: int| 0 <= k < i ==> #[trigger] out@[k] == matched@[perm[k]],
            forall|k: int, l: int| 0 <= k < l < i ==> perm[k] != perm[l],
            forall|k: int, l: int|
                0 <= k < l < i && ties(#[trigger] out@[k], #[trigger] out@[l]) ==> perm[k] < perm[l],
        decreases matched.len() - i,
    {
        let x = matched[i].duplicate();
        let mut p: usize = out.len();
        while p > 0 && is_window_before(&x, &out[p - 1])
            invariant
                p <= out.len(),
                p < out.len() ==> window_before(x, out@[p as int]),
                forall|q: int| p <= q < out@.len() ==> window_before(x, #[trigger] out@[q]),
            decreases p,
        {
            p = p - 1;
        }
        let ghost before = out@;
        let ghost old_perm = perm;
        proof {
            if p < out.len() {
                lemma_window_before_asymmetric(x, out@[p as int]);
            }
            lemma_insert_multiset(before, p as int, x);
            assert(matched@.take(i + 1) =~= matched@.take(i as int).push(matched@[i as int]));
        }
        let ghost xv = x;
        out.insert(p, x);
        proof {
            perm = old_perm.insert(p as int, i as int);
            assert(out@ == before.insert(p as int, xv));
            assert forall|k: int| 0 <= k < i + 1 implies 0 <= #[trigger] perm[k] < i + 1
                && out@[k] == matched@[perm[k]] by {
                if k < p {
                    assert(perm[k] == old_perm[k]);
                } else if k > p {
                    assert(perm[k] == old_perm[k - 1]);
                }
            }
            assert forall|k: int, l: int| 0 <= k < l < i + 1 implies perm[k] != perm[l] by {
                if k < p && l > p {
                    assert(perm[l] == old_perm[l - 1]);
                } else if k > p {
                    assert(perm[k] == old_perm[k - 1]);
                    assert(perm[l] == old_perm[l - 1]);
                } else if l == p {
                    assert(old_perm[k] < i);
                } else if k == p {
                    assert(old_perm[l - 1] < i);
                }
            }
            assert forall|k: int, l: int|
                0 <= k < l < i + 1 && ties(#[trigger] out@[k], #[trigger] out@[l]) implies perm[k]
                < perm[l] by {
                if k == p {
                    assert(out@[l] == before[l - 1]);
                    assert(window_before(xv, before[l - 1]));
                    lemma_before_is_no_tie(xv, before[l - 1]);
                } else if l == p {
                    assert(old_perm[k] < i);
                } else if k < p && l < p {
                    assert(out@[k] == before[k] && out@[l] == before[l]);
                    assert(ties(before[k], before[l]));
                } else if k < p {
                    assert(out@[k] == before[k] && out@[l] == before[l - 1]);
                    assert(ties(before[k], before[l - 1]));
                    assert(perm[l] == old_perm[l - 1]);
                } else {
                    assert(out@[k] == before[k - 1] && out@[l] == before[l - 1]);
                    assert(ties(before[k - 1], before[l - 1]));
                    assert(perm[k] == old_perm[k - 1]);
                    assert(perm[l] == old_perm[l - 1]);
                }
            }
            assert(xv == matched@[i as int]);
            assert(out@.to_multiset() == before.to_multiset().insert(xv));
            vstd::seq_lib::to_multiset_build(matched@.take(i as int), matched@[i as int]);
            assert(matched@.take(i as int).push(matched@[i as int]).to_multiset()
                == matched@.take(i as int).to_multiset().insert(matched@[i as int]));
            assert(matched@.take(i + 1).to_multiset() == matched@.take(i as int).to_multiset().insert(
                matched@[i as int],
            ));
            assert forall|k: int| 0 <= k < out@.len() - 1 implies !window_before(
                #[trigger] out@[k + 1],
                out@[k],
            ) by {
                if k + 1 < p {
                    assert(out@[k] == before[k]);
                    assert(out@[k + 1] == before[k + 1]);
                    assert(!window_before(before[k + 1], before[k]));
                } else if k + 1 == p {
                    assert(out@[k] == before[k]);
                    assert(out@[k + 1] == xv);
                } else if k == p {
                    assert(out@[k] == xv);
                    assert(out@[k + 1] == before[k]);
                } else {
                    assert(out@[k] == before[k - 1]);
                    assert(out@[k + 1] == before[k]);
                    assert(!window_before(before[(k - 1) + 1], before[k - 1]));
                }
            }
        }
        i = i + 1;
    }
    assert(matched@.take(matched.len() as int) =~= matched@);
    assert(stable_rearrangement(matched@, out@, perm, window_ties()));
    *matched = out;
}

/// The windows of `ws` that belong to the app, in listing order.
pub open spec fn matching(ws: Seq<WindowInfo>, app: AppConfig, launched_pid: Option<u32>) -> Seq<
    WindowInfo,
>
    decreases ws.len(),
{
    if ws.len() == 0 {
        ws
    } else if window_matches(ws.last(), app, launched_pid) {
        matching(ws.drop_last(), app, launched_pid).push(ws.last())
    } else {
        matching(ws.drop_last(), app, launched_pid)
    }
}

/// Whether hidden windows are listed for an app: when it pulls hidden windows
/// or when a process was just launched for it.
pub fn lists_hidden_windows(app: &AppConfig, launched_pid: Option<u32>) -> (r: bool)
    ensures
        r == (app.pull_hidden_windows || launched_pid is Some),
{
    app.pull_hidden_windows || launched_pid.is_some()
}

/// The app's windows among those listed, in the order they are tried.
pub fn find_matching_windows(app: &AppConfig, launched_pid: Option<u32>, windows: &Vec<WindowInfo>) -> (r:
    Vec<WindowInfo>)
    ensures
        r@.to_multiset() == matching(windows@, *app, launched_pid).to_multiset(),
        in_window_order(r@),
        exists|perm: Seq<int>|
            #[trigger] stable_rearrangement(
                matching(windows@, *app, launched_pid),
                r@,
                perm,
                window_ties(),
            ),
{
    broadcast use vstd::seq_lib::group_to_multiset_ensures;

    let mut matched: Vec<WindowInfo> = Vec::new();
    let mut i: usize = 0;
    while i < windows.len()
        invariant
            i <= windows.len(),
            matched@ == matching(windows@.take(i as int), *app, launched_pid),
        decreases windows.len() - i,
    {
        assert(windows@.take(i + 1).drop_last() =~= windows@.take(i as int));
        if window_matches_app(&windows[i], app, launched_pid) {
            matched.push(windows[i].duplicate());
        }
        i = i + 1;
    }
    assert(windows@.take(windows.len() as int) =~= windows@);
    sort_matching_windows(&mut matched);
    matched
}

/// The wait for an app's window ends once a visible, restored window has
/// appeared (of the ready size, when a launch asks for that).
pub open spec fn shows_window(app: AppConfig, ws: Seq<WindowInfo>, require_ready: bool) -> bool {
    exists|k: int|
        0 <= k < ws.len() && (#[trigger] ws[k]).is_visible && !ws[k].is_minimized && (
        !require_ready || launch_ready(app, ws[k]))
}

pub fn visible_window_appeared(app: &AppConfig, matched: &Vec<WindowInfo>, require_launch_ready_size: bool) -> (r:
    bool)
    ensures
        r == shows_window(*app, matched@, require_launch_ready_size),
{
    let mut i: usize = 0;
    while i < matched.len()
        invariant
            i <= matched.len(),
            forall|k: int|
                0 <= k < i ==> !((#[trigger] matched@[k]).is_visible && !matched@[k].is_minimized
                    && (!require_launch_ready_size || launch_ready(*app, matched@[k]))),
        decreases matched.len() - i,
    {
        let w = &matched[i];
        if w.is_visible && !w.is_minimized && (!require_launch_ready_size
            || launch_window_is_ready(app, w)) {
            return true;
        }
        i = i + 1;
    }
    false
}

/// How long a wait for windows lasts and how often it looks again: at least
/// one second, polling every 250 to 5000 milliseconds.
pub fn wait_timing(timeout_seconds: u64, retry_interval_ms: u64) -> (r: (u64, u64))
    ensures
        r.0 == if timeout_seconds < 1 {
            1
        } else {
            timeout_seconds
        },
        r.1 == clamp_int(retry_interval_ms as int, 250, 5000),
{
    let timeout = if timeout_seconds < 1 {
        1
    } else {
        timeout_seconds
    };
    (timeout, crate::config::clamp_u64(retry_interval_ms, 250, 5000))
}

} // verus!
