//! Window and monitor records as the system reports them: window handles
//! written as text, the windows that are listed, and the listing's order.
use vstd::prelude::*;

use crate::errors::AppError;
use crate::models::{MonitorInfo, WindowInfo};
use crate::monitors::{stable_monitor_id, stable_monitor_id_spec};
use crate::runtime::{is_shell_or_helper_window, shell_or_helper};
use crate::selection::{
    lemma_title_less_asymmetric, lemma_title_less_irreflexive, stable_rearrangement, title_is_less,
    title_less,
};
use crate::text::{chars_of, copy_str, is_ws, push_char, trim, trim_end, trim_start, trim_str};

verus! {

/// The value of a hexadecimal digit, either case.
pub open spec fn hex_value(c: char) -> Option<nat> {
    if '0' <= c <= '9' {
        Some((c as u32 - '0' as u32) as nat)
    } else if 'a' <= c <= 'f' {
        Some((c as u32 - 'a' as u32 + 10) as nat)
    } else if 'A' <= c <= 'F' {
        Some((c as u32 - 'A' as u32 + 10) as nat)
    } else {
        None
    }
}

pub open spec fn all_hex(s: Seq<char>) -> bool {
    forall|k: int| 0 <= k < s.len() ==> (#[trigger] hex_value(s[k])) is Some
}

/// The number hexadecimal digits stand for.
pub open spec fn hex_number(s: Seq<char>) -> nat
    decreases s.len(),
{
    if s.len() == 0 {
        0
    } else {
        hex_number(s.drop_last()) * 16 + match hex_value(s.last()) {
            Some(v) => v,
            None => 0,
        }
    }
}

/// `trim_start_matches("0x")`: every leading "0x" removed.
pub open spec fn strip_hex_prefixes(s: Seq<char>) -> Seq<char>
    decreases s.len(),
{
    if s.len() >= 2 && s[0] == '0' && s[1] == 'x' {
        strip_hex_prefixes(s.subrange(2, s.len() as int))
    } else {
        s
    }
}

/// The digits a handle's text is read from: trimmed, without "0x" prefixes
/// and without one leading '+' (which unsigned parsing accepts).
pub open spec fn handle_digits(handle: Seq<char>) -> Seq<char> {
    let d = strip_hex_prefixes(trim(handle));
    if d.len() > 0 && d[0] == '+' {
        d.drop_first()
    } else {
        d
    }
}

/// A handle's text names a window: its digits are hexadecimal, at least one,
/// and stand for a nonzero number that fits in `usize`.
pub open spec fn handle_parses(handle: Seq<char>) -> bool {
    let d = handle_digits(handle);
    d.len() > 0 && all_hex(d) && hex_number(d) <= usize::MAX && hex_number(d) != 0
}

proof fn lemma_hex_number_grows(s: Seq<char>, j: int, k: int)
    requires
        0 <= j <= k <= s.len(),
    ensures
        hex_number(s.take(j)) <= hex_number(s.take(k)),
    decreases k - j,
{
    if j < k {
        lemma_hex_number_grows(s, j, k - 1);
        assert(s.take(k).drop_last() =~= s.take(k - 1));
    }
}

fn strip_prefixes(v: &Vec<char>) -> (r: Vec<char>)
    ensures
        r@ == strip_hex_prefixes(v@),
{
    let mut i: usize = 0;
    assert(v@.subrange(0, v@.len() as int) =~= v@);
    while v.len() - i >= 2 && v[i] == '0' && v[i + 1] == 'x'
        invariant
            i <= v.len(),
            strip_hex_prefixes(v@) == strip_hex_prefixes(v@.subrange(i as int, v@.len() as int)),
        decreases v.len() - i,
    {
        let ghost rest = v@.subrange(i as int, v@.len() as int);
        assert(rest.subrange(2, rest.len() as int) =~= v@.subrange(i + 2, v@.len() as int));
        i = i + 2;
    }
    let mut r: Vec<char> = Vec::new();
    let mut k: usize = i;
    while k < v.len()
        invariant
            i <= k <= v.len(),
            r@ == v@.subrange(i as int, k as int),
        decreases v.len() - k,
    {
        r.push(v[k]);
        assert(v@.subrange(i as int, k + 1) =~= v@.subrange(i as int, k as int).push(v@[k as int]));
        k = k + 1;
    }
    r
}

fn hex_digit_value(c: char) -> (r: Option<usize>)
    ensures
        match hex_value(c) {
            Some(v) => r == Some(v as usize),
            None => r is None,
        },
{
    if '0' <= c && c <= '9' {
        Some((c as u32 - '0' as u32) as usize)
    } else if 'a' <= c && c <= 'f' {
        Some((c as u32 - 'a' as u32 + 10) as usize)
    } else if 'A' <= c && c <= 'F' {
        Some((c as u32 - 'A' as u32 + 10) as usize)
    } else {
        None
    }
}

/// Reads a window handle written in hexadecimal, with or without "0x"; a
/// handle that does not parse, or is zero, is refused.
pub fn parse_handle(handle: &str) -> (r: Result<usize, AppError>)
    ensures
        handle_parses(handle@) ==> r == Ok::<usize, AppError>(hex_number(handle_digits(handle@)) as usize),
        !handle_parses(handle@) ==> (r matches Err(AppError::InvalidWindowHandle(d)) && d@
            == handle@),
{
    let trimmed = trim_str(handle);
    let stripped = strip_prefixes(&chars_of(trimmed.as_str()));
    let mut start: usize = 0;
    if stripped.len() > 0 && stripped[0] == '+' {
        start = 1;
    }
    let ghost d = handle_digits(handle@);
    assert(d =~= stripped@.subrange(start as int, stripped@.len() as int));
    if start >= stripped.len() {
        return Err(AppError::InvalidWindowHandle(copy_str(handle)));
    }
    let mut value: usize = 0;
    let mut i: usize = start;
    while i < stripped.len()
        invariant
            start <= i <= stripped.len(),
            d == handle_digits(handle@),
            d == stripped@.subrange(start as int, stripped@.len() as int),
            all_hex(d.take(i - start)),
            value == hex_number(d.take(i - start)),
        decreases stripped.len() - i,
    {
        let ghost j = i - start;
        assert(d.take(j + 1).drop_last() =~= d.take(j));
        assert(d[j] == stripped@[i as int]);
        match hex_digit_value(stripped[i]) {
            None => {
                assert(!all_hex(d)) by {
                    assert(hex_value(d[j]) is None);
                }
                return Err(AppError::InvalidWindowHandle(copy_str(handle)));
            },
            Some(v) => {
                let next = match value.checked_mul(16) {
                    Some(m) => m.checked_add(v),
                    None => None,
                };
                match next {
                    Some(n) => {
                        value = n;
                    },
                    None => {
                        proof {
                            if all_hex(d) {
                                lemma_hex_number_grows(d, j + 1, d.len() as int);
                                assert(d.take(d.len() as int) =~= d);
                            }
                        }
                        return Err(AppError::InvalidWindowHandle(copy_str(handle)));
                    },
                }
                assert forall|k: int| 0 <= k < d.take(j + 1).len() implies (#[trigger] hex_value(
                    d.take(j + 1)[k],
                )) is Some by {
                    if k < j {
                        assert(d.take(j + 1)[k] == d.take(j)[k]);
                    }
                }
            },
        }
        i = i + 1;
    }
    assert(d.take(d.len() as int) =~= d);
    if value == 0 {
        return Err(AppError::InvalidWindowHandle(copy_str(handle)));
    }
    Ok(value)
}

/// The uppercase hexadecimal digit for `d`.
pub open spec fn hex_digit_char(d: nat) -> char {
    if d < 10 {
        (('0' as u32) + d) as char
    } else {
        (('A' as u32) + d - 10) as char
    }
}

/// Uppercase hexadecimal notation of `n`, as `format!("{:X}", n)` prints it.
pub open spec fn hex_text(n: nat) -> Seq<char>
    decreases n,
{
    if n < 16 {
        seq![hex_digit_char(n)]
    } else {
        hex_text(n / 16).push(hex_digit_char(n % 16))
    }
}

fn hex_digit(d: usize) -> (c: char)
    requires
        d < 16,
    ensures
        c == hex_digit_char(d as nat),
{
    let b: u8 = if d < 10 {
        (48 + d) as u8
    } else {
        (55 + d) as u8
    };
    b as char
}

fn push_hex(s: &mut String, n: usize)
    ensures
        final(s)@ == old(s)@ + hex_text(n as nat),
    decreases n,
{
    if n < 16 {
        push_char(s, hex_digit(n));
        assert(hex_text(n as nat) =~= seq![hex_digit_char(n as nat)]);
    } else {
        push_hex(s, n / 16);
        push_char(s, hex_digit(n % 16));
        assert(old(s)@ + hex_text(n as nat) =~= old(s)@ + hex_text((n / 16) as nat) + seq![
            hex_digit_char((n % 16) as nat),
        ]);
    }
}

/// A window handle as text: "0x" and its value in uppercase hexadecimal.
pub fn handle_to_string(handle: usize) -> (r: String)
    ensures
        r@ == "0x"@ + hex_text(handle as nat),
{
    let mut r = copy_str("0x");
    push_hex(&mut r, handle);
    r
}

/// A window is listed when it is visible (or hidden windows are asked for)
/// and is not part of the shell or a helper.
pub open spec fn listed(w: WindowInfo, include_hidden: bool) -> bool {
    (w.is_visible || include_hidden) && !shell_or_helper(w)
}

pub fn is_listed_window(window: &WindowInfo, include_hidden: bool) -> (r: bool)
    ensures
        r == listed(*window, include_hidden),
{
    (window.is_visible || include_hidden) && !is_shell_or_helper_window(window)
}

/// The listing order: by process name, then by title, each compared as
/// `String`s are.
pub open spec fn listing_before(a: WindowInfo, b: WindowInfo) -> bool {
    ||| title_less(a.process_name@, b.process_name@)
    ||| (a.process_name@ == b.process_name@ && title_less(a.title@, b.title@))
}

proof fn lemma_listing_before_asymmetric(a: WindowInfo, b: WindowInfo)
    ensures
        listing_before(a, b) ==> !listing_before(b, a),
{
    lemma_title_less_asymmetric(a.process_name@, b.process_name@);
    lemma_title_less_asymmetric(b.process_name@, a.process_name@);
    lemma_title_less_asymmetric(a.process_name@, a.process_name@);
    lemma_title_less_asymmetric(a.title@, b.title@);
}

/// Two windows that the listing order cannot tell apart: the same process
/// name and title.
pub open spec fn listing_ties(a: WindowInfo, b: WindowInfo) -> bool {
    a.process_name@ == b.process_name@ && a.title@ == b.title@
}

pub open spec fn listing_ties_fn() -> spec_fn(WindowInfo, WindowInfo) -> bool {
    |a: WindowInfo, b: WindowInfo| listing_ties(a, b)
}

proof fn lemma_listing_before_is_no_tie(a: WindowInfo, b: WindowInfo)
    ensures
        listing_before(a, b) ==> !listing_ties(a, b),
{
    lemma_title_less_irreflexive(a.process_name@);
    lemma_title_less_irreflexive(a.title@);
}

fn is_listed_before(a: &WindowInfo, b: &WindowInfo) -> (r: bool)
    ensures
        r == listing_before(*a, *b),
{
    let ap = chars_of(a.process_name.as_str());
    let bp = chars_of(b.process_name.as_str());
    if title_is_less(&ap, &bp) {
        return true;
    }
    if crate::text::seq_eq(&ap, &bp) {
        title_is_less(&chars_of(a.title.as_str()), &chars_of(b.title.as_str()))
    } else {
        false
    }
}

/// No window is listed after one it should come before.
pub open spec fn in_listing_order(ws: Seq<WindowInfo>) -> bool {
    forall|k: int| 0 <= k < ws.len() - 1 ==> !listing_before(#[trigger] ws[k + 1], ws[k])
}

proof fn lemma_insert_multiset(s: Seq<WindowInfo>, p: int, x: WindowInfo)
    requires
        0 <= p <= s.len(),
    ensures
        s.insert(p, x).to_multiset() =~= s.to_multiset().insert(x),
{
    broadcast use vstd::seq_lib::group_to_multiset_ensures;

    let t = s.insert(p, x);
    assert(t.remove(p) =~= s);
    assert(t[p] == x);
    assert(t.to_multiset().count(x) > 0);
}

/// Sorts listed windows into listing order, keeping every window.
pub fn sort_window_listing(windows: &mut Vec<WindowInfo>)
    ensures
        final(windows)@.to_multiset() == old(windows)@.to_multiset(),
        in_listing_order(final(windows)@),
        exists|perm: Seq<int>|
            #[trigger] stable_rearrangement(old(windows)@, final(windows)@, perm, listing_ties_fn()),
{
    broadcast use vstd::seq_lib::group_to_multiset_ensures;

    let mut out: Vec<WindowInfo> = Vec::new();
    let ghost mut perm: Seq<int> = Seq::empty();
    let mut i: usize = 0;
    while i < windows.len()
        invariant
            i <= windows.len(),
            out@.to_multiset() == windows@.take(i as int).to_multiset(),
            in_listing_order(out@),
            out@.len() == i,
            perm.len() == i,
            forall|k: int| 0 <= k < i ==> 0 <= #[trigger] perm[k] < i,
            forall|k: int| 0 <= k < i ==> #[trigger] out@[k] == windows@[perm[k]],
            forall|k: int, l: int| 0 <= k < l < i ==> perm[k] != perm[l],
            forall|k: int, l: int|
                0 <= k < l < i && listing_ties(#[trigger] out@[k], #[trigger] out@[l]) ==> perm[k]
                    < perm[l],
        decreases windows.len() - i,
    {
        let x = windows[i].duplicate();
        let mut p: usize = out.len();
        while p > 0 && is_listed_before(&x, &out[p - 1])
            invariant
                p <= out.len(),
                p < out.len() ==> listing_before(x, out@[p as int]),
                forall|q: int| p <= q < out@.len() ==> listing_before(x, #[trigger] out@[q]),
            decreases p,
        {
            p = p - 1;
        }
        let ghost before = out@;
        let ghost old_perm = perm;
        proof {
            if p < out.len() {
                lemma_listing_before_asymmetric(x, out@[p as int]);
            }
            lemma_insert_multiset(before, p as int, x);
            assert(windows@.take(i + 1) =~= windows@.take(i as int).push(windows@[i as int]));
        }
        let ghost xv = x;
        out.insert(p, x);
        proof {
            assert(out@ == before.insert(p as int, xv));
            perm = old_perm.insert(p as int, i as int);
            assert forall|k: int| 0 <= k < i + 1 implies 0 <= #[trigger] perm[k] < i + 1
                && out@[k] == windows@[perm[k]] by {
                if k < p {
                    assert(perm[k] == old_perm[k]);
                } else if k > p {
                    assert(perm[k] == old_perm[k - 1]);
                }
            }
            assert forall|k: int, l: int| 0 <= k < l < i + 1 implies perm[k] != perm[l] by {
                if k < p && l > p {
                    assert(perm[l] == old_perm[l - 1]);
                } else if k > p {
                    assert(perm[k] == old_perm[k - 1]);
                    assert(perm[l] == old_perm[l - 1]);
                } else if l == p {
                    assert(old_perm[k] < i);
                } else if k == p {
                    assert(old_perm[l - 1] < i);
                }
            }
            assert forall|k: int, l: int|
                0 <= k < l < i + 1 && listing_ties(#[trigger] out@[k], #[trigger] out@[l]) implies
                perm[k] < perm[l] by {
                if k == p {
                    assert(out@[l] == before[l - 1]);
                    assert(listing_before(xv, before[l - 1]));
                    lemma_listing_before_is_no_tie(xv, before[l - 1]);
                } else if l == p {
                    assert(old_perm[k] < i);
                } else if k < p && l < p {
                    assert(out@[k] == before[k] && out@[l] == before[l]);
                    assert(listing_ties(before[k], before[l]));
                } else if k < p {
                    assert(out@[k] == before[k] && out@[l] == before[l - 1]);
                    assert(listing_ties(before[k], before[l - 1]));
                    assert(perm[l] == old_perm[l - 1]);
                } else {
                    assert(out@[k] == before[k - 1] && out@[l] == before[l - 1]);
                    assert(listing_ties(before[k - 1], before[l - 1]));
                    assert(perm[k] == old_perm[k - 1]);
                    assert(perm[l] == old_perm[l - 1]);
                }
            }
            assert(out@.to_multiset() == before.to_multiset().insert(xv));
            vstd::seq_lib::to_multiset_build(windows@.take(i as int), windows@[i as int]);
            assert forall|k: int| 0 <= k < out@.len() - 1 implies !listing_before(
                #[trigger] out@[k + 1],
                out@[k],
            ) by {
                if k + 1 < p {
                    assert(out@[k] == before[k]);
                    assert(out@[k + 1] == before[k + 1]);
                    assert(!listing_before(before[k + 1], before[k]));
                } else if k + 1 == p {
                    assert(out@[k] == before[k]);
                    assert(out@[k + 1] == xv);
                } else if k == p {
                    assert(out@[k] == xv);
                    assert(out@[k + 1] == before[k]);
                } else {
                    assert(out@[k] == before[k - 1]);
                    assert(out@[k + 1] == before[k]);
                    assert(!listing_before(before[(k - 1) + 1], before[k - 1]));
                }
            }
        }
        i = i + 1;
    }
    assert(windows@.take(windows.len() as int) =~= windows@);
    assert(stable_rearrangement(windows@, out@, perm, listing_ties_fn()));
    *windows = out;
}

/// A window as the system reports it: its handle, texts, process, the
/// monitor nearest to it, its frame rectangle and its state.
pub struct WindowReport {
    pub handle: usize,
    pub title: String,
    pub class_name: String,
    pub process_id: u32,
    pub process_name: String,
    pub executable_path: Option<String>,
    pub monitor_id: Option<String>,
    pub left: i32,
    pub top: i32,
    pub right: i32,
    pub bottom: i32,
    pub is_visible: bool,
    pub is_minimized: bool,
    pub is_maximized: bool,
}

/// The frame's extent fits in `i32`.
pub open spec fn report_fits(r: WindowReport) -> bool {
    &&& i32::MIN <= r.right - r.left <= i32::MAX
    &&& i32::MIN <= r.bottom - r.top <= i32::MAX
}

/// The record of a reported window, or none for a window without area.
pub fn window_record(report: WindowReport) -> (r: Option<WindowInfo>)
    requires
        report_fits(report),
    ensures
        report.right - report.left <= 0 || report.bottom - report.top <= 0 ==> r is None,
        report.right - report.left > 0 && report.bottom - report.top > 0 ==> (r matches Some(w)
            && w.handle@ == "0x"@ + hex_text(report.handle as nat) && w.title == report.title
            && w.class_name == report.class_name && w.process_id == report.process_id
            && w.process_name == report.process_name && w.executable_path
            == report.executable_path && w.monitor_id == report.monitor_id && w.x == report.left
            && w.y == report.top && w.width == report.right - report.left && w.height
            == report.bottom - report.top && w.is_visible == report.is_visible && w.is_minimized
            == report.is_minimized && w.is_maximized == report.is_maximized),
{
    let width = report.right - report.left;
    let height = report.bottom - report.top;
    if width <= 0 || height <= 0 {
        return None;
    }
    Some(
        WindowInfo {
            handle: handle_to_string(report.handle),
            title: report.title,
            class_name: report.class_name,
            process_id: report.process_id,
            process_name: report.process_name,
            executable_path: report.executable_path,
            monitor_id: report.monitor_id,
            x: report.left,
            y: report.top,
            width,
            height,
            is_visible: report.is_visible,
            is_minimized: report.is_minimized,
            is_maximized: report.is_maximized,
        },
    )
}

/// The scale in percent for a monitor's effective DPI (96 DPI is 100 %),
/// rounded to the nearest percent; 100 when the DPI could not be read or
/// its vertical value is zero.
pub open spec fn dpi_scale_percent(dpi: Option<(u32, u32)>) -> int {
    match dpi {
        Some((x, y)) => if y > 0 {
            let p = (x * 100 + 48) / 96;
            if p > i32::MAX {
                i32::MAX as int
            } else {
                p
            }
        } else {
            100
        },
        None => 100,
    }
}

pub fn scale_percent_for_dpi(dpi: Option<(u32, u32)>) -> (r: i32)
    ensures
        r == dpi_scale_percent(dpi),
{
    match dpi {
        Some((x, y)) => if y > 0 {
            let p: u64 = (x as u64 * 100 + 48) / 96;
            if p > i32::MAX as u64 {
                i32::MAX
            } else {
                p as i32
            }
        } else {
            100
        },
        None => 100,
    }
}

/// A monitor as the system reports it: its device name, its bounds and work
/// area as rectangles, its effective DPI when it could be read, and whether
/// it is the primary monitor.
pub struct MonitorReport {
    pub device_name: String,
    pub bounds: (i32, i32, i32, i32),
    pub work: (i32, i32, i32, i32),
    pub dpi: Option<(u32, u32)>,
    pub is_primary: bool,
}

/// The extents of the bounds and the work area fit in `i32`.
pub open spec fn monitor_report_fits(r: MonitorReport) -> bool {
    &&& i32::MIN <= r.bounds.2 - r.bounds.0 <= i32::MAX
    &&& i32::MIN <= r.bounds.3 - r.bounds.1 <= i32::MAX
    &&& i32::MIN <= r.work.2 - r.work.0 <= i32::MAX
    &&& i32::MIN <= r.work.3 - r.work.1 <= i32::MAX
}

/// The record of a reported monitor: saved under `stable_monitor_id`, named
/// by its device ("Display" when it has none).
pub fn monitor_record(report: MonitorReport) -> (r: MonitorInfo)
    requires
        monitor_report_fits(report),
    ensures
        r.id@ == stable_monitor_id_spec(
            report.device_name@,
            report.bounds.0 as int,
            report.bounds.1 as int,
            report.bounds.2 - report.bounds.0,
            report.bounds.3 - report.bounds.1,
        ),
        r.name@ == (if report.device_name@.len() == 0 {
            "Display"@
        } else {
            report.device_name@
        }),
        r.device_name == report.device_name,
        r.x == report.bounds.0,
        r.y == report.bounds.1,
        r.width == report.bounds.2 - report.bounds.0,
        r.height == report.bounds.3 - report.bounds.1,
        r.work_x == report.work.0,
        r.work_y == report.work.1,
        r.work_width == report.work.2 - report.work.0,
        r.work_height == report.work.3 - report.work.1,
        r.scale_percent == dpi_scale_percent(report.dpi),
        r.is_primary == report.is_primary,
{
    let (left, top, right, bottom) = report.bounds;
    let (work_left, work_top, work_right, work_bottom) = report.work;
    let width = right - left;
    let height = bottom - top;
    let id = stable_monitor_id(report.device_name.as_str(), left, top, width, height);
    let name = if crate::text::char_len(report.device_name.as_str()) == 0 {
        copy_str("Display")
    } else {
        copy_str(report.device_name.as_str())
    };
    MonitorInfo {
        id,
        name,
        device_name: report.device_name,
        x: left,
        y: top,
        width,
        height,
        work_x: work_left,
        work_y: work_top,
        work_width: work_right - work_left,
        work_height: work_bottom - work_top,
        scale_percent: scale_percent_for_dpi(report.dpi),
        is_primary: report.is_primary,
    }
}

proof fn lemma_hex_digit(d: nat)
    requires
        d < 16,
    ensures
        hex_value(hex_digit_char(d)) == Some(d),
        !is_ws(hex_digit_char(d)),
        hex_digit_char(d) != '+',
        d > 0 ==> hex_digit_char(d) != '0',
{
    let c = hex_digit_char(d);
    if d < 10 {
        assert(c as u32 == 48 + d);
    } else {
        assert(c as u32 == 55 + d);
    }
}

proof fn lemma_hex_text(n: nat)
    ensures
        hex_text(n).len() >= 1,
        all_hex(hex_text(n)),
        hex_number(hex_text(n)) == n,
        n > 0 ==> hex_text(n)[0] != '0',
        forall|k: int| 0 <= k < hex_text(n).len() ==> !is_ws(#[trigger] hex_text(n)[k])
            && hex_text(n)[k] != '+',
    decreases n,
{
    if n < 16 {
        lemma_hex_digit(n);
        assert(hex_text(n) =~= seq![hex_digit_char(n)]);
        assert(hex_text(n).drop_last() =~= Seq::<char>::empty());
        assert(hex_number(Seq::<char>::empty()) == 0);
    } else {
        lemma_hex_text(n / 16);
        lemma_hex_digit(n % 16);
        let t = hex_text(n);
        assert(t.last() == hex_digit_char(n % 16));
        assert(t.drop_last() =~= hex_text(n / 16));
        assert(n == (n / 16) * 16 + n % 16);
        assert forall|k: int| 0 <= k < t.len() implies (#[trigger] hex_value(t[k])) is Some by {
            if k < t.len() - 1 {
                assert(t[k] == hex_text(n / 16)[k]);
            }
        }
        assert forall|k: int| 0 <= k < t.len() implies !is_ws(#[trigger] t[k]) && t[k] != '+' by {
            if k < t.len() - 1 {
                assert(t[k] == hex_text(n / 16)[k]);
            }
        }
    }
}

/// A handle written by `handle_to_string` reads back, by `parse_handle`, as
/// the same handle.
pub proof fn handle_text_parses_back(handle: usize)
    requires
        handle != 0,
    ensures
        handle_parses("0x"@ + hex_text(handle as nat)),
        hex_number(handle_digits("0x"@ + hex_text(handle as nat))) == handle,
{
    reveal_strlit("0x");
    let h = hex_text(handle as nat);
    lemma_hex_text(handle as nat);
    let s = "0x"@ + h;
    assert(s[0] == '0' && s[1] == 'x');
    assert(!is_ws(s[0]));
    assert(s.last() == h.last());
    assert(trim_start(s) == s);
    assert(trim_end(s) == s);
    assert(s.subrange(2, s.len() as int) =~= h);
    assert(strip_hex_prefixes(s) == strip_hex_prefixes(h));
    assert(h.len() < 2 || h[0] != '0');
    assert(strip_hex_prefixes(h) == h);
    assert(handle_digits(s) == h);
}

} // verus!
