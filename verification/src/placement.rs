//! Where a saved layout lands: rectangles on the virtual desktop, scaling a
//! layout between display geometries, and keeping it visible on a monitor.
use vstd::prelude::*;

use crate::config::{clamp_i32, clamp_int};
use crate::geometry::{
    canvas, clamp_i32_range, layout_canvas, max_int, min_int, sat_add, sat_add_i32, sat_sub,
    sat_sub_i32,
};
use crate::models::{AppConfig, CapturedDisplay, LayoutRect, MonitorInfo, Profile, WindowInfo};

verus! {

/// A rectangle on the virtual desktop, in pixels.
#[derive(Debug, Clone, Copy, PartialEq, Eq, Structural)]
pub struct Rect {
    pub left: i32,
    pub top: i32,
    pub right: i32,
    pub bottom: i32,
}

/// The invisible borders between a window's outer rectangle and the frame
/// the user sees.
#[derive(Debug, Clone, Copy, PartialEq, Eq, Structural)]
pub struct FrameMargins {
    pub left: i32,
    pub top: i32,
    pub right: i32,
    pub bottom: i32,
}

/// Largest frame margin taken as genuine.
pub const MAX_FRAME_MARGIN_PX: i32 = 128;

pub open spec fn in_i32(v: int) -> bool {
    i32::MIN <= v <= i32::MAX
}

/// The sums `absolute_rect` forms stay within `i32`.
pub open spec fn absolute_fits(m: MonitorInfo, l: LayoutRect) -> bool {
    &&& in_i32(m.x + l.x)
    &&& in_i32(m.y + l.y)
    &&& in_i32(m.x + l.x + l.width)
    &&& in_i32(m.y + l.y + l.height)
}

/// A layout relative to a monitor, placed on the virtual desktop.
pub open spec fn absolute_of(m: MonitorInfo, l: LayoutRect) -> Rect {
    Rect {
        left: (m.x + l.x) as i32,
        top: (m.y + l.y) as i32,
        right: (m.x + l.x + l.width) as i32,
        bottom: (m.y + l.y + l.height) as i32,
    }
}

pub fn absolute_rect(monitor: &MonitorInfo, layout: &LayoutRect) -> (r: Rect)
    requires
        absolute_fits(*monitor, *layout),
    ensures
        r == absolute_of(*monitor, *layout),
        r.left == monitor.x + layout.x,
        r.top == monitor.y + layout.y,
        r.right == monitor.x + layout.x + layout.width,
        r.bottom == monitor.y + layout.y + layout.height,
{
    Rect {
        left: monitor.x + layout.x,
        top: monitor.y + layout.y,
        right: monitor.x + layout.x + layout.width,
        bottom: monitor.y + layout.y + layout.height,
    }
}

/// The differences `relative_rect` forms stay within `i32`.
pub open spec fn relative_fits(m: MonitorInfo, r: Rect) -> bool {
    &&& in_i32(r.left - m.x)
    &&& in_i32(r.top - m.y)
    &&& in_i32(r.right - r.left)
    &&& in_i32(r.bottom - r.top)
}

/// A rectangle on the virtual desktop, relative to a monitor's top-left corner.
pub open spec fn relative_of(m: MonitorInfo, r: Rect) -> LayoutRect {
    LayoutRect {
        x: (r.left - m.x) as i32,
        y: (r.top - m.y) as i32,
        width: (r.right - r.left) as i32,
        height: (r.bottom - r.top) as i32,
    }
}

pub fn relative_rect(monitor: &MonitorInfo, rect: Rect) -> (r: LayoutRect)
    requires
        relative_fits(*monitor, rect),
    ensures
        r == relative_of(*monitor, rect),
        r.x == rect.left - monitor.x,
        r.y == rect.top - monitor.y,
        r.width == rect.right - rect.left,
        r.height == rect.bottom - rect.top,
{
    LayoutRect {
        x: rect.left - monitor.x,
        y: rect.top - monitor.y,
        width: rect.right - rect.left,
        height: rect.bottom - rect.top,
    }
}

/// Placing a layout on a monitor and reading it back relative to the same
/// monitor gives the layout again.
pub proof fn relative_undoes_absolute(m: MonitorInfo, l: LayoutRect)
    requires
        absolute_fits(m, l),
    ensures
        relative_fits(m, absolute_of(m, l)),
        relative_of(m, absolute_of(m, l)) == l,
{
}

/// The outer rectangle to hand to the window manager so that the visible
/// frame lands on `target`.
pub open spec fn margins_fit(target: Rect, margins: FrameMargins) -> bool {
    &&& in_i32(target.left - margins.left)
    &&& in_i32(target.top - margins.top)
    &&& in_i32(target.right + margins.right)
    &&& in_i32(target.bottom + margins.bottom)
}

pub fn adjust_rect_for_frame_margins(target_frame_rect: Rect, margins: FrameMargins) -> (r: Rect)
    requires
        margins_fit(target_frame_rect, margins),
    ensures
        r.left == target_frame_rect.left - margins.left,
        r.top == target_frame_rect.top - margins.top,
        r.right == target_frame_rect.right + margins.right,
        r.bottom == target_frame_rect.bottom + margins.bottom,
{
    Rect {
        left: target_frame_rect.left - margins.left,
        top: target_frame_rect.top - margins.top,
        right: target_frame_rect.right + margins.right,
        bottom: target_frame_rect.bottom + margins.bottom,
    }
}

pub open spec fn is_empty_rect(r: Rect) -> bool {
    r.right <= r.left || r.bottom <= r.top
}

pub open spec fn margin_ok(v: int) -> bool {
    0 <= v <= MAX_FRAME_MARGIN_PX
}

/// The margins between a window's outer rectangle and its visible frame, when
/// both are non-empty and every margin lies in `0..=MAX_FRAME_MARGIN_PX`.
pub open spec fn frame_margins_spec(outer: Rect, frame: Rect) -> Option<FrameMargins> {
    if is_empty_rect(outer) || is_empty_rect(frame) {
        None
    } else {
        let l = frame.left - outer.left;
        let t = frame.top - outer.top;
        let r = outer.right - frame.right;
        let b = outer.bottom - frame.bottom;
        if margin_ok(l) && margin_ok(t) && margin_ok(r) && margin_ok(b) {
            Some(FrameMargins { left: l as i32, top: t as i32, right: r as i32, bottom: b as i32 })
        } else {
            None
        }
    }
}

pub fn frame_margins_between(outer: Rect, frame: Rect) -> (r: Option<FrameMargins>)
    ensures
        r == frame_margins_spec(outer, frame),
{
    if outer.right <= outer.left || outer.bottom <= outer.top || frame.right <= frame.left
        || frame.bottom <= frame.top {
        return None;
    }
    let left: i64 = frame.left as i64 - outer.left as i64;
    let top: i64 = frame.top as i64 - outer.top as i64;
    let right: i64 = outer.right as i64 - frame.right as i64;
    let bottom: i64 = outer.bottom as i64 - frame.bottom as i64;
    let limit = MAX_FRAME_MARGIN_PX as i64;
    if left < 0 || left > limit || top < 0 || top > limit || right < 0 || right > limit || bottom < 0
        || bottom > limit {
        return None;
    }
    Some(
        FrameMargins {
            left: left as i32,
            top: top as i32,
            right: right as i32,
            bottom: bottom as i32,
        },
    )
}

/// The client-area points sampled to tell a painted window from a blank one,
/// or none when the client area is under 80 pixels in either direction.
pub open spec fn sample_points_spec(width: int, height: int) -> Option<Seq<(int, int)>> {
    if width < 80 || height < 80 {
        None
    } else {
        Some(
            seq![
                (width / 4, 8),
                (width / 2, 8),
                (width * 3 / 4, 8),
                (width / 6, height - 12),
                (width / 2, height - 12),
                (width * 5 / 6, height - 12),
                (12, height / 2),
                (width - 12, height / 2),
            ],
        )
    }
}

pub open spec fn points_view(v: Seq<(i32, i32)>) -> Seq<(int, int)> {
    Seq::new(v.len(), |k: int| (v[k].0 as int, v[k].1 as int))
}

pub fn client_sample_points(width: i32, height: i32) -> (r: Option<Vec<(i32, i32)>>)
    requires
        width * 5 <= i32::MAX,
    ensures
        match r {
            Some(v) => sample_points_spec(width as int, height as int) == Some(points_view(v@)),
            None => sample_points_spec(width as int, height as int) is None,
        },
{
    if width < 80 || height < 80 {
        return None;
    }
    let v = vec![
        (width / 4, 8),
        (width / 2, 8),
        (width * 3 / 4, 8),
        (width / 6, height - 12),
        (width / 2, height - 12),
        (width * 5 / 6, height - 12),
        (12, height / 2),
        (width - 12, height / 2),
    ];
    assert(points_view(v@) =~= sample_points_spec(width as int, height as int)->0);
    Some(v)
}

/// The colour GDI reports for a pixel it could not read.
pub const CLR_INVALID: u32 = 0xFFFF_FFFF;

pub open spec fn is_white(c: u32) -> bool {
    c & 0xff >= 245 && (c >> 8u32) & 0xff >= 245 && (c >> 16u32) & 0xff >= 245
}

pub open spec fn valid_count(s: Seq<u32>) -> nat
    decreases s.len(),
{
    if s.len() == 0 {
        0
    } else {
        valid_count(s.drop_last()) + if s.last() != CLR_INVALID {
            1nat
        } else {
            0nat
        }
    }
}

pub open spec fn white_count(s: Seq<u32>) -> nat
    decreases s.len(),
{
    if s.len() == 0 {
        0
    } else {
        white_count(s.drop_last()) + if s.last() != CLR_INVALID && is_white(s.last()) {
            1nat
        } else {
            0nat
        }
    }
}

/// Whether sampled client pixels show a blank (near-white) surface: unknown
/// with fewer than four readable samples, else blank when at least three
/// quarters of the readable samples are near-white in every channel.
pub open spec fn samples_blank(s: Seq<u32>) -> Option<bool> {
    if valid_count(s) < 4 {
        None
    } else {
        Some(white_count(s) * 4 >= valid_count(s) * 3)
    }
}

pub fn surface_samples_are_blank(samples: &Vec<u32>) -> (r: Option<bool>)
    ensures
        r == samples_blank(samples@),
{
    let mut valid: usize = 0;
    let mut white: usize = 0;
    let mut i: usize = 0;
    while i < samples.len()
        invariant
            i <= samples.len(),
            valid == valid_count(samples@.take(i as int)),
            white == white_count(samples@.take(i as int)),
            valid <= i,
            white <= valid,
        decreases samples.len() - i,
    {
        assert(samples@.take(i + 1).drop_last() =~= samples@.take(i as int));
        let value = samples[i];
        if value != CLR_INVALID {
            valid = valid + 1;
            if value & 0xff >= 245 && (value >> 8u32) & 0xff >= 245 && (value >> 16u32) & 0xff
                >= 245 {
                white = white + 1;
            }
        }
        i = i + 1;
    }
    assert(samples@.take(samples.len() as int) =~= samples@);
    if valid < 4 {
        return None;
    }
    let w: u128 = white as u128;
    let v: u128 = valid as u128;
    Some(w * 4 >= v * 3)
}

/// The tray-icon notification that selects an icon, as a window message.
pub fn nin_select_message() -> (r: u32)
    ensures
        r == 0x0400,
{
    0x0400
}

/// `value * num / den`, rounded half away from zero. The quotient is exact:
/// a product that lies exactly on a half always rounds away from zero, where
/// a floating-point product of the same numbers can land just below the half
/// and round the other way (1125 * 1366 / 900 gives 1708 here; the
/// floating-point product 1707.4999999999998 rounds to 1707).
pub open spec fn scale_round(v: int, num: int, den: int) -> int {
    if v >= 0 {
        (2 * v * num + den) / (2 * den)
    } else {
        -((2 * (-v) * num + den) / (2 * den))
    }
}

/// A coordinate scaled by `num / den`, rounded, and saturated to `i32`.
pub open spec fn scaled(v: int, num: int, den: int) -> int {
    clamp_i32_range(scale_round(v, num, den))
}

pub fn scale_i32(value: i32, num: i32, den: i32) -> (r: i32)
    requires
        num >= 0,
        den > 0,
    ensures
        r == scaled(value as int, num as int, den as int),
{
    let a: u64 = if value >= 0 {
        value as u64
    } else {
        (-(value as i64)) as u64
    };
    let n: u64 = num as u64;
    let d: u64 = den as u64;
    assert(a <= 0x8000_0000);
    assert(a * n <= 0x8000_0000u64 * 0x8000_0000u64) by (nonlinear_arith)
        requires
            a <= 0x8000_0000,
            n <= 0x8000_0000,
    ;
    let p: u64 = a * n;
    let q: u64 = (2 * p + d) / (2 * d);
    assert(q <= p + 1) by (nonlinear_arith)
        requires
            q == (2 * p + d) / (2 * d),
            d > 0,
    ;
    proof {
        let v = value as int;
        if v >= 0 {
            assert(2 * v * num == 2 * (a * n)) by (nonlinear_arith)
                requires
                    a == v,
                    n == num,
            ;
        } else {
            assert(2 * (-v) * num == 2 * (a * n)) by (nonlinear_arith)
                requires
                    a == -v,
                    n == num,
            ;
        }
    }
    let signed: i64 = if value >= 0 {
        q as i64
    } else {
        -(q as i64)
    };
    if signed < i32::MIN as i64 {
        i32::MIN
    } else if signed > i32::MAX as i64 {
        i32::MAX
    } else {
        signed as i32
    }
}

/// Scaling a value within `0..=den` by `num / den` stays within `0..=num`.
pub proof fn lemma_scale_bounded(v: int, num: int, den: int)
    requires
        0 <= v <= den,
        0 <= num,
        0 < den,
    ensures
        0 <= scale_round(v, num, den) <= num,
{
    assert(2 * v * num + den <= 2 * den * num + den) by (nonlinear_arith)
        requires
            0 <= v <= den,
            0 <= num,
    ;
    assert(0 <= 2 * v * num) by (nonlinear_arith)
        requires
            0 <= v,
            0 <= num,
    ;
    vstd::arithmetic::div_mod::lemma_div_is_ordered(2 * v * num + den, 2 * den * num + den, 2 * den);
    vstd::arithmetic::div_mod::lemma_div_pos_is_pos(2 * v * num + den, 2 * den);
    assert(2 * den * num + den == num * (2 * den) + den) by (nonlinear_arith);
    vstd::arithmetic::div_mod::lemma_fundamental_div_mod_converse_div(
        2 * den * num + den,
        2 * den,
        num,
        den,
    );
}

/// The display geometry a layout was saved on equals the monitor's now.
pub open spec fn same_geometry(c: CapturedDisplay, m: MonitorInfo) -> bool {
    &&& c.width == m.width
    &&& c.height == m.height
    &&& c.work_x == m.work_x - m.x
    &&& c.work_y == m.work_y - m.y
    &&& c.work_width == m.work_width
    &&& c.work_height == m.work_height
}

/// The saved layout lay inside the saved display's work area, and both work
/// areas are non-empty.
pub open spec fn saved_in_work_area(l: LayoutRect, c: CapturedDisplay, m: MonitorInfo) -> bool {
    &&& l.x >= c.work_x
    &&& l.y >= c.work_y
    &&& sat_add(l.x as int, l.width as int) <= sat_add(c.work_x as int, c.work_width as int)
    &&& sat_add(l.y as int, l.height as int) <= sat_add(c.work_y as int, c.work_height as int)
    &&& c.work_width > 0
    &&& c.work_height > 0
    &&& m.work_width > 0
    &&& m.work_height > 0
}

/// A layout saved on display `c`, carried over to monitor `m`: unchanged
/// when either geometry is empty or nothing changed; mapped from the old work
/// area onto the new one when it lay inside the old work area; else scaled
/// with the whole display.
pub open spec fn captured_layout(l: LayoutRect, c: CapturedDisplay, m: MonitorInfo) -> (
    int,
    int,
    int,
    int,
) {
    if c.width <= 0 || c.height <= 0 || m.width <= 0 || m.height <= 0 || same_geometry(c, m) {
        (l.x as int, l.y as int, l.width as int, l.height as int)
    } else if saved_in_work_area(l, c, m) {
        (
            (m.work_x - m.x) + scaled(
                sat_sub(l.x as int, c.work_x as int),
                m.work_width as int,
                c.work_width as int,
            ),
            (m.work_y - m.y) + scaled(
                sat_sub(l.y as int, c.work_y as int),
                m.work_height as int,
                c.work_height as int,
            ),
            scaled(l.width as int, m.work_width as int, c.work_width as int),
            scaled(l.height as int, m.work_height as int, c.work_height as int),
        )
    } else {
        (
            scaled(l.x as int, m.width as int, c.width as int),
            scaled(l.y as int, m.height as int, c.height as int),
            scaled(l.width as int, m.width as int, c.width as int),
            scaled(l.height as int, m.height as int, c.height as int),
        )
    }
}

/// The offsets `captured_layout` adds stay within `i32`.
pub open spec fn captured_layout_fits(l: LayoutRect, c: CapturedDisplay, m: MonitorInfo) -> bool {
    in_i32(captured_layout(l, c, m).0) && in_i32(captured_layout(l, c, m).1)
}

pub fn scaled_layout_from_captured_display(
    layout: &LayoutRect,
    captured: &CapturedDisplay,
    monitor: &MonitorInfo,
) -> (r: LayoutRect)
    requires
        monitor.wf(),
        captured_layout_fits(*layout, *captured, *monitor),
    ensures
        (r.x as int, r.y as int, r.width as int, r.height as int) == captured_layout(
            *layout,
            *captured,
            *monitor,
        ),
{
    if captured.width <= 0 || captured.height <= 0 || monitor.width <= 0 || monitor.height <= 0 {
        return *layout;
    }
    let monitor_work_x = monitor.work_x - monitor.x;
    let monitor_work_y = monitor.work_y - monitor.y;
    if captured.width == monitor.width && captured.height == monitor.height && captured.work_x
        == monitor_work_x && captured.work_y == monitor_work_y && captured.work_width
        == monitor.work_width && captured.work_height == monitor.work_height {
        return *layout;
    }
    let saved_in_work_area = layout.x >= captured.work_x && layout.y >= captured.work_y
        && sat_add_i32(layout.x, layout.width) <= sat_add_i32(captured.work_x, captured.work_width)
        && sat_add_i32(layout.y, layout.height) <= sat_add_i32(
        captured.work_y,
        captured.work_height,
    ) && captured.work_width > 0 && captured.work_height > 0 && monitor.work_width > 0
        && monitor.work_height > 0;
    if saved_in_work_area {
        let sx = scale_i32(
            sat_sub_i32(layout.x, captured.work_x),
            monitor.work_width,
            captured.work_width,
        );
        let sy = scale_i32(
            sat_sub_i32(layout.y, captured.work_y),
            monitor.work_height,
            captured.work_height,
        );
        return LayoutRect {
            x: monitor_work_x + sx,
            y: monitor_work_y + sy,
            width: scale_i32(layout.width, monitor.work_width, captured.work_width),
            height: scale_i32(layout.height, monitor.work_height, captured.work_height),
        };
    }
    LayoutRect {
        x: scale_i32(layout.x, monitor.width, captured.width),
        y: scale_i32(layout.y, monitor.height, captured.height),
        width: scale_i32(layout.width, monitor.width, captured.width),
        height: scale_i32(layout.height, monitor.height, captured.height),
    }
}

/// With a non-negative saved size, carrying a layout over from a captured
/// display never leaves `i32`.
pub proof fn lemma_captured_layout_fits(l: LayoutRect, c: CapturedDisplay, m: MonitorInfo)
    requires
        m.wf(),
        l.width >= 0,
        l.height >= 0,
    ensures
        captured_layout_fits(l, c, m),
{
    if c.width <= 0 || c.height <= 0 || m.width <= 0 || m.height <= 0 || same_geometry(c, m) {
    } else if saved_in_work_area(l, c, m) {
        let ox = sat_sub(l.x as int, c.work_x as int);
        let oy = sat_sub(l.y as int, c.work_y as int);
        assert(0 <= ox <= c.work_width);
        assert(0 <= oy <= c.work_height);
        lemma_scale_bounded(ox, m.work_width as int, c.work_width as int);
        lemma_scale_bounded(oy, m.work_height as int, c.work_height as int);
    } else {
    }
}

/// `r` is `v * num / den` rounded to a nearest integer: it lies within half
/// a unit of the exact quotient.
pub open spec fn rounds_ratio(r: int, v: int, num: int, den: int) -> bool {
    -den <= 2 * r * den - 2 * v * num <= den
}

/// The exact quotient `v * num / den` lies within `i32`.
pub open spec fn ratio_fits(v: int, num: int, den: int) -> bool {
    (i32::MIN as int) * den <= v * num <= (i32::MAX as int) * den
}

proof fn lemma_scale_round_near(v: int, num: int, den: int)
    requires
        0 <= num,
        0 < den,
    ensures
        rounds_ratio(scale_round(v, num, den), v, num, den),
{
    let a = if v >= 0 {
        v
    } else {
        -v
    };
    let x = 2 * a * num + den;
    let q = x / (2 * den);
    vstd::arithmetic::div_mod::lemma_fundamental_div_mod(x, 2 * den);
    vstd::arithmetic::div_mod::lemma_mod_pos_bound(x, 2 * den);
    assert(2 * den * q == (2 * den) * (x / (2 * den)));
    assert(-den < 2 * q * den - 2 * a * num <= den) by (nonlinear_arith)
        requires
            x == (2 * den) * q + x % (2 * den),
            0 <= x % (2 * den) < 2 * den,
            x == 2 * a * num + den,
    ;
    if v >= 0 {
        assert(scale_round(v, num, den) == q);
    } else {
        assert(scale_round(v, num, den) == -q);
        assert(2 * (-q) * den - 2 * v * num == -(2 * q * den - 2 * a * num)) by (nonlinear_arith)
            requires
                a == -v,
        ;
    }
}

proof fn lemma_scaled_near(v: int, num: int, den: int)
    requires
        0 <= num,
        0 < den,
        ratio_fits(v, num, den),
    ensures
        rounds_ratio(scaled(v, num, den), v, num, den),
{
    let q = scale_round(v, num, den);
    lemma_scale_round_near(v, num, den);
    assert(i32::MIN as int <= q <= i32::MAX as int) by (nonlinear_arith)
        requires
            -den <= 2 * q * den - 2 * v * num <= den,
            (i32::MIN as int) * den <= v * num <= (i32::MAX as int) * den,
            0 < den,
    ;
}

/// A layout that did not lie inside the saved work area is carried over with
/// the whole display: its x and width are the saved ones scaled by the new
/// width over the old, its y and height the saved ones scaled by the new
/// height over the old, each rounded to a nearest integer (where the exact
/// value fits in `i32`). So a layout filling the bottom half of the saved
/// display fills the bottom half of the new monitor.
pub proof fn whole_display_layout_scales_by_each_axis(l: LayoutRect, c: CapturedDisplay, m: MonitorInfo)
    requires
        c.width > 0,
        c.height > 0,
        m.width > 0,
        m.height > 0,
        !same_geometry(c, m),
        !saved_in_work_area(l, c, m),
    ensures
        ratio_fits(l.x as int, m.width as int, c.width as int) ==> rounds_ratio(
            captured_layout(l, c, m).0,
            l.x as int,
            m.width as int,
            c.width as int,
        ),
        ratio_fits(l.y as int, m.height as int, c.height as int) ==> rounds_ratio(
            captured_layout(l, c, m).1,
            l.y as int,
            m.height as int,
            c.height as int,
        ),
        ratio_fits(l.width as int, m.width as int, c.width as int) ==> rounds_ratio(
            captured_layout(l, c, m).2,
            l.width as int,
            m.width as int,
            c.width as int,
        ),
        ratio_fits(l.height as int, m.height as int, c.height as int) ==> rounds_ratio(
            captured_layout(l, c, m).3,
            l.height as int,
            m.height as int,
            c.height as int,
        ),
{
    if ratio_fits(l.x as int, m.width as int, c.width as int) {
        lemma_scaled_near(l.x as int, m.width as int, c.width as int);
    }
    if ratio_fits(l.y as int, m.height as int, c.height as int) {
        lemma_scaled_near(l.y as int, m.height as int, c.height as int);
    }
    if ratio_fits(l.width as int, m.width as int, c.width as int) {
        lemma_scaled_near(l.width as int, m.width as int, c.width as int);
    }
    if ratio_fits(l.height as int, m.height as int, c.height as int) {
        lemma_scaled_near(l.height as int, m.height as int, c.height as int);
    }
}

/// A layout that lay inside the saved work area keeps its place in the work
/// area: its offset from the new work area's corner is its offset from the
/// saved work area's corner scaled by the ratio of the work-area sizes in
/// each direction, and so is its size, each rounded to a nearest integer
/// (where the exact value fits in `i32`).
pub proof fn work_area_layout_keeps_its_place(l: LayoutRect, c: CapturedDisplay, m: MonitorInfo)
    requires
        c.width > 0,
        c.height > 0,
        m.width > 0,
        m.height > 0,
        !same_geometry(c, m),
        saved_in_work_area(l, c, m),
        in_i32(l.x - c.work_x),
        in_i32(l.y - c.work_y),
    ensures
        ratio_fits(l.x - c.work_x, m.work_width as int, c.work_width as int) ==> rounds_ratio(
            captured_layout(l, c, m).0 - (m.work_x - m.x),
            l.x - c.work_x,
            m.work_width as int,
            c.work_width as int,
        ),
        ratio_fits(l.y - c.work_y, m.work_height as int, c.work_height as int) ==> rounds_ratio(
            captured_layout(l, c, m).1 - (m.work_y - m.y),
            l.y - c.work_y,
            m.work_height as int,
            c.work_height as int,
        ),
        ratio_fits(l.width as int, m.work_width as int, c.work_width as int) ==> rounds_ratio(
            captured_layout(l, c, m).2,
            l.width as int,
            m.work_width as int,
            c.work_width as int,
        ),
        ratio_fits(l.height as int, m.work_height as int, c.work_height as int) ==> rounds_ratio(
            captured_layout(l, c, m).3,
            l.height as int,
            m.work_height as int,
            c.work_height as int,
        ),
{
    if ratio_fits(l.x - c.work_x, m.work_width as int, c.work_width as int) {
        lemma_scaled_near(l.x - c.work_x, m.work_width as int, c.work_width as int);
    }
    if ratio_fits(l.y - c.work_y, m.work_height as int, c.work_height as int) {
        lemma_scaled_near(l.y - c.work_y, m.work_height as int, c.work_height as int);
    }
    if ratio_fits(l.width as int, m.work_width as int, c.work_width as int) {
        lemma_scaled_near(l.width as int, m.work_width as int, c.work_width as int);
    }
    if ratio_fits(l.height as int, m.work_height as int, c.work_height as int) {
        lemma_scaled_near(l.height as int, m.work_height as int, c.work_height as int);
    }
}

/// On a display whose geometry has not changed, or when either geometry is
/// empty, the saved layout is kept as it is.
pub proof fn unchanged_display_keeps_the_layout(l: LayoutRect, c: CapturedDisplay, m: MonitorInfo)
    requires
        same_geometry(c, m) || c.width <= 0 || c.height <= 0 || m.width <= 0 || m.height <= 0,
    ensures
        captured_layout(l, c, m) == (l.x as int, l.y as int, l.width as int, l.height as int),
{
}

/// A profile's fallback layout for one app on monitor `m`: the app's layout
/// relative to the profile's canvas, scaled to the monitor, its corner kept
/// on the monitor and its size kept within the room left (at least 80
/// pixels where there is that much room).
pub open spec fn fallback_layout(apps: Seq<AppConfig>, app: AppConfig, m: MonitorInfo) -> LayoutRect {
    match canvas(apps) {
        None => app.layout,
        Some(c) => if c.2 <= 0 || c.3 <= 0 || m.width <= 0 || m.height <= 0 {
            app.layout
        } else {
            let x = clamp_int(
                scaled(sat_sub(app.layout.x as int, c.0), m.width as int, c.2),
                0,
                sat_sub(m.width as int, 1),
            );
            let y = clamp_int(
                scaled(sat_sub(app.layout.y as int, c.1), m.height as int, c.3),
                0,
                sat_sub(m.height as int, 1),
            );
            let aw = max_int(m.width - x, 1);
            let ah = max_int(m.height - y, 1);
            LayoutRect {
                x: x as i32,
                y: y as i32,
                width: clamp_int(
                    scaled(app.layout.width as int, m.width as int, c.2),
                    min_int(80, aw),
                    aw,
                ) as i32,
                height: clamp_int(
                    scaled(app.layout.height as int, m.height as int, c.3),
                    min_int(80, ah),
                    ah,
                ) as i32,
            }
        },
    }
}

pub fn scaled_layout_for_monitor(profile: &Profile, app: &AppConfig, monitor: &MonitorInfo) -> (r:
    LayoutRect)
    ensures
        r == fallback_layout(profile.apps@, *app, *monitor),
{
    let (cx, cy, cw, ch) = match layout_canvas(&profile.apps) {
        Some(c) => c,
        None => {
            return app.layout;
        },
    };
    if cw <= 0 || ch <= 0 || monitor.width <= 0 || monitor.height <= 0 {
        return app.layout;
    }
    let x = clamp_i32(
        scale_i32(sat_sub_i32(app.layout.x, cx), monitor.width, cw),
        0,
        sat_sub_i32(monitor.width, 1),
    );
    let y = clamp_i32(
        scale_i32(sat_sub_i32(app.layout.y, cy), monitor.height, ch),
        0,
        sat_sub_i32(monitor.height, 1),
    );
    let available_width = if monitor.width - x >= 1 {
        monitor.width - x
    } else {
        1
    };
    let available_height = if monitor.height - y >= 1 {
        monitor.height - y
    } else {
        1
    };
    let min_width = if available_width < 80 {
        available_width
    } else {
        80
    };
    let min_height = if available_height < 80 {
        available_height
    } else {
        80
    };
    let width = clamp_i32(
        scale_i32(app.layout.width, monitor.width, cw),
        min_width,
        available_width,
    );
    let height = clamp_i32(
        scale_i32(app.layout.height, monitor.height, ch),
        min_height,
        available_height,
    );
    LayoutRect { x, y, width, height }
}

/// At least part of the layout, as wide and tall as the layout or 80 pixels
/// (whichever is less), lies on the monitor (in monitor coordinates).
pub open spec fn usable_visible_area(l: LayoutRect, m: MonitorInfo) -> bool {
    let right = sat_add(l.x as int, l.width as int);
    let bottom = sat_add(l.y as int, l.height as int);
    let visible_width = sat_sub(min_int(right, m.width as int), max_int(l.x as int, 0));
    let visible_height = sat_sub(min_int(bottom, m.height as int), max_int(l.y as int, 0));
    visible_width >= min_int(l.width as int, 80) && visible_height >= min_int(l.height as int, 80)
}

pub fn layout_has_usable_visible_area(layout: &LayoutRect, monitor: &MonitorInfo) -> (r: bool)
    ensures
        r == usable_visible_area(*layout, *monitor),
{
    let right = sat_add_i32(layout.x, layout.width);
    let bottom = sat_add_i32(layout.y, layout.height);
    let right_edge = if right < monitor.width {
        right
    } else {
        monitor.width
    };
    let bottom_edge = if bottom < monitor.height {
        bottom
    } else {
        monitor.height
    };
    let left_edge = if layout.x > 0 {
        layout.x
    } else {
        0
    };
    let top_edge = if layout.y > 0 {
        layout.y
    } else {
        0
    };
    let visible_width = sat_sub_i32(right_edge, left_edge);
    let visible_height = sat_sub_i32(bottom_edge, top_edge);
    let min_visible_width = if layout.width < 80 {
        layout.width
    } else {
        80
    };
    let min_visible_height = if layout.height < 80 {
        layout.height
    } else {
        80
    };
    visible_width >= min_visible_width && visible_height >= min_visible_height
}

/// The layout kept on the monitor: its size clamped to the monitor (and to at
/// least 80 pixels where the monitor has that much room); its position kept
/// when a usable part of it is visible, else clamped so that it lies wholly
/// on the monitor.
pub open spec fn visible_layout(l: LayoutRect, m: MonitorInfo) -> LayoutRect {
    let mw = max_int(m.width as int, 1);
    let mh = max_int(m.height as int, 1);
    let width = clamp_int(l.width as int, min_int(80, mw), mw);
    let height = clamp_int(l.height as int, min_int(80, mh), mh);
    let candidate = LayoutRect { x: l.x, y: l.y, width: width as i32, height: height as i32 };
    if usable_visible_area(candidate, m) {
        candidate
    } else {
        LayoutRect {
            x: clamp_int(l.x as int, 0, sat_sub(mw, width)) as i32,
            y: clamp_int(l.y as int, 0, sat_sub(mh, height)) as i32,
            width: width as i32,
            height: height as i32,
        }
    }
}

pub fn keep_layout_visible_on_monitor(layout: &LayoutRect, monitor: &MonitorInfo) -> (r: LayoutRect)
    ensures
        r == visible_layout(*layout, *monitor),
{
    let monitor_width = if monitor.width > 1 {
        monitor.width
    } else {
        1
    };
    let monitor_height = if monitor.height > 1 {
        monitor.height
    } else {
        1
    };
    let min_width = if monitor_width < 80 {
        monitor_width
    } else {
        80
    };
    let min_height = if monitor_height < 80 {
        monitor_height
    } else {
        80
    };
    let width = clamp_i32(layout.width, min_width, monitor_width);
    let height = clamp_i32(layout.height, min_height, monitor_height);
    let candidate = LayoutRect { x: layout.x, y: layout.y, width, height };
    if layout_has_usable_visible_area(&candidate, monitor) {
        return candidate;
    }
    let x = clamp_i32(layout.x, 0, sat_sub_i32(monitor_width, width));
    let y = clamp_i32(layout.y, 0, sat_sub_i32(monitor_height, height));
    LayoutRect { x, y, width, height }
}

/// On a monitor at least one pixel wide and tall, the kept layout always has
/// a usable visible part and is no larger than the monitor.
pub proof fn visible_layout_is_visible(l: LayoutRect, m: MonitorInfo)
    requires
        m.width >= 1,
        m.height >= 1,
    ensures
        usable_visible_area(visible_layout(l, m), m),
        visible_layout(l, m).width <= m.width,
        visible_layout(l, m).height <= m.height,
{
}

/// On a monitor whose geometry is within bounds, a kept layout can be placed
/// on the virtual desktop without leaving `i32`.
pub proof fn lemma_visible_layout_fits(l: LayoutRect, m: MonitorInfo)
    requires
        m.wf(),
    ensures
        absolute_fits(m, visible_layout(l, m)),
{
}

/// Keeping a layout visible twice changes nothing the second time.
pub proof fn visible_layout_is_idempotent(l: LayoutRect, m: MonitorInfo)
    ensures
        visible_layout(visible_layout(l, m), m) == visible_layout(l, m),
{
}

/// Two coordinates that differ by at most one pixel.
pub open spec fn nearly(a: int, b: int) -> bool {
    -1 <= a - b <= 1
}

pub fn nearly_equal(left: i32, right: i32) -> (r: bool)
    ensures
        r == nearly(left as int, right as int),
{
    let d: i64 = left as i64 - right as i64;
    -1 <= d && d <= 1
}

/// The window already sits where the layout puts it on the monitor: its
/// corner within a pixel, and its size too when the entry forces a size.
pub open spec fn geometry_matches(w: WindowInfo, m: MonitorInfo, force_resize: bool, l: LayoutRect) -> bool {
    let r = absolute_of(m, l);
    &&& nearly(w.x as int, r.left as int)
    &&& nearly(w.y as int, r.top as int)
    &&& (!force_resize || (nearly(w.width as int, l.width as int) && nearly(
        w.height as int,
        l.height as int,
    )))
}

/// Whether the window sits where the layout puts it (see `geometry_matches`).
pub fn window_geometry_matches(
    window: &WindowInfo,
    monitor: &MonitorInfo,
    force_resize: bool,
    layout: &LayoutRect,
) -> (r: bool)
    requires
        absolute_fits(*monitor, *layout),
    ensures
        r == geometry_matches(*window, *monitor, force_resize, *layout),
{
    let rect = absolute_rect(monitor, layout);
    nearly_equal(window.x, rect.left) && nearly_equal(window.y, rect.top) && (!force_resize || (
    nearly_equal(window.width, rect.right - rect.left) && nearly_equal(
        window.height,
        rect.bottom - rect.top,
    )))
}

pub fn window_geometry_matches_layout(
    window: &WindowInfo,
    monitor: &MonitorInfo,
    app: &AppConfig,
    layout: &LayoutRect,
) -> (r: bool)
    requires
        absolute_fits(*monitor, *layout),
    ensures
        r == geometry_matches(*window, *monitor, app.force_resize, *layout),
{
    window_geometry_matches(window, monitor, app.force_resize, layout)
}

/// Nothing is left to do for the window: it is not to be pulled, restored
/// or activated, the entry wants the normal state, and the window already
/// matches the layout.
pub open spec fn layout_is_current(
    w: WindowInfo,
    m: MonitorInfo,
    app: AppConfig,
    l: LayoutRect,
    pull_hidden: bool,
    restore_minimized: bool,
    activate: bool,
) -> bool {
    !pull_hidden && !restore_minimized && !activate && app.window_state
        == crate::models::WindowStatePreference::Normal && geometry_matches(w, m, app.force_resize, l)
}

pub fn window_layout_is_current(
    window: &WindowInfo,
    monitor: &MonitorInfo,
    app: &AppConfig,
    layout: &LayoutRect,
    pull_hidden_window: bool,
    restore_minimized_window: bool,
    activate_window: bool,
) -> (r: bool)
    requires
        absolute_fits(*monitor, *layout),
    ensures
        r == layout_is_current(
            *window,
            *monitor,
            *app,
            *layout,
            pull_hidden_window,
            restore_minimized_window,
            activate_window,
        ),
{
    if pull_hidden_window || restore_minimized_window || activate_window || app.window_state
        != crate::models::WindowStatePreference::Normal {
        return false;
    }
    window_geometry_matches_layout(window, monitor, app, layout)
}

} // verus!
