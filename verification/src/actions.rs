//! What placing, showing and waking a window does, decided from what the
//! system reports about it; the calls themselves are made by the caller.
use vstd::prelude::*;

use crate::models::{LayoutRect, MonitorInfo, WindowStatePreference};
use crate::placement::{
    absolute_fits, absolute_of, absolute_rect, adjust_rect_for_frame_margins, in_i32,
    margins_fit, FrameMargins, Rect,
};
use crate::text::{contains, lower, str_contains, to_lower};

verus! {

/// What is done to the window once it has been moved.
#[derive(Debug, Clone, Copy, PartialEq, Eq, Structural)]
pub enum PostPlacement {
    /// Nothing: the window stays as it is.
    Keep,
    /// It is asked to maximize.
    Maximize,
    /// It is minimized without being activated.
    Minimize,
}

/// The steps of placing a window, in order: show it (restoring it when
/// minimized) or un-maximize it without activating, move it to `rect` (and
/// size it to `width` by `height` when `resize`), apply the saved state,
/// repaint it, and activate it.
#[derive(Debug, Clone, Copy, PartialEq, Eq, Structural)]
pub struct PlacementPlan {
    pub show_first: bool,
    pub unmaximize_first: bool,
    pub rect: Rect,
    pub resize: bool,
    pub width: i32,
    pub height: i32,
    pub post: PostPlacement,
    pub refresh: bool,
    pub activate: bool,
}

/// The rectangles formed along the way stay within `i32`: the absolute
/// rectangle, the one widened by the margins, and its extents when it is
/// sized.
pub open spec fn plan_fits(
    monitor: MonitorInfo,
    layout: LayoutRect,
    margins: Option<FrameMargins>,
    force_resize: bool,
) -> bool {
    let t = target_rect(monitor, layout, margins);
    &&& absolute_fits(monitor, layout)
    &&& (margins matches Some(g) ==> margins_fit(absolute_of(monitor, layout), g))
    &&& (force_resize ==> in_i32(t.right - t.left) && in_i32(t.bottom - t.top))
}

fn fits_i32(v: i64) -> (r: bool)
    ensures
        r == in_i32(v as int),
{
    i32::MIN as i64 <= v && v <= i32::MAX as i64
}

/// Whether `plan_placement` can be asked for this placement (its
/// rectangles stay within `i32`).
pub fn placement_fits(
    monitor: &MonitorInfo,
    layout: &LayoutRect,
    margins: Option<FrameMargins>,
    force_resize: bool,
) -> (r: bool)
    ensures
        r == plan_fits(*monitor, *layout, margins, force_resize),
{
    let left = monitor.x as i64 + layout.x as i64;
    let top = monitor.y as i64 + layout.y as i64;
    let right = left + layout.width as i64;
    let bottom = top + layout.height as i64;
    if !(fits_i32(left) && fits_i32(top) && fits_i32(right) && fits_i32(bottom)) {
        return false;
    }
    let (l, t, r, b) = match margins {
        Some(g) => (
            left - g.left as i64,
            top - g.top as i64,
            right + g.right as i64,
            bottom + g.bottom as i64,
        ),
        None => (left, top, right, bottom),
    };
    if !(fits_i32(l) && fits_i32(t) && fits_i32(r) && fits_i32(b)) {
        return false;
    }
    !force_resize || (fits_i32(r - l) && fits_i32(b - t))
}

/// The outer rectangle the window is moved to: the layout's frame rectangle
/// widened by the window's invisible margins, when they are known.
pub open spec fn target_rect(m: MonitorInfo, l: LayoutRect, margins: Option<FrameMargins>) -> Rect {
    let f = absolute_of(m, l);
    match margins {
        Some(g) => Rect {
            left: (f.left - g.left) as i32,
            top: (f.top - g.top) as i32,
            right: (f.right + g.right) as i32,
            bottom: (f.bottom + g.bottom) as i32,
        },
        None => f,
    }
}

/// How a window is placed to `layout` on `monitor` in `state`, given whether
/// it is minimized (`iconic`) or maximized (`zoomed`) now and its frame
/// margins when they could be read.
pub open spec fn placement_plan(
    monitor: MonitorInfo,
    layout: LayoutRect,
    state: WindowStatePreference,
    force_resize: bool,
    restore_if_minimized: bool,
    pull_hidden: bool,
    activate_after_show: bool,
    iconic: bool,
    zoomed: bool,
    margins: Option<FrameMargins>,
) -> PlacementPlan {
    let show = pull_hidden || (restore_if_minimized && iconic);
    let rect = target_rect(monitor, layout, margins);
    PlacementPlan {
        show_first: show,
        unmaximize_first: !show && state != WindowStatePreference::Minimized && zoomed,
        rect,
        resize: force_resize,
        width: if force_resize {
            (rect.right - rect.left) as i32
        } else {
            0
        },
        height: if force_resize {
            (rect.bottom - rect.top) as i32
        } else {
            0
        },
        post: match state {
            WindowStatePreference::Normal => PostPlacement::Keep,
            WindowStatePreference::Maximized => PostPlacement::Maximize,
            WindowStatePreference::Minimized => PostPlacement::Minimize,
        },
        refresh: state != WindowStatePreference::Minimized,
        activate: activate_after_show,
    }
}

pub fn plan_placement(
    monitor: &MonitorInfo,
    layout: &LayoutRect,
    state: WindowStatePreference,
    force_resize: bool,
    restore_if_minimized: bool,
    pull_hidden: bool,
    activate_after_show: bool,
    iconic: bool,
    zoomed: bool,
    margins: Option<FrameMargins>,
) -> (r: PlacementPlan)
    requires
        plan_fits(*monitor, *layout, margins, force_resize),
    ensures
        r == placement_plan(
            *monitor,
            *layout,
            state,
            force_resize,
            restore_if_minimized,
            pull_hidden,
            activate_after_show,
            iconic,
            zoomed,
            margins,
        ),
{
    let show = pull_hidden || (restore_if_minimized && iconic);
    let frame = absolute_rect(monitor, layout);
    let rect = match margins {
        Some(g) => adjust_rect_for_frame_margins(frame, g),
        None => frame,
    };
    let width = if force_resize {
        rect.right - rect.left
    } else {
        0
    };
    let height = if force_resize {
        rect.bottom - rect.top
    } else {
        0
    };
    let post = match state {
        WindowStatePreference::Normal => PostPlacement::Keep,
        WindowStatePreference::Maximized => PostPlacement::Maximize,
        WindowStatePreference::Minimized => PostPlacement::Minimize,
    };
    let not_minimized = match state {
        WindowStatePreference::Minimized => false,
        _ => true,
    };
    PlacementPlan {
        show_first: show,
        unmaximize_first: !show && not_minimized && zoomed,
        rect,
        resize: force_resize,
        width,
        height,
        post,
        refresh: not_minimized,
        activate: activate_after_show,
    }
}

/// How a window is shown for a restore.
#[derive(Debug, Clone, Copy, PartialEq, Eq, Structural)]
pub enum ShowCommand {
    /// Restore it from the taskbar (it is minimized).
    Restore,
    /// Show it without activating it.
    ShowNoActivate,
}

pub fn show_command(iconic: bool) -> (r: ShowCommand)
    ensures
        r == (if iconic {
            ShowCommand::Restore
        } else {
            ShowCommand::ShowNoActivate
        }),
{
    if iconic {
        ShowCommand::Restore
    } else {
        ShowCommand::ShowNoActivate
    }
}

/// A window of a Qt app through which its tray icon is clicked: its class
/// or title names Qt's tray message window (case aside).
pub open spec fn tray_message_window(class_name: Seq<char>, title: Seq<char>) -> bool {
    contains(lower(class_name), "trayiconmessagewindowclass"@) || contains(
        lower(title),
        "qtrayiconmessagewindow"@,
    )
}

pub fn is_tray_message_window(class_name: &str, title: &str) -> (r: bool)
    ensures
        r == tray_message_window(class_name@, title@),
{
    let class = to_lower(class_name);
    let lowered_title = to_lower(title);
    str_contains(class.as_str(), "trayiconmessagewindowclass") || str_contains(
        lowered_title.as_str(),
        "qtrayiconmessagewindow",
    )
}

/// After waking a window that was not to stay active, focus goes back to the
/// window that had it, when that was another window that still exists and
/// the woken window took the focus.
pub fn returns_focus(
    keep_active: bool,
    previous_is_target: bool,
    target_has_focus: bool,
    previous_exists: bool,
) -> (r: bool)
    ensures
        r == (!keep_active && !previous_is_target && target_has_focus && previous_exists),
{
    !keep_active && !previous_is_target && target_has_focus && previous_exists
}

/// What one look at a woken window's client area says.
#[derive(Debug, Clone, Copy, PartialEq, Eq, Structural)]
pub enum SurfaceCheck {
    /// It is painted.
    Ready,
    /// It could not be sampled: wait a moment, then take it as painted.
    ReadyAfterPause,
    /// Not yet: it is hidden, minimized or still blank.
    NotYet,
}

/// The pause before a surface that could not be sampled is taken as
/// painted, in milliseconds.
pub const UNSAMPLED_SURFACE_PAUSE_MS: u64 = 250;

/// A window that is visible and restored is ready once its sampled client
/// area is not blank, or after a pause when it could not be sampled.
pub fn surface_check(visible_and_restored: bool, blank: Option<bool>) -> (r: SurfaceCheck)
    ensures
        !visible_and_restored ==> r == SurfaceCheck::NotYet,
        visible_and_restored ==> r == match blank {
            Some(false) => SurfaceCheck::Ready,
            None => SurfaceCheck::ReadyAfterPause,
            Some(true) => SurfaceCheck::NotYet,
        },
{
    if !visible_and_restored {
        return SurfaceCheck::NotYet;
    }
    match blank {
        Some(false) => SurfaceCheck::Ready,
        None => SurfaceCheck::ReadyAfterPause,
        Some(true) => SurfaceCheck::NotYet,
    }
}

} // verus!
