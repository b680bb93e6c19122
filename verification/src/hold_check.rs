//! Checking that a placed window keeps its place: it is looked at three
//! times after growing pauses, placed again when it moved, and accepted once
//! it matched twice in a row (or at the last look).
use vstd::prelude::*;

use crate::errors::AppError;
use crate::models::{LayoutRect, MonitorInfo, WindowInfo, WindowStatePreference};
use crate::monitors::{signed_decimal, signed_decimal_string};
use crate::placement::{absolute_fits, absolute_of, geometry_matches, Rect};
use crate::text::join2;

verus! {

/// How many times a placed window is looked at.
pub const HOLD_CHECKS: usize = 3;

/// The pause before look `index`, in milliseconds.
pub open spec fn hold_delay(index: int) -> int {
    if index == 0 {
        80
    } else if index == 1 {
        180
    } else {
        320
    }
}

pub fn hold_delay_ms(index: usize) -> (r: u64)
    requires
        index < HOLD_CHECKS,
    ensures
        r == hold_delay(index as int),
{
    if index == 0 {
        80
    } else if index == 1 {
        180
    } else {
        320
    }
}

/// What the caller does next.
#[derive(Debug)]
pub enum HoldAction {
    /// Sleep, then read the window's geometry (none when it is gone).
    Sleep { ms: u64 },
    /// Place the window again, without showing, restoring or activating it.
    Reapply,
    /// The check is over.
    Done { result: Result<(), AppError> },
}

/// A check of one placed window in progress.
pub struct HoldCheck {
    pub monitor: MonitorInfo,
    pub layout: LayoutRect,
    pub force_resize: bool,
    pub index: usize,
    pub matched_once: bool,
    pub last_window: Option<WindowInfo>,
}

/// "x,y wxh" of a window.
pub open spec fn geometry_text(w: WindowInfo) -> Seq<char> {
    signed_decimal(w.x as int) + ","@ + signed_decimal(w.y as int) + " "@ + signed_decimal(
        w.width as int,
    ) + "x"@ + signed_decimal(w.height as int)
}

/// The error a window that did not keep its place reports.
pub open spec fn hold_failure_text(expected: Rect, last: Option<WindowInfo>) -> Seq<char> {
    "Window did not hold the saved placement. Expected "@ + signed_decimal(expected.left as int)
        + ","@ + signed_decimal(expected.top as int) + " "@ + signed_decimal(
        expected.right - expected.left,
    ) + "x"@ + signed_decimal(expected.bottom - expected.top) + "; got "@ + match last {
        Some(w) => geometry_text(w),
        None => "window unavailable"@,
    }
}

fn geometry_string(w: &WindowInfo) -> (r: String)
    ensures
        r@ == geometry_text(*w),
{
    let a = join2(signed_decimal_string(w.x).as_str(), ",");
    let b = join2(a.as_str(), signed_decimal_string(w.y).as_str());
    let c = join2(b.as_str(), " ");
    let d = join2(c.as_str(), signed_decimal_string(w.width).as_str());
    let e = join2(d.as_str(), "x");
    join2(e.as_str(), signed_decimal_string(w.height).as_str())
}

/// One look further: the next pause, or, after the last look, the failure.
pub open spec fn advances(b: HoldCheck, s: HoldCheck, a: HoldAction) -> bool {
    if b.index + 1 < HOLD_CHECKS {
        &&& s == (HoldCheck { index: (b.index + 1) as usize, ..b })
        &&& a == (HoldAction::Sleep { ms: hold_delay(b.index + 1) as u64 })
    } else {
        &&& s == b
        &&& a matches HoldAction::Done { result: Err(AppError::Windows(m)) } && m@
            == hold_failure_text(absolute_of(b.monitor, b.layout), b.last_window)
    }
}

/// What a look at the window does: a window in place is accepted once it
/// was in place at the look before, or at the last look (else it is looked
/// at again); a window out of place is placed again, except at the last
/// look, which fails; a window that could not be read is looked at again.
pub open spec fn observe_goes(b: HoldCheck, window: Option<WindowInfo>, s: HoldCheck, a: HoldAction) -> bool {
    match window {
        None => advances(b, s, a),
        Some(w) => if geometry_matches(w, b.monitor, b.force_resize, b.layout) {
            if b.matched_once || b.index + 1 == HOLD_CHECKS {
                s == b && a == (HoldAction::Done { result: Ok(()) })
            } else {
                advances(HoldCheck { matched_once: true, last_window: Some(w), ..b }, s, a)
            }
        } else {
            let c = HoldCheck { matched_once: false, last_window: Some(w), ..b };
            if b.index + 1 < HOLD_CHECKS {
                s == c && a is Reapply
            } else {
                advances(c, s, a)
            }
        },
    }
}

impl HoldCheck {
    pub open spec fn wf(&self) -> bool {
        absolute_fits(self.monitor, self.layout) && self.index < HOLD_CHECKS
    }

    /// Starts checking a window just placed for an entry in `state`; a
    /// window that is to be maximized or minimized is not checked.
    pub fn start(
        monitor: MonitorInfo,
        layout: LayoutRect,
        force_resize: bool,
        state: WindowStatePreference,
    ) -> (r: (HoldCheck, HoldAction))
        requires
            absolute_fits(monitor, layout),
        ensures
            r.0.wf(),
            r.0.monitor == monitor,
            r.0.layout == layout,
            r.0.force_resize == force_resize,
            r.0.index == 0,
            !r.0.matched_once,
            r.0.last_window is None,
            state != WindowStatePreference::Normal ==> r.1 == (HoldAction::Done { result: Ok(()) }),
            state == WindowStatePreference::Normal ==> r.1 == (HoldAction::Sleep { ms: 80 }),
    {
        let check = HoldCheck {
            monitor,
            layout,
            force_resize,
            index: 0,
            matched_once: false,
            last_window: None,
        };
        if state != WindowStatePreference::Normal {
            (check, HoldAction::Done { result: Ok(()) })
        } else {
            (check, HoldAction::Sleep { ms: 80 })
        }
    }

    fn failure(&self) -> (r: AppError)
        requires
            self.wf(),
        ensures
            r matches AppError::Windows(m) && m@ == hold_failure_text(
                absolute_of(self.monitor, self.layout),
                self.last_window,
            ),
    {
        let expected = crate::placement::absolute_rect(&self.monitor, &self.layout);
        let a = join2(
            "Window did not hold the saved placement. Expected ",
            signed_decimal_string(expected.left).as_str(),
        );
        let b = join2(a.as_str(), ",");
        let c = join2(b.as_str(), signed_decimal_string(expected.top).as_str());
        let d = join2(c.as_str(), " ");
        let e = join2(d.as_str(), signed_decimal_string(expected.right - expected.left).as_str());
        let f = join2(e.as_str(), "x");
        let g = join2(f.as_str(), signed_decimal_string(expected.bottom - expected.top).as_str());
        let h = join2(g.as_str(), "; got ");
        let actual = match &self.last_window {
            Some(w) => geometry_string(w),
            None => crate::text::copy_str("window unavailable"),
        };
        AppError::Windows(join2(h.as_str(), actual.as_str()))
    }

    /// Moves to the next look, or fails after the last.
    fn advance(&mut self) -> (a: HoldAction)
        requires
            old(self).wf(),
        ensures
            final(self).wf(),
            final(self).monitor == old(self).monitor,
            final(self).layout == old(self).layout,
            final(self).force_resize == old(self).force_resize,
            final(self).matched_once == old(self).matched_once,
            final(self).last_window == old(self).last_window,
            old(self).index + 1 < HOLD_CHECKS ==> final(self).index == old(self).index + 1 && a
                == (HoldAction::Sleep { ms: hold_delay(old(self).index + 1) as u64 }),
            old(self).index + 1 >= HOLD_CHECKS ==> (a matches HoldAction::Done {
                result: Err(AppError::Windows(m)),
            } && m@ == hold_failure_text(absolute_of(old(self).monitor, old(self).layout), old(self).last_window)),
            advances(*old(self), *final(self), a),
    {
        if self.index + 1 < HOLD_CHECKS {
            self.index = self.index + 1;
            HoldAction::Sleep { ms: hold_delay_ms(self.index) }
        } else {
            HoldAction::Done { result: Err(self.failure()) }
        }
    }

    /// What the window looked like after the pause (none when it could not
    /// be read): accepted once it matched twice in a row or at the last look;
    /// placed again when it moved (except at the last look); else looked at
    /// again.
    pub fn observe(&mut self, window: Option<WindowInfo>) -> (a: HoldAction)
        requires
            old(self).wf(),
        ensures
            final(self).wf(),
            final(self).monitor == old(self).monitor,
            final(self).layout == old(self).layout,
            a matches HoldAction::Done { result: Ok(()) } ==> (window matches Some(w)
                && geometry_matches(w, old(self).monitor, old(self).force_resize, old(self).layout)
                && (old(self).matched_once || old(self).index + 1 == HOLD_CHECKS)),
            a is Reapply ==> (window matches Some(w) && !geometry_matches(
                w,
                old(self).monitor,
                old(self).force_resize,
                old(self).layout,
            ) && old(self).index + 1 < HOLD_CHECKS),
            a matches HoldAction::Done { result: Err(e) } ==> old(self).index + 1 == HOLD_CHECKS
                && (e matches AppError::Windows(m) && m@ == hold_failure_text(
                absolute_of(old(self).monitor, old(self).layout),
                final(self).last_window,
            )),
            observe_goes(*old(self), window, *final(self), a),
    {
        match window {
            None => self.advance(),
            Some(w) => {
                if crate::placement::window_geometry_matches(
                    &w,
                    &self.monitor,
                    self.force_resize,
                    &self.layout,
                ) {
                    if self.matched_once || self.index + 1 == HOLD_CHECKS {
                        return HoldAction::Done { result: Ok(()) };
                    }
                    self.matched_once = true;
                    self.last_window = Some(w);
                    self.advance()
                } else {
                    self.matched_once = false;
                    self.last_window = Some(w);
                    if self.index + 1 < HOLD_CHECKS {
                        HoldAction::Reapply
                    } else {
                        self.advance()
                    }
                }
            },
        }
    }

    /// After placing the window again: a failure ends the check with that
    /// error; else the next look follows.
    pub fn reapplied(&mut self, result: Result<(), AppError>) -> (a: HoldAction)
        requires
            old(self).wf(),
            old(self).index + 1 < HOLD_CHECKS,
        ensures
            final(self).wf(),
            final(self).monitor == old(self).monitor,
            final(self).layout == old(self).layout,
            result is Err ==> a == (HoldAction::Done { result: result }),
            result is Ok ==> a == (HoldAction::Sleep { ms: hold_delay(old(self).index + 1) as u64 }),
            result is Err ==> *final(self) == *old(self),
            result is Ok ==> advances(*old(self), *final(self), a),
    {
        match result {
            Err(e) => HoldAction::Done { result: Err(e) },
            Ok(()) => self.advance(),
        }
    }
}

} // verus!
