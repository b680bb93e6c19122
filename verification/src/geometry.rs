//! Integer geometry of saved layouts: saturating arithmetic, the canvas a
//! profile's layouts span, and size distances between a canvas and a monitor.
use vstd::prelude::*;

use crate::models::{AppConfig, MonitorInfo};

verus! {

pub open spec fn clamp_i32_range(v: int) -> int {
    if v < i32::MIN {
        i32::MIN as int
    } else if v > i32::MAX {
        i32::MAX as int
    } else {
        v
    }
}

/// `i32::saturating_add`.
pub open spec fn sat_add(a: int, b: int) -> int {
    clamp_i32_range(a + b)
}

/// `i32::saturating_sub`.
pub open spec fn sat_sub(a: int, b: int) -> int {
    clamp_i32_range(a - b)
}

pub fn sat_add_i32(a: i32, b: i32) -> (r: i32)
    ensures
        r == sat_add(a as int, b as int),
{
    let s: i64 = a as i64 + b as i64;
    if s < i32::MIN as i64 {
        i32::MIN
    } else if s > i32::MAX as i64 {
        i32::MAX
    } else {
        s as i32
    }
}

pub fn sat_sub_i32(a: i32, b: i32) -> (r: i32)
    ensures
        r == sat_sub(a as int, b as int),
{
    let s: i64 = a as i64 - b as i64;
    if s < i32::MIN as i64 {
        i32::MIN
    } else if s > i32::MAX as i64 {
        i32::MAX
    } else {
        s as i32
    }
}

pub open spec fn min_int(a: int, b: int) -> int {
    if a <= b {
        a
    } else {
        b
    }
}

pub open spec fn max_int(a: int, b: int) -> int {
    if a >= b {
        a
    } else {
        b
    }
}

pub open spec fn seq_min(s: Seq<int>) -> int
    decreases s.len(),
{
    if s.len() <= 1 {
        if s.len() == 1 {
            s[0]
        } else {
            0
        }
    } else {
        min_int(seq_min(s.drop_last()), s.last())
    }
}

pub open spec fn seq_max(s: Seq<int>) -> int
    decreases s.len(),
{
    if s.len() <= 1 {
        if s.len() == 1 {
            s[0]
        } else {
            0
        }
    } else {
        max_int(seq_max(s.drop_last()), s.last())
    }
}

pub open spec fn lefts(apps: Seq<AppConfig>) -> Seq<int> {
    Seq::new(apps.len(), |k: int| apps[k].layout.x as int)
}

pub open spec fn tops(apps: Seq<AppConfig>) -> Seq<int> {
    Seq::new(apps.len(), |k: int| apps[k].layout.y as int)
}

pub open spec fn rights(apps: Seq<AppConfig>) -> Seq<int> {
    Seq::new(apps.len(), |k: int| sat_add(apps[k].layout.x as int, apps[k].layout.width as int))
}

pub open spec fn bottoms(apps: Seq<AppConfig>) -> Seq<int> {
    Seq::new(apps.len(), |k: int| sat_add(apps[k].layout.y as int, apps[k].layout.height as int))
}

/// The canvas the saved layouts of `apps` span, including the origin:
/// (left, top, width, height), width and height at least 1; none for no apps.
pub open spec fn canvas(apps: Seq<AppConfig>) -> Option<(int, int, int, int)> {
    if apps.len() == 0 {
        None
    } else {
        let left = min_int(seq_min(lefts(apps)), 0);
        let top = min_int(seq_min(tops(apps)), 0);
        let right = seq_max(rights(apps));
        let bottom = seq_max(bottoms(apps));
        Some((left, top, max_int(sat_sub(right, left), 1), max_int(sat_sub(bottom, top), 1)))
    }
}

proof fn lemma_take_push<A>(s: Seq<A>, i: int)
    requires
        0 <= i < s.len(),
    ensures
        s.take(i + 1).drop_last() == s.take(i),
        s.take(i + 1).last() == s[i],
{
    assert(s.take(i + 1).drop_last() =~= s.take(i));
}

/// The canvas of a profile's layouts (see `canvas`).
pub fn layout_canvas(apps: &Vec<AppConfig>) -> (r: Option<(i32, i32, i32, i32)>)
    ensures
        r matches Some(t) ==> canvas(apps@) == Some((t.0 as int, t.1 as int, t.2 as int, t.3 as int)),
        r is None ==> canvas(apps@) is None,
{
    let n = apps.len();
    if n == 0 {
        return None;
    }
    let mut left = apps[0].layout.x;
    let mut top = apps[0].layout.y;
    let mut right = sat_add_i32(apps[0].layout.x, apps[0].layout.width);
    let mut bottom = sat_add_i32(apps[0].layout.y, apps[0].layout.height);
    let mut i: usize = 1;
    proof {
        assert(lefts(apps@).take(1) =~= seq![apps@[0].layout.x as int]);
        assert(tops(apps@).take(1) =~= seq![apps@[0].layout.y as int]);
        assert(rights(apps@).take(1) =~= seq![rights(apps@)[0]]);
        assert(bottoms(apps@).take(1) =~= seq![bottoms(apps@)[0]]);
    }
    while i < n
        invariant
            1 <= i <= n,
            n == apps@.len(),
            left == seq_min(lefts(apps@).take(i as int)),
            top == seq_min(tops(apps@).take(i as int)),
            right == seq_max(rights(apps@).take(i as int)),
            bottom == seq_max(bottoms(apps@).take(i as int)),
        decreases n - i,
    {
        proof {
            lemma_take_push(lefts(apps@), i as int);
            lemma_take_push(tops(apps@), i as int);
            lemma_take_push(rights(apps@), i as int);
            lemma_take_push(bottoms(apps@), i as int);
        }
        let x = apps[i].layout.x;
        let y = apps[i].layout.y;
        let r = sat_add_i32(apps[i].layout.x, apps[i].layout.width);
        let b = sat_add_i32(apps[i].layout.y, apps[i].layout.height);
        if x < left {
            left = x;
        }
        if y < top {
            top = y;
        }
        if r > right {
            right = r;
        }
        if b > bottom {
            bottom = b;
        }
        i = i + 1;
    }
    proof {
        assert(lefts(apps@).take(n as int) =~= lefts(apps@));
        assert(tops(apps@).take(n as int) =~= tops(apps@));
        assert(rights(apps@).take(n as int) =~= rights(apps@));
        assert(bottoms(apps@).take(n as int) =~= bottoms(apps@));
    }
    if left > 0 {
        left = 0;
    }
    if top > 0 {
        top = 0;
    }
    let mut width = sat_sub_i32(right, left);
    if width < 1 {
        width = 1;
    }
    let mut height = sat_sub_i32(bottom, top);
    if height < 1 {
        height = 1;
    }
    Some((left, top, width, height))
}

/// Width and height of a profile's canvas.
pub open spec fn profile_size(apps: Seq<AppConfig>) -> Option<(int, int)> {
    match canvas(apps) {
        Some(c) => Some((c.2, c.3)),
        None => None,
    }
}

pub fn profile_target_size(apps: &Vec<AppConfig>) -> (r: Option<(i32, i32)>)
    ensures
        r matches Some(t) ==> profile_size(apps@) == Some((t.0 as int, t.1 as int)),
        r is None ==> profile_size(apps@) is None,
{
    match layout_canvas(apps) {
        Some((_, _, w, h)) => Some((w, h)),
        None => None,
    }
}

/// Width and height an app's saved layout needs from the origin.
pub open spec fn app_size(app: AppConfig) -> (int, int) {
    let l = app.layout;
    let left = min_int(l.x as int, 0);
    let top = min_int(l.y as int, 0);
    (
        max_int(sat_sub(sat_add(l.x as int, l.width as int), left), 1),
        max_int(sat_sub(sat_add(l.y as int, l.height as int), top), 1),
    )
}

pub fn app_target_size(app: &AppConfig) -> (r: (i32, i32))
    ensures
        (r.0 as int, r.1 as int) == app_size(*app),
{
    let left = if app.layout.x < 0 {
        app.layout.x
    } else {
        0
    };
    let top = if app.layout.y < 0 {
        app.layout.y
    } else {
        0
    };
    let mut w = sat_sub_i32(sat_add_i32(app.layout.x, app.layout.width), left);
    if w < 1 {
        w = 1;
    }
    let mut h = sat_sub_i32(sat_add_i32(app.layout.y, app.layout.height), top);
    if h < 1 {
        h = 1;
    }
    (w, h)
}

pub open spec fn abs_diff(a: int, b: int) -> int {
    if a >= b {
        a - b
    } else {
        b - a
    }
}

/// How far a monitor's resolution is from a wanted size.
pub open spec fn size_score(m: MonitorInfo, width: int, height: int) -> int {
    abs_diff(m.width as int, width) + abs_diff(m.height as int, height)
}

pub fn monitor_size_score(monitor: &MonitorInfo, width: i32, height: i32) -> (r: u64)
    ensures
        r == size_score(*monitor, width as int, height as int),
{
    let a: i64 = monitor.width as i64;
    let b: i64 = width as i64;
    let c: i64 = monitor.height as i64;
    let d: i64 = height as i64;
    let dw: u64 = if a >= b {
        (a - b) as u64
    } else {
        (b - a) as u64
    };
    let dh: u64 = if c >= d {
        (c - d) as u64
    } else {
        (d - c) as u64
    };
    dw + dh
}

} // verus!
