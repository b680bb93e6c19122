//! Monitor identity: matching saved monitor identifiers against connected
//! monitors, and the identifier a monitor is saved under.
use vstd::prelude::*;

use crate::models::MonitorInfo;
use crate::text::{
    blank, decimal, decimal_string, eq_ignore_case, is_blank, join2, lower, to_lower,
};

verus! {

/// A saved identifier names monitor `m` when it equals, ignoring ASCII case,
/// the monitor's stable identifier or its device name.
pub open spec fn monitor_matches(m: MonitorInfo, id: Seq<char>) -> bool {
    lower(m.id@) == lower(id) || lower(m.device_name@) == lower(id)
}

/// Index of the first monitor at or after `i` that the identifier names.
pub open spec fn find_monitor_from(ms: Seq<MonitorInfo>, id: Seq<char>, i: int) -> Option<int>
    decreases ms.len() - i,
{
    if i < 0 || i >= ms.len() {
        None
    } else if monitor_matches(ms[i], id) {
        Some(i)
    } else {
        find_monitor_from(ms, id, i + 1)
    }
}

pub open spec fn find_monitor(ms: Seq<MonitorInfo>, id: Seq<char>) -> Option<int> {
    find_monitor_from(ms, id, 0)
}

pub proof fn lemma_find_monitor_from_bounds(ms: Seq<MonitorInfo>, id: Seq<char>, i: int)
    ensures
        find_monitor_from(ms, id, i) matches Some(k) ==> i <= k < ms.len() && monitor_matches(
            ms[k],
            id,
        ),
    decreases ms.len() - i,
{
    if 0 <= i < ms.len() && !monitor_matches(ms[i], id) {
        lemma_find_monitor_from_bounds(ms, id, i + 1);
    }
}

/// Whether the saved identifier `id` names monitor `monitor`.
pub fn monitor_id_matches(monitor: &MonitorInfo, id: &str) -> (r: bool)
    ensures
        r == monitor_matches(*monitor, id@),
{
    eq_ignore_case(monitor.id.as_str(), id) || eq_ignore_case(monitor.device_name.as_str(), id)
}

/// The first connected monitor that the saved identifier names.
pub fn find_monitor_index(monitors: &Vec<MonitorInfo>, id: &str) -> (r: Option<usize>)
    ensures
        r matches Some(k) ==> find_monitor(monitors@, id@) == Some(k as int),
        r is None ==> find_monitor(monitors@, id@) is None,
        r matches Some(k) ==> k < monitors@.len() && monitor_matches(monitors@[k as int], id@),
{
    let mut i: usize = 0;
    while i < monitors.len()
        invariant
            i <= monitors.len(),
            find_monitor(monitors@, id@) == find_monitor_from(monitors@, id@, i as int),
        decreases monitors.len() - i,
    {
        if monitor_id_matches(&monitors[i], id) {
            return Some(i);
        }
        i = i + 1;
    }
    None
}

/// Decimal text of a signed number, with a leading '-' when negative.
pub open spec fn signed_decimal(v: int) -> Seq<char> {
    if v < 0 {
        seq!['-'] + decimal((-v) as nat)
    } else {
        decimal(v as nat)
    }
}

pub fn signed_decimal_string(v: i32) -> (r: String)
    ensures
        r@ == signed_decimal(v as int),
{
    if v < 0 {
        let magnitude: u64 = (-(v as i64)) as u64;
        let digits = decimal_string(magnitude);
        let r = join2("-", digits.as_str());
        proof {
            reveal_strlit("-");
            assert("-"@ =~= seq!['-']);
        }
        r
    } else {
        decimal_string(v as u64)
    }
}

/// The identifier a monitor is saved under: its device name in ASCII
/// lowercase, or, for a monitor without a device name,
/// "bounds:<left>:<top>:<width>:<height>".
pub open spec fn stable_monitor_id_spec(
    device_name: Seq<char>,
    left: int,
    top: int,
    width: int,
    height: int,
) -> Seq<char> {
    if blank(device_name) {
        "bounds:"@ + signed_decimal(left) + ":"@ + signed_decimal(top) + ":"@ + signed_decimal(width)
            + ":"@ + signed_decimal(height)
    } else {
        lower(device_name)
    }
}

pub fn stable_monitor_id(device_name: &str, left: i32, top: i32, width: i32, height: i32) -> (r:
    String)
    ensures
        r@ == stable_monitor_id_spec(device_name@, left as int, top as int, width as int, height as int),
{
    if is_blank(device_name) {
        let mut r = join2("bounds:", signed_decimal_string(left).as_str());
        r.append(":");
        r.append(signed_decimal_string(top).as_str());
        r.append(":");
        r.append(signed_decimal_string(width).as_str());
        r.append(":");
        r.append(signed_decimal_string(height).as_str());
        r
    } else {
        to_lower(device_name)
    }
}

} // verus!
