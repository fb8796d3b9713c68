//! Monitor resolution for region capture: pick the display whose bounds
//! contain a region's rectangle, falling back to the first display.

use vstd::prelude::*;
use crate::domain::Rect;

verus! {

/// The plain geometry of one display, as an enumeration reports it.
#[derive(Clone, Copy, PartialEq, Eq, Structural, Debug)]
pub struct MonitorGeometry {
    pub x: i32,
    pub y: i32,
    pub width: u32,
    pub height: u32,
}

/// The rectangle lies fully inside the monitor's bounds.
pub open spec fn contains_rect(m: MonitorGeometry, r: Rect) -> bool {
    &&& r.x >= m.x
    &&& r.y >= m.y
    &&& r.x + r.width <= m.x + m.width
    &&& r.y + r.height <= m.y + m.height
}

/// The index of the first monitor containing the rectangle; the first
/// monitor when none contains it; `None` only without any monitor.
pub fn find_monitor_index(monitors: &Vec<MonitorGeometry>, rect: &Rect) -> (r: Option<usize>)
    ensures
        match r {
            Some(i) => {
                &&& i < monitors@.len()
                &&& (contains_rect(monitors@[i as int], *rect) || (i == 0 && forall|k: int|
                    0 <= k < monitors@.len() ==> !contains_rect(#[trigger] monitors@[k], *rect)))
                &&& forall|k: int|
                    0 <= k < i ==> !contains_rect(#[trigger] monitors@[k], *rect)
            },
            None => monitors@.len() == 0,
        },
{
    let mut i: usize = 0;
    while i < monitors.len()
        invariant
            i <= monitors@.len(),
            forall|k: int| 0 <= k < i ==> !contains_rect(#[trigger] monitors@[k], *rect),
        decreases monitors@.len() - i,
    {
        let m = monitors[i];
        // All bounds fit in i64, so the containment test cannot overflow.
        let fits = (rect.x as i64) >= (m.x as i64) && (rect.y as i64) >= (m.y as i64) && (
        rect.x as i64) + (rect.width as i64) <= (m.x as i64) + (m.width as i64) && (
        rect.y as i64) + (rect.height as i64) <= (m.y as i64) + (m.height as i64);
        if fits {
            return Some(i);
        }
        i += 1;
    }
    if monitors.len() > 0 {
        Some(0)
    } else {
        None
    }
}

} // verus!
