use vstd::prelude::*;
use crate::geometry::{geometry_of, parse_geometry, Geometry};
use crate::registry::str_equals;

verus! {

/// A monitor's place and size in compositor coordinates.
#[derive(Clone, Copy, Debug, PartialEq, Eq, Structural)]
pub struct MonitorRect {
    pub x: i32,
    pub y: i32,
    pub width: i32,
    pub height: i32,
}

/// Why a selected geometry could not be fitted to a monitor.
#[derive(Clone, Copy, Debug, PartialEq, Eq, Structural)]
pub enum TrimError {
    /// The text is not of the form `x,y wxh` with `i32` fields.
    InvalidFormat,
    /// The width or the height is not positive.
    NonPositiveSize,
    /// No monitor holds the top-left corner.
    NoMonitor,
}

pub open spec fn holds_point(m: MonitorRect, x: int, y: int) -> bool {
    &&& m.x <= x < m.x + m.width
    &&& m.y <= y < m.y + m.height
}

/// The index of the first monitor that holds the point.
pub open spec fn first_monitor_at(ms: Seq<MonitorRect>, x: int, y: int) -> Option<int> {
    if exists|i: int| 0 <= i < ms.len() && holds_point(ms[i], x, y) {
        Some(
            choose|i: int|
                0 <= i < ms.len() && holds_point(ms[i], x, y) && forall|j: int|
                    0 <= j < i ==> !holds_point(#[trigger] ms[j], x, y),
        )
    } else {
        None
    }
}

pub open spec fn min(a: int, b: int) -> int {
    if a <= b {
        a
    } else {
        b
    }
}

/// The part of `g` that lies on `m`, for a `g` whose corner is on `m`.
pub open spec fn cropped(g: Geometry, m: MonitorRect) -> Geometry {
    Geometry {
        x: g.x,
        y: g.y,
        width: (min(g.x + g.width, m.x + m.width) - g.x) as i32,
        height: (min(g.y + g.height, m.y + m.height) - g.y) as i32,
    }
}

/// The first monitor holding the point `(x, y)`.
pub fn monitor_at(monitors: &[MonitorRect], x: i32, y: i32) -> (r: Option<usize>)
    ensures
        r matches Some(i) ==> i < monitors@.len() && holds_point(monitors@[i as int], x as int, y as int)
            && first_monitor_at(monitors@, x as int, y as int) == Some(i as int),
        r is None ==> first_monitor_at(monitors@, x as int, y as int) is None,
{
    let mut i: usize = 0;
    while i < monitors.len()
        invariant
            i <= monitors@.len(),
            forall|j: int| 0 <= j < i ==> !holds_point(#[trigger] monitors@[j], x as int, y as int),
        decreases monitors@.len() - i,
    {
        let m = monitors[i];
        let (x0, y0, x1, y1) = (
            m.x as i64,
            m.y as i64,
            m.x as i64 + m.width as i64,
            m.y as i64 + m.height as i64,
        );
        if x0 <= x as i64 && (x as i64) < x1 && y0 <= y as i64 && (y as i64) < y1 {
            proof {
                let ms = monitors@;
                let (px, py) = (x as int, y as int);
                assert(holds_point(ms[i as int], px, py));
                let k = choose|k: int|
                    0 <= k < ms.len() && holds_point(ms[k], px, py) && forall|j: int|
                        0 <= j < k ==> !holds_point(#[trigger] ms[j], px, py);
                assert(0 <= k < ms.len() && holds_point(ms[k], px, py));
                if k < i {
                    assert(!holds_point(ms[k], px, py));
                } else if k > i {
                    assert(!holds_point(ms[i as int], px, py));
                }
            }
            return Some(i);
        }
        i = i + 1;
    }
    None
}

/// Fits a selected geometry `x,y wxh` to the first monitor that holds its
/// top-left corner, cutting off what extends past that monitor.
pub fn trim(geometry: &str, monitors: &[MonitorRect]) -> (r: Result<Geometry, TrimError>)
    ensures
        geometry_of(geometry@) is None ==> r == Err::<Geometry, TrimError>(TrimError::InvalidFormat),
        geometry_of(geometry@) matches Some(g) ==> {
            if g.width <= 0 || g.height <= 0 {
                r == Err::<Geometry, TrimError>(TrimError::NonPositiveSize)
            } else {
                match first_monitor_at(monitors@, g.x as int, g.y as int) {
                    None => r == Err::<Geometry, TrimError>(TrimError::NoMonitor),
                    Some(i) => r == Ok::<Geometry, TrimError>(cropped(g, monitors@[i])),
                }
            }
        },
        r matches Ok(c) ==> c.width > 0 && c.height > 0,
{
    let g = match parse_geometry(geometry) {
        Some(g) => g,
        None => return Err(TrimError::InvalidFormat),
    };
    if g.width <= 0 || g.height <= 0 {
        return Err(TrimError::NonPositiveSize);
    }
    let i = match monitor_at(monitors, g.x, g.y) {
        Some(i) => i,
        None => return Err(TrimError::NoMonitor),
    };
    let m = monitors[i];
    let right: i64 = m.x as i64 + m.width as i64;
    let bottom: i64 = m.y as i64 + m.height as i64;
    let mut width: i64 = g.width as i64;
    let mut height: i64 = g.height as i64;
    if g.x as i64 + width > right {
        width = right - g.x as i64;
    }
    if g.y as i64 + height > bottom {
        height = bottom - g.y as i64;
    }
    Ok(Geometry { x: g.x, y: g.y, width: width as i32, height: height as i32 })
}

/// Whether a monitor of the given name exists.
pub fn is_valid_monitor(names: &Vec<String>, name: &str) -> (r: bool)
    ensures
        r == exists|i: int| 0 <= i < names@.len() && (#[trigger] names@[i])@ == name@,
{
    let mut i: usize = 0;
    while i < names.len()
        invariant
            i <= names@.len(),
            forall|j: int| 0 <= j < i ==> (#[trigger] names@[j])@ != name@,
        decreases names@.len() - i,
    {
        if str_equals(names[i].as_str(), name) {
            return true;
        }
        i = i + 1;
    }
    false
}

/// The entry that a one-based menu choice `choice` picks among `count`
/// entries, as a zero-based index; none for zero or a choice past the end.
pub fn selected_entry(choice: usize, count: usize) -> (r: Option<usize>)
    ensures
        r == (if 1 <= choice <= count {
            Some((choice - 1) as usize)
        } else {
            None::<usize>
        }),
{
    if choice == 0 || choice > count {
        None
    } else {
        Some(choice - 1)
    }
}

/// A window's place and size as the compositor reports them.
#[derive(Clone, Copy, Debug, PartialEq, Eq, Structural)]
pub struct WindowRect {
    pub x: i64,
    pub y: i64,
    pub width: i64,
    pub height: i64,
}

/// What window selection reads of one window: its workspace and its
/// rectangle, each absent where the compositor did not report it.
#[derive(Clone, Copy, Debug, PartialEq, Eq, Structural)]
pub struct WindowInfo {
    pub workspace: Option<i64>,
    pub rect: Option<WindowRect>,
}

/// A window can be offered for capture: it sits on an active workspace and
/// has a rectangle of positive size.
pub open spec fn is_offered(w: WindowInfo, active: Seq<i64>) -> bool {
    &&& w.workspace matches Some(id) && active.contains(id)
    &&& w.rect matches Some(r) && r.width > 0 && r.height > 0
}

/// The indices, in order, of the first `n` windows that can be offered.
pub open spec fn offered_prefix(ws: Seq<WindowInfo>, active: Seq<i64>, n: nat) -> Seq<usize>
    decreases n,
{
    if n == 0 {
        Seq::empty()
    } else {
        let rest = offered_prefix(ws, active, (n - 1) as nat);
        if is_offered(ws[n - 1], active) {
            rest.push((n - 1) as usize)
        } else {
            rest
        }
    }
}

fn on_active_workspace(active: &Vec<i64>, id: i64) -> (r: bool)
    ensures
        r == active@.contains(id),
{
    let mut i: usize = 0;
    while i < active.len()
        invariant
            i <= active@.len(),
            forall|j: int| 0 <= j < i ==> active@[j] != id,
        decreases active@.len() - i,
    {
        if active[i] == id {
            return true;
        }
        i = i + 1;
    }
    false
}

/// The windows that window selection offers: those on one of the `active`
/// workspaces with a rectangle of positive size, by index in input order.
pub fn offered_windows(active: &Vec<i64>, windows: &Vec<WindowInfo>) -> (r: Vec<usize>)
    ensures
        r@ == offered_prefix(windows@, active@, windows@.len()),
{
    let mut out: Vec<usize> = Vec::new();
    let mut i: usize = 0;
    while i < windows.len()
        invariant
            i <= windows@.len(),
            out@ == offered_prefix(windows@, active@, i as nat),
        decreases windows@.len() - i,
    {
        let w = windows[i];
        let on_active = match w.workspace {
            Some(id) => on_active_workspace(active, id),
            None => false,
        };
        let sized = match w.rect {
            Some(r) => r.width > 0 && r.height > 0,
            None => false,
        };
        if on_active && sized {
            out.push(i);
        }
        i = i + 1;
    }
    out
}

impl WindowRect {
    /// Whether the rectangle has a positive width and height.
    pub fn has_area(&self) -> (b: bool)
        ensures
            b == (self.width > 0 && self.height > 0),
    {
        self.width > 0 && self.height > 0
    }
}

} // verus!
