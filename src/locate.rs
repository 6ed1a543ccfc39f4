use vstd::prelude::*;

verus! {

/// A monitor's rectangle on the desktop, in logical pixels.
#[derive(Clone, Copy, Debug, PartialEq, Eq, Structural)]
pub struct MonitorArea {
    pub x: i32,
    pub y: i32,
    pub width: i32,
    pub height: i32,
}

/// A monitor as the overlay sees it: where it lies, and how large the overlay
/// is in logical pixels at that monitor's scale.
#[derive(Clone, Copy, Debug, PartialEq, Eq, Structural)]
pub struct MonitorView {
    pub area: MonitorArea,
    pub overlay_width: u32,
    pub overlay_height: u32,
}

/// Where the overlay goes: the monitor under the pointer if any, the overlay's
/// logical size, and its top-left corner in logical pixels.
#[derive(Clone, Copy, Debug, PartialEq, Eq, Structural)]
pub struct OverlayPlacement {
    pub monitor: Option<usize>,
    pub width: u32,
    pub height: u32,
    pub x: i64,
    pub y: i64,
}

/// Whether the point lies on the monitor; its edges, right and bottom
/// included, count as on it.
pub open spec fn contains_point(a: MonitorArea, px: i32, py: i32) -> bool {
    &&& a.x <= px
    &&& px <= a.x + a.width
    &&& a.y <= py
    &&& py <= a.y + a.height
}

/// Monitor `i` holds the point and none before it does.
pub open spec fn is_first_containing(ms: Seq<MonitorView>, px: i32, py: i32, i: int) -> bool {
    &&& 0 <= i < ms.len()
    &&& contains_point(ms[i].area, px, py)
    &&& forall|j: int| 0 <= j < i ==> !contains_point(#[trigger] ms[j].area, px, py)
}

/// No monitor holds the point.
pub open spec fn none_contains(ms: Seq<MonitorView>, px: i32, py: i32) -> bool {
    forall|j: int| 0 <= j < ms.len() ==> !contains_point(#[trigger] ms[j].area, px, py)
}

/// The corner that centres an overlay of this size on the pointer, rounding
/// the half size down.
pub open spec fn centred_corner(pointer: i32, size: u32) -> int {
    pointer - size / 2
}

/// Whether the point lies on the monitor.
pub fn monitor_contains(a: &MonitorArea, px: i32, py: i32) -> (r: bool)
    ensures
        r == contains_point(*a, px, py),
{
    let right: i64 = a.x as i64 + a.width as i64;
    let bottom: i64 = a.y as i64 + a.height as i64;
    a.x <= px && (px as i64) <= right && a.y <= py && (py as i64) <= bottom
}

/// The first monitor, in the order given, that holds the point.
pub fn find_monitor(monitors: &Vec<MonitorView>, px: i32, py: i32) -> (r: Option<usize>)
    ensures
        match r {
            Some(i) => is_first_containing(monitors@, px, py, i as int),
            None => none_contains(monitors@, px, py),
        },
{
    let mut i: usize = 0;
    while i < monitors.len()
        invariant
            i <= monitors@.len(),
            forall|j: int| 0 <= j < i ==> !contains_point(#[trigger] monitors@[j].area, px, py),
        decreases monitors@.len() - i,
    {
        if monitor_contains(&monitors[i].area, px, py) {
            return Some(i);
        }
        i = i + 1;
    }
    None
}

/// Places the overlay on the pointer at (`mouse_x`, `mouse_y`).
///
/// On the first monitor that holds the pointer the overlay takes that
/// monitor's logical size; where none does it keeps its physical size,
/// read as logical. Either way it is centred on the pointer.
pub fn place_overlay(
    mouse_x: i32,
    mouse_y: i32,
    monitors: &Vec<MonitorView>,
    physical_width: u32,
    physical_height: u32,
) -> (r: OverlayPlacement)
    ensures
        match r.monitor {
            Some(i) => {
                &&& is_first_containing(monitors@, mouse_x, mouse_y, i as int)
                &&& r.width == monitors@[i as int].overlay_width
                &&& r.height == monitors@[i as int].overlay_height
            },
            None => {
                &&& none_contains(monitors@, mouse_x, mouse_y)
                &&& r.width == physical_width
                &&& r.height == physical_height
            },
        },
        r.x == centred_corner(mouse_x, r.width),
        r.y == centred_corner(mouse_y, r.height),
{
    let monitor = find_monitor(monitors, mouse_x, mouse_y);
    let (width, height) = match monitor {
        Some(i) => (monitors[i].overlay_width, monitors[i].overlay_height),
        None => (physical_width, physical_height),
    };
    OverlayPlacement {
        monitor,
        width,
        height,
        x: mouse_x as i64 - (width / 2) as i64,
        y: mouse_y as i64 - (height / 2) as i64,
    }
}

/// An overlay of some size that is centred on the pointer covers the pointer.
pub proof fn lemma_overlay_covers_pointer(pointer: i32, size: u32)
    requires
        size > 0,
    ensures
        centred_corner(pointer, size) <= pointer < centred_corner(pointer, size) + size,
{
}

} // verus!
