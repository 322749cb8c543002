use vstd::prelude::*;
use crate::geometry::Rect;
use crate::geometry::fits_i32;

verus! {

/// A box of the computed layout, in whole pixels, relative to the layout's
/// container.
#[derive(Clone, Copy, Debug, PartialEq, Eq, Structural)]
pub struct LayoutBox {
    pub x: i32,
    pub y: i32,
    pub width: i32,
    pub height: i32,
}

/// Where a window is put, in screen coordinates, and its size.
#[derive(Clone, Copy, Debug, PartialEq, Eq, Structural)]
pub struct Placement {
    pub x: i32,
    pub y: i32,
    pub width: i32,
    pub height: i32,
}

/// The size of the container that the windows are tiled in: that of the
/// work area (the screen without the task bar).
pub fn view_size(work_area: &Rect) -> (size: (i32, i32))
    requires
        work_area.extent_fits(),
    ensures
        size.0 == work_area.spec_width(),
        size.1 == work_area.spec_height(),
{
    (work_area.width(), work_area.height())
}

/// The screen placement of a layout box: the box moved by the work area's
/// upper-left corner.
pub open spec fn placement_spec(work_area: Rect, b: LayoutBox) -> Placement {
    Placement {
        x: (work_area.left + b.x) as i32,
        y: (work_area.top + b.y) as i32,
        width: b.width,
        height: b.height,
    }
}

/// The box's screen position can be held in `i32`.
pub open spec fn can_place(work_area: Rect, b: LayoutBox) -> bool {
    fits_i32(work_area.left + b.x) && fits_i32(work_area.top + b.y)
}

/// Tells whether `place_in_work_area` can place `b` without overflow.
pub fn can_place_box(work_area: &Rect, b: &LayoutBox) -> (ok: bool)
    ensures
        ok == can_place(*work_area, *b),
{
    let x: i64 = work_area.left as i64 + b.x as i64;
    let y: i64 = work_area.top as i64 + b.y as i64;
    i32::MIN as i64 <= x && x <= i32::MAX as i64 && i32::MIN as i64 <= y && y <= i32::MAX as i64
}

/// Where the window laid out in `b` goes on the screen.
pub fn place_in_work_area(work_area: &Rect, b: &LayoutBox) -> (p: Placement)
    requires
        can_place(*work_area, *b),
    ensures
        p == placement_spec(*work_area, *b),
        p.x == work_area.left + b.x,
        p.y == work_area.top + b.y,
        p.width == b.width,
        p.height == b.height,
{
    Placement { x: work_area.left + b.x, y: work_area.top + b.y, width: b.width, height: b.height }
}

/// A placement is its layout box moved by the work area's upper-left corner:
/// the box's offset from that corner is kept, its size is kept, and two boxes
/// keep their distance from each other.
pub proof fn lemma_placement_translates(work_area: Rect, b: LayoutBox, c: LayoutBox)
    requires
        can_place(work_area, b),
        can_place(work_area, c),
    ensures
        placement_spec(work_area, b).x - work_area.left == b.x,
        placement_spec(work_area, b).y - work_area.top == b.y,
        placement_spec(work_area, b).width == b.width,
        placement_spec(work_area, b).height == b.height,
        placement_spec(work_area, c).x - placement_spec(work_area, b).x == c.x - b.x,
        placement_spec(work_area, c).y - placement_spec(work_area, b).y == c.y - b.y,
{
}

/// A maximized window cannot be moved, so it is restored first: `IsZoomed`
/// answered a positive value.
pub fn needs_restore(zoomed: i32) -> (b: bool)
    ensures
        b == (zoomed > 0),
{
    zoomed > 0
}

/// The number of window positions announced to `BeginDeferWindowPos`: the
/// number of windows, as a C `int`.
pub fn defer_count(windows: usize) -> (n: i32)
    ensures
        n == windows as i32,
        windows <= i32::MAX ==> n == windows,
{
    windows as i32
}

/// Where a window that has just been created is put.
pub open spec fn new_window_placement_spec() -> Placement {
    Placement { x: 200, y: 200, width: 400, height: 400 }
}

/// Where a window that has just been created is put: at (200, 200), 400 by
/// 400 pixels.
pub fn new_window_placement() -> (p: Placement)
    ensures
        p == new_window_placement_spec(),
{
    Placement { x: 200, y: 200, width: 400, height: 400 }
}

/// Where the foreground window is put when it alone is resized: at
/// (200, 200), 200 by 200 pixels.
pub fn foreground_placement() -> (p: Placement)
    ensures
        p == (Placement { x: 200, y: 200, width: 200, height: 200 }),
{
    Placement { x: 200, y: 200, width: 200, height: 200 }
}

} // verus!
