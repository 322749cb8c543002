use vstd::prelude::*;

verus! {

/// A rectangle as the Windows API describes one: `left` and `top` are the
/// upper-left corner, `right` and `bottom` the lower-right one.
#[derive(Clone, Copy, Debug, PartialEq, Eq, Structural)]
pub struct Rect {
    pub left: i32,
    pub top: i32,
    pub right: i32,
    pub bottom: i32,
}

/// Thickness, in pixels, of the border that the hook reserves and paints
/// round each window.
pub const BORDER_THICKNESS: i32 = 4;

/// Whether an integer fits in an `i32`.
pub open spec fn fits_i32(v: int) -> bool {
    i32::MIN <= v <= i32::MAX
}

impl Rect {
    /// Horizontal extent of the rectangle.
    pub open spec fn spec_width(self) -> int {
        self.right - self.left
    }

    /// Vertical extent of the rectangle.
    pub open spec fn spec_height(self) -> int {
        self.bottom - self.top
    }

    /// Both extents can be held in an `i32`.
    pub open spec fn extent_fits(self) -> bool {
        fits_i32(self.spec_width()) && fits_i32(self.spec_height())
    }

    /// Tells whether `width` and `height` can be computed without overflow.
    pub fn extent_is_representable(&self) -> (b: bool)
        ensures
            b == self.extent_fits(),
    {
        let w: i64 = self.right as i64 - self.left as i64;
        let h: i64 = self.bottom as i64 - self.top as i64;
        i32::MIN as i64 <= w && w <= i32::MAX as i64 && i32::MIN as i64 <= h && h
            <= i32::MAX as i64
    }

    /// `right - left`.
    pub fn width(&self) -> (w: i32)
        requires
            fits_i32(self.spec_width()),
        ensures
            w == self.spec_width(),
    {
        self.right - self.left
    }

    /// `bottom - top`.
    pub fn height(&self) -> (h: i32)
        requires
            fits_i32(self.spec_height()),
        ensures
            h == self.spec_height(),
    {
        self.bottom - self.top
    }
}

/// The rectangle moved inwards by `by` on each of its four sides.
pub open spec fn inset_by(r: Rect, by: int) -> Rect {
    Rect {
        left: (r.left + by) as i32,
        top: (r.top + by) as i32,
        right: (r.right - by) as i32,
        bottom: (r.bottom - by) as i32,
    }
}

/// Moving each side inwards by `by` stays within `i32`.
pub open spec fn can_inset(r: Rect, by: int) -> bool {
    &&& fits_i32(r.left + by)
    &&& fits_i32(r.top + by)
    &&& fits_i32(r.right - by)
    &&& fits_i32(r.bottom - by)
}

/// Tells whether `reserve_border` can be applied to `rect` without overflow.
pub fn can_reserve_border(rect: &Rect) -> (b: bool)
    ensures
        b == can_inset(*rect, BORDER_THICKNESS as int),
        b == (rect.left + 4 <= i32::MAX && rect.top + 4 <= i32::MAX && rect.right - 4
            >= i32::MIN && rect.bottom - 4 >= i32::MIN),
{
    let by: i64 = BORDER_THICKNESS as i64;
    let l: i64 = rect.left as i64 + by;
    let t: i64 = rect.top as i64 + by;
    let r: i64 = rect.right as i64 - by;
    let b: i64 = rect.bottom as i64 - by;
    l <= i32::MAX as i64 && t <= i32::MAX as i64 && i32::MIN as i64 <= r && i32::MIN as i64 <= b
}

/// Shrinks the proposed client area of a window by the border thickness on
/// every side, so that the border is painted outside the client area.
pub fn reserve_border(rect: &mut Rect)
    requires
        can_inset(*old(rect), BORDER_THICKNESS as int),
    ensures
        *final(rect) == inset_by(*old(rect), BORDER_THICKNESS as int),
        final(rect).spec_width() == old(rect).spec_width() - 2 * BORDER_THICKNESS,
        final(rect).spec_height() == old(rect).spec_height() - 2 * BORDER_THICKNESS,
        final(rect).left == old(rect).left + 4,
        final(rect).top == old(rect).top + 4,
        final(rect).right == old(rect).right - 4,
        final(rect).bottom == old(rect).bottom - 4,
{
    rect.top = rect.top + BORDER_THICKNESS;
    rect.left = rect.left + BORDER_THICKNESS;
    rect.bottom = rect.bottom - BORDER_THICKNESS;
    rect.right = rect.right - BORDER_THICKNESS;
}

/// Moving each side inwards keeps the rectangle's centre: each side moves by
/// the same amount, the left and top ones by `+by`, the right and bottom
/// ones by `-by`, and the extents shrink by twice that.
pub proof fn lemma_inset_keeps_centre(r: Rect, by: int)
    requires
        can_inset(r, by),
    ensures
        inset_by(r, by).left - r.left == by,
        inset_by(r, by).top - r.top == by,
        r.right - inset_by(r, by).right == by,
        r.bottom - inset_by(r, by).bottom == by,
        inset_by(r, by).left + inset_by(r, by).right == r.left + r.right,
        inset_by(r, by).top + inset_by(r, by).bottom == r.top + r.bottom,
        inset_by(r, by).spec_width() == r.spec_width() - 2 * by,
        inset_by(r, by).spec_height() == r.spec_height() - 2 * by,
{
}

} // verus!
