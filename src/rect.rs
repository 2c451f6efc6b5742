use vstd::prelude::*;

verus! {

/// A rectangle in virtual-screen coordinates, as the operating system
/// reports it: four signed edges. Nothing forces `right >= left` or
/// `bottom >= top`; widths and heights are plain signed differences.
#[derive(Clone, Copy, Debug, PartialEq, Eq, Structural)]
pub struct Rect {
    pub left: i32,
    pub top: i32,
    pub right: i32,
    pub bottom: i32,
}

/// The width of `r` as a mathematical integer: `right - left`, unclamped.
pub open spec fn width_of(r: Rect) -> int {
    r.right - r.left
}

/// The height of `r` as a mathematical integer: `bottom - top`, unclamped.
pub open spec fn height_of(r: Rect) -> int {
    r.bottom - r.top
}

/// Whether a signed value fits in the edge type.
pub open spec fn fits_i32(v: int) -> bool {
    i32::MIN <= v <= i32::MAX
}

/// Whether both the width and the height of `r` fit in the edge type.
pub open spec fn has_i32_extent(r: Rect) -> bool {
    fits_i32(width_of(r)) && fits_i32(height_of(r))
}

impl Rect {
    pub fn new(left: i32, top: i32, right: i32, bottom: i32) -> (r: Rect)
        ensures
            r == (Rect { left, top, right, bottom }),
    {
        Rect { left, top, right, bottom }
    }

    /// The degenerate rectangle at the origin.
    pub fn empty() -> (r: Rect)
        ensures
            r == (Rect { left: 0, top: 0, right: 0, bottom: 0 }),
            width_of(r) == 0,
            height_of(r) == 0,
    {
        Rect { left: 0, top: 0, right: 0, bottom: 0 }
    }

    /// Whether `width` and `height` can be computed without overflow.
    pub fn has_i32_extent(&self) -> (b: bool)
        ensures
            b == has_i32_extent(*self),
    {
        let w: i64 = self.right as i64 - self.left as i64;
        let h: i64 = self.bottom as i64 - self.top as i64;
        i32::MIN as i64 <= w && w <= i32::MAX as i64 && i32::MIN as i64 <= h && h
            <= i32::MAX as i64
    }
}

/// Something with a width and a height measured as signed differences of
/// its edges.
pub trait Rectangle {
    spec fn spec_width(&self) -> int;

    spec fn spec_height(&self) -> int;

    fn width(&self) -> (w: i32)
        requires
            fits_i32(self.spec_width()),
        ensures
            w == self.spec_width(),
    ;

    fn height(&self) -> (h: i32)
        requires
            fits_i32(self.spec_height()),
        ensures
            h == self.spec_height(),
    ;
}

impl Rectangle for Rect {
    open spec fn spec_width(&self) -> int {
        width_of(*self)
    }

    open spec fn spec_height(&self) -> int {
        height_of(*self)
    }

    fn width(&self) -> (w: i32) {
        self.right - self.left
    }

    fn height(&self) -> (h: i32) {
        self.bottom - self.top
    }
}

} // verus!
