use vstd::prelude::*;

verus! {

/// An axis-aligned region of the screen, in cells.
#[derive(Clone, Copy, Debug, PartialEq, Eq, Structural)]
pub struct Rect {
    pub x: u16,
    pub y: u16,
    pub width: u16,
    pub height: u16,
}

impl Rect {
    /// The right and bottom edges fit in a `u16`.
    pub open spec fn wf(&self) -> bool {
        self.x + self.width <= u16::MAX && self.y + self.height <= u16::MAX
    }

    /// Whether the absolute position `(x, y)` lies inside the region.
    pub open spec fn contains(&self, x: int, y: int) -> bool {
        self.x <= x < self.x + self.width && self.y <= y < self.y + self.height
    }

    /// Whether the local position `(x, y)`, counted from the region's
    /// origin, lies inside the region.
    pub open spec fn contains_local(&self, x: int, y: int) -> bool {
        0 <= x < self.width && 0 <= y < self.height
    }

    /// The absolute position of the local position `(x, y)`.
    pub open spec fn to_absolute(&self, x: int, y: int) -> (int, int) {
        (self.x + x, self.y + y)
    }

    pub fn new(x: u16, y: u16, width: u16, height: u16) -> (r: Rect)
        ensures
            r == (Rect { x, y, width, height }),
    {
        Rect { x, y, width, height }
    }

    /// The column just right of the region, `x + width`.
    pub fn right(&self) -> (r: u16)
        requires
            self.wf(),
        ensures
            r == self.x + self.width,
    {
        self.x + self.width
    }

    /// The row just below the region, `y + height`.
    pub fn bottom(&self) -> (r: u16)
        requires
            self.wf(),
        ensures
            r == self.y + self.height,
    {
        self.y + self.height
    }

    /// Whether the region fits inside `outer`.
    pub fn is_inside(&self, outer: &Rect) -> (r: bool)
        ensures
            r == (outer.x <= self.x && outer.y <= self.y && self.x + self.width <= outer.x
                + outer.width && self.y + self.height <= outer.y + outer.height),
    {
        let x_end: u32 = self.x as u32 + self.width as u32;
        let y_end: u32 = self.y as u32 + self.height as u32;
        let outer_x_end: u32 = outer.x as u32 + outer.width as u32;
        let outer_y_end: u32 = outer.y as u32 + outer.height as u32;
        outer.x <= self.x && outer.y <= self.y && x_end <= outer_x_end && y_end <= outer_y_end
    }
}

} // verus!
