//! Rectangles of terminal cells and how an area is divided.

use vstd::prelude::*;

verus! {

/// A rectangle of terminal cells: its top left corner and its size.
#[derive(Clone, Copy, Debug, PartialEq, Eq)]
pub struct Rect {
    pub x: u16,
    pub y: u16,
    pub width: u16,
    pub height: u16,
}

/// The direction along which an area is divided.
#[derive(Clone, Copy, Debug, PartialEq, Eq)]
pub enum Direction {
    Horizontal,
    Vertical,
}

/// What one part of a divided area asks for.
#[derive(Clone, Copy, Debug, PartialEq, Eq)]
pub enum Constraint {
    /// Exactly this many cells.
    Length(u16),
    /// At least this many cells; `Min(0)` takes what is left.
    Min(u16),
}

impl Rect {
    /// The first column right of the rectangle, capped at the last column
    /// there is.
    pub open spec fn right(self) -> int {
        if self.x + self.width > u16::MAX {
            u16::MAX as int
        } else {
            self.x + self.width
        }
    }

    /// The first row below the rectangle, capped at the last row there is.
    pub open spec fn bottom(self) -> int {
        if self.y + self.height > u16::MAX {
            u16::MAX as int
        } else {
            self.y + self.height
        }
    }

    /// Whether the rectangle holds no cell.
    pub open spec fn is_empty(self) -> bool {
        self.width == 0 || self.height == 0
    }

    /// Whether every cell of the rectangle is a cell of `outer`.
    pub open spec fn inside(self, outer: Rect) -> bool {
        &&& outer.x <= self.x
        &&& self.x + self.width <= outer.right()
        &&& outer.y <= self.y
        &&& self.y + self.height <= outer.bottom()
    }

    /// Whether the cell in column `x` and row `y` belongs to the rectangle.
    pub open spec fn covers(self, x: int, y: int) -> bool {
        self.x <= x < self.right() && self.y <= y < self.bottom()
    }

    /// Whether a widget may paint in the rectangle on a surface of the given
    /// bounds: the rectangle is empty or lies inside them.
    pub open spec fn paintable(self, bounds: Rect) -> bool {
        self.is_empty() || self.inside(bounds)
    }

    /// Whether the rectangle keeps the extent of `area` across `direction`:
    /// cut off `area` from top to bottom it has the columns of `area`, cut off
    /// from left to right it has its rows.
    pub open spec fn spans(self, area: Rect, direction: Direction) -> bool {
        match direction {
            Direction::Vertical => self.x == area.x && self.right() == area.right(),
            Direction::Horizontal => self.y == area.y && self.bottom() == area.bottom(),
        }
    }

    /// A rectangle that may be painted in a rectangle that may be painted in
    /// `outer` may be painted in `outer`.
    pub proof fn lemma_paintable_within(self, middle: Rect, outer: Rect)
        requires
            self.paintable(middle),
            middle.paintable(outer),
        ensures
            self.paintable(outer),
    {
    }

    /// A cell of a rectangle that may be painted in `outer` is a cell of
    /// `outer`.
    pub proof fn lemma_covered_within(self, outer: Rect, x: int, y: int)
        requires
            self.paintable(outer),
            self.covers(x, y),
        ensures
            outer.covers(x, y),
    {
    }

    /// The part of the rectangle that lies in `bounds`: it begins where the
    /// later of the two begins and ends where the earlier of the two ends,
    /// and is empty where that leaves nothing.
    pub open spec fn clipped(self, bounds: Rect) -> Rect {
        let left = if self.x > bounds.x { self.x } else { bounds.x };
        let top = if self.y > bounds.y { self.y } else { bounds.y };
        let right = if self.right() < bounds.right() { self.right() } else { bounds.right() };
        let bottom = if self.bottom() < bounds.bottom() { self.bottom() } else { bounds.bottom() };
        Rect {
            x: left,
            y: top,
            width: if right > left { (right - left) as u16 } else { 0 },
            height: if bottom > top { (bottom - top) as u16 } else { 0 },
        }
    }

    /// The part of the rectangle that lies in `bounds`: exactly the cells
    /// that belong to both. Where the two share no cell the result is empty.
    pub fn clip(self, bounds: Rect) -> (part: Rect)
        ensures
            part == self.clipped(bounds),
            part.paintable(bounds),
            part.paintable(self),
            self.inside(bounds) ==> part == self,
            forall|x: int, y: int| part.covers(x, y) <==> self.covers(x, y) && bounds.covers(x, y),
            self.spans(bounds, Direction::Vertical) ==> part.spans(bounds, Direction::Vertical),
            self.spans(bounds, Direction::Horizontal) ==> part.spans(bounds, Direction::Horizontal),
    {
        let left: u16 = if self.x > bounds.x { self.x } else { bounds.x };
        let top: u16 = if self.y > bounds.y { self.y } else { bounds.y };
        let self_right: u16 = self.x.saturating_add(self.width);
        let bounds_right: u16 = bounds.x.saturating_add(bounds.width);
        let self_bottom: u16 = self.y.saturating_add(self.height);
        let bounds_bottom: u16 = bounds.y.saturating_add(bounds.height);
        let right: u16 = if self_right < bounds_right { self_right } else { bounds_right };
        let bottom: u16 = if self_bottom < bounds_bottom { self_bottom } else { bounds_bottom };
        let width: u16 = if right > left { right - left } else { 0 };
        let height: u16 = if bottom > top { bottom - top } else { 0 };
        Rect { x: left, y: top, width, height }
    }
}

} // verus!
