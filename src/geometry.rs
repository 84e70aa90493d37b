use vstd::prelude::*;

verus! {

/// An axis-aligned rectangle given by its center and its half extents.
#[derive(Clone, Copy, Debug, PartialEq, Eq, Structural)]
pub struct Rect {
    pub x: i64,
    pub y: i64,
    pub half_width: i64,
    pub half_height: i64,
}

/// Which face of the second rectangle the first one struck.
#[derive(Clone, Copy, Debug, PartialEq, Eq, Structural)]
pub enum Collision {
    /// The mover hit the obstacle's left (facing) edge.
    Left,
    /// The mover hit the obstacle's right edge.
    Right,
    /// The mover came down on the obstacle's upper face.
    Top,
    /// The mover came up against the obstacle's lower face.
    Bottom,
}

impl Rect {
    pub open spec fn wf(self) -> bool {
        self.half_width > 0 && self.half_height > 0
    }

    pub open spec fn left(self) -> int {
        self.x - self.half_width
    }

    pub open spec fn right(self) -> int {
        self.x + self.half_width
    }

    /// Lower edge, with the rectangle moved down by `dy`.
    pub open spec fn bottom_at(self, dy: int) -> int {
        self.y - dy - self.half_height
    }

    /// Upper edge, with the rectangle moved down by `dy`.
    pub open spec fn top_at(self, dy: int) -> int {
        self.y - dy + self.half_height
    }
}

/// Whether `a`, moved down by `dy`, strictly overlaps `b` (touching edges do not count).
pub open spec fn overlaps(a: Rect, dy: int, b: Rect) -> bool {
    &&& a.left() < b.right()
    &&& a.right() > b.left()
    &&& a.bottom_at(dy) < b.top_at(0)
    &&& a.top_at(dy) > b.bottom_at(0)
}

/// How far `a` reaches past `b`'s left edge.
pub open spec fn left_depth(a: Rect, b: Rect) -> int {
    a.right() - b.left()
}

/// How far `a` reaches past `b`'s right edge.
pub open spec fn right_depth(a: Rect, b: Rect) -> int {
    b.right() - a.left()
}

/// How far `a`, moved down by `dy`, sinks below `b`'s upper face.
pub open spec fn top_depth(a: Rect, dy: int, b: Rect) -> int {
    b.top_at(0) - a.bottom_at(dy)
}

/// How far `a`, moved down by `dy`, rises above `b`'s lower face.
pub open spec fn bottom_depth(a: Rect, dy: int, b: Rect) -> int {
    a.top_at(dy) - b.bottom_at(0)
}

/// Minimum-penetration classification of `a` (moved down by `dy`) against `b`.
/// Of the two horizontal depths the smaller names the side (Left on a tie), of
/// the two vertical ones likewise (Top on a tie); the vertical side wins only
/// where its depth is strictly the smaller one.
pub open spec fn classify(a: Rect, dy: int, b: Rect) -> Option<Collision> {
    if !overlaps(a, dy, b) {
        None
    } else {
        let (xc, xd) = if left_depth(a, b) <= right_depth(a, b) {
            (Collision::Left, left_depth(a, b))
        } else {
            (Collision::Right, right_depth(a, b))
        };
        let (yc, yd) = if top_depth(a, dy, b) <= bottom_depth(a, dy, b) {
            (Collision::Top, top_depth(a, dy, b))
        } else {
            (Collision::Bottom, bottom_depth(a, dy, b))
        };
        if yd < xd {
            Some(yc)
        } else {
            Some(xc)
        }
    }
}

/// Tests `a`, moved down by `dy`, against `b` and classifies the overlap.
pub fn collide(a: &Rect, dy: i64, b: &Rect) -> (r: Option<Collision>)
    ensures
        r == classify(*a, dy as int, *b),
{
    let a_left = a.x as i128 - a.half_width as i128;
    let a_right = a.x as i128 + a.half_width as i128;
    let a_bottom = a.y as i128 - dy as i128 - a.half_height as i128;
    let a_top = a.y as i128 - dy as i128 + a.half_height as i128;
    let b_left = b.x as i128 - b.half_width as i128;
    let b_right = b.x as i128 + b.half_width as i128;
    let b_bottom = b.y as i128 - b.half_height as i128;
    let b_top = b.y as i128 + b.half_height as i128;
    if !(a_left < b_right && a_right > b_left && a_bottom < b_top && a_top > b_bottom) {
        return None;
    }
    let d_left = a_right - b_left;
    let d_right = b_right - a_left;
    let d_top = b_top - a_bottom;
    let d_bottom = a_top - b_bottom;
    let (xc, xd) = if d_left <= d_right {
        (Collision::Left, d_left)
    } else {
        (Collision::Right, d_right)
    };
    let (yc, yd) = if d_top <= d_bottom {
        (Collision::Top, d_top)
    } else {
        (Collision::Bottom, d_bottom)
    };
    if yd < xd {
        Some(yc)
    } else {
        Some(xc)
    }
}

} // verus!
