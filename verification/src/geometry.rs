//! Viewport geometry on bounded integer coordinates.
//!
//! The editor's collaborators do their geometry in floating point; the core
//! only ever reads positions, deltas and axis-aligned boxes from them, so the
//! model here holds those as plain `i64` viewport units, bounded by
//! [`COORD_LIMIT`] so that every difference and sum the tools form stays far
//! from overflow.

use vstd::prelude::*;

verus! {

/// Largest magnitude a viewport coordinate may take.
pub const COORD_LIMIT: i64 = 1073741824;

/// Half the side of the tolerance square used to hit-test a click that did
/// not move (a zero-area rubber-band region).
pub const SELECTION_TOLERANCE: i64 = 5;

/// A drag whose net pointer displacement is below this is treated as not
/// having moved at all: the operation is undone rather than committed.
pub const DRAG_COMMIT_EPSILON: i64 = 1;

/// A position or displacement in viewport space.
#[derive(Clone, Copy, Debug, PartialEq, Eq, Structural)]
pub struct ViewportPosition {
    pub x: i64,
    pub y: i64,
}

/// An axis-aligned box in viewport space, as its two extreme corners.
#[derive(Clone, Copy, Debug, PartialEq, Eq, Structural)]
pub struct Rect {
    pub min: ViewportPosition,
    pub max: ViewportPosition,
}

impl ViewportPosition {
    /// Whether both coordinates are within the viewport coordinate bound.
    pub open spec fn in_bounds(self) -> bool {
        -COORD_LIMIT <= self.x <= COORD_LIMIT && -COORD_LIMIT <= self.y <= COORD_LIMIT
    }

    /// Whether both coordinates are within twice the viewport bound: the
    /// range where derived geometry (layer bounds, their unions) lives.
    pub open spec fn in_bounds_ext(self) -> bool {
        -2 * COORD_LIMIT <= self.x <= 2 * COORD_LIMIT && -2 * COORD_LIMIT <= self.y <= 2
            * COORD_LIMIT
    }

    /// Squared Euclidean distance to `other`, as a mathematical integer.
    pub open spec fn dist_sq_spec(self, other: ViewportPosition) -> int {
        (self.x - other.x) * (self.x - other.x) + (self.y - other.y) * (self.y - other.y)
    }

    pub fn new(x: i64, y: i64) -> (r: ViewportPosition)
        ensures
            r == (ViewportPosition { x, y }),
    {
        ViewportPosition { x, y }
    }
}

/// Whether the net displacement between `a` and `b` is below the commit
/// epsilon, so that a drag ending there counts as a no-op.
pub open spec fn below_commit_epsilon(a: ViewportPosition, b: ViewportPosition) -> bool {
    a.dist_sq_spec(b) < DRAG_COMMIT_EPSILON * DRAG_COMMIT_EPSILON
}

/// Decides whether the displacement from `a` to `b` is below the commit
/// epsilon.
pub fn is_below_commit_epsilon(a: ViewportPosition, b: ViewportPosition) -> (r: bool)
    requires
        a.in_bounds(),
        b.in_bounds(),
    ensures
        r == below_commit_epsilon(a, b),
{
    let dx: i128 = (a.x - b.x) as i128;
    let dy: i128 = (a.y - b.y) as i128;
    proof {
        assert(0 <= dx * dx <= 0x10000000000000000 && 0 <= dy * dy <= 0x10000000000000000)
            by (nonlinear_arith)
            requires
                -0x100000000 <= dx <= 0x100000000,
                -0x100000000 <= dy <= 0x100000000,
        ;
    }
    proof {
        assert((DRAG_COMMIT_EPSILON as i128) * (DRAG_COMMIT_EPSILON as i128) == 1)
            by (nonlinear_arith);
    }
    dx * dx + dy * dy < (DRAG_COMMIT_EPSILON as i128) * (DRAG_COMMIT_EPSILON as i128)
}

/// The componentwise difference `a - b`.
pub open spec fn delta_spec(a: ViewportPosition, b: ViewportPosition) -> ViewportPosition {
    ViewportPosition { x: (a.x - b.x) as i64, y: (a.y - b.y) as i64 }
}

/// Computes the displacement from `b` to `a`.
pub fn delta(a: ViewportPosition, b: ViewportPosition) -> (r: ViewportPosition)
    requires
        a.in_bounds(),
        b.in_bounds(),
    ensures
        r == delta_spec(a, b),
        -2 * COORD_LIMIT <= r.x <= 2 * COORD_LIMIT,
        -2 * COORD_LIMIT <= r.y <= 2 * COORD_LIMIT,
{
    ViewportPosition { x: a.x - b.x, y: a.y - b.y }
}

/// The componentwise sum `a + b`, with each coordinate clamped back into the
/// viewport coordinate bound.  Clamping keeps every layer position
/// representable no matter how many translations a session applies.
pub open spec fn translate_spec(a: ViewportPosition, d: ViewportPosition) -> ViewportPosition {
    ViewportPosition { x: clamp_coord_spec(a.x + d.x), y: clamp_coord_spec(a.y + d.y) }
}

/// `v` clamped into `[-COORD_LIMIT, COORD_LIMIT]`.
pub open spec fn clamp_coord_spec(v: int) -> i64 {
    if v < -COORD_LIMIT {
        (-COORD_LIMIT) as i64
    } else if v > COORD_LIMIT {
        COORD_LIMIT
    } else {
        v as i64
    }
}

/// Translates `a` by `d`, clamping into the viewport bound.
pub fn translate(a: ViewportPosition, d: ViewportPosition) -> (r: ViewportPosition)
    requires
        a.in_bounds(),
        -4 * COORD_LIMIT <= d.x <= 4 * COORD_LIMIT,
        -4 * COORD_LIMIT <= d.y <= 4 * COORD_LIMIT,
    ensures
        r == translate_spec(a, d),
        r.in_bounds(),
{
    let x: i64 = a.x + d.x;
    let y: i64 = a.y + d.y;
    let cx: i64 = if x < -COORD_LIMIT {
        -COORD_LIMIT
    } else if x > COORD_LIMIT {
        COORD_LIMIT
    } else {
        x
    };
    let cy: i64 = if y < -COORD_LIMIT {
        -COORD_LIMIT
    } else if y > COORD_LIMIT {
        COORD_LIMIT
    } else {
        y
    };
    ViewportPosition { x: cx, y: cy }
}

/// Constrains a drag to its dominant axis when the axis-align modifier is
/// held: the pointer position keeps only the coordinate of the axis along
/// which it has moved farther from the drag start, and takes the start's
/// other coordinate.
pub open spec fn axis_align_drag_spec(
    axis_align: bool,
    position: ViewportPosition,
    start: ViewportPosition,
) -> ViewportPosition {
    if axis_align {
        if abs_spec(position.x - start.x) >= abs_spec(position.y - start.y) {
            ViewportPosition { x: position.x, y: start.y }
        } else {
            ViewportPosition { x: start.x, y: position.y }
        }
    } else {
        position
    }
}

/// The absolute value of a mathematical integer.
pub open spec fn abs_spec(v: int) -> int {
    if v < 0 {
        -v
    } else {
        v
    }
}

/// Applies the dominant-axis constraint to a dragged pointer position.
pub fn axis_align_drag(
    axis_align: bool,
    position: ViewportPosition,
    start: ViewportPosition,
) -> (r: ViewportPosition)
    requires
        position.in_bounds(),
        start.in_bounds(),
    ensures
        r == axis_align_drag_spec(axis_align, position, start),
        r.in_bounds(),
{
    if axis_align {
        let dx: i64 = position.x - start.x;
        let dy: i64 = position.y - start.y;
        let ax: i64 = if dx < 0 {
            -dx
        } else {
            dx
        };
        let ay: i64 = if dy < 0 {
            -dy
        } else {
            dy
        };
        if ax >= ay {
            ViewportPosition { x: position.x, y: start.y }
        } else {
            ViewportPosition { x: start.x, y: position.y }
        }
    } else {
        position
    }
}

impl Rect {
    /// A box is well formed when its corners are ordered and within the
    /// extended bound.
    pub open spec fn wf(self) -> bool {
        self.min.in_bounds_ext() && self.max.in_bounds_ext() && self.min.x <= self.max.x
            && self.min.y <= self.max.y
    }

    /// Whether `p` lies inside the box, borders included.
    pub open spec fn contains_spec(self, p: ViewportPosition) -> bool {
        self.min.x <= p.x <= self.max.x && self.min.y <= p.y <= self.max.y
    }

    /// Whether the two boxes share at least one point.
    pub open spec fn intersects_spec(self, other: Rect) -> bool {
        self.min.x <= other.max.x && other.min.x <= self.max.x && self.min.y <= other.max.y
            && other.min.y <= self.max.y
    }

    /// Tests whether `p` lies inside the box.
    pub fn contains(&self, p: ViewportPosition) -> (r: bool)
        ensures
            r == self.contains_spec(p),
    {
        self.min.x <= p.x && p.x <= self.max.x && self.min.y <= p.y && p.y <= self.max.y
    }

    /// Tests whether the two boxes overlap.
    pub fn intersects(&self, other: &Rect) -> (r: bool)
        ensures
            r == self.intersects_spec(*other),
    {
        self.min.x <= other.max.x && other.min.x <= self.max.x && self.min.y <= other.max.y
            && other.min.y <= self.max.y
    }
}

/// The axis-aligned box spanned by two arbitrary corners.
pub open spec fn rect_from_corners_spec(a: ViewportPosition, b: ViewportPosition) -> Rect {
    Rect {
        min: ViewportPosition {
            x: if a.x <= b.x {
                a.x
            } else {
                b.x
            },
            y: if a.y <= b.y {
                a.y
            } else {
                b.y
            },
        },
        max: ViewportPosition {
            x: if a.x <= b.x {
                b.x
            } else {
                a.x
            },
            y: if a.y <= b.y {
                b.y
            } else {
                a.y
            },
        },
    }
}

/// Normalises two corners into an ordered box.
pub fn rect_from_corners(a: ViewportPosition, b: ViewportPosition) -> (r: Rect)
    requires
        a.in_bounds(),
        b.in_bounds(),
    ensures
        r == rect_from_corners_spec(a, b),
        r.wf(),
{
    let min_x: i64 = if a.x <= b.x {
        a.x
    } else {
        b.x
    };
    let min_y: i64 = if a.y <= b.y {
        a.y
    } else {
        b.y
    };
    let max_x: i64 = if a.x <= b.x {
        b.x
    } else {
        a.x
    };
    let max_y: i64 = if a.y <= b.y {
        b.y
    } else {
        a.y
    };
    Rect {
        min: ViewportPosition { x: min_x, y: min_y },
        max: ViewportPosition { x: max_x, y: max_y },
    }
}

} // verus!
