//! Fixed-point plane geometry: vectors and axis-aligned bounding boxes.

use vstd::prelude::*;

verus! {

/// Number of fixed-point subunits per distance unit. Every scalar in this
/// crate (coordinates, widths, zoom factors, color channels) is stored in
/// thousandths of its unit.
pub const UNIT: i64 = 1000;

/// Largest coordinate magnitude (in subunits) the engine accepts. Keeping
/// coordinates within this range lets every derived quantity fit in `i64`.
pub const COORD_LIMIT: i64 = 1_000_000_000_000;

/// Largest scale factor (in subunits, so `1_000_000` is a factor of 1000)
/// accepted by the scaling transforms.
pub const SCALE_FACTOR_MAX: i64 = 1_000_000;

pub open spec fn coord_in_range(x: int) -> bool {
    -(COORD_LIMIT as int) <= x <= COORD_LIMIT as int
}

pub open spec fn coord_min(a: i64, b: i64) -> i64 {
    if a <= b {
        a
    } else {
        b
    }
}

pub open spec fn coord_max(a: i64, b: i64) -> i64 {
    if a <= b {
        b
    } else {
        a
    }
}

/// A point or displacement of the plane, in fixed-point subunits.
#[derive(Clone, Copy, PartialEq, Eq, Structural, Debug)]
pub struct Vector {
    pub x: i64,
    pub y: i64,
}

impl Vector {
    pub open spec fn in_range(self) -> bool {
        coord_in_range(self.x as int) && coord_in_range(self.y as int)
    }

    pub fn new(x: i64, y: i64) -> (r: Vector)
        ensures
            r == (Vector { x, y }),
    {
        Vector { x, y }
    }
}

/// An axis-aligned box, given by its lower-left and upper-right corners.
#[derive(Clone, Copy, PartialEq, Eq, Structural, Debug)]
pub struct Aabb {
    pub mins: Vector,
    pub maxs: Vector,
}

/// The box covering exactly one point.
pub open spec fn point_aabb(p: Vector) -> Aabb {
    Aabb { mins: p, maxs: p }
}

/// The smallest box covering both arguments.
pub open spec fn spec_merged(a: Aabb, b: Aabb) -> Aabb {
    Aabb {
        mins: Vector { x: coord_min(a.mins.x, b.mins.x), y: coord_min(a.mins.y, b.mins.y) },
        maxs: Vector { x: coord_max(a.maxs.x, b.maxs.x), y: coord_max(a.maxs.y, b.maxs.y) },
    }
}

/// The box grown by `d` subunits on all four sides.
pub open spec fn spec_loosened(a: Aabb, d: int) -> Aabb {
    Aabb {
        mins: Vector { x: (a.mins.x - d) as i64, y: (a.mins.y - d) as i64 },
        maxs: Vector { x: (a.maxs.x + d) as i64, y: (a.maxs.y + d) as i64 },
    }
}

impl Aabb {
    /// A box is well-formed when each lower corner coordinate is at most the
    /// corresponding upper one.
    pub open spec fn wf(self) -> bool {
        self.mins.x <= self.maxs.x && self.mins.y <= self.maxs.y
    }

    pub open spec fn in_range(self) -> bool {
        self.mins.in_range() && self.maxs.in_range()
    }

    pub open spec fn spec_contains_point(self, p: Vector) -> bool {
        self.mins.x <= p.x <= self.maxs.x && self.mins.y <= p.y <= self.maxs.y
    }

    /// `other` lies entirely inside `self`.
    pub open spec fn spec_contains(self, other: Aabb) -> bool {
        self.mins.x <= other.mins.x && self.mins.y <= other.mins.y
            && other.maxs.x <= self.maxs.x && other.maxs.y <= self.maxs.y
    }

    /// The two boxes share at least one point.
    pub open spec fn spec_intersects(self, other: Aabb) -> bool {
        self.mins.x <= other.maxs.x && other.mins.x <= self.maxs.x
            && self.mins.y <= other.maxs.y && other.mins.y <= self.maxs.y
    }

    pub open spec fn spec_intersection(self, other: Aabb) -> Aabb {
        Aabb {
            mins: Vector {
                x: coord_max(self.mins.x, other.mins.x),
                y: coord_max(self.mins.y, other.mins.y),
            },
            maxs: Vector {
                x: coord_min(self.maxs.x, other.maxs.x),
                y: coord_min(self.maxs.y, other.maxs.y),
            },
        }
    }

    pub fn from_point(p: Vector) -> (r: Aabb)
        ensures
            r == point_aabb(p),
    {
        Aabb { mins: p, maxs: p }
    }

    pub fn new(mins: Vector, maxs: Vector) -> (r: Aabb)
        ensures
            r == (Aabb { mins, maxs }),
    {
        Aabb { mins, maxs }
    }

    pub fn merged(&self, other: &Aabb) -> (r: Aabb)
        ensures
            r == spec_merged(*self, *other),
    {
        Aabb {
            mins: Vector {
                x: if self.mins.x <= other.mins.x {
                    self.mins.x
                } else {
                    other.mins.x
                },
                y: if self.mins.y <= other.mins.y {
                    self.mins.y
                } else {
                    other.mins.y
                },
            },
            maxs: Vector {
                x: if self.maxs.x <= other.maxs.x {
                    other.maxs.x
                } else {
                    self.maxs.x
                },
                y: if self.maxs.y <= other.maxs.y {
                    other.maxs.y
                } else {
                    self.maxs.y
                },
            },
        }
    }

    pub fn loosened(&self, d: i64) -> (r: Aabb)
        requires
            0 <= d,
            i64::MIN <= self.mins.x - d,
            i64::MIN <= self.mins.y - d,
            self.maxs.x + d <= i64::MAX,
            self.maxs.y + d <= i64::MAX,
        ensures
            r == spec_loosened(*self, d as int),
            self.wf() ==> r.wf(),
    {
        Aabb {
            mins: Vector { x: self.mins.x - d, y: self.mins.y - d },
            maxs: Vector { x: self.maxs.x + d, y: self.maxs.y + d },
        }
    }

    pub fn contains_point(&self, p: Vector) -> (r: bool)
        ensures
            r == self.spec_contains_point(p),
    {
        self.mins.x <= p.x && p.x <= self.maxs.x && self.mins.y <= p.y && p.y <= self.maxs.y
    }

    pub fn contains(&self, other: &Aabb) -> (r: bool)
        ensures
            r == self.spec_contains(*other),
    {
        self.mins.x <= other.mins.x && self.mins.y <= other.mins.y
            && other.maxs.x <= self.maxs.x && other.maxs.y <= self.maxs.y
    }

    /// The overlap of two well-formed boxes, or `None` when they are disjoint.
    pub fn intersection(&self, other: &Aabb) -> (r: Option<Aabb>)
        requires
            self.wf(),
            other.wf(),
        ensures
            self.spec_intersects(*other) ==> r == Some(self.spec_intersection(*other)),
            !self.spec_intersects(*other) ==> r is None,
            self.spec_intersects(*other) ==> r.unwrap().wf(),
    {
        let mins = Vector {
            x: if self.mins.x <= other.mins.x {
                other.mins.x
            } else {
                self.mins.x
            },
            y: if self.mins.y <= other.mins.y {
                other.mins.y
            } else {
                self.mins.y
            },
        };
        let maxs = Vector {
            x: if self.maxs.x <= other.maxs.x {
                self.maxs.x
            } else {
                other.maxs.x
            },
            y: if self.maxs.y <= other.maxs.y {
                self.maxs.y
            } else {
                other.maxs.y
            },
        };
        if mins.x <= maxs.x && mins.y <= maxs.y {
            Some(Aabb { mins, maxs })
        } else {
            None
        }
    }
}

/// `r` is the integer square root of `n`.
pub open spec fn is_sqrt(n: int, r: int) -> bool {
    0 <= r && r * r <= n < (r + 1) * (r + 1)
}

/// Integer square root, used for the geometric mean of two scale factors.
pub fn isqrt(n: i64) -> (r: i64)
    requires
        0 <= n <= 4_000_000_000_000,
    ensures
        is_sqrt(n as int, r as int),
{
    let mut lo: i64 = 0;
    let mut hi: i64 = 2_000_001;
    assert(2_000_001int * 2_000_001 > 4_000_000_000_000) by (nonlinear_arith);
    while lo + 1 < hi
        invariant
            0 <= lo < hi <= 2_000_001,
            lo * lo <= n,
            hi * hi > n,
        decreases hi - lo,
    {
        let mid = lo + (hi - lo) / 2;
        assert(lo < mid < hi);
        assert(mid * mid <= 2_000_001int * 2_000_001) by (nonlinear_arith)
            requires
                0 <= mid <= 2_000_001int,
        ;
        if mid * mid <= n {
            lo = mid;
        } else {
            hi = mid;
        }
    }
    lo
}

/// Fixed-point scaling of one coordinate: the mathematical product `x * s`
/// scaled back down by [`UNIT`], truncated toward zero.
pub open spec fn spec_scale_coord(x: int, s: int) -> int {
    if x >= 0 {
        (x * s) / (UNIT as int)
    } else {
        -((-x * s) / (UNIT as int))
    }
}

pub fn scale_coord(x: i64, s: i64) -> (r: i64)
    requires
        coord_in_range(x as int),
        0 < s <= SCALE_FACTOR_MAX,
    ensures
        r == spec_scale_coord(x as int, s as int),
{
    if x >= 0 {
        assert(x * s <= COORD_LIMIT * SCALE_FACTOR_MAX && 0 <= x * s) by (nonlinear_arith)
            requires
                0 <= x <= COORD_LIMIT && 0 < s <= SCALE_FACTOR_MAX,
        ;
        (x * s) / UNIT
    } else {
        let m = -x;
        assert(m * s <= COORD_LIMIT * SCALE_FACTOR_MAX && 0 <= m * s) by (nonlinear_arith)
            requires
                0 <= m <= COORD_LIMIT && 0 < s <= SCALE_FACTOR_MAX,
        ;
        -((m * s) / UNIT)
    }
}

} // verus!
