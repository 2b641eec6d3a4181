//! The vector path of a stroke: a start element followed by segments.

use vstd::prelude::*;

use crate::geometry::{
    coord_in_range, point_aabb, scale_coord, spec_merged, spec_scale_coord, Aabb, Vector,
    COORD_LIMIT, SCALE_FACTOR_MAX,
};

verus! {

/// One pointer sample: a position plus the pressure the device reported.
/// Pressure is accepted by the event type but unused by the marker tool,
/// which draws with uniform width.
#[derive(Clone, Copy, PartialEq, Eq, Structural, Debug)]
pub struct Element {
    pub pos: Vector,
    pub pressure: i64,
}

impl Element {
    pub open spec fn in_range(self) -> bool {
        self.pos.in_range()
    }

    pub fn new(pos: Vector, pressure: i64) -> (r: Element)
        ensures
            r == (Element { pos, pressure }),
    {
        Element { pos, pressure }
    }
}

/// One geometric piece of a path. A segment only stores its own points; its
/// start is the end of the preceding segment (or the path's start element).
#[derive(Clone, Copy, PartialEq, Eq, Structural, Debug)]
pub enum Segment {
    LineTo { end: Element },
    QuadBezTo { cp: Vector, end: Element },
    CubicBezTo { cp1: Vector, cp2: Vector, end: Element },
}

impl Segment {
    pub open spec fn spec_end(self) -> Element {
        match self {
            Segment::LineTo { end } => end,
            Segment::QuadBezTo { cp: _, end } => end,
            Segment::CubicBezTo { cp1: _, cp2: _, end } => end,
        }
    }

    pub fn end(&self) -> (r: Element)
        ensures
            r == self.spec_end(),
    {
        match self {
            Segment::LineTo { end } => *end,
            Segment::QuadBezTo { cp: _, end } => *end,
            Segment::CubicBezTo { cp1: _, cp2: _, end } => *end,
        }
    }

    /// The box covering the segment's own points (control points included).
    pub open spec fn spec_aabb(self) -> Aabb {
        match self {
            Segment::LineTo { end } => point_aabb(end.pos),
            Segment::QuadBezTo { cp, end } => spec_merged(point_aabb(cp), point_aabb(end.pos)),
            Segment::CubicBezTo { cp1, cp2, end } => spec_merged(
                spec_merged(point_aabb(cp1), point_aabb(cp2)),
                point_aabb(end.pos),
            ),
        }
    }

    pub fn aabb(&self) -> (r: Aabb)
        ensures
            r == self.spec_aabb(),
    {
        match self {
            Segment::LineTo { end } => Aabb::from_point(end.pos),
            Segment::QuadBezTo { cp, end } => Aabb::from_point(*cp).merged(
                &Aabb::from_point(end.pos),
            ),
            Segment::CubicBezTo { cp1, cp2, end } => Aabb::from_point(*cp1).merged(
                &Aabb::from_point(*cp2),
            ).merged(&Aabb::from_point(end.pos)),
        }
    }

    pub open spec fn in_range(self) -> bool {
        match self {
            Segment::LineTo { end } => end.in_range(),
            Segment::QuadBezTo { cp, end } => cp.in_range() && end.in_range(),
            Segment::CubicBezTo { cp1, cp2, end } => cp1.in_range() && cp2.in_range()
                && end.in_range(),
        }
    }
}

pub open spec fn segments_in_range(segs: Seq<Segment>) -> bool {
    forall|i: int| 0 <= i < segs.len() ==> (#[trigger] segs[i]).in_range()
}

/// Translation of single points and segments by a displacement, in subunits.
pub open spec fn spec_translate_vector(v: Vector, off: Vector) -> Vector {
    Vector { x: (v.x + off.x) as i64, y: (v.y + off.y) as i64 }
}

/// The translated point stays inside the accepted coordinate range (so the
/// additions cannot overflow either).
pub open spec fn can_translate_vector(v: Vector, off: Vector) -> bool {
    coord_in_range(v.x + off.x) && coord_in_range(v.y + off.y)
}

pub open spec fn can_translate_element(e: Element, off: Vector) -> bool {
    can_translate_vector(e.pos, off)
}

pub open spec fn can_translate_segment(s: Segment, off: Vector) -> bool {
    match s {
        Segment::LineTo { end } => can_translate_element(end, off),
        Segment::QuadBezTo { cp, end } => can_translate_vector(cp, off)
            && can_translate_element(end, off),
        Segment::CubicBezTo { cp1, cp2, end } => can_translate_vector(cp1, off)
            && can_translate_vector(cp2, off) && can_translate_element(end, off),
    }
}

/// The scaled point stays inside the accepted coordinate range.
pub open spec fn can_scale_vector(v: Vector, sx: i64, sy: i64) -> bool {
    coord_in_range(spec_scale_coord(v.x as int, sx as int)) && coord_in_range(
        spec_scale_coord(v.y as int, sy as int),
    )
}

pub open spec fn can_scale_element(e: Element, sx: i64, sy: i64) -> bool {
    can_scale_vector(e.pos, sx, sy)
}

pub open spec fn can_scale_segment(s: Segment, sx: i64, sy: i64) -> bool {
    match s {
        Segment::LineTo { end } => can_scale_element(end, sx, sy),
        Segment::QuadBezTo { cp, end } => can_scale_vector(cp, sx, sy)
            && can_scale_element(end, sx, sy),
        Segment::CubicBezTo { cp1, cp2, end } => can_scale_vector(cp1, sx, sy)
            && can_scale_vector(cp2, sx, sy) && can_scale_element(end, sx, sy),
    }
}

pub open spec fn spec_translate_element(e: Element, off: Vector) -> Element {
    Element { pos: spec_translate_vector(e.pos, off), pressure: e.pressure }
}

pub open spec fn spec_translate_segment(s: Segment, off: Vector) -> Segment {
    match s {
        Segment::LineTo { end } => Segment::LineTo { end: spec_translate_element(end, off) },
        Segment::QuadBezTo { cp, end } => Segment::QuadBezTo {
            cp: spec_translate_vector(cp, off),
            end: spec_translate_element(end, off),
        },
        Segment::CubicBezTo { cp1, cp2, end } => Segment::CubicBezTo {
            cp1: spec_translate_vector(cp1, off),
            cp2: spec_translate_vector(cp2, off),
            end: spec_translate_element(end, off),
        },
    }
}

/// Per-axis scaling of single points and segments by fixed-point factors.
pub open spec fn spec_scale_vector(v: Vector, sx: i64, sy: i64) -> Vector {
    Vector {
        x: spec_scale_coord(v.x as int, sx as int) as i64,
        y: spec_scale_coord(v.y as int, sy as int) as i64,
    }
}

pub open spec fn spec_scale_element(e: Element, sx: i64, sy: i64) -> Element {
    Element { pos: spec_scale_vector(e.pos, sx, sy), pressure: e.pressure }
}

pub open spec fn spec_scale_segment(s: Segment, sx: i64, sy: i64) -> Segment {
    match s {
        Segment::LineTo { end } => Segment::LineTo { end: spec_scale_element(end, sx, sy) },
        Segment::QuadBezTo { cp, end } => Segment::QuadBezTo {
            cp: spec_scale_vector(cp, sx, sy),
            end: spec_scale_element(end, sx, sy),
        },
        Segment::CubicBezTo { cp1, cp2, end } => Segment::CubicBezTo {
            cp1: spec_scale_vector(cp1, sx, sy),
            cp2: spec_scale_vector(cp2, sx, sy),
            end: spec_scale_element(end, sx, sy),
        },
    }
}

/// An ordered path: a start element plus appended segments. Insertion order is
/// drawing order and segments are never reordered.
#[derive(Clone, Debug)]
pub struct PenPath {
    pub start: Element,
    pub segments: Vec<Segment>,
}

/// The element the `i`-th segment of a path starts at: the previous segment's
/// end, or the path's start element for the first segment.
pub open spec fn spec_seg_start_of(start: Element, segs: Seq<Segment>, i: int) -> Element {
    if i <= 0 {
        start
    } else {
        segs[i - 1].spec_end()
    }
}

/// The tight bounds of a path restricted to its first `i` segments.
pub open spec fn spec_path_bounds_upto(start: Element, segs: Seq<Segment>, i: int) -> Aabb
    decreases i,
{
    if i <= 0 {
        point_aabb(start.pos)
    } else {
        spec_merged(spec_path_bounds_upto(start, segs, i - 1), segs[i - 1].spec_aabb())
    }
}

/// The tight bounds of a whole path: the smallest box covering the start
/// element and every segment point.
pub open spec fn spec_path_bounds(start: Element, segs: Seq<Segment>) -> Aabb {
    spec_path_bounds_upto(start, segs, segs.len() as int)
}

/// The per-segment box: the segment's own points together with the point it
/// starts at, so that consecutive boxes cover the path without gaps.
pub open spec fn spec_seg_box_of(start: Element, segs: Seq<Segment>, i: int) -> Aabb {
    spec_merged(point_aabb(spec_seg_start_of(start, segs, i).pos), segs[i].spec_aabb())
}

pub proof fn lemma_path_bounds_upto_wf(start: Element, segs: Seq<Segment>, i: int)
    ensures
        spec_path_bounds_upto(start, segs, i).wf(),
        start.in_range() && segments_in_range(segs) && i <= segs.len()
            ==> spec_path_bounds_upto(start, segs, i).in_range(),
    decreases i,
{
    if i > 0 {
        lemma_path_bounds_upto_wf(start, segs, i - 1);
    }
}

impl PenPath {
    pub open spec fn in_range(self) -> bool {
        self.start.in_range() && segments_in_range(self.segments@)
    }

    pub open spec fn spec_seg_start(self, i: int) -> Element {
        spec_seg_start_of(self.start, self.segments@, i)
    }

    pub open spec fn spec_bounds_up_to(self, i: int) -> Aabb {
        spec_path_bounds_upto(self.start, self.segments@, i)
    }

    pub open spec fn spec_bounds(self) -> Aabb {
        spec_path_bounds(self.start, self.segments@)
    }

    pub open spec fn spec_seg_box(self, i: int) -> Aabb {
        spec_seg_box_of(self.start, self.segments@, i)
    }

    pub fn new(start: Element) -> (r: PenPath)
        ensures
            r.start == start,
            r.segments@ =~= Seq::<Segment>::empty(),
    {
        PenPath { start, segments: Vec::new() }
    }

    pub fn new_w_segments(start: Element, segments: Vec<Segment>) -> (r: PenPath)
        ensures
            r.start == start,
            r.segments@ == segments@,
    {
        PenPath { start, segments }
    }

    /// Append the given segments at the end of the path, in order.
    pub fn extend(&mut self, segments: Vec<Segment>)
        ensures
            final(self).start == old(self).start,
            final(self).segments@ == old(self).segments@ + segments@,
    {
        let mut i: usize = 0;
        while i < segments.len()
            invariant
                i <= segments.len(),
                self.start == old(self).start,
                self.segments@ == old(self).segments@ + segments@.take(i as int),
            decreases segments.len() - i,
        {
            self.segments.push(segments[i]);
            i += 1;
            assert(segments@.take(i as int) == segments@.take(i as int - 1).push(
                segments@[i as int - 1],
            ));
        }
        assert(segments@.take(segments@.len() as int) == segments@);
    }

    /// The tight bounds of the path.
    pub fn bounds(&self) -> (r: Aabb)
        ensures
            r == self.spec_bounds(),
            r.wf(),
            self.in_range() ==> r.in_range(),
    {
        let mut acc = Aabb::from_point(self.start.pos);
        let mut i: usize = 0;
        while i < self.segments.len()
            invariant
                i <= self.segments@.len(),
                acc == self.spec_bounds_up_to(i as int),
            decreases self.segments@.len() - i,
        {
            acc = acc.merged(&self.segments[i].aabb());
            i += 1;
        }
        proof {
            lemma_path_bounds_upto_wf(self.start, self.segments@, self.segments@.len() as int);
        }
        acc
    }

    /// One box per segment, each covering the segment and the point it starts
    /// at.
    pub fn hitboxes(&self) -> (r: Vec<Aabb>)
        ensures
            r@.len() == self.segments@.len(),
            forall|i: int| 0 <= i < r@.len() ==> r@[i] == self.spec_seg_box(i),
    {
        let mut r: Vec<Aabb> = Vec::new();
        let mut prev: Element = self.start;
        let mut i: usize = 0;
        while i < self.segments.len()
            invariant
                i <= self.segments@.len(),
                r@.len() == i,
                prev == self.spec_seg_start(i as int),
                forall|j: int| 0 <= j < i ==> r@[j] == self.spec_seg_box(j),
            decreases self.segments@.len() - i,
        {
            let seg = self.segments[i];
            r.push(Aabb::from_point(prev.pos).merged(&seg.aabb()));
            prev = seg.end();
            i += 1;
        }
        r
    }

    /// Move every point of the path by `offset`. The machine-limit
    /// precondition keeps every translated coordinate inside the accepted
    /// coordinate range.
    pub fn translate(&mut self, offset: Vector)
        requires
            old(self).in_range(),
            can_translate_element(old(self).start, offset),
            forall|i: int| 0 <= i < old(self).segments@.len() ==> can_translate_segment(
                #[trigger] old(self).segments@[i],
                offset,
            ),
        ensures
            final(self).start == spec_translate_element(old(self).start, offset),
            final(self).segments@.len() == old(self).segments@.len(),
            forall|i: int| 0 <= i < old(self).segments@.len() ==> final(self).segments@[i]
                == spec_translate_segment(old(self).segments@[i], offset),
            final(self).in_range(),
    {
        self.start = Element {
            pos: Vector { x: self.start.pos.x + offset.x, y: self.start.pos.y + offset.y },
            pressure: self.start.pressure,
        };
        let mut out: Vec<Segment> = Vec::new();
        let mut i: usize = 0;
        while i < self.segments.len()
            invariant
                i <= self.segments@.len(),
                self.segments@ == old(self).segments@,
                out@.len() == i,
                forall|j: int| 0 <= j < i ==> out@[j] == spec_translate_segment(
                    old(self).segments@[j],
                    offset,
                ),
                forall|j: int| 0 <= j < old(self).segments@.len() ==> can_translate_segment(
                    #[trigger] old(self).segments@[j],
                    offset,
                ),
            decreases self.segments@.len() - i,
        {
            let seg = self.segments[i];
            let moved = match seg {
                Segment::LineTo { end } => Segment::LineTo { end: translate_element(end, offset) },
                Segment::QuadBezTo { cp, end } => Segment::QuadBezTo {
                    cp: translate_vector(cp, offset),
                    end: translate_element(end, offset),
                },
                Segment::CubicBezTo { cp1, cp2, end } => Segment::CubicBezTo {
                    cp1: translate_vector(cp1, offset),
                    cp2: translate_vector(cp2, offset),
                    end: translate_element(end, offset),
                },
            };
            out.push(moved);
            i += 1;
        }
        self.segments = out;
    }

    /// Scale every point of the path per axis by the fixed-point factors
    /// `sx` and `sy`.
    pub fn scale(&mut self, sx: i64, sy: i64)
        requires
            old(self).in_range(),
            0 < sx <= SCALE_FACTOR_MAX,
            0 < sy <= SCALE_FACTOR_MAX,
            can_scale_element(old(self).start, sx, sy),
            forall|i: int| 0 <= i < old(self).segments@.len() ==> can_scale_segment(
                #[trigger] old(self).segments@[i],
                sx,
                sy,
            ),
        ensures
            final(self).start == spec_scale_element(old(self).start, sx, sy),
            final(self).segments@.len() == old(self).segments@.len(),
            forall|i: int| 0 <= i < old(self).segments@.len() ==> final(self).segments@[i]
                == spec_scale_segment(old(self).segments@[i], sx, sy),
            final(self).in_range(),
    {
        self.start = Element {
            pos: Vector {
                x: scale_coord(self.start.pos.x, sx),
                y: scale_coord(self.start.pos.y, sy),
            },
            pressure: self.start.pressure,
        };
        let mut out: Vec<Segment> = Vec::new();
        let mut i: usize = 0;
        while i < self.segments.len()
            invariant
                i <= self.segments@.len(),
                self.segments@ == old(self).segments@,
                0 < sx <= SCALE_FACTOR_MAX,
                0 < sy <= SCALE_FACTOR_MAX,
                segments_in_range(self.segments@),
                out@.len() == i,
                forall|j: int| 0 <= j < i ==> out@[j] == spec_scale_segment(
                    old(self).segments@[j],
                    sx,
                    sy,
                ),
                forall|j: int| 0 <= j < old(self).segments@.len() ==> can_scale_segment(
                    #[trigger] old(self).segments@[j],
                    sx,
                    sy,
                ),
            decreases self.segments@.len() - i,
        {
            let seg = self.segments[i];
            assert(seg.in_range());
            let scaled = match seg {
                Segment::LineTo { end } => Segment::LineTo { end: scale_element(end, sx, sy) },
                Segment::QuadBezTo { cp, end } => Segment::QuadBezTo {
                    cp: scale_vector(cp, sx, sy),
                    end: scale_element(end, sx, sy),
                },
                Segment::CubicBezTo { cp1, cp2, end } => Segment::CubicBezTo {
                    cp1: scale_vector(cp1, sx, sy),
                    cp2: scale_vector(cp2, sx, sy),
                    end: scale_element(end, sx, sy),
                },
            };
            out.push(scaled);
            i += 1;
        }
        self.segments = out;
    }
}

fn translate_vector(v: Vector, off: Vector) -> (r: Vector)
    requires
        can_translate_vector(v, off),
    ensures
        r == spec_translate_vector(v, off),
        r.in_range(),
{
    Vector { x: v.x + off.x, y: v.y + off.y }
}

fn translate_element(e: Element, off: Vector) -> (r: Element)
    requires
        can_translate_element(e, off),
    ensures
        r == spec_translate_element(e, off),
        r.in_range(),
{
    Element { pos: translate_vector(e.pos, off), pressure: e.pressure }
}

fn scale_vector(v: Vector, sx: i64, sy: i64) -> (r: Vector)
    requires
        v.in_range(),
        0 < sx <= SCALE_FACTOR_MAX,
        0 < sy <= SCALE_FACTOR_MAX,
    ensures
        r == spec_scale_vector(v, sx, sy),
{
    Vector { x: scale_coord(v.x, sx), y: scale_coord(v.y, sy) }
}

fn scale_element(e: Element, sx: i64, sy: i64) -> (r: Element)
    requires
        e.in_range(),
        0 < sx <= SCALE_FACTOR_MAX,
        0 < sy <= SCALE_FACTOR_MAX,
    ensures
        r == spec_scale_element(e, sx, sy),
{
    Element { pos: scale_vector(e.pos, sx, sy), pressure: e.pressure }
}

} // verus!
