//! One marker stroke: its path, fixed style attributes, and the cached
//! geometry (bounds and hitboxes) derived from them.

use vstd::prelude::*;

use crate::color::Color;
use crate::config::{MarkerError, MarkerShape};
use crate::geometry::{
    is_sqrt, isqrt, spec_loosened, Aabb, Vector, COORD_LIMIT, SCALE_FACTOR_MAX, UNIT,
};
use crate::penpath::{
    can_scale_element, can_scale_segment, can_translate_element, can_translate_segment,
    segments_in_range, spec_path_bounds, spec_scale_element, spec_scale_segment, spec_seg_box_of,
    spec_seg_start_of, spec_translate_element, spec_translate_segment, Element, PenPath, Segment,
};

verus! {

/// Largest width (in subunits) a stroke may carry; scaling a stroke up is
/// bounded so that this limit is kept.
pub const WIDTH_LIMIT: i64 = 1_000_000_000;

/// A raster patch described by the region of the document it covers and the
/// fixed-point scale it is rasterized at. The pixel data itself is produced
/// by an outside rasterizer from this description.
#[derive(Clone, Copy, PartialEq, Eq, Structural, Debug)]
pub struct ImagePatch {
    pub bounds: Aabb,
    pub scale: i64,
}

/// The images generated for a stroke: either the entire stroke fit in the
/// viewport (`Full`) or only the part clipped to it (`Partial`, which keeps
/// the viewport so the caller knows what region was covered).
#[derive(Clone, Debug)]
pub enum GeneratedContentImages {
    Full(Vec<ImagePatch>),
    Partial { images: Vec<ImagePatch>, viewport: Aabb },
}

/// Line join style a shape maps to, purely a rendering parameter.
#[derive(Clone, Copy, PartialEq, Eq, Structural, Debug)]
pub enum LineJoin {
    Round,
    Bevel,
}

/// Line cap style a shape maps to, purely a rendering parameter.
#[derive(Clone, Copy, PartialEq, Eq, Structural, Debug)]
pub enum LineCap {
    Round,
    Butt,
}

#[derive(Clone, Copy, PartialEq, Eq, Structural, Debug)]
pub struct StrokeStyle {
    pub join: LineJoin,
    pub cap: LineCap,
}

/// How a stroke's selection highlight is drawn: as a filled box when the
/// stroke appears tiny at the current zoom, or as an outline along the path.
#[derive(Clone, Copy, PartialEq, Eq, Structural, Debug)]
pub enum Highlight {
    Bounds(Aabb),
    Outline { width: i64 },
}

/// Below this on-screen area (in square subunits) a highlight degenerates to
/// a filled box: 100 square units.
pub const HIGHLIGHT_THRESHOLD_AREA: i64 = 100_000_000;

/// Smallest on-screen highlight outline width: 5 units, in subunits scaled by
/// [`UNIT`] so that dividing by a fixed-point zoom yields subunits.
pub const HIGHLIGHT_MIN_WIDTH_SCALED: i64 = 5_000_000;

/// The extra outline width beyond the stroke's own: 3 units, scaled as above.
pub const HIGHLIGHT_EXTRA_WIDTH_SCALED: i64 = 3_000_000;

/// One persisted marker stroke.
///
/// The path is append-only while drawing; width, shape and color are fixed at
/// creation. `hitboxes` caches per-segment boxes and is stale after any path
/// mutation until [`MarkerStroke::update_geometry`] runs again.
#[derive(Clone, Debug)]
pub struct MarkerStroke {
    pub path: PenPath,
    pub width: i64,
    pub shape: MarkerShape,
    pub color: Color,
    /// Cached per-segment hitboxes; stale after any path mutation until
    /// [`MarkerStroke::update_geometry`] runs again.
    pub hitboxes: Vec<Aabb>,
}

impl MarkerStroke {
    /// The cached hitboxes as they currently are, current or stale.
    pub open spec fn cached_hitboxes(self) -> Seq<Aabb> {
        self.hitboxes@
    }

    pub open spec fn wf(self) -> bool {
        self.path.in_range() && 0 < self.width <= WIDTH_LIMIT
    }

    pub open spec fn spec_half_width(self) -> int {
        self.width as int / 2
    }

    /// The stroke's bounds: the path's tight bounds loosened by half the
    /// width on all sides.
    pub open spec fn spec_bounds(self) -> Aabb {
        spec_loosened(spec_path_bounds(self.path.start, self.path.segments@), self.spec_half_width())
    }

    /// What the hitboxes must be for the current path: one box per segment,
    /// the segment's own box loosened by half the width.
    pub open spec fn spec_hitboxes(self) -> Seq<Aabb> {
        Seq::new(
            self.path.segments@.len(),
            |i: int| spec_loosened(
                spec_seg_box_of(self.path.start, self.path.segments@, i),
                self.spec_half_width(),
            ),
        )
    }

    /// The cached geometry agrees with the current path.
    pub open spec fn geometry_current(self) -> bool {
        self.cached_hitboxes() == self.spec_hitboxes()
    }

    /// A new stroke of a single start element and no segments yet, with its
    /// geometry computed.
    pub fn new(start: Element, width: i64, shape: MarkerShape, color: Color) -> (r: MarkerStroke)
        requires
            start.in_range(),
            0 < width <= WIDTH_LIMIT,
        ensures
            r.path.start == start,
            r.path.segments@.len() == 0,
            r.width == width,
            r.shape == shape,
            r.color == color,
            r.wf(),
            r.geometry_current(),
    {
        Self::from_penpath(PenPath::new(start), width, shape, color)
    }

    /// A stroke over an existing path, with its geometry computed.
    pub fn from_penpath(path: PenPath, width: i64, shape: MarkerShape, color: Color) -> (r:
        MarkerStroke)
        requires
            path.in_range(),
            0 < width <= WIDTH_LIMIT,
        ensures
            r.path.start == path.start,
            r.path.segments@ == path.segments@,
            r.width == width,
            r.shape == shape,
            r.color == color,
            r.wf(),
            r.geometry_current(),
    {
        let mut stroke = MarkerStroke { path, width, shape, color, hitboxes: Vec::new() };
        stroke.update_geometry();
        stroke
    }

    /// Recompute the cached hitboxes (and thereby the bounds) from the
    /// current path. Must be called after any path mutation before the
    /// cached geometry is trusted.
    pub fn update_geometry(&mut self)
        requires
            old(self).wf(),
        ensures
            final(self).path.start == old(self).path.start,
            final(self).path.segments@ == old(self).path.segments@,
            final(self).width == old(self).width,
            final(self).shape == old(self).shape,
            final(self).color == old(self).color,
            final(self).geometry_current(),
            final(self).wf(),
    {
        let boxes = self.gen_hitboxes_int();
        self.hitboxes = boxes;
        proof {
            assert(self.cached_hitboxes() =~= self.spec_hitboxes());
        }
    }

    /// The per-segment hitboxes for the current path.
    fn gen_hitboxes_int(&self) -> (r: Vec<Aabb>)
        requires
            self.wf(),
        ensures
            r@.len() == self.path.segments@.len(),
            forall|i: int| 0 <= i < r@.len() ==> r@[i] == spec_loosened(
                spec_seg_box_of(self.path.start, self.path.segments@, i),
                self.spec_half_width(),
            ),
    {
        let raw = self.path.hitboxes();
        let half = self.width / 2;
        let mut r: Vec<Aabb> = Vec::new();
        let mut i: usize = 0;
        while i < raw.len()
            invariant
                self.wf(),
                raw@.len() == self.path.segments@.len(),
                forall|j: int| 0 <= j < raw@.len() ==> raw@[j] == self.path.spec_seg_box(j),
                half == self.spec_half_width(),
                0 <= half <= WIDTH_LIMIT,
                i <= raw@.len(),
                r@.len() == i,
                forall|j: int| 0 <= j < i ==> r@[j] == spec_loosened(
                    spec_seg_box_of(self.path.start, self.path.segments@, j),
                    self.spec_half_width(),
                ),
            decreases raw@.len() - i,
        {
            proof {
                assert(self.path.segments@[i as int].in_range());
                if i > 0 {
                    assert(self.path.segments@[i as int - 1].in_range());
                }
            }
            r.push(raw[i].loosened(half));
            i += 1;
        }
        r
    }

    /// The stroke's cached bounds-defining data recomputed on the fly: the
    /// path bounds loosened by half the width.
    pub fn bounds(&self) -> (r: Aabb)
        requires
            self.wf(),
        ensures
            r == self.spec_bounds(),
            r.wf(),
            -(COORD_LIMIT + WIDTH_LIMIT) <= r.mins.x,
            -(COORD_LIMIT + WIDTH_LIMIT) <= r.mins.y,
            r.maxs.x <= COORD_LIMIT + WIDTH_LIMIT,
            r.maxs.y <= COORD_LIMIT + WIDTH_LIMIT,
    {
        self.path.bounds().loosened(self.width / 2)
    }

    /// The cached per-segment hitboxes. Stale after a path mutation until
    /// [`MarkerStroke::update_geometry`] runs.
    pub fn hitboxes(&self) -> (r: Vec<Aabb>)
        ensures
            r@ == self.cached_hitboxes(),
    {
        let mut r: Vec<Aabb> = Vec::new();
        let mut i: usize = 0;
        while i < self.hitboxes.len()
            invariant
                i <= self.hitboxes@.len(),
                r@.len() == i,
                forall|j: int| 0 <= j < i ==> r@[j] == self.hitboxes@[j],
            decreases self.hitboxes@.len() - i,
        {
            r.push(self.hitboxes[i]);
            i += 1;
        }
        proof {
            assert(r@ =~= self.cached_hitboxes());
        }
        r
    }

    /// Append segments at the end of the path, in drawing order. The cached
    /// geometry is left untouched and is stale until recomputed.
    pub fn extend_w_segments(&mut self, segments: Vec<Segment>)
        requires
            old(self).wf(),
            segments_in_range(segments@),
        ensures
            final(self).path.start == old(self).path.start,
            final(self).path.segments@ == old(self).path.segments@ + segments@,
            final(self).width == old(self).width,
            final(self).shape == old(self).shape,
            final(self).color == old(self).color,
            final(self).cached_hitboxes() == old(self).cached_hitboxes(),
            final(self).wf(),
    {
        self.path.extend(segments);
    }

    /// Replace the current path with the given new one and recompute the
    /// geometry. A path always carries at least its start element, so the
    /// replacement cannot be empty.
    pub fn replace_path(&mut self, path: PenPath)
        requires
            old(self).wf(),
            path.in_range(),
        ensures
            final(self).path.start == path.start,
            final(self).path.segments@ == path.segments@,
            final(self).width == old(self).width,
            final(self).shape == old(self).shape,
            final(self).color == old(self).color,
            final(self).geometry_current(),
            final(self).wf(),
    {
        self.path = path;
        self.update_geometry();
    }

    /// Move the whole stroke by `offset`. Only the path moves; the cached
    /// geometry is stale afterwards.
    pub fn translate(&mut self, offset: Vector)
        requires
            old(self).wf(),
            can_translate_element(old(self).path.start, offset),
            forall|i: int| 0 <= i < old(self).path.segments@.len() ==> can_translate_segment(
                #[trigger] old(self).path.segments@[i],
                offset,
            ),
        ensures
            final(self).path.start == spec_translate_element(old(self).path.start, offset),
            final(self).path.segments@.len() == old(self).path.segments@.len(),
            forall|i: int| 0 <= i < old(self).path.segments@.len() ==> final(self).path.segments@[i]
                == spec_translate_segment(old(self).path.segments@[i], offset),
            final(self).width == old(self).width,
            final(self).shape == old(self).shape,
            final(self).color == old(self).color,
            final(self).wf(),
    {
        self.path.translate(offset);
    }

    /// Scale the stroke per axis by the fixed-point factors `scale.x` and
    /// `scale.y`. The path coordinates scale per axis; the width scales by
    /// the geometric mean of the two factors, which preserves visual stroke
    /// thickness best under anisotropic scaling.
    pub fn scale(&mut self, scale: Vector)
        requires
            old(self).wf(),
            0 < scale.x <= SCALE_FACTOR_MAX,
            0 < scale.y <= SCALE_FACTOR_MAX,
            can_scale_element(old(self).path.start, scale.x, scale.y),
            forall|i: int| 0 <= i < old(self).path.segments@.len() ==> can_scale_segment(
                #[trigger] old(self).path.segments@[i],
                scale.x,
                scale.y,
            ),
            forall|r: int| #[trigger] is_sqrt(scale.x * scale.y, r) ==> 0 < old(self).width * r / (
            UNIT as int) <= WIDTH_LIMIT,
        ensures
            final(self).path.start == spec_scale_element(old(self).path.start, scale.x, scale.y),
            final(self).path.segments@.len() == old(self).path.segments@.len(),
            forall|i: int| 0 <= i < old(self).path.segments@.len() ==> final(self).path.segments@[i]
                == spec_scale_segment(old(self).path.segments@[i], scale.x, scale.y),
            forall|r: int| #[trigger] is_sqrt(scale.x * scale.y, r) ==> final(self).width == old(
                self,
            ).width * r / (UNIT as int),
            final(self).shape == old(self).shape,
            final(self).color == old(self).color,
            final(self).wf(),
    {
        self.path.scale(scale.x, scale.y);
        proof {
            assert(0 <= scale.x * scale.y <= 4_000_000_000_000) by (nonlinear_arith)
                requires
                    0 < scale.x <= SCALE_FACTOR_MAX && 0 < scale.y <= SCALE_FACTOR_MAX,
            ;
        }
        let factor = isqrt(scale.x * scale.y);
        proof {
            let n = scale.x * scale.y;
            assert(factor <= 2_100_000) by (nonlinear_arith)
                requires
                    0 <= factor && factor * factor <= 4_000_000_000_000,
            ;
            assert(0 <= self.width * factor <= WIDTH_LIMIT * 2_100_000) by (nonlinear_arith)
                requires
                    0 < self.width <= WIDTH_LIMIT && 0 <= factor <= 2_100_000,
            ;
            assert forall|r: int| is_sqrt(n as int, r) implies r == factor as int by {
                assert(r == factor as int) by (nonlinear_arith)
                    requires
                        0 <= r,
                        r * r <= n as int,
                        (n as int) < (r + 1) * (r + 1),
                        0 <= factor as int,
                        (factor as int) * (factor as int) <= n as int,
                        (n as int) < ((factor as int) + 1) * ((factor as int) + 1),
                ;
            }
        }
        self.width = (self.width * factor) / UNIT;
    }

    /// The trailing sub-path of the last `n_last_segments` segments, plus the
    /// element immediately preceding them so the sub-path stays continuous.
    /// Its segment count is the smaller of `n_last_segments` and the path
    /// length.
    pub fn last_segments_path(&self, n_last_segments: usize) -> (r: PenPath)
        requires
            self.wf(),
        ensures
            r.segments@.len() == if n_last_segments <= self.path.segments@.len() {
                n_last_segments as int
            } else {
                self.path.segments@.len() as int
            },
            n_last_segments >= self.path.segments@.len() ==> r.segments@ == self.path.segments@
                && r.start == self.path.start,
            n_last_segments < self.path.segments@.len() ==> r.segments@ == self.path.segments@.skip(
                self.path.segments@.len() - n_last_segments as int,
            ) && r.start == self.path.segments@[self.path.segments@.len() - n_last_segments as int
                - 1].spec_end(),
            r.in_range(),
    {
        let len = self.path.segments.len();
        let cut = if n_last_segments >= len {
            0
        } else {
            len - n_last_segments
        };
        let start_el = if cut == 0 {
            self.path.start
        } else {
            self.path.segments[cut - 1].end()
        };
        let mut segs: Vec<Segment> = Vec::new();
        let mut i: usize = cut;
        while i < len
            invariant
                cut <= i <= len,
                len == self.path.segments@.len(),
                self.wf(),
                segs@ == self.path.segments@.subrange(cut as int, i as int),
            decreases len - i,
        {
            segs.push(self.path.segments[i]);
            i += 1;
            assert(self.path.segments@.subrange(cut as int, i as int) == self.path.segments@
                .subrange(cut as int, i as int - 1).push(self.path.segments@[i as int - 1]));
        }
        proof {
            if cut == 0 {
                assert(self.path.segments@.subrange(0, len as int) =~= self.path.segments@);
            } else {
                assert(self.path.segments@.subrange(cut as int, len as int) =~= self.path.segments@
                    .skip(cut as int));
            }
        }
        PenPath::new_w_segments(start_el, segs)
    }

    /// Rasterization description for the whole stroke as one unified image,
    /// so self-overlapping parts of the path are not painted twice.
    ///
    /// The result is `Full` when the entire stroke bounds fit inside the
    /// viewport, `Partial` clipped to their intersection otherwise, and an
    /// explicitly empty `Partial` when the stroke does not intersect the
    /// viewport at all. In this geometric model image generation cannot
    /// degenerate, so the result is always `Ok`.
    pub fn gen_images(&self, viewport: Aabb, image_scale: i64) -> (r: Result<
        GeneratedContentImages,
        MarkerError,
    >)
        requires
            self.wf(),
            viewport.wf(),
        ensures
            r is Ok,
            !viewport.spec_intersects(self.spec_bounds()) ==> (r matches Ok(
                GeneratedContentImages::Partial { images, viewport: vp },
            ) && images@.len() == 0 && vp == viewport),
            viewport.spec_intersects(self.spec_bounds()) && viewport.spec_contains(
                self.spec_bounds(),
            ) ==> (r matches Ok(GeneratedContentImages::Full(images)) && images@.len() == 1
                && images@[0] == (ImagePatch {
                bounds: viewport.spec_intersection(self.spec_bounds()),
                scale: image_scale,
            })),
            viewport.spec_intersects(self.spec_bounds()) && !viewport.spec_contains(
                self.spec_bounds(),
            ) ==> (r matches Ok(GeneratedContentImages::Partial { images, viewport: vp })
                && images@.len() == 1 && images@[0] == (ImagePatch {
                bounds: viewport.spec_intersection(self.spec_bounds()),
                scale: image_scale,
            }) && vp == viewport),
    {
        let bounds = self.bounds();
        let partial = !viewport.contains(&bounds);
        let clipped = viewport.intersection(&bounds);
        match clipped {
            None => Ok(GeneratedContentImages::Partial { images: Vec::new(), viewport }),
            Some(clip) => {
                let mut images: Vec<ImagePatch> = Vec::new();
                images.push(ImagePatch { bounds: clip, scale: image_scale });
                if partial {
                    Ok(GeneratedContentImages::Partial { images, viewport })
                } else {
                    Ok(GeneratedContentImages::Full(images))
                }
            },
        }
    }

    /// Rasterization description for only the newest `n_last_segments`
    /// segments: the sub-path's own bounds, loosened by half the width. This
    /// backs the incremental per-event rendering while drawing, whose cost is
    /// proportional to the newly added geometry rather than the whole stroke.
    pub fn gen_image_for_last_segments(&self, n_last_segments: usize, image_scale: i64) -> (r:
        Result<Option<ImagePatch>, MarkerError>)
        requires
            self.wf(),
        ensures
            ({
                let len = self.path.segments@.len() as int;
                let cut = if n_last_segments as int >= len {
                    0int
                } else {
                    len - n_last_segments as int
                };
                let tail_start = spec_seg_start_of(self.path.start, self.path.segments@, cut);
                r matches Ok(Some(patch)) && patch.scale == image_scale && patch.bounds
                    == spec_loosened(
                    spec_path_bounds(tail_start, self.path.segments@.skip(cut)),
                    self.spec_half_width(),
                )
            }),
    {
        let range_path = self.last_segments_path(n_last_segments);
        let bounds = range_path.bounds().loosened(self.width / 2);
        proof {
            let len = self.path.segments@.len() as int;
            let cut = if n_last_segments as int >= len {
                0int
            } else {
                len - n_last_segments as int
            };
            if n_last_segments as int >= len {
                assert(self.path.segments@.skip(0) =~= self.path.segments@);
            }
            assert(range_path.segments@ =~= self.path.segments@.skip(cut));
        }
        Ok(Some(ImagePatch { bounds, scale: image_scale }))
    }

    /// The rendering style the shape maps to: round joins and caps for
    /// `Circular`, beveled joins and butt caps for `Rectangular`.
    pub fn stroke_style(&self) -> (r: StrokeStyle)
        ensures
            self.shape == MarkerShape::Circular ==> r == (StrokeStyle {
                join: LineJoin::Round,
                cap: LineCap::Round,
            }),
            self.shape == MarkerShape::Rectangular ==> r == (StrokeStyle {
                join: LineJoin::Bevel,
                cap: LineCap::Butt,
            }),
    {
        match self.shape {
            MarkerShape::Circular => StrokeStyle { join: LineJoin::Round, cap: LineCap::Round },
            MarkerShape::Rectangular => StrokeStyle { join: LineJoin::Bevel, cap: LineCap::Butt },
        }
    }

    /// How to draw this stroke's selection highlight at the given fixed-point
    /// zoom: a filled bounds box when the on-screen bounds area falls below
    /// [`HIGHLIGHT_THRESHOLD_AREA`], otherwise an outline along the path
    /// whose width is the larger of a fixed minimum on-screen width and the
    /// stroke's own width slightly widened.
    pub fn highlight_geometry(&self, total_zoom: i64) -> (r: Highlight)
        requires
            self.wf(),
            0 < total_zoom <= SCALE_FACTOR_MAX,
        ensures
            ({
                let b = self.spec_bounds();
                let sw = (b.maxs.x - b.mins.x) * total_zoom / (UNIT as int);
                let sh = (b.maxs.y - b.mins.y) * total_zoom / (UNIT as int);
                let min_w = HIGHLIGHT_MIN_WIDTH_SCALED as int / (total_zoom as int);
                let own_w = self.width + HIGHLIGHT_EXTRA_WIDTH_SCALED as int / (total_zoom as int);
                if sw * sh < HIGHLIGHT_THRESHOLD_AREA {
                    r == Highlight::Bounds(b)
                } else {
                    r == (Highlight::Outline {
                        width: if min_w >= own_w {
                            min_w as i64
                        } else {
                            own_w as i64
                        },
                    })
                }
            }),
    {
        let b = self.bounds();
        let ext_x = b.maxs.x - b.mins.x;
        let ext_y = b.maxs.y - b.mins.y;
        proof {
            assert(0 <= ext_x * total_zoom <= 3_000_000_000_000 * SCALE_FACTOR_MAX)
                by (nonlinear_arith)
                requires
                    0 <= ext_x <= 3_000_000_000_000 && 0 < total_zoom <= SCALE_FACTOR_MAX,
            ;
            assert(0 <= ext_y * total_zoom <= 3_000_000_000_000 * SCALE_FACTOR_MAX)
                by (nonlinear_arith)
                requires
                    0 <= ext_y <= 3_000_000_000_000 && 0 < total_zoom <= SCALE_FACTOR_MAX,
            ;
        }
        let sw = ext_x * total_zoom / UNIT;
        let sh = ext_y * total_zoom / UNIT;
        proof {
            assert(0 <= sw <= 3_000_000_000_000_000_000int / 1000);
            assert(0 <= sh <= 3_000_000_000_000_000_000int / 1000);
            assert((sw as int) * (sh as int) <= 3_000_000_000_000_000 * 3_000_000_000_000_000)
                by (nonlinear_arith)
                requires
                    0 <= sw <= 3_000_000_000_000_000 && 0 <= sh <= 3_000_000_000_000_000,
            ;
        }
        let area = (sw as i128) * (sh as i128);
        if area < HIGHLIGHT_THRESHOLD_AREA as i128 {
            Highlight::Bounds(b)
        } else {
            let min_w = HIGHLIGHT_MIN_WIDTH_SCALED / total_zoom;
            let own_w = self.width + HIGHLIGHT_EXTRA_WIDTH_SCALED / total_zoom;
            Highlight::Outline {
                width: if min_w >= own_w {
                    min_w
                } else {
                    own_w
                },
            }
        }
    }
}

/// Law: a stroke whose cached geometry is current keeps exactly one hitbox
/// per path segment, and its bounds are exactly the path's tight bounds
/// loosened by half the width on all sides.
pub proof fn lemma_current_geometry_shape(s: MarkerStroke)
    requires
        s.geometry_current(),
    ensures
        s.cached_hitboxes().len() == s.path.segments@.len(),
        s.spec_bounds() == spec_loosened(
            spec_path_bounds(s.path.start, s.path.segments@),
            s.spec_half_width(),
        ),
{
}

/// Law: recomputing geometry is idempotent. If `after` is the state of a
/// stroke right after `update_geometry`, running it again recomputes exactly
/// the same hitboxes and the same bounds, because both depend only on the
/// path and the width, which the recomputation leaves untouched.
pub proof fn lemma_update_geometry_idempotent(before: MarkerStroke, after: MarkerStroke)
    requires
        after.path.start == before.path.start,
        after.path.segments@ == before.path.segments@,
        after.width == before.width,
        after.cached_hitboxes() == before.spec_hitboxes(),
    ensures
        after.spec_hitboxes() == before.spec_hitboxes(),
        after.cached_hitboxes() == after.spec_hitboxes(),
        after.spec_bounds() == before.spec_bounds(),
{
    assert(after.spec_hitboxes() =~= before.spec_hitboxes());
}

} // verus!
