//! The collaborators the tool drives during one event: the shared stroke
//! store, the document, the camera, and the render work queue.

use vstd::prelude::*;

use crate::config::StrokeLayer;
use crate::geometry::{spec_merged, Aabb, COORD_LIMIT};
use crate::stroke::WIDTH_LIMIT;
use crate::penpath::{segments_in_range, Segment};
use crate::stroke::MarkerStroke;

verus! {

/// Flags the tool hands back so the surrounding widgets know what changed.
#[derive(Clone, Copy, PartialEq, Eq, Structural, Debug)]
pub struct WidgetFlags {
    /// The canvas needs to be redrawn.
    pub redraw: bool,
    /// The document surface may need to be resized.
    pub resize: bool,
    /// Widgets reflecting engine state need a refresh.
    pub refresh_ui: bool,
    /// The store's content changed.
    pub store_modified: bool,
}

pub open spec fn spec_flags_none() -> WidgetFlags {
    WidgetFlags { redraw: false, resize: false, refresh_ui: false, store_modified: false }
}

impl Default for WidgetFlags {
    fn default() -> (r: Self)
        ensures
            r == spec_flags_none(),
    {
        WidgetFlags { redraw: false, resize: false, refresh_ui: false, store_modified: false }
    }
}

impl WidgetFlags {
    pub open spec fn spec_merged_with(self, other: WidgetFlags) -> WidgetFlags {
        WidgetFlags {
            redraw: self.redraw || other.redraw,
            resize: self.resize || other.resize,
            refresh_ui: self.refresh_ui || other.refresh_ui,
            store_modified: self.store_modified || other.store_modified,
        }
    }

    /// Fold another set of flags into this one.
    pub fn merge(&mut self, other: WidgetFlags)
        ensures
            *final(self) == old(self).spec_merged_with(other),
    {
        self.redraw = self.redraw || other.redraw;
        self.resize = self.resize || other.resize;
        self.refresh_ui = self.refresh_ui || other.refresh_ui;
        self.store_modified = self.store_modified || other.store_modified;
    }
}

/// An opaque handle to one stroke in the store.
#[derive(Clone, Copy, PartialEq, Eq, Structural, Debug)]
pub struct StrokeKey {
    pub idx: usize,
}

/// The camera's queries the tool consumes: the current viewport and the
/// fixed-point scale images are generated at.
#[derive(Clone, Copy, PartialEq, Eq, Structural, Debug)]
pub struct Camera {
    pub viewport: Aabb,
    pub image_scale: i64,
}

impl Camera {
    pub open spec fn wf(self) -> bool {
        self.viewport.wf() && 0 < self.image_scale
    }

    pub fn viewport(&self) -> (r: Aabb)
        ensures
            r == self.viewport,
    {
        self.viewport
    }

    pub fn image_scale(&self) -> (r: i64)
        ensures
            r == self.image_scale,
    {
        self.image_scale
    }
}

/// What a render command asks for: the whole stroke regenerated as one
/// self-overlap-free image, or only its newest segments as one incremental
/// patch.
#[derive(Clone, Copy, PartialEq, Eq, Structural, Debug)]
pub enum RenderKind {
    Full,
    LastSegments { n_segments: usize },
}

/// One render request for one stroke, at a viewport and scale.
#[derive(Clone, Copy, PartialEq, Eq, Structural, Debug)]
pub struct RenderCommand {
    pub key: StrokeKey,
    pub kind: RenderKind,
    pub viewport: Aabb,
    pub image_scale: i64,
}

/// The background render work queue. Commands are applied in queue order, so
/// for any one stroke the incremental patches apply in the order its
/// segments were appended, and a later `Full` command supersedes every
/// earlier patch for that stroke (last writer wins at stroke granularity).
#[derive(Clone, Debug)]
pub struct TaskQueue {
    pub commands: Vec<RenderCommand>,
}

impl TaskQueue {
    pub fn new() -> (r: TaskQueue)
        ensures
            r.commands@ =~= Seq::<RenderCommand>::empty(),
    {
        TaskQueue { commands: Vec::new() }
    }

    /// Append one command at the back of the queue; nothing already queued
    /// moves or disappears.
    pub fn push(&mut self, cmd: RenderCommand)
        ensures
            final(self).commands@ == old(self).commands@.push(cmd),
    {
        self.commands.push(cmd);
    }
}

/// The document's bounds grown to contain the given strokes' bounds, one
/// stroke at a time in store order.
pub open spec fn spec_expanded_bounds(base: Aabb, strokes: Seq<MarkerStroke>, i: int) -> Aabb
    decreases i,
{
    if i <= 0 {
        base
    } else {
        spec_merged(spec_expanded_bounds(base, strokes, i - 1), strokes[i - 1].spec_bounds())
    }
}

/// A document coordinate may exceed the input coordinate range by up to a
/// stroke's largest half width, since the document grows to contain ink.
pub open spec fn doc_coord_ok(x: int) -> bool {
    -(COORD_LIMIT + WIDTH_LIMIT) <= x <= COORD_LIMIT + WIDTH_LIMIT
}

/// The document interface the tool consumes: its bounds query and the
/// auto-expand request issued after every stroke finalize.
#[derive(Clone, Copy, PartialEq, Eq, Structural, Debug)]
pub struct Document {
    pub bounds: Aabb,
    /// How many auto-expand requests the document has received.
    pub autoexpand_requests: u64,
}

impl Document {
    pub open spec fn wf(self) -> bool {
        self.bounds.wf() && doc_coord_ok(self.bounds.mins.x as int) && doc_coord_ok(
            self.bounds.mins.y as int,
        ) && doc_coord_ok(self.bounds.maxs.x as int) && doc_coord_ok(self.bounds.maxs.y as int)
    }

    pub fn bounds(&self) -> (r: Aabb)
        ensures
            r == self.bounds,
    {
        self.bounds
    }

    /// Grow the document so it contains every stroke's ink, and count the
    /// request. The camera is part of the consumed interface but does not
    /// influence this model's layout.
    pub fn resize_autoexpand(&mut self, store: &StrokeStore, camera: &Camera) -> (flags:
        WidgetFlags)
        requires
            old(self).wf(),
            old(self).autoexpand_requests < u64::MAX,
            store.wf(),
        ensures
            final(self).wf(),
            final(self).autoexpand_requests == old(self).autoexpand_requests + 1,
            final(self).bounds == spec_expanded_bounds(
                old(self).bounds,
                store.strokes@,
                store.strokes@.len() as int,
            ),
            flags == spec_flags_none().spec_merged_with(
                WidgetFlags { redraw: false, resize: true, refresh_ui: false, store_modified: false },
            ),
    {
        let mut acc = self.bounds;
        let mut i: usize = 0;
        while i < store.strokes.len()
            invariant
                i <= store.strokes@.len(),
                store.wf(),
                acc == spec_expanded_bounds(old(self).bounds, store.strokes@, i as int),
                self == old(self),
                old(self).wf(),
                acc.wf(),
                doc_coord_ok(acc.mins.x as int),
                doc_coord_ok(acc.mins.y as int),
                doc_coord_ok(acc.maxs.x as int),
                doc_coord_ok(acc.maxs.y as int),
            decreases store.strokes@.len() - i,
        {
            let b = store.strokes[i].bounds();
            acc = acc.merged(&b);
            i += 1;
        }
        self.bounds = acc;
        self.autoexpand_requests = self.autoexpand_requests + 1;
        WidgetFlags { redraw: false, resize: true, refresh_ui: false, store_modified: false }
    }
}

/// The shared stroke store the tool mutates through a handle. Also the
/// sink for history checkpoints and for the render requests that are issued
/// inline rather than queued.
#[derive(Clone, Debug)]
pub struct StrokeStore {
    pub strokes: Vec<MarkerStroke>,
    pub layers: Vec<StrokeLayer>,
    /// How many history checkpoints have been recorded.
    pub history_records: u64,
    /// Render commands executed synchronously, in issue order.
    pub inline_renders: Vec<RenderCommand>,
}

impl StrokeStore {
    pub open spec fn wf(self) -> bool {
        self.layers@.len() == self.strokes@.len() && forall|i: int|
            0 <= i < self.strokes@.len() ==> (#[trigger] self.strokes@[i]).wf()
    }

    pub fn new() -> (r: StrokeStore)
        ensures
            r.strokes@.len() == 0,
            r.layers@.len() == 0,
            r.history_records == 0,
            r.inline_renders@.len() == 0,
            r.wf(),
    {
        StrokeStore {
            strokes: Vec::new(),
            layers: Vec::new(),
            history_records: 0,
            inline_renders: Vec::new(),
        }
    }

    /// Insert a stroke on the given layer and hand back its key.
    pub fn insert_stroke(&mut self, stroke: MarkerStroke, layer: StrokeLayer) -> (key: StrokeKey)
        requires
            old(self).wf(),
            stroke.wf(),
        ensures
            key.idx == old(self).strokes@.len(),
            final(self).strokes@ == old(self).strokes@.push(stroke),
            final(self).layers@ == old(self).layers@.push(layer),
            final(self).history_records == old(self).history_records,
            final(self).inline_renders@ == old(self).inline_renders@,
            final(self).wf(),
    {
        let key = StrokeKey { idx: self.strokes.len() };
        self.strokes.push(stroke);
        self.layers.push(layer);
        key
    }

    /// Borrow the stroke behind a key, if the key is valid.
    pub fn get_stroke(&self, key: StrokeKey) -> (r: Option<&MarkerStroke>)
        ensures
            key.idx < self.strokes@.len() ==> r == Some(&self.strokes@[key.idx as int]),
            key.idx >= self.strokes@.len() ==> r is None,
    {
        if key.idx < self.strokes.len() {
            Some(&self.strokes[key.idx])
        } else {
            None
        }
    }

    /// Append newly emitted segments to the stroke behind `key`. An invalid
    /// key leaves the store untouched. The stroke's cached geometry is stale
    /// afterwards, as during live drawing.
    pub fn extend_stroke(&mut self, key: StrokeKey, segments: Vec<Segment>)
        requires
            old(self).wf(),
            segments_in_range(segments@),
        ensures
            final(self).wf(),
            final(self).layers@ == old(self).layers@,
            final(self).history_records == old(self).history_records,
            final(self).inline_renders@ == old(self).inline_renders@,
            key.idx >= old(self).strokes@.len() ==> final(self).strokes@ == old(self).strokes@,
            key.idx < old(self).strokes@.len() ==> ({
                let s0 = old(self).strokes@[key.idx as int];
                let s1 = final(self).strokes@[key.idx as int];
                final(self).strokes@.len() == old(self).strokes@.len() && (forall|j: int|
                    0 <= j < old(self).strokes@.len() && j != key.idx ==> final(self).strokes@[j]
                        == old(self).strokes@[j]) && s1.path.start == s0.path.start
                    && s1.path.segments@ == s0.path.segments@ + segments@ && s1.width == s0.width
                    && s1.shape == s0.shape && s1.color == s0.color && s1.cached_hitboxes()
                    == s0.cached_hitboxes()
            }),
    {
        if key.idx < self.strokes.len() {
            let stroke = &mut self.strokes[key.idx];
            stroke.extend_w_segments(segments);
        }
    }

    /// Recompute the cached geometry of the stroke behind `key`. An invalid
    /// key leaves the store untouched.
    pub fn update_geometry_for_stroke(&mut self, key: StrokeKey)
        requires
            old(self).wf(),
        ensures
            final(self).wf(),
            final(self).layers@ == old(self).layers@,
            final(self).history_records == old(self).history_records,
            final(self).inline_renders@ == old(self).inline_renders@,
            key.idx >= old(self).strokes@.len() ==> final(self).strokes@ == old(self).strokes@,
            key.idx < old(self).strokes@.len() ==> ({
                let s0 = old(self).strokes@[key.idx as int];
                let s1 = final(self).strokes@[key.idx as int];
                final(self).strokes@.len() == old(self).strokes@.len() && (forall|j: int|
                    0 <= j < old(self).strokes@.len() && j != key.idx ==> final(self).strokes@[j]
                        == old(self).strokes@[j]) && s1.path.start == s0.path.start
                    && s1.path.segments@ == s0.path.segments@ && s1.width == s0.width && s1.shape
                    == s0.shape && s1.color == s0.color && s1.geometry_current()
            }),
    {
        if key.idx < self.strokes.len() {
            let stroke = &mut self.strokes[key.idx];
            stroke.update_geometry();
        }
    }

    /// Request a synchronous full re-render of one stroke.
    pub fn regenerate_rendering_for_stroke(&mut self, key: StrokeKey, viewport: Aabb,
        image_scale: i64)
        ensures
            final(self).strokes@ == old(self).strokes@,
            final(self).layers@ == old(self).layers@,
            final(self).history_records == old(self).history_records,
            final(self).inline_renders@ == old(self).inline_renders@.push(
                RenderCommand { key, kind: RenderKind::Full, viewport, image_scale },
            ),
    {
        self.inline_renders.push(RenderCommand {
            key,
            kind: RenderKind::Full,
            viewport,
            image_scale,
        });
    }

    /// Queue a full re-render of one stroke on the background work queue.
    pub fn regenerate_rendering_for_stroke_threaded(&mut self, tasks: &mut TaskQueue,
        key: StrokeKey, viewport: Aabb, image_scale: i64)
        ensures
            *final(self) == *old(self),
            final(tasks).commands@ == old(tasks).commands@.push(
                RenderCommand { key, kind: RenderKind::Full, viewport, image_scale },
            ),
    {
        tasks.push(RenderCommand { key, kind: RenderKind::Full, viewport, image_scale });
    }

    /// Queue an incremental render covering exactly the newest `n_segments`
    /// segments of one stroke.
    pub fn append_rendering_last_segments(&mut self, tasks: &mut TaskQueue, key: StrokeKey,
        n_segments: usize, viewport: Aabb, image_scale: i64)
        ensures
            *final(self) == *old(self),
            final(tasks).commands@ == old(tasks).commands@.push(
                RenderCommand {
                    key,
                    kind: RenderKind::LastSegments { n_segments },
                    viewport,
                    image_scale,
                },
            ),
    {
        tasks.push(RenderCommand {
            key,
            kind: RenderKind::LastSegments { n_segments },
            viewport,
            image_scale,
        });
    }

    /// Record one history checkpoint at the given timestamp.
    pub fn record(&mut self, now: u64) -> (flags: WidgetFlags)
        requires
            old(self).history_records < u64::MAX,
        ensures
            final(self).strokes@ == old(self).strokes@,
            final(self).layers@ == old(self).layers@,
            final(self).inline_renders@ == old(self).inline_renders@,
            final(self).history_records == old(self).history_records + 1,
            flags == spec_flags_none(),
    {
        self.history_records = self.history_records + 1;
        WidgetFlags { redraw: false, resize: false, refresh_ui: false, store_modified: false }
    }
}

} // verus!
