//! The marker tool's event-driven state machine: it owns one active drawing
//! session and mediates between pointer events, the path builder, the shared
//! stroke store and the render scheduling.

use vstd::prelude::*;

use crate::builder::{
    event_in_range, Buildable, BuilderProgress, Constraints, EventPropagation, EventResult,
    PenEvent, PenProgress,
};
use crate::config::{MarkerConfig, StrokeLayer};
use crate::engine::{
    spec_expanded_bounds, spec_flags_none, Camera, Document, RenderCommand, RenderKind,
    StrokeKey, StrokeStore, TaskQueue, WidgetFlags,
};
use crate::geometry::{spec_loosened, Aabb};
use crate::penpath::{Element, Segment};
use crate::stroke::MarkerStroke;

verus! {

/// Tolerance distance (in subunits) beyond the document's bounds within
/// which a `Down` event is still accepted: 30 distance units.
pub const INPUT_OVERSHOOT: i64 = 30_000;

/// The pen style this tool implements.
#[derive(Clone, Copy, PartialEq, Eq, Structural, Debug)]
pub enum PenStyle {
    Marker,
}

/// The tool session: exactly one of idle, or drawing through one builder
/// into one stroke of the store (held by key, not owned).
#[derive(Clone, Debug)]
pub enum MarkerState<B> {
    Idle,
    Drawing { path_builder: B, current_stroke_key: StrokeKey },
}

/// The marker tool. At most one `Drawing` session exists at a time, which by
/// construction keeps two sessions from mutating the same stroke.
#[derive(Clone, Debug)]
pub struct Marker<B> {
    pub state: MarkerState<B>,
}

impl<B> Default for Marker<B> {
    fn default() -> (r: Self)
        ensures
            r.state is Idle,
    {
        Marker { state: MarkerState::Idle }
    }
}

/// Everything the tool works through during one event, borrowed mutably for
/// the duration of that event's processing.
pub struct EngineViewMut {
    pub config: MarkerConfig,
    pub document: Document,
    pub camera: Camera,
    pub store: StrokeStore,
    pub tasks: TaskQueue,
}

impl EngineViewMut {
    pub open spec fn wf(self) -> bool {
        self.config.wf() && self.document.wf() && self.camera.wf() && self.store.wf()
    }
}

/// A `Down` event is accepted exactly when its position lies within the
/// document's bounds loosened by the overshoot margin.
pub open spec fn down_accepted(doc_bounds: Aabb, element: Element) -> bool {
    spec_loosened(doc_bounds, INPUT_OVERSHOOT as int).spec_contains_point(element.pos)
}

/// The stroke a freshly accepted `Down` creates: anchored at the event's
/// element, styled from the configuration snapshot with the effective color,
/// zero segments, geometry computed.
pub open spec fn stroke_is_new(s: MarkerStroke, config: MarkerConfig, element: Element) -> bool {
    s.path.start == element && s.path.segments@.len() == 0 && s.width == config.width && s.shape
        == config.shape && s.color == config.spec_effective_color() && s.geometry_current()
        && s.wf()
}

/// `s1` is `s0` with `appended` added at the end of the path and nothing
/// else touched; the cached geometry is stale.
pub open spec fn stroke_extended(s1: MarkerStroke, s0: MarkerStroke, appended: Seq<Segment>) -> bool {
    s1.path.start == s0.path.start && s1.path.segments@ == s0.path.segments@ + appended
        && s1.width == s0.width && s1.shape == s0.shape && s1.color == s0.color
        && s1.cached_hitboxes() == s0.cached_hitboxes()
}

/// `s1` is `s0` with `appended` added and the geometry recomputed.
pub open spec fn stroke_finalized(s1: MarkerStroke, s0: MarkerStroke, appended: Seq<Segment>) -> bool {
    s1.path.start == s0.path.start && s1.path.segments@ == s0.path.segments@ + appended
        && s1.width == s0.width && s1.shape == s0.shape && s1.color == s0.color
        && s1.geometry_current()
}

/// `s1` is `s0` with only the geometry recomputed.
pub open spec fn stroke_geometry_updated(s1: MarkerStroke, s0: MarkerStroke) -> bool {
    s1.path.start == s0.path.start && s1.path.segments@ == s0.path.segments@ && s1.width
        == s0.width && s1.shape == s0.shape && s1.color == s0.color && s1.geometry_current()
}

/// All strokes except the one at `k` are untouched.
pub open spec fn others_unchanged(new: Seq<MarkerStroke>, prev: Seq<MarkerStroke>, k: int) -> bool {
    new.len() == prev.len() && forall|j: int|
        0 <= j < prev.len() && j != k ==> new[j] == prev[j]
}

/// The full-regeneration render command for one stroke at the camera's
/// current viewport and scale.
pub open spec fn full_cmd(key: StrokeKey, cam: Camera) -> RenderCommand {
    RenderCommand {
        key,
        kind: RenderKind::Full,
        viewport: cam.viewport,
        image_scale: cam.image_scale,
    }
}

/// The incremental render command covering exactly `n_segments` newest
/// segments of one stroke.
pub open spec fn inc_cmd(key: StrokeKey, n_segments: usize, cam: Camera) -> RenderCommand {
    RenderCommand {
        key,
        kind: RenderKind::LastSegments { n_segments },
        viewport: cam.viewport,
        image_scale: cam.image_scale,
    }
}

impl<B: Buildable> Marker<B> {
    /// The tool is consistent with the store it draws into: a drawing
    /// session's key names an existing stroke and its builder is
    /// well-formed.
    pub open spec fn wf(self, view: EngineViewMut) -> bool {
        match self.state {
            MarkerState::Idle => true,
            MarkerState::Drawing { path_builder, current_stroke_key } => path_builder.wf()
                && current_stroke_key.idx < view.store.strokes@.len(),
        }
    }

    pub fn style(&self) -> (r: PenStyle)
        ensures
            r == PenStyle::Marker,
    {
        PenStyle::Marker
    }

    /// Tool activation: the marker keeps no state across activations.
    pub fn init(&mut self, engine_view: &EngineViewMut) -> (flags: WidgetFlags)
        ensures
            *final(self) == *old(self),
            flags == spec_flags_none(),
    {
        WidgetFlags::default()
    }

    /// Tool deactivation.
    pub fn deinit(&mut self) -> (flags: WidgetFlags)
        ensures
            *final(self) == *old(self),
            flags == spec_flags_none(),
    {
        WidgetFlags::default()
    }

    pub fn update_state(&mut self, engine_view: &mut EngineViewMut) -> (flags: WidgetFlags)
        ensures
            *final(self) == *old(self),
            *final(engine_view) == *old(engine_view),
            flags == spec_flags_none(),
    {
        WidgetFlags::default()
    }

    pub fn handle_animation_frame(&mut self, engine_view: &mut EngineViewMut)
        ensures
            *final(self) == *old(self),
            *final(engine_view) == *old(engine_view),
    {
    }

    /// The marker never draws tool chrome of its own on the document.
    pub fn bounds_on_doc(&self, engine_view: &EngineViewMut) -> (r: Option<Aabb>)
        ensures
            r is None,
    {
        None
    }

    /// The single entry point of the tool state machine: consume one pointer
    /// event against the engine view, mutate the active session, and report
    /// the result together with the side-effect flags.
    ///
    /// While drawing, newly emitted segments cost one incremental render
    /// covering exactly those segments; the finish path recomputes the
    /// stroke's geometry, queues one full self-overlap-free regeneration,
    /// asks the document to auto-expand and records exactly one history
    /// checkpoint. For every valid `Down .. Up` session the finished stroke
    /// keeps at least one segment beyond its start element.
    pub fn handle_event(&mut self, event: PenEvent, now: u64, engine_view: &mut EngineViewMut)
        -> (r: (EventResult<PenProgress>, WidgetFlags))
        requires
            old(self).wf(*old(engine_view)),
            old(engine_view).wf(),
            event_in_range(event),
            old(engine_view).store.history_records < u64::MAX,
            old(engine_view).document.autoexpand_requests < u64::MAX,
        ensures
            final(self).wf(*final(engine_view)),
            final(engine_view).wf(),
            final(engine_view).config == old(engine_view).config,
            final(engine_view).camera == old(engine_view).camera,
            // In the idle state only an accepted `Down` does anything: it
            // creates the stroke, requests its first render inline, and
            // opens the drawing session. A `Down` outside the overshoot
            // margin, and every other event, is a deliberate unhandled
            // pass-through with nothing mutated.
            old(self).state is Idle ==> (match event {
                PenEvent::Down { element } => if down_accepted(
                    old(engine_view).document.bounds,
                    element,
                ) {
                    let ov = *old(engine_view);
                    let nv = *final(engine_view);
                    let key = (StrokeKey { idx: ov.store.strokes@.len() as usize });
                    &&& (match final(self).state {
                        MarkerState::Drawing { path_builder, current_stroke_key } => {
                            &&& path_builder == B::started(element, now)
                            &&& current_stroke_key == key
                        },
                        MarkerState::Idle => false,
                    })
                    &&& nv.store.strokes@.len() == ov.store.strokes@.len() + 1
                    &&& others_unchanged(nv.store.strokes@, ov.store.strokes@.push(
                        nv.store.strokes@.last(),
                    ), ov.store.strokes@.len() as int)
                    &&& stroke_is_new(nv.store.strokes@.last(), ov.config, element)
                    &&& nv.store.layers@ == ov.store.layers@.push(StrokeLayer::Highlighter)
                    &&& nv.store.inline_renders@ == ov.store.inline_renders@.push(
                        full_cmd(key, ov.camera),
                    )
                    &&& nv.store.history_records == ov.store.history_records
                    &&& nv.tasks.commands@ == ov.tasks.commands@
                    &&& nv.document == ov.document
                    &&& r.0 == (EventResult {
                        handled: true,
                        propagate: EventPropagation::Stop,
                        progress: PenProgress::InProgress,
                    })
                    &&& r.1 == spec_flags_none()
                } else {
                    &&& final(self).state is Idle
                    &&& *final(engine_view) == *old(engine_view)
                    &&& r.0 == (EventResult {
                        handled: false,
                        propagate: EventPropagation::Proceed,
                        progress: PenProgress::Idle,
                    })
                    &&& r.1 == spec_flags_none()
                },
                _ => {
                    &&& final(self).state is Idle
                    &&& *final(engine_view) == *old(engine_view)
                    &&& r.0 == (EventResult {
                        handled: false,
                        propagate: EventPropagation::Proceed,
                        progress: PenProgress::Idle,
                    })
                    &&& r.1 == spec_flags_none()
                },
            }),
            // In a drawing session, `Cancel` finalizes with zero new
            // segments — safe at any point, including right after `Down` —
            // and every other event is forwarded to the builder, whose own
            // specification pins what follows. Either way a finalize
            // recomputes the geometry, requests one full self-overlap-free
            // render, asks the document to auto-expand and records exactly
            // one history checkpoint. A session closed by `Up` always
            // leaves its stroke with at least one segment beyond the start.
            old(self).state matches MarkerState::Drawing { path_builder, current_stroke_key }
                ==> ({
                let ov = *old(engine_view);
                let nv = *final(engine_view);
                let k = current_stroke_key.idx as int;
                let segs = path_builder.emitted(event, now);
                let em = path_builder.emits(event, now);
                let fin = path_builder.finishes(event, now);
                &&& (event is Cancel ==> ({
                    &&& final(self).state is Idle
                    &&& others_unchanged(nv.store.strokes@, ov.store.strokes@, k)
                    &&& stroke_geometry_updated(nv.store.strokes@[k], ov.store.strokes@[k])
                    &&& nv.store.inline_renders@ == ov.store.inline_renders@.push(
                        full_cmd(current_stroke_key, ov.camera),
                    )
                    &&& nv.tasks.commands@ == ov.tasks.commands@
                    &&& nv.store.layers@ == ov.store.layers@
                    &&& nv.store.history_records == ov.store.history_records + 1
                    &&& nv.document.autoexpand_requests == ov.document.autoexpand_requests + 1
                    &&& nv.document.bounds == spec_expanded_bounds(
                        ov.document.bounds,
                        nv.store.strokes@,
                        nv.store.strokes@.len() as int,
                    )
                    &&& r.0 == (EventResult {
                        handled: true,
                        propagate: EventPropagation::Stop,
                        progress: PenProgress::Finished,
                    })
                    &&& r.1 == (WidgetFlags {
                        redraw: false,
                        resize: true,
                        refresh_ui: false,
                        store_modified: true,
                    })
                }))
                &&& (!(event is Cancel) ==> ({
                    &&& (!fin ==> (match final(self).state {
                        MarkerState::Drawing { path_builder: pb1, current_stroke_key: key1 } => {
                            &&& pb1 == path_builder.after(event, now)
                            &&& key1 == current_stroke_key
                        },
                        MarkerState::Idle => false,
                    }))
                    &&& (fin ==> final(self).state is Idle)
                    &&& nv.store.layers@ == ov.store.layers@
                    &&& nv.store.inline_renders@ == ov.store.inline_renders@
                    &&& ((!em || segs.len() == 0) && !fin ==> ({
                        &&& nv.store.strokes@ == ov.store.strokes@
                        &&& nv.store.history_records == ov.store.history_records
                        &&& nv.tasks.commands@ == ov.tasks.commands@
                        &&& nv.document == ov.document
                        &&& r.1 == spec_flags_none()
                    }))
                    &&& ((!em || segs.len() == 0) && fin ==> ({
                        &&& others_unchanged(nv.store.strokes@, ov.store.strokes@, k)
                        &&& stroke_geometry_updated(nv.store.strokes@[k], ov.store.strokes@[k])
                        &&& nv.tasks.commands@ == ov.tasks.commands@.push(
                            full_cmd(current_stroke_key, ov.camera),
                        )
                        &&& nv.store.history_records == ov.store.history_records + 1
                        &&& nv.document.autoexpand_requests == ov.document.autoexpand_requests
                            + 1
                        &&& nv.document.bounds == spec_expanded_bounds(
                            ov.document.bounds,
                            nv.store.strokes@,
                            nv.store.strokes@.len() as int,
                        )
                        &&& r.1 == (WidgetFlags {
                            redraw: false,
                            resize: true,
                            refresh_ui: false,
                            store_modified: true,
                        })
                    }))
                    &&& (em && segs.len() > 0 && !fin ==> ({
                        &&& others_unchanged(nv.store.strokes@, ov.store.strokes@, k)
                        &&& stroke_extended(nv.store.strokes@[k], ov.store.strokes@[k], segs)
                        &&& nv.tasks.commands@ == ov.tasks.commands@.push(
                            inc_cmd(current_stroke_key, segs.len() as usize, ov.camera),
                        )
                        &&& nv.store.history_records == ov.store.history_records
                        &&& nv.document == ov.document
                        &&& r.1 == (WidgetFlags {
                            redraw: false,
                            resize: false,
                            refresh_ui: false,
                            store_modified: true,
                        })
                    }))
                    &&& (em && segs.len() > 0 && fin ==> ({
                        &&& others_unchanged(nv.store.strokes@, ov.store.strokes@, k)
                        &&& stroke_finalized(nv.store.strokes@[k], ov.store.strokes@[k], segs)
                        &&& nv.tasks.commands@ == ov.tasks.commands@.push(
                            inc_cmd(current_stroke_key, segs.len() as usize, ov.camera),
                        ).push(full_cmd(current_stroke_key, ov.camera))
                        &&& nv.store.history_records == ov.store.history_records + 1
                        &&& nv.document.autoexpand_requests == ov.document.autoexpand_requests
                            + 1
                        &&& nv.document.bounds == spec_expanded_bounds(
                            ov.document.bounds,
                            nv.store.strokes@,
                            nv.store.strokes@.len() as int,
                        )
                        &&& r.1 == (WidgetFlags {
                            redraw: false,
                            resize: true,
                            refresh_ui: false,
                            store_modified: true,
                        })
                    }))
                    &&& r.0.handled == path_builder.reports_handled(event, now)
                    &&& r.0.propagate == path_builder.reports_propagation(event, now)
                    &&& r.0.progress == (if fin {
                        PenProgress::Finished
                    } else {
                        PenProgress::InProgress
                    })
                }))
                &&& (event is Up ==> ({
                    let s = nv.store.strokes@[k];
                    s.path.segments@.len() >= 1 && s.geometry_current()
                }))
            }),
    {
        let mut widget_flags = WidgetFlags::default();
        let mut st = MarkerState::Idle;
        core::mem::swap(&mut st, &mut self.state);
        let event_result = match (st, event) {
            (MarkerState::Idle, PenEvent::Down { element }) => {
                if engine_view.document.bounds().loosened(INPUT_OVERSHOOT).contains_point(
                    element.pos,
                ) {
                    let marker_config = engine_view.config;
                    let markerstroke = MarkerStroke::new(
                        element,
                        marker_config.width,
                        marker_config.shape,
                        marker_config.effective_color(),
                    );
                    let current_stroke_key = engine_view.store.insert_stroke(
                        markerstroke,
                        marker_config.layer(),
                    );
                    engine_view.store.regenerate_rendering_for_stroke(
                        current_stroke_key,
                        engine_view.camera.viewport(),
                        engine_view.camera.image_scale(),
                    );
                    self.state = MarkerState::Drawing {
                        path_builder: B::start(element, now),
                        current_stroke_key,
                    };
                    EventResult {
                        handled: true,
                        propagate: EventPropagation::Stop,
                        progress: PenProgress::InProgress,
                    }
                } else {
                    EventResult {
                        handled: false,
                        propagate: EventPropagation::Proceed,
                        progress: PenProgress::Idle,
                    }
                }
            },
            (MarkerState::Idle, _) => EventResult {
                handled: false,
                propagate: EventPropagation::Proceed,
                progress: PenProgress::Idle,
            },
            (MarkerState::Drawing { path_builder: _, current_stroke_key }, PenEvent::Cancel) => {
                // Finish up the stroke: the in-line render keeps cancellation
                // synchronous, as the start render is.
                engine_view.store.update_geometry_for_stroke(current_stroke_key);
                engine_view.store.regenerate_rendering_for_stroke(
                    current_stroke_key,
                    engine_view.camera.viewport(),
                    engine_view.camera.image_scale(),
                );
                let expand_flags = engine_view.document.resize_autoexpand(
                    &engine_view.store,
                    &engine_view.camera,
                );
                widget_flags.merge(expand_flags);
                let record_flags = engine_view.store.record(now);
                widget_flags.merge(record_flags);
                widget_flags.store_modified = true;
                EventResult {
                    handled: true,
                    propagate: EventPropagation::Stop,
                    progress: PenProgress::Finished,
                }
            },
            (MarkerState::Drawing { path_builder, current_stroke_key }, pen_event) => {
                let mut pb = path_builder;
                let builder_result = pb.handle_event(pen_event, now, Constraints::default());
                let handled = builder_result.handled;
                let propagate = builder_result.propagate;
                let progress = match builder_result.progress {
                    BuilderProgress::InProgress => {
                        self.state = MarkerState::Drawing {
                            path_builder: pb,
                            current_stroke_key,
                        };
                        PenProgress::InProgress
                    },
                    BuilderProgress::EmitContinue(segments) => {
                        let n_segments = segments.len();
                        if n_segments != 0 {
                            engine_view.store.extend_stroke(current_stroke_key, segments);
                            widget_flags.store_modified = true;
                            // Incremental rendering during drawing: the cost
                            // is proportional to the new geometry.
                            engine_view.store.append_rendering_last_segments(
                                &mut engine_view.tasks,
                                current_stroke_key,
                                n_segments,
                                engine_view.camera.viewport(),
                                engine_view.camera.image_scale(),
                            );
                        }
                        self.state = MarkerState::Drawing {
                            path_builder: pb,
                            current_stroke_key,
                        };
                        PenProgress::InProgress
                    },
                    BuilderProgress::Finished(segments) => {
                        let n_segments = segments.len();
                        if n_segments != 0 {
                            engine_view.store.extend_stroke(current_stroke_key, segments);
                            widget_flags.store_modified = true;
                            engine_view.store.append_rendering_last_segments(
                                &mut engine_view.tasks,
                                current_stroke_key,
                                n_segments,
                                engine_view.camera.viewport(),
                                engine_view.camera.image_scale(),
                            );
                        }
                        // Finish up the stroke: regenerate the whole image
                        // so self-overlapping parts show no seams.
                        engine_view.store.update_geometry_for_stroke(current_stroke_key);
                        engine_view.store.regenerate_rendering_for_stroke_threaded(
                            &mut engine_view.tasks,
                            current_stroke_key,
                            engine_view.camera.viewport(),
                            engine_view.camera.image_scale(),
                        );
                        let expand_flags = engine_view.document.resize_autoexpand(
                            &engine_view.store,
                            &engine_view.camera,
                        );
                        widget_flags.merge(expand_flags);
                        let record_flags = engine_view.store.record(now);
                        widget_flags.merge(record_flags);
                        widget_flags.store_modified = true;
                        PenProgress::Finished
                    },
                };
                EventResult { handled, propagate, progress }
            },
        };
        (event_result, widget_flags)
    }
}

} // verus!
