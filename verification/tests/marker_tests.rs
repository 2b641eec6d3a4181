//! Tests for the tool state machine driving a whole drawing session.

use marker_engine::builder::{EventPropagation, PenEvent, PenPathSimpleBuilder, PenProgress};
use marker_engine::color::Color;
use marker_engine::config::{MarkerConfig, MarkerShape, StrokeLayer};
use marker_engine::engine::{Camera, Document, RenderKind, StrokeStore, TaskQueue, WidgetFlags};
use marker_engine::geometry::{Aabb, Vector};
use marker_engine::marker::{EngineViewMut, Marker, MarkerState};
use marker_engine::penpath::Element;

type MarkerTool = Marker<PenPathSimpleBuilder>;

fn el(x: i64, y: i64) -> Element {
    Element::new(Vector::new(x, y), 1000)
}

fn aabb(x0: i64, y0: i64, x1: i64, y1: i64) -> Aabb {
    Aabb::new(Vector::new(x0, y0), Vector::new(x1, y1))
}

/// A 500x500-unit document viewed in full, with the default marker config.
fn view() -> EngineViewMut {
    EngineViewMut {
        config: MarkerConfig::default(),
        document: Document { bounds: aabb(0, 0, 500_000, 500_000), autoexpand_requests: 0 },
        camera: Camera { viewport: aabb(0, 0, 500_000, 500_000), image_scale: 1_500 },
        store: StrokeStore::new(),
        tasks: TaskQueue::new(),
    }
}

fn down(x: i64, y: i64) -> PenEvent {
    PenEvent::Down { element: el(x, y) }
}

fn mv(x: i64, y: i64) -> PenEvent {
    PenEvent::Move { element: el(x, y) }
}

fn up(x: i64, y: i64) -> PenEvent {
    PenEvent::Up { element: el(x, y) }
}

#[test]
fn down_inside_bounds_creates_styled_stroke() {
    // Width 15, circular, color (1, 0.9, 0, 1), strength one half.
    let mut marker = MarkerTool::default();
    let mut v = view();
    let (result, flags) = marker.handle_event(down(10_000, 10_000), 0, &mut v);

    assert!(result.handled);
    assert_eq!(result.propagate, EventPropagation::Stop);
    assert_eq!(result.progress, PenProgress::InProgress);
    assert_eq!(flags, WidgetFlags::default());

    assert_eq!(v.store.strokes.len(), 1);
    let stroke = &v.store.strokes[0];
    assert_eq!(stroke.width, 15_000);
    assert_eq!(stroke.shape, MarkerShape::Circular);
    // Effective color: base color with alpha scaled by the strength.
    assert_eq!(stroke.color, Color::new(1000, 900, 0, 500));
    // Bounds: the start point expanded by half the width in each direction.
    assert_eq!(stroke.bounds(), aabb(2_500, 2_500, 17_500, 17_500));
    assert_eq!(v.store.layers[0], StrokeLayer::Highlighter);

    // The stroke-start render is issued inline, not queued.
    assert_eq!(v.store.inline_renders.len(), 1);
    assert_eq!(v.store.inline_renders[0].kind, RenderKind::Full);
    assert_eq!(v.store.inline_renders[0].image_scale, 1_500);
    assert_eq!(v.tasks.commands.len(), 0);
    assert!(matches!(marker.state, MarkerState::Drawing { .. }));
}

#[test]
fn down_outside_overshoot_is_passed_through() {
    // 600 units is beyond bounds plus the 30-unit overshoot margin.
    let mut marker = MarkerTool::default();
    let mut v = view();
    let (result, flags) = marker.handle_event(down(600_000, 600_000), 0, &mut v);

    assert!(!result.handled);
    assert_eq!(result.propagate, EventPropagation::Proceed);
    assert_eq!(result.progress, PenProgress::Idle);
    assert_eq!(flags, WidgetFlags::default());
    assert_eq!(v.store.strokes.len(), 0);
    assert_eq!(v.store.inline_renders.len(), 0);
    assert_eq!(v.tasks.commands.len(), 0);
    assert!(matches!(marker.state, MarkerState::Idle));
}

#[test]
fn down_within_overshoot_margin_is_accepted() {
    // 20 units left of the origin corner, inside the 30-unit overshoot.
    let mut marker = MarkerTool::default();
    let mut v = view();
    let (result, _) = marker.handle_event(down(-20_000, 10_000), 0, &mut v);
    assert!(result.handled);
    assert_eq!(v.store.strokes.len(), 1);
}

#[test]
fn events_while_idle_are_unhandled() {
    let mut marker = MarkerTool::default();
    let mut v = view();
    for event in [mv(10_000, 10_000), up(10_000, 10_000), PenEvent::Cancel] {
        let (result, flags) = marker.handle_event(event, 0, &mut v);
        assert!(!result.handled);
        assert_eq!(result.propagate, EventPropagation::Proceed);
        assert_eq!(result.progress, PenProgress::Idle);
        assert_eq!(flags, WidgetFlags::default());
        assert_eq!(v.store.strokes.len(), 0);
    }
}

#[test]
fn down_moves_up_builds_path_with_segments_and_exact_bounds() {
    let mut marker = MarkerTool::default();
    let mut v = view();
    marker.handle_event(down(10_000, 10_000), 0, &mut v);
    marker.handle_event(mv(20_000, 10_000), 1, &mut v);
    marker.handle_event(mv(20_000, 30_000), 2, &mut v);
    let (result, flags) = marker.handle_event(up(40_000, 40_000), 3, &mut v);

    assert!(result.handled);
    assert_eq!(result.progress, PenProgress::Finished);
    assert!(flags.store_modified);
    assert!(flags.resize);
    assert!(matches!(marker.state, MarkerState::Idle));

    let stroke = &v.store.strokes[0];
    // At least one point beyond the start; here one per Move plus the Up.
    assert_eq!(stroke.path.segments.len(), 3);
    // Bounds are exactly the path bounds loosened by half the width (7.5).
    assert_eq!(stroke.path.bounds(), aabb(10_000, 10_000, 40_000, 40_000));
    assert_eq!(stroke.bounds(), aabb(2_500, 2_500, 47_500, 47_500));
    assert_eq!(stroke.hitboxes().len(), 3);
}

#[test]
fn moves_queue_incremental_renders_and_up_queues_full_regeneration() {
    let mut marker = MarkerTool::default();
    let mut v = view();
    marker.handle_event(down(10_000, 10_000), 0, &mut v);
    marker.handle_event(mv(20_000, 10_000), 1, &mut v);
    marker.handle_event(mv(30_000, 10_000), 2, &mut v);
    marker.handle_event(up(40_000, 10_000), 3, &mut v);

    // Per-stroke order: one incremental patch per appended batch, in append
    // order, then the finish-time full regeneration that supersedes them.
    let kinds: Vec<RenderKind> = v.tasks.commands.iter().map(|c| c.kind).collect();
    assert_eq!(kinds, vec![
        RenderKind::LastSegments { n_segments: 1 },
        RenderKind::LastSegments { n_segments: 1 },
        RenderKind::LastSegments { n_segments: 1 },
        RenderKind::Full,
    ]);
    // All for the same stroke, at the camera's viewport and scale.
    for c in &v.tasks.commands {
        assert_eq!(c.key.idx, 0);
        assert_eq!(c.viewport, aabb(0, 0, 500_000, 500_000));
        assert_eq!(c.image_scale, 1_500);
    }
}

#[test]
fn up_records_exactly_one_history_checkpoint() {
    let mut marker = MarkerTool::default();
    let mut v = view();
    marker.handle_event(down(10_000, 10_000), 0, &mut v);
    marker.handle_event(mv(20_000, 10_000), 1, &mut v);
    assert_eq!(v.store.history_records, 0);
    marker.handle_event(up(30_000, 10_000), 2, &mut v);
    assert_eq!(v.store.history_records, 1);
    assert_eq!(v.document.autoexpand_requests, 1);

    // A second full session records a second checkpoint.
    marker.handle_event(down(50_000, 50_000), 3, &mut v);
    marker.handle_event(up(60_000, 50_000), 4, &mut v);
    assert_eq!(v.store.history_records, 2);
    assert_eq!(v.store.strokes.len(), 2);
}

#[test]
fn cancel_right_after_down_is_safe_and_commits_one_checkpoint() {
    let mut marker = MarkerTool::default();
    let mut v = view();
    marker.handle_event(down(10_000, 10_000), 0, &mut v);
    let (result, flags) = marker.handle_event(PenEvent::Cancel, 1, &mut v);

    assert!(result.handled);
    assert_eq!(result.propagate, EventPropagation::Stop);
    assert_eq!(result.progress, PenProgress::Finished);
    assert!(flags.store_modified);
    assert!(matches!(marker.state, MarkerState::Idle));

    // Exactly one history checkpoint, geometry left consistent.
    assert_eq!(v.store.history_records, 1);
    let stroke = &v.store.strokes[0];
    assert_eq!(stroke.path.segments.len(), 0);
    assert_eq!(stroke.hitboxes().len(), 0);
    assert_eq!(stroke.bounds(), aabb(2_500, 2_500, 17_500, 17_500));
    // The cancel render is issued inline, after the stroke-start one.
    assert_eq!(v.store.inline_renders.len(), 2);
    assert_eq!(v.document.autoexpand_requests, 1);
}

#[test]
fn drawing_past_document_bounds_requests_autoexpand_on_finalize() {
    // Down near the origin corner is accepted; the stroke then extends far
    // past the 500x500 document, and the finalize grows the document.
    let mut marker = MarkerTool::default();
    let mut v = view();
    let (result, _) = marker.handle_event(down(10_000, 10_000), 0, &mut v);
    assert!(result.handled);
    marker.handle_event(mv(1_000_000, 1_000_000), 1, &mut v);
    let stroke = &v.store.strokes[0];
    assert_eq!(stroke.path.segments[0].end().pos, Vector::new(1_000_000, 1_000_000));
    assert_eq!(v.document.autoexpand_requests, 0);

    marker.handle_event(up(1_000_000, 1_000_000), 2, &mut v);
    assert_eq!(v.document.autoexpand_requests, 1);
    // The document now contains the new ink, half a width beyond its end.
    assert_eq!(v.document.bounds, aabb(0, 0, 1_007_500, 1_007_500));
}

#[test]
fn second_down_while_drawing_extends_the_current_stroke() {
    // The simple builder treats a repeated Down like a Move: it never starts
    // a second stroke.
    let mut marker = MarkerTool::default();
    let mut v = view();
    marker.handle_event(down(10_000, 10_000), 0, &mut v);
    let (result, _) = marker.handle_event(down(20_000, 20_000), 1, &mut v);
    assert!(result.handled);
    assert_eq!(result.progress, PenProgress::InProgress);
    assert_eq!(v.store.strokes.len(), 1);
    assert_eq!(v.store.strokes[0].path.segments.len(), 1);
    assert!(matches!(marker.state, MarkerState::Drawing { .. }));
}

#[test]
fn tool_surface_is_inert() {
    let mut marker = MarkerTool::default();
    let mut v = view();
    assert_eq!(marker.style(), marker_engine::marker::PenStyle::Marker);
    assert!(marker.bounds_on_doc(&v).is_none());
    assert_eq!(marker.init(&v), WidgetFlags::default());
    assert_eq!(marker.update_state(&mut v), WidgetFlags::default());
    marker.handle_animation_frame(&mut v);
    assert_eq!(marker.deinit(), WidgetFlags::default());
    assert_eq!(v.store.strokes.len(), 0);
}

#[test]
fn widget_flags_merge_is_a_field_wise_or() {
    let mut flags = WidgetFlags::default();
    flags.merge(WidgetFlags { redraw: true, resize: false, refresh_ui: false,
        store_modified: false });
    flags.merge(WidgetFlags { redraw: false, resize: true, refresh_ui: false,
        store_modified: false });
    assert_eq!(flags, WidgetFlags { redraw: true, resize: true, refresh_ui: false,
        store_modified: false });
}
