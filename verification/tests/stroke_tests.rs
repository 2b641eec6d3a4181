//! Tests for the stroke geometry model, paths and configuration.

use marker_engine::color::Color;
use marker_engine::config::{MarkerConfig, MarkerError, MarkerShape, StrokeLayer};
use marker_engine::geometry::{isqrt, Aabb, Vector};
use marker_engine::penpath::{Element, PenPath, Segment};
use marker_engine::stroke::{
    GeneratedContentImages, Highlight, LineCap, LineJoin, MarkerStroke, StrokeStyle,
};

fn el(x: i64, y: i64) -> Element {
    Element::new(Vector::new(x, y), 1000)
}

fn line_to(x: i64, y: i64) -> Segment {
    Segment::LineTo { end: el(x, y) }
}

fn aabb(x0: i64, y0: i64, x1: i64, y1: i64) -> Aabb {
    Aabb::new(Vector::new(x0, y0), Vector::new(x1, y1))
}

#[test]
fn new_stroke_bounds_is_point_expanded_by_half_width() {
    // Width 15 units: the single-point stroke's bounds reach 7.5 units out.
    let stroke = MarkerStroke::new(el(10_000, 10_000), 15_000, MarkerShape::Circular,
        Color::new(1000, 900, 0, 450));
    assert_eq!(stroke.bounds(), aabb(2_500, 2_500, 17_500, 17_500));
    assert_eq!(stroke.hitboxes().len(), 0);
}

#[test]
fn effective_color_scales_alpha_by_strength() {
    let config = MarkerConfig::default();
    let c = config.effective_color();
    assert_eq!(c.r, 1000);
    assert_eq!(c.g, 900);
    assert_eq!(c.b, 0);
    // Base alpha at full, strength one half: effective alpha one half.
    assert_eq!(c.a, 500);

    let config2 = MarkerConfig { strength: 500, color: Color::new(0, 0, 0, 800), ..config };
    assert_eq!(config2.effective_color().a, 400);
}

#[test]
fn config_default_and_layer() {
    let config = MarkerConfig::default();
    assert_eq!(config.width, 15_000);
    assert_eq!(config.strength, 500);
    assert_eq!(config.shape, MarkerShape::Circular);
    assert_eq!(config.color, Color::new(1000, 900, 0, 1000));
    assert_eq!(config.layer(), StrokeLayer::Highlighter);
}

#[test]
fn shape_tags_round_trip_and_reject_unknown() {
    assert_eq!(MarkerShape::try_from_u32(0), Ok(MarkerShape::Circular));
    assert_eq!(MarkerShape::try_from_u32(1), Ok(MarkerShape::Rectangular));
    assert_eq!(MarkerShape::try_from_u32(7), Err(MarkerError::InvalidShapeTag(7)));
    assert_eq!(MarkerShape::try_from_u32(MarkerShape::Circular.to_u32()),
        Ok(MarkerShape::Circular));
    assert_eq!(MarkerShape::try_from_u32(MarkerShape::Rectangular.to_u32()),
        Ok(MarkerShape::Rectangular));
    assert_eq!(MarkerShape::default(), MarkerShape::Circular);
}

#[test]
fn update_geometry_twice_yields_identical_geometry() {
    let path = PenPath::new_w_segments(el(0, 0), vec![line_to(10_000, 0), line_to(10_000,
        20_000)]);
    let mut stroke = MarkerStroke::from_penpath(path, 4_000, MarkerShape::Circular,
        Color::new(0, 0, 0, 1000));
    stroke.update_geometry();
    let bounds1 = stroke.bounds();
    let hb1 = stroke.hitboxes();
    stroke.update_geometry();
    assert_eq!(stroke.bounds(), bounds1);
    assert_eq!(stroke.hitboxes(), hb1);
}

#[test]
fn hitboxes_are_per_segment_boxes_loosened_by_half_width() {
    let path = PenPath::new_w_segments(el(0, 0), vec![line_to(10_000, 0)]);
    let stroke = MarkerStroke::from_penpath(path, 2_000, MarkerShape::Circular,
        Color::new(0, 0, 0, 1000));
    let hb = stroke.hitboxes();
    assert_eq!(hb.len(), 1);
    assert_eq!(hb[0], aabb(-1_000, -1_000, 11_000, 1_000));
}

#[test]
fn extend_leaves_geometry_stale_until_updated() {
    let mut stroke = MarkerStroke::new(el(0, 0), 2_000, MarkerShape::Circular,
        Color::new(0, 0, 0, 1000));
    stroke.extend_w_segments(vec![line_to(10_000, 0)]);
    // The cache still reflects the empty path until update_geometry runs.
    assert_eq!(stroke.hitboxes().len(), 0);
    stroke.update_geometry();
    assert_eq!(stroke.hitboxes().len(), 1);
    assert_eq!(stroke.bounds(), aabb(-1_000, -1_000, 11_000, 1_000));
}

#[test]
fn replace_path_recomputes_geometry() {
    let mut stroke = MarkerStroke::new(el(0, 0), 2_000, MarkerShape::Circular,
        Color::new(0, 0, 0, 1000));
    let path = PenPath::new_w_segments(el(5_000, 5_000), vec![line_to(6_000, 5_000)]);
    stroke.replace_path(path);
    assert_eq!(stroke.hitboxes().len(), 1);
    assert_eq!(stroke.bounds(), aabb(4_000, 4_000, 7_000, 6_000));
}

#[test]
fn last_segments_path_counts_min_of_n_and_length() {
    let path = PenPath::new_w_segments(el(0, 0), vec![line_to(1_000, 0), line_to(2_000, 0),
        line_to(3_000, 0)]);
    let stroke = MarkerStroke::from_penpath(path, 2_000, MarkerShape::Circular,
        Color::new(0, 0, 0, 1000));

    let tail2 = stroke.last_segments_path(2);
    assert_eq!(tail2.segments.len(), 2);
    // The sub-path starts at the element immediately preceding the last two
    // segments, keeping it continuous.
    assert_eq!(tail2.start, el(1_000, 0));

    let tail5 = stroke.last_segments_path(5);
    assert_eq!(tail5.segments.len(), 3);
    assert_eq!(tail5.start, el(0, 0));

    let tail0 = stroke.last_segments_path(0);
    assert_eq!(tail0.segments.len(), 0);
}

#[test]
fn gen_image_for_last_segments_covers_tail_bounds() {
    let path = PenPath::new_w_segments(el(0, 0), vec![line_to(10_000, 0), line_to(10_000,
        6_000)]);
    let stroke = MarkerStroke::from_penpath(path, 2_000, MarkerShape::Circular,
        Color::new(0, 0, 0, 1000));
    let patch = stroke.gen_image_for_last_segments(1, 1_000).unwrap().unwrap();
    // Only the last segment plus its preceding point, loosened by half width.
    assert_eq!(patch.bounds, aabb(9_000, -1_000, 11_000, 7_000));
    assert_eq!(patch.scale, 1_000);
}

#[test]
fn gen_images_full_when_viewport_contains_stroke() {
    let stroke = MarkerStroke::new(el(10_000, 10_000), 2_000, MarkerShape::Circular,
        Color::new(0, 0, 0, 1000));
    let viewport = aabb(0, 0, 100_000, 100_000);
    match stroke.gen_images(viewport, 1_000).unwrap() {
        GeneratedContentImages::Full(images) => {
            assert_eq!(images.len(), 1);
            assert_eq!(images[0].bounds, aabb(9_000, 9_000, 11_000, 11_000));
            assert_eq!(images[0].scale, 1_000);
        }
        GeneratedContentImages::Partial { .. } => panic!("expected a full image"),
    }
}

#[test]
fn gen_images_partial_when_clipped() {
    let stroke = MarkerStroke::new(el(10_000, 10_000), 2_000, MarkerShape::Circular,
        Color::new(0, 0, 0, 1000));
    let viewport = aabb(0, 0, 10_000, 10_000);
    match stroke.gen_images(viewport, 1_000).unwrap() {
        GeneratedContentImages::Partial { images, viewport: vp } => {
            assert_eq!(images.len(), 1);
            assert_eq!(images[0].bounds, aabb(9_000, 9_000, 10_000, 10_000));
            assert_eq!(vp, viewport);
        }
        GeneratedContentImages::Full(_) => panic!("expected a partial image"),
    }
}

#[test]
fn gen_images_empty_partial_when_disjoint() {
    let stroke = MarkerStroke::new(el(10_000, 10_000), 2_000, MarkerShape::Circular,
        Color::new(0, 0, 0, 1000));
    let viewport = aabb(50_000, 50_000, 60_000, 60_000);
    match stroke.gen_images(viewport, 1_000).unwrap() {
        GeneratedContentImages::Partial { images, viewport: vp } => {
            assert_eq!(images.len(), 0);
            assert_eq!(vp, viewport);
        }
        GeneratedContentImages::Full(_) => panic!("expected an empty partial result"),
    }
}

#[test]
fn non_uniform_scale_takes_geometric_mean_for_width() {
    // Factors 2.0 and 0.5: the geometric mean is 1, so width 10 stays 10.
    let path = PenPath::new_w_segments(el(10_000, 8_000), vec![line_to(20_000, 16_000)]);
    let mut stroke = MarkerStroke::from_penpath(path, 10_000, MarkerShape::Circular,
        Color::new(0, 0, 0, 1000));
    stroke.scale(Vector::new(2_000, 500));
    assert_eq!(stroke.width, 10_000);
    // Coordinates scale per axis: x doubles, y halves.
    assert_eq!(stroke.path.start.pos, Vector::new(20_000, 4_000));
    assert_eq!(stroke.path.segments[0], Segment::LineTo { end: Element::new(Vector::new(40_000,
        8_000), 1000) });
}

#[test]
fn uniform_scale_scales_width_alike() {
    let mut stroke = MarkerStroke::new(el(1_000, 1_000), 10_000, MarkerShape::Circular,
        Color::new(0, 0, 0, 1000));
    stroke.scale(Vector::new(3_000, 3_000));
    assert_eq!(stroke.width, 30_000);
    assert_eq!(stroke.path.start.pos, Vector::new(3_000, 3_000));
}

#[test]
fn translate_moves_every_point() {
    let path = PenPath::new_w_segments(el(0, 0), vec![line_to(1_000, 2_000)]);
    let mut stroke = MarkerStroke::from_penpath(path, 2_000, MarkerShape::Circular,
        Color::new(0, 0, 0, 1000));
    stroke.translate(Vector::new(5_000, -1_000));
    assert_eq!(stroke.path.start.pos, Vector::new(5_000, -1_000));
    assert_eq!(stroke.path.segments[0].end().pos, Vector::new(6_000, 1_000));
}

#[test]
fn stroke_style_maps_shape_to_joins_and_caps() {
    let circular = MarkerStroke::new(el(0, 0), 2_000, MarkerShape::Circular,
        Color::new(0, 0, 0, 1000));
    assert_eq!(circular.stroke_style(), StrokeStyle { join: LineJoin::Round, cap: LineCap::Round });
    let rectangular = MarkerStroke::new(el(0, 0), 2_000, MarkerShape::Rectangular,
        Color::new(0, 0, 0, 1000));
    assert_eq!(rectangular.stroke_style(), StrokeStyle {
        join: LineJoin::Bevel,
        cap: LineCap::Butt,
    });
}

#[test]
fn highlight_degenerates_to_bounds_for_tiny_strokes() {
    // A dot of width 2: bounds 2x2 units, area 4 < 100 at zoom 1.
    let stroke = MarkerStroke::new(el(0, 0), 2_000, MarkerShape::Circular,
        Color::new(0, 0, 0, 1000));
    match stroke.highlight_geometry(1_000) {
        Highlight::Bounds(b) => assert_eq!(b, aabb(-1_000, -1_000, 1_000, 1_000)),
        Highlight::Outline { .. } => panic!("expected a bounds highlight"),
    }
}

#[test]
fn highlight_outlines_large_strokes() {
    // A long stroke: 100x12 units at zoom 1 is far over the threshold. The
    // outline width is the stroke's width plus 3 units, which beats the
    // 5-unit minimum here.
    let path = PenPath::new_w_segments(el(0, 0), vec![line_to(100_000, 0)]);
    let stroke = MarkerStroke::from_penpath(path, 12_000, MarkerShape::Circular,
        Color::new(0, 0, 0, 1000));
    match stroke.highlight_geometry(1_000) {
        Highlight::Outline { width } => assert_eq!(width, 15_000),
        Highlight::Bounds(_) => panic!("expected an outline highlight"),
    }
}

#[test]
fn isqrt_matches_integer_square_roots() {
    assert_eq!(isqrt(0), 0);
    assert_eq!(isqrt(1), 1);
    assert_eq!(isqrt(999_999), 999);
    assert_eq!(isqrt(1_000_000), 1_000);
    assert_eq!(isqrt(4_000_000_000_000), 2_000_000);
}

#[test]
fn aabb_operations() {
    let a = aabb(0, 0, 10, 10);
    let b = aabb(5, 5, 20, 20);
    assert_eq!(a.merged(&b), aabb(0, 0, 20, 20));
    assert_eq!(a.intersection(&b), Some(aabb(5, 5, 10, 10)));
    assert_eq!(a.intersection(&aabb(11, 11, 12, 12)), None);
    assert!(a.contains(&aabb(1, 1, 2, 2)));
    assert!(!a.contains(&b));
    assert!(a.contains_point(Vector::new(10, 0)));
    assert!(!a.contains_point(Vector::new(11, 0)));
    assert_eq!(a.loosened(3), aabb(-3, -3, 13, 13));
}

#[test]
fn path_bounds_cover_start_and_all_segment_points() {
    let path = PenPath::new_w_segments(el(5_000, 5_000), vec![line_to(-2_000, 7_000),
        Segment::QuadBezTo { cp: Vector::new(10_000, -1_000), end: el(0, 0) }]);
    assert_eq!(path.bounds(), aabb(-2_000, -1_000, 10_000, 7_000));
}

#[test]
fn widest_configured_stroke_bounds() {
    // The configuration ceiling: width 500 units reaches 250 units out.
    let stroke = MarkerStroke::new(el(0, 0), 500_000, MarkerShape::Rectangular,
        Color::new(0, 0, 0, 1000));
    assert_eq!(stroke.bounds(), aabb(-250_000, -250_000, 250_000, 250_000));
}

#[test]
fn strength_extremes_scale_alpha_to_nothing_and_identity() {
    let base = MarkerConfig::default();
    let transparent = MarkerConfig { strength: 0, ..base };
    assert_eq!(transparent.effective_color().a, 0);
    let opaque = MarkerConfig { strength: 1000, ..base };
    assert_eq!(opaque.effective_color().a, 1000);
}
