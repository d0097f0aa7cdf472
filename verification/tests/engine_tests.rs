use drawengine::brush::{BrushConfig, BrushType};
use drawengine::canvas::DrawEngine;
use drawengine::eraser::{find_strokes_to_erase, merge_erase_ids};
use drawengine::geometry::{BezierSegment, ControlPair};
use drawengine::point::{BoundingBox, Color, Point, StrokePoint};
use drawengine::render::RenderCommand;
use drawengine::stroke::Stroke;

// Floating-point mirror of the numeric kernel, for feeding the builder the
// same values the engine's host would.

fn pt(x: f64, y: f64) -> Point {
    Point { x: x.to_bits(), y: y.to_bits() }
}

fn sample(x: f64, y: f64, pressure: f64, timestamp: f64) -> StrokePoint {
    StrokePoint::new(x.to_bits(), y.to_bits(), pressure.to_bits(), timestamp.to_bits())
}

fn px(p: Point) -> f64 {
    f64::from_bits(p.x)
}

fn py(p: Point) -> f64 {
    f64::from_bits(p.y)
}

fn distance(a: Point, b: Point) -> f64 {
    let dx = px(a) - px(b);
    let dy = py(a) - py(b);
    (dx * dx + dy * dy).sqrt()
}

fn lerp(a: Point, b: Point, t: f64) -> Point {
    pt(px(a) + (px(b) - px(a)) * t, py(a) + (py(b) - py(a)) * t)
}

fn linear_pair(a: Point, b: Point) -> ControlPair {
    ControlPair {
        c1: lerp(a, b, 1.0 / 3.0),
        c2: lerp(a, b, 2.0 / 3.0),
    }
}

fn catmull_pair(p0: Point, p1: Point, p2: Point, p3: Point) -> ControlPair {
    let alpha = 0.5f64;
    let d1 = distance(p0, p1).max(1e-6);
    let d2 = distance(p1, p2).max(1e-6);
    let d3 = distance(p2, p3).max(1e-6);
    let d1a = d1.powf(alpha);
    let d2a = d2.powf(alpha);
    let d3a = d3.powf(alpha);
    let d1_2a = d1.powf(2.0 * alpha);
    let d2_2a = d2.powf(2.0 * alpha);
    let d3_2a = d3.powf(2.0 * alpha);
    let b1x = (d1_2a * px(p2) - d2_2a * px(p0) + (2.0 * d1_2a + 3.0 * d1a * d2a + d2_2a) * px(p1))
        / (3.0 * d1a * (d1a + d2a));
    let b1y = (d1_2a * py(p2) - d2_2a * py(p0) + (2.0 * d1_2a + 3.0 * d1a * d2a + d2_2a) * py(p1))
        / (3.0 * d1a * (d1a + d2a));
    let b2x = (d3_2a * px(p1) - d2_2a * px(p3) + (2.0 * d3_2a + 3.0 * d3a * d2a + d2_2a) * px(p2))
        / (3.0 * d3a * (d3a + d2a));
    let b2y = (d3_2a * py(p1) - d2_2a * py(p3) + (2.0 * d3_2a + 3.0 * d3a * d2a + d2_2a) * py(p2))
        / (3.0 * d3a * (d3a + d2a));
    ControlPair {
        c1: pt(b1x, b1y),
        c2: pt(b2x, b2y),
    }
}

fn speed(prev: &StrokePoint, next: &StrokePoint) -> f64 {
    let d = distance(prev.position, next.position);
    let dt = (f64::from_bits(next.timestamp) - f64::from_bits(prev.timestamp)).abs();
    if dt < 1e-9 {
        0.0
    } else {
        d / dt
    }
}

fn compute_width(brush: &BrushConfig, pressure: f64, velocity: f64) -> f64 {
    let pf = 1.0 + (pressure - 0.5) * f64::from_bits(brush.pressure_sensitivity);
    let vf = 1.0 - (velocity.min(1000.0) / 1000.0) * f64::from_bits(brush.velocity_sensitivity);
    let factor = (pf * vf).clamp(
        f64::from_bits(brush.min_width_factor),
        f64::from_bits(brush.max_width_factor),
    );
    f64::from_bits(brush.base_width) * factor
}

fn evaluate(seg: &BezierSegment, t: f64) -> Point {
    let mt = 1.0 - t;
    let mt2 = mt * mt;
    let mt3 = mt2 * mt;
    let t2 = t * t;
    let t3 = t2 * t;
    pt(
        mt3 * px(seg.p0)
            + 3.0 * mt2 * t * px(seg.p1)
            + 3.0 * mt * t2 * px(seg.p2)
            + t3 * px(seg.p3),
        mt3 * py(seg.p0)
            + 3.0 * mt2 * t * py(seg.p1)
            + 3.0 * mt * t2 * py(seg.p2)
            + t3 * py(seg.p3),
    )
}

fn width_at(seg: &BezierSegment, t: f64) -> f64 {
    let sw = f64::from_bits(seg.start_width);
    let ew = f64::from_bits(seg.end_width);
    sw + (ew - sw) * t
}

fn stroke_bounds(segments: &[BezierSegment]) -> Option<BoundingBox> {
    let mut min_x = f64::MAX;
    let mut min_y = f64::MAX;
    let mut max_x = f64::MIN;
    let mut max_y = f64::MIN;
    for seg in segments {
        for t_step in 0..=10 {
            let t = t_step as f64 / 10.0;
            let p = evaluate(seg, t);
            let w = width_at(seg, t);
            min_x = min_x.min(px(p));
            min_y = min_y.min(py(p));
            max_x = max_x.max(px(p));
            max_y = max_y.max(py(p));
            min_x -= w * 0.5;
            min_y -= w * 0.5;
            max_x += w * 0.5;
            max_y += w * 0.5;
        }
    }
    if min_x <= max_x && min_y <= max_y {
        Some(BoundingBox {
            min_x: min_x.to_bits(),
            min_y: min_y.to_bits(),
            max_x: max_x.to_bits(),
            max_y: max_y.to_bits(),
        })
    } else {
        None
    }
}


/// The geometric hit verdict for one stroke against one eraser sample: a
/// valid bounding box that meets the eraser's box, and some segment sample
/// within the eraser radius plus half the local width.
fn hit_stroke(stroke: &Stroke, ex: f64, ey: f64, radius: f64) -> bool {
    let bb = &stroke.bounding_box;
    let (min_x, min_y) = (f64::from_bits(bb.min_x), f64::from_bits(bb.min_y));
    let (max_x, max_y) = (f64::from_bits(bb.max_x), f64::from_bits(bb.max_y));
    if !(min_x <= max_x && min_y <= max_y) {
        return false;
    }
    if !(min_x <= ex + radius && max_x >= ex - radius && min_y <= ey + radius && max_y >= ey - radius) {
        return false;
    }
    let e = pt(ex, ey);
    for seg in &stroke.segments {
        for step in 0..=20 {
            let t = step as f64 / 20.0;
            let p = evaluate(seg, t);
            if distance(p, e) <= radius + width_at(seg, t) * 0.5 {
                return true;
            }
        }
    }
    false
}

/// Drives a `DrawEngine` the way its host does: converts screen samples to
/// canvas space through the viewport, computes widths, control points,
/// bounding boxes and eraser verdicts, and hands the engine the results.
struct EngineDriver {
    engine: DrawEngine,
    samples: Vec<StrokePoint>,
}

impl EngineDriver {
    fn new(width: f64, height: f64) -> EngineDriver {
        EngineDriver {
            engine: DrawEngine::new(width.to_bits(), height.to_bits()),
            samples: Vec::new(),
        }
    }

    fn to_canvas(&self, x: f64, y: f64) -> (f64, f64) {
        let scale = f64::from_bits(self.engine.get_scale());
        let (ox, oy) = self.engine.get_offset();
        (
            (x - f64::from_bits(ox)) / scale,
            (y - f64::from_bits(oy)) / scale,
        )
    }

    fn begin(&mut self, x: f64, y: f64, pressure: f64, timestamp: f64) -> Vec<RenderCommand> {
        let (cx, cy) = self.to_canvas(x, y);
        let s = sample(cx, cy, pressure, timestamp);
        let width = compute_width(self.engine.current_brush(), pressure, 0.0).to_bits();
        self.samples.clear();
        self.samples.push(s);
        self.engine.begin_stroke(s, width)
    }

    fn add(&mut self, x: f64, y: f64, pressure: f64, timestamp: f64) -> Vec<RenderCommand> {
        let (cx, cy) = self.to_canvas(x, y);
        let s = sample(cx, cy, pressure, timestamp);
        let velocity = match self.samples.last() {
            Some(prev) => speed(prev, &s),
            None => 0.0,
        };
        let width = compute_width(self.engine.current_brush(), pressure, velocity).to_bits();
        let smoothed = if self.samples.len() + 1 >= 4 {
            let k = self.samples.len();
            Some(catmull_pair(
                self.samples[k - 3].position,
                self.samples[k - 2].position,
                self.samples[k - 1].position,
                s.position,
            ))
        } else {
            None
        };
        let linear = match self.samples.last() {
            Some(prev) => linear_pair(prev.position, s.position),
            None => ControlPair {
                c1: s.position,
                c2: s.position,
            },
        };
        self.samples.push(s);
        self.engine.add_point(s, width, smoothed, linear)
    }

    fn end(&mut self) -> Vec<RenderCommand> {
        let n = self.samples.len();
        let smoothed = if n >= 4 {
            Some(catmull_pair(
                self.samples[n - 4].position,
                self.samples[n - 3].position,
                self.samples[n - 2].position,
                self.samples[n - 1].position,
            ))
        } else {
            None
        };
        if let Some(mut stroke) = self.engine.finish_stroke(smoothed) {
            if let Some(bb) = stroke_bounds(&stroke.segments) {
                stroke.bounding_box = bb;
            }
            if stroke.is_eraser {
                let brush = *self.engine.current_brush();
                let mut erased: Vec<u128> = Vec::new();
                for sp in stroke.points.iter() {
                    let radius =
                        compute_width(&brush, f64::from_bits(sp.pressure), 0.0) * 0.5;
                    let (ex, ey) = (f64::from_bits(sp.position.x), f64::from_bits(sp.position.y));
                    let layer = self.engine.layer_manager.active_layer();
                    let hit: Vec<bool> = layer
                        .strokes
                        .iter()
                        .map(|s| hit_stroke(s, ex, ey, radius))
                        .collect();
                    let ids = find_strokes_to_erase(&layer.strokes, &hit);
                    merge_erase_ids(&mut erased, &ids);
                }
                self.engine.erase_strokes(&erased);
            } else {
                self.engine.commit_stroke(stroke);
            }
        }
        self.samples.clear();
        self.engine.full_render()
    }
}

#[test]
fn test_engine_new() {
    let driver = EngineDriver::new(1920.0, 1080.0);
    assert_eq!(driver.engine.stroke_count(), 0);
    assert!(!driver.engine.can_undo());
}

#[test]
fn test_draw_stroke() {
    let mut driver = EngineDriver::new(1920.0, 1080.0);
    driver
        .engine
        .set_brush(BrushConfig::pen(Color::black(), 3.0f64.to_bits()));

    driver.begin(100.0, 100.0, 0.5, 0.0);
    driver.add(110.0, 105.0, 0.6, 0.016);
    driver.add(120.0, 110.0, 0.7, 0.032);
    driver.add(130.0, 108.0, 0.6, 0.048);
    let cmds = driver.end();

    assert_eq!(driver.engine.stroke_count(), 1);
    assert!(driver.engine.can_undo());
    assert!(!cmds.is_empty());

    // Exactly Clear + SaveState + SetTransform + one path + RestoreState,
    // and the committed stroke carries at least three segments.
    assert_eq!(cmds.len(), 5);
    assert!(matches!(&cmds[0], RenderCommand::Clear { .. }));
    assert!(matches!(&cmds[1], RenderCommand::SaveState));
    assert!(matches!(&cmds[2], RenderCommand::SetTransform { .. }));
    match &cmds[3] {
        RenderCommand::DrawVariableWidthPath { segments, .. } => {
            assert!(segments.len() >= 3);
        }
        _ => panic!("Expected DrawVariableWidthPath"),
    }
    assert!(matches!(&cmds[4], RenderCommand::RestoreState));
}

#[test]
fn canvas_test_undo_redo() {
    let mut driver = EngineDriver::new(1920.0, 1080.0);

    driver.begin(10.0, 10.0, 0.5, 0.0);
    driver.add(20.0, 20.0, 0.5, 0.016);
    driver.end();
    assert_eq!(driver.engine.stroke_count(), 1);

    driver.engine.undo();
    assert_eq!(driver.engine.stroke_count(), 0);
    assert!(!driver.engine.can_undo());
    assert!(driver.engine.can_redo());

    driver.engine.redo();
    assert_eq!(driver.engine.stroke_count(), 1);
    assert!(driver.engine.can_undo());
    assert!(!driver.engine.can_redo());
}

#[test]
fn test_eraser() {
    let mut driver = EngineDriver::new(1920.0, 1080.0);

    // Draw a stroke.
    driver
        .engine
        .set_brush(BrushConfig::pen(Color::black(), 3.0f64.to_bits()));
    driver.begin(10.0, 10.0, 0.5, 0.0);
    driver.add(20.0, 10.0, 0.5, 0.016);
    driver.add(30.0, 10.0, 0.5, 0.032);
    driver.end();
    assert_eq!(driver.engine.stroke_count(), 1);

    // Erase it.
    driver.engine.set_brush(BrushConfig::eraser(20.0f64.to_bits()));
    driver.begin(15.0, 10.0, 0.5, 0.1);
    driver.add(25.0, 10.0, 0.5, 0.116);
    driver.end();
    assert_eq!(driver.engine.stroke_count(), 0);

    // Undo brings it back.
    driver.engine.undo();
    assert_eq!(driver.engine.stroke_count(), 1);
}

#[test]
fn test_pen_default() {
    let brush = BrushConfig::default();
    assert_eq!(brush.brush_type, BrushType::Pen);
    assert_eq!(brush.base_width, 2.0f64.to_bits());
}

#[test]
fn test_document_round_trip() {
    // Saving a document record and loading it into a fresh engine preserves
    // the stroke count, the canvas size and the background.
    let mut driver = EngineDriver::new(1920.0, 1080.0);
    driver.begin(10.0, 10.0, 0.5, 0.0);
    driver.add(20.0, 20.0, 0.5, 0.016);
    driver.add(30.0, 30.0, 0.5, 0.032);
    driver.end();
    assert_eq!(driver.engine.stroke_count(), 1);

    let doc = driver.engine.document_data();

    let mut other = DrawEngine::new(800.0f64.to_bits(), 600.0f64.to_bits());
    other.apply_document(doc).unwrap();
    assert_eq!(other.stroke_count(), 1);
    assert_eq!(other.canvas_width, 1920.0f64.to_bits());
    assert_eq!(other.canvas_height, 1080.0f64.to_bits());
    assert!(!other.can_undo());
    assert!(!other.can_redo());
}

#[test]
fn test_apply_document_rejects_unknown_version() {
    let driver = EngineDriver::new(1920.0, 1080.0);
    let mut doc = driver.engine.document_data();
    doc.version = 2;

    let mut other = DrawEngine::new(800.0f64.to_bits(), 600.0f64.to_bits());
    let result = other.apply_document(doc);
    assert!(result.is_err());
    // The engine is untouched on failure.
    assert_eq!(other.canvas_width, 800.0f64.to_bits());
    assert_eq!(other.stroke_count(), 0);
}

#[test]
fn test_apply_document_repairs_missing_layers() {
    let driver = EngineDriver::new(1920.0, 1080.0);
    let mut doc = driver.engine.document_data();
    doc.layers = Vec::new();

    let mut other = DrawEngine::new(800.0f64.to_bits(), 600.0f64.to_bits());
    other.apply_document(doc).unwrap();
    assert_eq!(other.layer_manager.layers.len(), 1);
    assert_eq!(other.stroke_count(), 0);
    assert_eq!(other.canvas_width, 1920.0f64.to_bits());
}

#[test]
fn test_reset_viewport() {
    let mut driver = EngineDriver::new(1920.0, 1080.0);
    // A host would write zoomed/panned values here; reset restores identity.
    driver.engine.viewport.scale = 2.0f64.to_bits();
    driver.engine.viewport.offset_x = 50.0f64.to_bits();
    driver.engine.viewport.offset_y = 30.0f64.to_bits();
    let cmds = driver.engine.reset_viewport();
    assert_eq!(driver.engine.get_scale(), 1.0f64.to_bits());
    let (ox, oy) = driver.engine.get_offset();
    assert_eq!(ox, 0.0f64.to_bits());
    assert_eq!(oy, 0.0f64.to_bits());
    assert_eq!(cmds.len(), 4);
}

#[test]
fn test_second_begin_abandons_in_flight_stroke() {
    let mut driver = EngineDriver::new(1920.0, 1080.0);
    driver.begin(10.0, 10.0, 0.5, 0.0);
    driver.add(20.0, 20.0, 0.5, 0.016);
    // A second begin without an end silently abandons the first stroke.
    driver.begin(50.0, 50.0, 0.5, 0.1);
    driver.add(60.0, 60.0, 0.5, 0.116);
    driver.end();
    assert_eq!(driver.engine.stroke_count(), 1);
}

#[test]
fn test_eraser_misses_distant_stroke() {
    let mut driver = EngineDriver::new(1920.0, 1080.0);
    driver
        .engine
        .set_brush(BrushConfig::pen(Color::black(), 3.0f64.to_bits()));
    driver.begin(10.0, 10.0, 0.5, 0.0);
    driver.add(20.0, 10.0, 0.5, 0.016);
    driver.add(30.0, 10.0, 0.5, 0.032);
    driver.end();
    assert_eq!(driver.engine.stroke_count(), 1);

    driver.engine.set_brush(BrushConfig::eraser(20.0f64.to_bits()));
    driver.begin(500.0, 500.0, 0.5, 0.1);
    driver.add(510.0, 500.0, 0.5, 0.116);
    driver.end();
    assert_eq!(driver.engine.stroke_count(), 1);
    // Nothing was erased, so the eraser gesture recorded nothing to undo
    // beyond the original stroke.
    driver.engine.undo();
    assert_eq!(driver.engine.stroke_count(), 0);
}
