use drawengine::brush::BrushConfig;
use drawengine::eraser::{find_strokes_to_erase, merge_erase_ids};
use drawengine::geometry::{BezierSegment, ControlPair};
use drawengine::point::{BoundingBox, Color, Point, StrokePoint};
use drawengine::stroke::{Stroke, StrokeBuilder};

// Floating-point mirror of the numeric kernel, for feeding the builder the
// same values the engine's host would.

fn pt(x: f64, y: f64) -> Point {
    Point { x: x.to_bits(), y: y.to_bits() }
}

fn sample(x: f64, y: f64, pressure: f64, timestamp: f64) -> StrokePoint {
    StrokePoint::new(x.to_bits(), y.to_bits(), pressure.to_bits(), timestamp.to_bits())
}

fn px(p: Point) -> f64 {
    f64::from_bits(p.x)
}

fn py(p: Point) -> f64 {
    f64::from_bits(p.y)
}

fn distance(a: Point, b: Point) -> f64 {
    let dx = px(a) - px(b);
    let dy = py(a) - py(b);
    (dx * dx + dy * dy).sqrt()
}

fn lerp(a: Point, b: Point, t: f64) -> Point {
    pt(px(a) + (px(b) - px(a)) * t, py(a) + (py(b) - py(a)) * t)
}

fn linear_pair(a: Point, b: Point) -> ControlPair {
    ControlPair {
        c1: lerp(a, b, 1.0 / 3.0),
        c2: lerp(a, b, 2.0 / 3.0),
    }
}

fn catmull_pair(p0: Point, p1: Point, p2: Point, p3: Point) -> ControlPair {
    let alpha = 0.5f64;
    let d1 = distance(p0, p1).max(1e-6);
    let d2 = distance(p1, p2).max(1e-6);
    let d3 = distance(p2, p3).max(1e-6);
    let d1a = d1.powf(alpha);
    let d2a = d2.powf(alpha);
    let d3a = d3.powf(alpha);
    let d1_2a = d1.powf(2.0 * alpha);
    let d2_2a = d2.powf(2.0 * alpha);
    let d3_2a = d3.powf(2.0 * alpha);
    let b1x = (d1_2a * px(p2) - d2_2a * px(p0) + (2.0 * d1_2a + 3.0 * d1a * d2a + d2_2a) * px(p1))
        / (3.0 * d1a * (d1a + d2a));
    let b1y = (d1_2a * py(p2) - d2_2a * py(p0) + (2.0 * d1_2a + 3.0 * d1a * d2a + d2_2a) * py(p1))
        / (3.0 * d1a * (d1a + d2a));
    let b2x = (d3_2a * px(p1) - d2_2a * px(p3) + (2.0 * d3_2a + 3.0 * d3a * d2a + d2_2a) * px(p2))
        / (3.0 * d3a * (d3a + d2a));
    let b2y = (d3_2a * py(p1) - d2_2a * py(p3) + (2.0 * d3_2a + 3.0 * d3a * d2a + d2_2a) * py(p2))
        / (3.0 * d3a * (d3a + d2a));
    ControlPair {
        c1: pt(b1x, b1y),
        c2: pt(b2x, b2y),
    }
}

fn speed(prev: &StrokePoint, next: &StrokePoint) -> f64 {
    let d = distance(prev.position, next.position);
    let dt = (f64::from_bits(next.timestamp) - f64::from_bits(prev.timestamp)).abs();
    if dt < 1e-9 {
        0.0
    } else {
        d / dt
    }
}

fn compute_width(brush: &BrushConfig, pressure: f64, velocity: f64) -> f64 {
    let pf = 1.0 + (pressure - 0.5) * f64::from_bits(brush.pressure_sensitivity);
    let vf = 1.0 - (velocity.min(1000.0) / 1000.0) * f64::from_bits(brush.velocity_sensitivity);
    let factor = (pf * vf).clamp(
        f64::from_bits(brush.min_width_factor),
        f64::from_bits(brush.max_width_factor),
    );
    f64::from_bits(brush.base_width) * factor
}

fn evaluate(seg: &BezierSegment, t: f64) -> Point {
    let mt = 1.0 - t;
    let mt2 = mt * mt;
    let mt3 = mt2 * mt;
    let t2 = t * t;
    let t3 = t2 * t;
    pt(
        mt3 * px(seg.p0)
            + 3.0 * mt2 * t * px(seg.p1)
            + 3.0 * mt * t2 * px(seg.p2)
            + t3 * px(seg.p3),
        mt3 * py(seg.p0)
            + 3.0 * mt2 * t * py(seg.p1)
            + 3.0 * mt * t2 * py(seg.p2)
            + t3 * py(seg.p3),
    )
}

fn width_at(seg: &BezierSegment, t: f64) -> f64 {
    let sw = f64::from_bits(seg.start_width);
    let ew = f64::from_bits(seg.end_width);
    sw + (ew - sw) * t
}

fn stroke_bounds(segments: &[BezierSegment]) -> Option<BoundingBox> {
    let mut min_x = f64::MAX;
    let mut min_y = f64::MAX;
    let mut max_x = f64::MIN;
    let mut max_y = f64::MIN;
    for seg in segments {
        for t_step in 0..=10 {
            let t = t_step as f64 / 10.0;
            let p = evaluate(seg, t);
            let w = width_at(seg, t);
            min_x = min_x.min(px(p));
            min_y = min_y.min(py(p));
            max_x = max_x.max(px(p));
            max_y = max_y.max(py(p));
            min_x -= w * 0.5;
            min_y -= w * 0.5;
            max_x += w * 0.5;
            max_y += w * 0.5;
        }
    }
    if min_x <= max_x && min_y <= max_y {
        Some(BoundingBox {
            min_x: min_x.to_bits(),
            min_y: min_y.to_bits(),
            max_x: max_x.to_bits(),
            max_y: max_y.to_bits(),
        })
    } else {
        None
    }
}

/// Drives a `StrokeBuilder` the way the engine's host does: computes the
/// width, placeholder and Catmull-Rom control points for each sample.
struct BuilderDriver {
    builder: StrokeBuilder,
    brush: BrushConfig,
    samples: Vec<StrokePoint>,
}

impl BuilderDriver {
    fn new(brush: BrushConfig) -> BuilderDriver {
        BuilderDriver {
            builder: StrokeBuilder::new(brush),
            brush,
            samples: Vec::new(),
        }
    }

    fn add(&mut self, s: StrokePoint) -> Vec<BezierSegment> {
        let velocity = match self.samples.last() {
            Some(prev) => speed(prev, &s),
            None => 0.0,
        };
        let width = compute_width(&self.brush, f64::from_bits(s.pressure), velocity).to_bits();
        let smoothed = if self.samples.len() + 1 >= 4 {
            let k = self.samples.len();
            Some(catmull_pair(
                self.samples[k - 3].position,
                self.samples[k - 2].position,
                self.samples[k - 1].position,
                s.position,
            ))
        } else {
            None
        };
        let linear = match self.samples.last() {
            Some(prev) => linear_pair(prev.position, s.position),
            None => ControlPair {
                c1: s.position,
                c2: s.position,
            },
        };
        self.samples.push(s);
        self.builder.add_point(s, width, smoothed, linear)
    }

    fn finish(self) -> Stroke {
        let n = self.samples.len();
        let smoothed = if n >= 4 {
            Some(catmull_pair(
                self.samples[n - 4].position,
                self.samples[n - 3].position,
                self.samples[n - 2].position,
                self.samples[n - 1].position,
            ))
        } else {
            None
        };
        let mut stroke = self.builder.finish(smoothed);
        if let Some(bb) = stroke_bounds(&stroke.segments) {
            stroke.bounding_box = bb;
        }
        stroke
    }
}


/// The geometric hit verdict for one stroke against one eraser sample: a
/// valid bounding box that meets the eraser's box, and some segment sample
/// within the eraser radius plus half the local width.
fn hit_stroke(stroke: &Stroke, ex: f64, ey: f64, radius: f64) -> bool {
    let bb = &stroke.bounding_box;
    let (min_x, min_y) = (f64::from_bits(bb.min_x), f64::from_bits(bb.min_y));
    let (max_x, max_y) = (f64::from_bits(bb.max_x), f64::from_bits(bb.max_y));
    if !(min_x <= max_x && min_y <= max_y) {
        return false;
    }
    if !(min_x <= ex + radius && max_x >= ex - radius && min_y <= ey + radius && max_y >= ey - radius) {
        return false;
    }
    let e = pt(ex, ey);
    for seg in &stroke.segments {
        for step in 0..=20 {
            let t = step as f64 / 20.0;
            let p = evaluate(seg, t);
            if distance(p, e) <= radius + width_at(seg, t) * 0.5 {
                return true;
            }
        }
    }
    false
}

fn hits_for(strokes: &[Stroke], ex: f64, ey: f64, radius: f64) -> Vec<bool> {
    strokes.iter().map(|s| hit_stroke(s, ex, ey, radius)).collect()
}

fn make_test_stroke() -> Stroke {
    let brush = BrushConfig::pen(Color::black(), 2.0f64.to_bits());
    let mut driver = BuilderDriver::new(brush);
    for i in 0..5 {
        let t = i as f64;
        driver.add(sample(t * 10.0, 0.0, 0.5, t * 0.016));
    }
    driver.finish()
}

#[test]
fn test_erase_hit() {
    let strokes = vec![make_test_stroke()];
    let hit = hits_for(&strokes, 20.0, 0.0, 5.0);
    let ids = find_strokes_to_erase(&strokes, &hit);
    assert_eq!(ids.len(), 1);
}

#[test]
fn test_erase_miss() {
    let strokes = vec![make_test_stroke()];
    let hit = hits_for(&strokes, 200.0, 200.0, 5.0);
    let ids = find_strokes_to_erase(&strokes, &hit);
    assert!(ids.is_empty());
}

#[test]
fn test_eraser_strokes_never_erased() {
    // Even under a positive geometric verdict, a stroke drawn by the eraser
    // itself is never selected.
    let brush = BrushConfig::eraser(2.0f64.to_bits());
    let mut driver = BuilderDriver::new(brush);
    for i in 0..5 {
        let t = i as f64;
        driver.add(sample(t * 10.0, 0.0, 0.5, t * 0.016));
    }
    let eraser_stroke = driver.finish();
    assert!(eraser_stroke.is_eraser);
    let strokes = vec![eraser_stroke];
    let hit = vec![true];
    let ids = find_strokes_to_erase(&strokes, &hit);
    assert!(ids.is_empty());
}

#[test]
fn test_erase_preserves_paint_order() {
    let a = make_test_stroke();
    let b = make_test_stroke();
    let (ida, idb) = (a.id, b.id);
    let strokes = vec![a, b];
    let ids = find_strokes_to_erase(&strokes, &vec![true, true]);
    assert_eq!(ids, vec![ida, idb]);
}

#[test]
fn test_merge_erase_ids_dedup() {
    // Merging keeps the order of first hits and drops repeats.
    let mut acc: Vec<u128> = vec![7, 3];
    merge_erase_ids(&mut acc, &vec![3, 9, 7, 11, 9]);
    assert_eq!(acc, vec![7, 3, 9, 11]);
}

#[test]
fn test_eraser_sample_outside_all_bounds_erases_nothing() {
    // An eraser sample far outside every stroke's inflated bounding box
    // produces no geometric hits, and so no identities.
    let strokes = vec![make_test_stroke(), make_test_stroke()];
    let hit = hits_for(&strokes, 1000.0, 1000.0, 5.0);
    assert!(hit.iter().all(|h| !h));
    let ids = find_strokes_to_erase(&strokes, &hit);
    assert!(ids.is_empty());
}
