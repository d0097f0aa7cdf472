//! Strokes and the incremental stroke builder.
//!
//! The builder consumes one sample at a time and maintains the central
//! invariant of the pipeline: after every sample, segment `i` spans sample
//! `i` to sample `i + 1` with their widths, and the trailing segment is a
//! provisional placeholder that the next sample's Catmull-Rom conversion
//! replaces. The inner control points of each cubic are computed by the
//! numeric kernel outside the library and handed in as a `ControlPair`; the
//! builder verifies where every control point, endpoint and width lands.

use vstd::prelude::*;

use crate::brush::{BrushConfig, BrushType};
use crate::geometry::{BezierSegment, ControlPair};
use crate::ids::fresh_id;
use crate::point::{BoundingBox, Color, Point, StrokePoint};

verus! {

/// The mathematical value of a stroke.
#[verifier::ext_equal]
pub ghost struct StrokeView {
    pub id: u128,
    pub points: Seq<StrokePoint>,
    pub segments: Seq<BezierSegment>,
    pub color: Color,
    pub brush: BrushConfig,
    pub bounding_box: BoundingBox,
    pub is_eraser: bool,
}

/// One continuous mark: its identity, raw samples, derived Bezier segments,
/// resolved color, a snapshot of the brush it was drawn with, a cached
/// bounding box and the eraser flag.
pub struct Stroke {
    pub id: u128,
    pub points: Vec<StrokePoint>,
    pub segments: Vec<BezierSegment>,
    pub color: Color,
    pub brush: BrushConfig,
    pub bounding_box: BoundingBox,
    pub is_eraser: bool,
}

impl View for Stroke {
    type V = StrokeView;

    open spec fn view(&self) -> StrokeView {
        StrokeView {
            id: self.id,
            points: self.points@,
            segments: self.segments@,
            color: self.color,
            brush: self.brush,
            bounding_box: self.bounding_box,
            is_eraser: self.is_eraser,
        }
    }
}

impl DeepView for Stroke {
    type V = StrokeView;

    open spec fn deep_view(&self) -> StrokeView {
        self.view()
    }
}

impl Clone for Stroke {
    fn clone(&self) -> (r: Stroke)
        ensures
            r@ == self@,
    {
        let r = Stroke {
            id: self.id,
            points: self.points.clone(),
            segments: self.segments.clone(),
            color: self.color,
            brush: self.brush,
            bounding_box: self.bounding_box,
            is_eraser: self.is_eraser,
        };
        proof {
            assert(r.points@ =~= self.points@);
            assert(r.segments@ =~= self.segments@);
            assert(r@ =~= self@);
        }
        r
    }
}

impl Stroke {
    /// A fresh, empty stroke drawn with the given brush: a new nonzero
    /// identifier, the brush's color, and the eraser flag taken from the
    /// brush variant.
    pub fn new(brush: BrushConfig) -> (s: Stroke)
        ensures
            s@.id != 0,
            s@.points === Seq::<StrokePoint>::empty(),
            s@.segments === Seq::<BezierSegment>::empty(),
            s@.color == brush.color,
            s@.brush == brush,
            s@.bounding_box == BoundingBox::empty_spec(),
            s@.is_eraser == (brush.brush_type == BrushType::Eraser),
    {
        let color = brush.color;
        let is_eraser = brush.brush_type == BrushType::Eraser;
        Stroke {
            id: fresh_id(),
            points: Vec::new(),
            segments: Vec::new(),
            color,
            brush,
            bounding_box: BoundingBox::empty(),
            is_eraser,
        }
    }

    /// The same stroke under a caller-chosen identifier.
    pub fn with_id(self, id: u128) -> (s: Stroke)
        ensures
            s@ == (StrokeView { id, ..self@ }),
    {
        Stroke { id, ..self }
    }
}

/// How many segments a stroke built from `n` samples has while it is being
/// built: none below two samples, then one per additional sample.
pub open spec fn seg_count_of(n: nat) -> nat {
    if n < 2 {
        0
    } else {
        (n - 1) as nat
    }
}

/// A cubic from `a` to `b` whose inner control points were handed in, with
/// the given start/end widths.
pub open spec fn segment_between(
    a: Point,
    b: Point,
    ctrl: ControlPair,
    w0: u64,
    w1: u64,
) -> BezierSegment {
    BezierSegment { p0: a, p1: ctrl.c1, p2: ctrl.c2, p3: b, start_width: w0, end_width: w1 }
}

/// The smooth cubic that replaces the trailing placeholder: it spans the
/// second- and third-last of the samples seen so far (the center segment of
/// the Catmull-Rom window over the last four), with those samples' widths.
/// `points` and `widths` here exclude the newest sample.
pub open spec fn smooth_replacement(
    points: Seq<StrokePoint>,
    widths: Seq<u64>,
    ctrl: ControlPair,
) -> BezierSegment {
    let m = points.len() as int;
    BezierSegment {
        p0: points[m - 2].position,
        p1: ctrl.c1,
        p2: ctrl.c2,
        p3: points[m - 1].position,
        start_width: widths[m - 2],
        end_width: widths[m - 1],
    }
}

/// The segment sequence after one more sample: nothing for the first sample;
/// a single placeholder for the second; afterwards, once four samples exist,
/// the previous trailing placeholder is replaced by the smooth cubic and a
/// new trailing placeholder is appended.
pub open spec fn segments_after_add(
    points_old: Seq<StrokePoint>,
    widths_old: Seq<u64>,
    segments_old: Seq<BezierSegment>,
    point: StrokePoint,
    width: u64,
    smoothed: Option<ControlPair>,
    linear: ControlPair,
) -> Seq<BezierSegment> {
    let n = points_old.len() + 1;
    if n == 1 {
        segments_old
    } else {
        let lin = segment_between(
            points_old.last().position,
            point.position,
            linear,
            widths_old.last(),
            width,
        );
        if n >= 4 {
            segments_old.update(
                segments_old.len() - 1,
                smooth_replacement(points_old, widths_old, smoothed.unwrap()),
            ).push(lin)
        } else {
            segments_old.push(lin)
        }
    }
}

/// What `add_point` hands back for incremental rendering: nothing for the
/// first sample, the single new segment for the second, and afterwards the
/// two trailing segments (the replaced one and the new placeholder).
pub open spec fn emitted_after_add(segments_new: Seq<BezierSegment>, n: nat) -> Seq<
    BezierSegment,
> {
    if n == 1 {
        Seq::empty()
    } else if n == 2 {
        seq![segments_new.last()]
    } else {
        seq![segments_new[segments_new.len() - 2], segments_new.last()]
    }
}

/// Structural well-formedness of an in-progress stroke: one width per
/// sample, the segment count determined by the sample count, and segment `i`
/// spanning sample `i` to sample `i + 1` with their widths.
pub open spec fn builder_wf(s: StrokeView, widths: Seq<u64>) -> bool {
    &&& widths.len() == s.points.len()
    &&& s.segments.len() == seg_count_of(s.points.len())
    &&& forall|i: int|
        0 <= i < s.segments.len() ==> {
            &&& (#[trigger] s.segments[i]).p0 == s.points[i].position
            &&& s.segments[i].p3 == s.points[i + 1].position
            &&& s.segments[i].start_width == widths[i]
            &&& s.segments[i].end_width == widths[i + 1]
        }
}

/// The curve passes through the samples: while a stroke is being built,
/// segment `i` begins exactly at sample `i` and ends exactly at sample
/// `i + 1`, with those samples' widths. In particular, every Catmull-Rom
/// replacement begins at its window's second point and ends at its third —
/// the kernel only ever supplies inner control points, so these endpoint
/// identities are exact, not approximate.
pub proof fn lemma_segments_interpolate_samples(s: StrokeView, widths: Seq<u64>, i: int)
    requires
        builder_wf(s, widths),
        0 <= i < s.segments.len(),
    ensures
        s.segments[i].p0 == s.points[i].position,
        s.segments[i].p3 == s.points[i + 1].position,
        s.segments[i].start_width == widths[i],
        s.segments[i].end_width == widths[i + 1],
{
}

/// Incrementally builds a stroke from streaming input samples.
pub struct StrokeBuilder {
    stroke: Stroke,
    widths: Vec<u64>,
}

impl StrokeBuilder {
    /// The stroke as built so far.
    pub closed spec fn stroke_view(&self) -> StrokeView {
        self.stroke@
    }

    /// The per-sample computed widths, one per sample seen.
    pub closed spec fn widths_view(&self) -> Seq<u64> {
        self.widths@
    }

    /// Structural well-formedness of a builder: one width per sample, the
    /// segment count determined by the sample count, and segment `i`
    /// spanning sample `i` to sample `i + 1` with their widths.
    pub open spec fn wf(&self) -> bool {
        builder_wf(self.stroke_view(), self.widths_view())
    }

    pub fn new(brush: BrushConfig) -> (b: StrokeBuilder)
        ensures
            b.wf(),
            b.stroke_view().id != 0,
            b.stroke_view().points === Seq::<StrokePoint>::empty(),
            b.stroke_view().segments === Seq::<BezierSegment>::empty(),
            b.stroke_view().color == brush.color,
            b.stroke_view().brush == brush,
            b.stroke_view().bounding_box == BoundingBox::empty_spec(),
            b.stroke_view().is_eraser == (brush.brush_type == BrushType::Eraser),
            b.widths_view() === Seq::<u64>::empty(),
    {
        StrokeBuilder { stroke: Stroke::new(brush), widths: Vec::new() }
    }

    /// Ingest one sample with its precomputed width. `linear` carries the
    /// inner control points of the new trailing placeholder (the trisection
    /// of the chord from the previous sample); `smoothed` carries the inner
    /// control points of the Catmull-Rom cubic over the last four samples,
    /// and is given exactly when four samples exist.
    pub fn add_point(
        &mut self,
        point: StrokePoint,
        width: u64,
        smoothed: Option<ControlPair>,
        linear: ControlPair,
    ) -> (emitted: Vec<BezierSegment>)
        requires
            old(self).wf(),
            smoothed.is_some() <==> old(self).stroke_view().points.len() + 1 >= 4,
        ensures
            final(self).wf(),
            final(self).stroke_view().points == old(self).stroke_view().points.push(point),
            final(self).widths_view() == old(self).widths_view().push(width),
            final(self).stroke_view().segments == segments_after_add(
                old(self).stroke_view().points,
                old(self).widths_view(),
                old(self).stroke_view().segments,
                point,
                width,
                smoothed,
                linear,
            ),
            final(self).stroke_view().id == old(self).stroke_view().id,
            final(self).stroke_view().color == old(self).stroke_view().color,
            final(self).stroke_view().brush == old(self).stroke_view().brush,
            final(self).stroke_view().bounding_box == old(self).stroke_view().bounding_box,
            final(self).stroke_view().is_eraser == old(self).stroke_view().is_eraser,
            emitted@ == emitted_after_add(
                final(self).stroke_view().segments,
                final(self).stroke_view().points.len(),
            ),
    {
        self.widths.push(width);
        self.stroke.points.push(point);

        let n: usize = self.stroke.points.len();

        if n < 2 {
            return Vec::new();
        }

        if n == 2 {
            let p0 = self.stroke.points[0].position;
            let p1 = self.stroke.points[1].position;
            let seg = BezierSegment {
                p0,
                p1: linear.c1,
                p2: linear.c2,
                p3: p1,
                start_width: self.widths[0],
                end_width: self.widths[1],
            };
            self.stroke.segments.push(seg);
            let mut emitted: Vec<BezierSegment> = Vec::new();
            emitted.push(seg);
            return emitted;
        }

        // Replace the previous trailing placeholder with the smooth cubic
        // over the last four samples.
        if n >= 4 {
            let ctrl = smoothed.unwrap();
            let seg = BezierSegment {
                p0: self.stroke.points[n - 3].position,
                p1: ctrl.c1,
                p2: ctrl.c2,
                p3: self.stroke.points[n - 2].position,
                start_width: self.widths[n - 3],
                end_width: self.widths[n - 2],
            };
            if self.stroke.segments.len() >= 2 {
                let replace_idx: usize = self.stroke.segments.len() - 1;
                self.stroke.segments.set(replace_idx, seg);
            }
        }

        // Append the new trailing placeholder from the previous sample to
        // the new one.
        let i1: usize = n - 2;
        let i2: usize = n - 1;
        let last_seg = BezierSegment {
            p0: self.stroke.points[i1].position,
            p1: linear.c1,
            p2: linear.c2,
            p3: self.stroke.points[i2].position,
            start_width: self.widths[i1],
            end_width: self.widths[i2],
        };
        self.stroke.segments.push(last_seg);

        let seg_count: usize = self.stroke.segments.len();
        let mut emitted: Vec<BezierSegment> = Vec::new();
        emitted.push(self.stroke.segments[seg_count - 2]);
        emitted.push(self.stroke.segments[seg_count - 1]);
        emitted
    }

    /// Freeze the stroke. Once four samples exist the trailing segment is
    /// replaced once more by the smooth cubic over the last four samples
    /// (`smoothed` carries its inner control points, given exactly then).
    /// The frozen stroke still carries the in-flight bounding box: computing
    /// the box of the final segments is the numeric kernel's job, and it
    /// assigns the field on the returned stroke when it finds a valid one.
    pub fn finish(self, smoothed: Option<ControlPair>) -> (s: Stroke)
        requires
            self.wf(),
            smoothed.is_some() <==> self.stroke_view().points.len() >= 4,
        ensures
            s@.points == self.stroke_view().points,
            s@.segments == finish_segments(
                self.stroke_view().points,
                self.widths_view(),
                self.stroke_view().segments,
                smoothed,
            ),
            s@.bounding_box == self.stroke_view().bounding_box,
            s@.id == self.stroke_view().id,
            s@.color == self.stroke_view().color,
            s@.brush == self.stroke_view().brush,
            s@.is_eraser == self.stroke_view().is_eraser,
    {
        let StrokeBuilder { mut stroke, widths } = self;
        let n: usize = stroke.points.len();
        if n >= 4 {
            let ctrl = smoothed.unwrap();
            let seg = BezierSegment {
                p0: stroke.points[n - 3].position,
                p1: ctrl.c1,
                p2: ctrl.c2,
                p3: stroke.points[n - 2].position,
                start_width: widths[n - 3],
                end_width: widths[n - 2],
            };
            if stroke.segments.len() >= 1 {
                let last_idx: usize = stroke.segments.len() - 1;
                stroke.segments.set(last_idx, seg);
            }
        }
        stroke
    }
}

/// The segment sequence after `finish`: unchanged below four samples;
/// otherwise the trailing segment is replaced by the smooth cubic spanning
/// the second- and third-last samples (the center of the Catmull-Rom window
/// over the last four), with those samples' widths.
pub open spec fn finish_segments(
    points: Seq<StrokePoint>,
    widths: Seq<u64>,
    segments: Seq<BezierSegment>,
    smoothed: Option<ControlPair>,
) -> Seq<BezierSegment> {
    if points.len() >= 4 {
        let n = points.len() as int;
        segments.update(
            segments.len() - 1,
            BezierSegment {
                p0: points[n - 3].position,
                p1: smoothed.unwrap().c1,
                p2: smoothed.unwrap().c2,
                p3: points[n - 2].position,
                start_width: widths[n - 3],
                end_width: widths[n - 2],
            },
        )
    } else {
        segments
    }
}

} // verus!
