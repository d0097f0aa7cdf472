//! Abstract render commands and the two generators: a full-scene redraw and
//! the incremental commands for newly produced segments.
//!
//! A full render is exactly `Clear`, `SaveState`, `SetTransform`, one
//! `DrawVariableWidthPath` per non-empty stroke in paint order, and
//! `RestoreState`. Incremental output is a single path command (or nothing),
//! emitted in canvas coordinates on top of an already set-up transform.

use vstd::prelude::*;

use crate::geometry::BezierSegment;
use crate::point::{Color, Point};
use crate::stroke::{Stroke, StrokeView};

verus! {

/// A single cubic path segment with width info, as handed to renderers.
#[derive(Clone, Copy, PartialEq, Eq, Structural, Debug)]
pub struct PathSegment {
    pub p0: Point,
    pub cp1: Point,
    pub cp2: Point,
    pub p3: Point,
    pub start_width: u64,
    pub end_width: u64,
}

/// The path segment carrying the same control points and widths as a Bezier
/// segment.
pub open spec fn path_segment_of(b: BezierSegment) -> PathSegment {
    PathSegment {
        p0: b.p0,
        cp1: b.p1,
        cp2: b.p2,
        p3: b.p3,
        start_width: b.start_width,
        end_width: b.end_width,
    }
}

impl From<BezierSegment> for PathSegment {
    fn from(b: BezierSegment) -> (r: PathSegment)
        ensures
            r == path_segment_of(b),
    {
        PathSegment {
            p0: b.p0,
            cp1: b.p1,
            cp2: b.p2,
            p3: b.p3,
            start_width: b.start_width,
            end_width: b.end_width,
        }
    }
}

impl vstd::std_specs::convert::FromSpecImpl<BezierSegment> for PathSegment {
    open spec fn obeys_from_spec() -> bool {
        true
    }

    open spec fn from_spec(b: BezierSegment) -> PathSegment {
        path_segment_of(b)
    }
}

/// The mathematical value of a render command.
#[verifier::ext_equal]
pub ghost enum RenderCommandView {
    Clear { color: Color },
    SaveState,
    RestoreState,
    SetTransform { scale: u64, translate_x: u64, translate_y: u64 },
    DrawVariableWidthPath { segments: Seq<PathSegment>, color: Color, is_eraser: bool },
}

/// Commands consumed by a host renderer, in order. Scale and translation are
/// double bit patterns.
pub enum RenderCommand {
    Clear { color: Color },
    SaveState,
    RestoreState,
    SetTransform { scale: u64, translate_x: u64, translate_y: u64 },
    DrawVariableWidthPath { segments: Vec<PathSegment>, color: Color, is_eraser: bool },
}

impl View for RenderCommand {
    type V = RenderCommandView;

    open spec fn view(&self) -> RenderCommandView {
        match self {
            RenderCommand::Clear { color } => RenderCommandView::Clear { color: *color },
            RenderCommand::SaveState => RenderCommandView::SaveState,
            RenderCommand::RestoreState => RenderCommandView::RestoreState,
            RenderCommand::SetTransform { scale, translate_x, translate_y } => RenderCommandView::SetTransform {
                scale: *scale,
                translate_x: *translate_x,
                translate_y: *translate_y,
            },
            RenderCommand::DrawVariableWidthPath { segments, color, is_eraser } => RenderCommandView::DrawVariableWidthPath {
                segments: segments@,
                color: *color,
                is_eraser: *is_eraser,
            },
        }
    }
}

impl DeepView for RenderCommand {
    type V = RenderCommandView;

    open spec fn deep_view(&self) -> RenderCommandView {
        self.view()
    }
}

/// Each segment of a stroke as a path segment, in order.
pub open spec fn path_segments_of(segments: Seq<BezierSegment>) -> Seq<PathSegment> {
    segments.map_values(|b: BezierSegment| path_segment_of(b))
}

/// One `DrawVariableWidthPath` per stroke with at least one segment, in
/// paint order; empty strokes are skipped.
pub open spec fn stroke_draw_commands(strokes: Seq<StrokeView>) -> Seq<RenderCommandView>
    decreases strokes.len(),
{
    if strokes.len() == 0 {
        Seq::empty()
    } else {
        let rest = stroke_draw_commands(strokes.drop_last());
        let s = strokes.last();
        if s.segments.len() == 0 {
            rest
        } else {
            rest.push(
                RenderCommandView::DrawVariableWidthPath {
                    segments: path_segments_of(s.segments),
                    color: s.color,
                    is_eraser: s.is_eraser,
                },
            )
        }
    }
}

/// A full scene redraw: clear to the background color, save state, set the
/// viewport transform, draw every non-empty stroke in paint order, restore.
pub open spec fn full_render_spec(
    strokes: Seq<StrokeView>,
    bg_color: Color,
    scale: u64,
    translate_x: u64,
    translate_y: u64,
) -> Seq<RenderCommandView> {
    seq![
        RenderCommandView::Clear { color: bg_color },
        RenderCommandView::SaveState,
        RenderCommandView::SetTransform { scale, translate_x, translate_y },
    ] + stroke_draw_commands(strokes) + seq![RenderCommandView::RestoreState]
}

/// Incremental output: nothing for no segments, otherwise a single path
/// command carrying them all.
pub open spec fn incremental_spec(
    new_segments: Seq<BezierSegment>,
    color: Color,
    is_eraser: bool,
) -> Seq<RenderCommandView> {
    if new_segments.len() == 0 {
        Seq::empty()
    } else {
        seq![
            RenderCommandView::DrawVariableWidthPath {
                segments: path_segments_of(new_segments),
                color,
                is_eraser,
            },
        ]
    }
}

/// Convert a stroke's segments for the renderer.
fn to_path_segments(segments: &Vec<BezierSegment>) -> (r: Vec<PathSegment>)
    ensures
        r@ == path_segments_of(segments@),
{
    let mut r: Vec<PathSegment> = Vec::new();
    let n: usize = segments.len();
    let mut i: usize = 0;
    while i < n
        invariant
            i <= n,
            n == segments.len(),
            r@ == path_segments_of(segments@.take(i as int)),
        decreases n - i,
    {
        r.push(PathSegment::from(segments[i]));
        proof {
            assert(r@ =~= path_segments_of(segments@.take(i + 1)));
        }
        i += 1;
    }
    proof {
        assert(segments@.take(n as int) =~= segments@);
    }
    r
}

/// Generate the commands for a full scene redraw.
pub fn generate_full_render_commands(
    strokes: &Vec<Stroke>,
    bg_color: Color,
    scale: u64,
    translate_x: u64,
    translate_y: u64,
) -> (r: Vec<RenderCommand>)
    ensures
        r.deep_view() == full_render_spec(
            strokes.deep_view(),
            bg_color,
            scale,
            translate_x,
            translate_y,
        ),
{
    let ghost header = seq![
        RenderCommandView::Clear { color: bg_color },
        RenderCommandView::SaveState,
        RenderCommandView::SetTransform { scale, translate_x, translate_y },
    ];
    let mut commands: Vec<RenderCommand> = Vec::new();
    commands.push(RenderCommand::Clear { color: bg_color });
    commands.push(RenderCommand::SaveState);
    commands.push(RenderCommand::SetTransform { scale, translate_x, translate_y });
    proof {
        assert(commands.deep_view() =~= header + stroke_draw_commands(
            strokes.deep_view().take(0),
        ));
    }

    let n: usize = strokes.len();
    let mut i: usize = 0;
    while i < n
        invariant
            i <= n,
            n == strokes.len(),
            commands.deep_view() == header + stroke_draw_commands(strokes.deep_view().take(
                i as int,
            )),
        decreases n - i,
    {
        let ghost taken = strokes.deep_view().take(i as int);
        let ghost sv = strokes.deep_view()[i as int];
        proof {
            assert(strokes.deep_view().take(i + 1).drop_last() =~= taken);
            assert(strokes.deep_view().take(i + 1).last() == sv);
        }
        let stroke = &strokes[i];
        if stroke.segments.len() > 0 {
            let segments = to_path_segments(&stroke.segments);
            let ghost c0 = commands.deep_view();
            commands.push(
                RenderCommand::DrawVariableWidthPath {
                    segments,
                    color: stroke.color,
                    is_eraser: stroke.is_eraser,
                },
            );
            proof {
                assert(commands.deep_view() =~= c0.push(
                    RenderCommandView::DrawVariableWidthPath {
                        segments: path_segments_of(sv.segments),
                        color: sv.color,
                        is_eraser: sv.is_eraser,
                    },
                ));
                assert(commands.deep_view() =~= header + stroke_draw_commands(
                    strokes.deep_view().take(i + 1),
                ));
            }
        } else {
            proof {
                assert(commands.deep_view() =~= header + stroke_draw_commands(
                    strokes.deep_view().take(i + 1),
                ));
            }
        }
        i += 1;
    }

    let ghost c0 = commands.deep_view();
    commands.push(RenderCommand::RestoreState);
    proof {
        assert(strokes.deep_view().take(n as int) =~= strokes.deep_view());
        assert(commands.deep_view() =~= c0.push(RenderCommandView::RestoreState));
        assert(commands.deep_view() =~= full_render_spec(
            strokes.deep_view(),
            bg_color,
            scale,
            translate_x,
            translate_y,
        ));
    }
    commands
}

/// Generate the incremental commands for newly produced segments.
pub fn generate_incremental_commands(
    new_segments: &Vec<BezierSegment>,
    color: Color,
    is_eraser: bool,
) -> (r: Vec<RenderCommand>)
    ensures
        r.deep_view() == incremental_spec(new_segments@, color, is_eraser),
{
    let mut r: Vec<RenderCommand> = Vec::new();
    if new_segments.len() == 0 {
        proof {
            assert(r.deep_view() =~= incremental_spec(new_segments@, color, is_eraser));
        }
        return r;
    }
    let segments = to_path_segments(new_segments);
    r.push(RenderCommand::DrawVariableWidthPath { segments, color, is_eraser });
    proof {
        assert(r.deep_view() =~= incremental_spec(new_segments@, color, is_eraser));
    }
    r
}

} // verus!
