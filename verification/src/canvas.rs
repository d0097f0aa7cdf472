//! The engine: it owns the layers, the history, the viewport state, the
//! current brush and (while a stroke is in flight) the builder, and exposes
//! the document state machine.
//!
//! The numeric kernel outside the library feeds it canvas-space samples,
//! per-sample widths, cubic control points, bounding boxes and eraser
//! verdicts; everything the engine then does with them — the builder's
//! segment policy, committing and erasing strokes, history application,
//! rendering and the document operations — is verified here.

use vstd::prelude::*;

use crate::brush::{BrushConfig, BrushType};
use crate::geometry::{BezierSegment, ControlPair};
use crate::history::{
    model_push, model_redo, model_undo, History, HistoryAction, HistoryActionView, HistoryModel,
    DEFAULT_HISTORY_SIZE,
};
use crate::layer::{
    contains_stroke_id, first_stroke_with_id, remove_first_by_id, visible_strokes, Layer,
    LayerManager, LayerView,
};
use crate::point::{BoundingBox, Color, StrokePoint};
use crate::render::{
    full_render_spec, generate_full_render_commands, generate_incremental_commands,
    incremental_spec, RenderCommand, RenderCommandView,
};
use crate::serialization::{DocumentData, DocumentDataView, DrawEngineError, DOCUMENT_VERSION};
use crate::stroke::{
    builder_wf, emitted_after_add, finish_segments, segments_after_add, Stroke, StrokeBuilder,
    StrokeView,
};
use crate::transform::Viewport;

verus! {

/// The mathematical value of the whole engine.
#[verifier::ext_equal]
pub ghost struct DrawEngineModel {
    pub layers: Seq<LayerView>,
    pub active_layer_index: usize,
    pub viewport: Viewport,
    pub history: HistoryModel,
    pub background_color: Color,
    pub canvas_width: u64,
    pub canvas_height: u64,
    pub brush: BrushConfig,
    pub builder: Option<(StrokeView, Seq<u64>)>,
}

/// Structural well-formedness of an engine: at least one layer, the active
/// index in range, and any in-flight builder well-formed.
pub open spec fn model_wf(m: DrawEngineModel) -> bool {
    &&& m.layers.len() >= 1
    &&& m.active_layer_index < m.layers.len()
    &&& (m.builder is Some ==> builder_wf(m.builder.unwrap().0, m.builder.unwrap().1))
}

/// The total number of strokes across all layers.
pub open spec fn total_strokes(layers: Seq<LayerView>) -> nat
    decreases layers.len(),
{
    if layers.len() == 0 {
        0
    } else {
        total_strokes(layers.drop_last()) + layers.last().strokes.len()
    }
}

/// The full-render command sequence for an engine state.
pub open spec fn render_of(m: DrawEngineModel) -> Seq<RenderCommandView> {
    full_render_spec(
        visible_strokes(m.layers),
        m.background_color,
        m.viewport.scale,
        m.viewport.offset_x,
        m.viewport.offset_y,
    )
}

/// How a history action replays onto the layers: adding appends the carried
/// stroke to its layer, removing takes out the first stroke with the carried
/// stroke's identity. An out-of-range layer index replays as a no-op.
pub open spec fn apply_action(layers: Seq<LayerView>, a: HistoryActionView) -> Seq<LayerView> {
    match a {
        HistoryActionView::AddStroke { layer_index, stroke } => {
            if layer_index < layers.len() {
                layers.update(
                    layer_index as int,
                    LayerView {
                        strokes: layers[layer_index as int].strokes.push(stroke),
                        ..layers[layer_index as int]
                    },
                )
            } else {
                layers
            }
        },
        HistoryActionView::RemoveStroke { layer_index, stroke } => {
            if layer_index < layers.len() {
                layers.update(
                    layer_index as int,
                    LayerView {
                        strokes: remove_first_by_id(
                            layers[layer_index as int].strokes,
                            stroke.id,
                        ),
                        ..layers[layer_index as int]
                    },
                )
            } else {
                layers
            }
        },
    }
}

/// What `undo` does to the engine: nothing when the undo stack is empty;
/// otherwise the most recent action moves to the redo stack and its inverse
/// replays onto the layers.
pub open spec fn engine_undo(m: DrawEngineModel) -> DrawEngineModel {
    if m.history.undo.len() == 0 {
        m
    } else {
        DrawEngineModel {
            history: model_undo(m.history),
            layers: apply_action(m.layers, m.history.undo.last().inverse()),
            ..m
        }
    }
}

/// What `redo` does to the engine: nothing when the redo stack is empty;
/// otherwise the most recent undone action moves back and replays verbatim.
pub open spec fn engine_redo(m: DrawEngineModel) -> DrawEngineModel {
    if m.history.redo.len() == 0 {
        m
    } else {
        DrawEngineModel {
            history: model_redo(m.history),
            layers: apply_action(m.layers, m.history.redo.last()),
            ..m
        }
    }
}

/// What committing a finished stroke does: an eraser stroke or one without
/// segments changes nothing; otherwise the stroke is appended to the active
/// layer and an add action is recorded.
pub open spec fn engine_commit(m: DrawEngineModel, s: StrokeView) -> DrawEngineModel {
    if s.is_eraser || s.segments.len() == 0 {
        m
    } else {
        let idx = m.active_layer_index;
        DrawEngineModel {
            layers: m.layers.update(
                idx as int,
                LayerView { strokes: m.layers[idx as int].strokes.push(s), ..m.layers[idx as int] },
            ),
            history: model_push(
                m.history,
                HistoryActionView::AddStroke { layer_index: idx, stroke: s },
            ),
            ..m
        }
    }
}

/// What erasing one identity does: when the active layer holds a stroke of
/// that identity, its first occurrence is removed and a remove action is
/// recorded; otherwise nothing changes.
pub open spec fn engine_erase_one(m: DrawEngineModel, id: u128) -> DrawEngineModel {
    let idx = m.active_layer_index;
    let strokes = m.layers[idx as int].strokes;
    if contains_stroke_id(strokes, id) {
        DrawEngineModel {
            layers: m.layers.update(
                idx as int,
                LayerView { strokes: remove_first_by_id(strokes, id), ..m.layers[idx as int] },
            ),
            history: model_push(
                m.history,
                HistoryActionView::RemoveStroke {
                    layer_index: idx,
                    stroke: first_stroke_with_id(strokes, id),
                },
            ),
            ..m
        }
    } else {
        m
    }
}

/// Erasing a list of identities, in order.
pub open spec fn engine_erase_seq(m: DrawEngineModel, ids: Seq<u128>) -> DrawEngineModel
    decreases ids.len(),
{
    if ids.len() == 0 {
        m
    } else {
        engine_erase_one(engine_erase_seq(m, ids.drop_last()), ids.last())
    }
}

/// The document record an engine state saves.
pub open spec fn document_of(m: DrawEngineModel) -> DocumentDataView {
    DocumentDataView {
        version: DOCUMENT_VERSION,
        width: m.canvas_width,
        height: m.canvas_height,
        background_color: m.background_color,
        layers: m.layers,
    }
}

/// What loading a version-1 document with at least one layer does: the
/// canvas size, background and layers are taken from the document, the first
/// layer becomes active, and the history is cleared. The viewport, brush and
/// any in-flight builder are untouched.
pub open spec fn engine_apply_document(m: DrawEngineModel, doc: DocumentDataView) -> DrawEngineModel {
    DrawEngineModel {
        canvas_width: doc.width,
        canvas_height: doc.height,
        background_color: doc.background_color,
        layers: doc.layers,
        active_layer_index: 0,
        history: HistoryModel {
            undo: Seq::empty(),
            redo: Seq::empty(),
            max: m.history.max,
        },
        ..m
    }
}

/// The 2D ink-drawing engine.
pub struct DrawEngine {
    pub layer_manager: LayerManager,
    pub viewport: Viewport,
    pub history: History,
    pub background_color: Color,
    pub canvas_width: u64,
    pub canvas_height: u64,
    current_brush: BrushConfig,
    active_builder: Option<StrokeBuilder>,
}

impl DrawEngine {
    /// The engine as a mathematical value.
    pub closed spec fn model(&self) -> DrawEngineModel {
        DrawEngineModel {
            layers: self.layer_manager.layers_view(),
            active_layer_index: self.layer_manager.active_layer_index,
            viewport: self.viewport,
            history: self.history.model(),
            background_color: self.background_color,
            canvas_width: self.canvas_width,
            canvas_height: self.canvas_height,
            brush: self.current_brush,
            builder: match self.active_builder {
                Some(b) => Some((b.stroke_view(), b.widths_view())),
                None => None,
            },
        }
    }

    pub open spec fn wf(&self) -> bool {
        model_wf(self.model())
    }

    /// A fresh engine over a canvas of the given size (double bit patterns):
    /// one fresh default layer, identity viewport, empty history with the
    /// default bound, white background, default pen, no stroke in flight.
    pub fn new(width: u64, height: u64) -> (e: DrawEngine)
        ensures
            e.wf(),
            e.model().layers.len() == 1,
            e.model().layers[0].name == "Layer 1"@,
            e.model().layers[0].visible == true,
            e.model().layers[0].strokes === Seq::<StrokeView>::empty(),
            e.model().active_layer_index == 0,
            e.model().viewport == Viewport::identity_spec(),
            e.model().history == (HistoryModel {
                undo: Seq::<HistoryActionView>::empty(),
                redo: Seq::<HistoryActionView>::empty(),
                max: DEFAULT_HISTORY_SIZE as nat,
            }),
            e.model().background_color == Color::white_spec(),
            e.model().canvas_width == width,
            e.model().canvas_height == height,
            e.model().brush == BrushConfig::default_spec(),
            e.model().builder is None,
    {
        DrawEngine {
            layer_manager: LayerManager::new(),
            viewport: Viewport::new(),
            history: History::default(),
            background_color: Color::white(),
            canvas_width: width,
            canvas_height: height,
            current_brush: BrushConfig::default(),
            active_builder: None,
        }
    }

    /// Select the brush used for subsequent strokes.
    pub fn set_brush(&mut self, brush: BrushConfig)
        ensures
            final(self).model() == (DrawEngineModel { brush, ..old(self).model() }),
    {
        self.current_brush = brush;
    }

    /// The brush used for subsequent strokes.
    pub fn current_brush(&self) -> (b: &BrushConfig)
        ensures
            *b == self.model().brush,
    {
        &self.current_brush
    }

    pub fn can_undo(&self) -> (b: bool)
        ensures
            b == (self.model().history.undo.len() > 0),
    {
        self.history.can_undo()
    }

    pub fn can_redo(&self) -> (b: bool)
        ensures
            b == (self.model().history.redo.len() > 0),
    {
        self.history.can_redo()
    }

    /// The viewport scale (a double bit pattern).
    pub fn get_scale(&self) -> (s: u64)
        ensures
            s == self.model().viewport.scale,
    {
        self.viewport.scale
    }

    /// The viewport offsets (double bit patterns).
    pub fn get_offset(&self) -> (o: (u64, u64))
        ensures
            o.0 == self.model().viewport.offset_x,
            o.1 == self.model().viewport.offset_y,
    {
        (self.viewport.offset_x, self.viewport.offset_y)
    }

    /// Back to the identity transform, then a full redraw.
    pub fn reset_viewport(&mut self) -> (cmds: Vec<RenderCommand>)
        ensures
            final(self).model() == (DrawEngineModel {
                viewport: Viewport {
                    scale: crate::point::F64_ONE_BITS,
                    offset_x: crate::point::F64_ZERO_BITS,
                    offset_y: crate::point::F64_ZERO_BITS,
                    ..old(self).model().viewport
                },
                ..old(self).model()
            }),
            cmds.deep_view() == render_of(final(self).model()),
    {
        self.viewport.reset();
        self.full_render()
    }

    /// The commands for a full scene redraw of the current state.
    pub fn full_render(&self) -> (cmds: Vec<RenderCommand>)
        ensures
            cmds.deep_view() == render_of(self.model()),
    {
        let strokes = self.layer_manager.all_visible_strokes();
        generate_full_render_commands(
            &strokes,
            self.background_color,
            self.viewport.scale,
            self.viewport.offset_x,
            self.viewport.offset_y,
        )
    }

    /// The total number of strokes across all layers.
    pub fn stroke_count(&self) -> (n: usize)
        requires
            total_strokes(self.model().layers) <= usize::MAX,
        ensures
            n == total_strokes(self.model().layers),
    {
        let ghost layers = self.model().layers;
        let mut count: usize = 0;
        let n: usize = self.layer_manager.layers.len();
        let mut i: usize = 0;
        while i < n
            invariant
                i <= n,
                n == self.layer_manager.layers.len(),
                layers == self.model().layers,
                total_strokes(layers) <= usize::MAX,
                count == total_strokes(layers.take(i as int)),
            decreases n - i,
        {
            proof {
                assert(layers.take(i + 1).drop_last() =~= layers.take(i as int));
                lemma_total_strokes_take_le(layers, i + 1);
            }
            count = count + self.layer_manager.layers[i].strokes.len();
            i += 1;
        }
        proof {
            assert(layers.take(n as int) =~= layers);
        }
        count
    }

    /// The identity of the active layer.
    pub fn active_layer_id(&self) -> (id: u128)
        requires
            self.wf(),
        ensures
            id == self.model().layers[self.model().active_layer_index as int].id,
    {
        self.layer_manager.active_layer_id()
    }

    /// Begin a new stroke at a canvas-space sample with its precomputed
    /// width. An already in-flight stroke is silently abandoned. Nothing is
    /// rendered for the first sample.
    pub fn begin_stroke(&mut self, point: StrokePoint, width: u64) -> (cmds: Vec<RenderCommand>)
        requires
            old(self).wf(),
        ensures
            final(self).wf(),
            cmds@ === Seq::<RenderCommand>::empty(),
            final(self).model().builder is Some,
            ({
                let (sv, ws) = final(self).model().builder.unwrap();
                &&& sv.points == seq![point]
                &&& ws == seq![width]
                &&& sv.segments === Seq::<BezierSegment>::empty()
                &&& sv.brush == old(self).model().brush
                &&& sv.color == old(self).model().brush.color
                &&& sv.is_eraser == (old(self).model().brush.brush_type == BrushType::Eraser)
                &&& sv.id != 0
                &&& sv.bounding_box == BoundingBox::empty_spec()
            }),
            final(self).model() == (DrawEngineModel {
                builder: final(self).model().builder,
                ..old(self).model()
            }),
    {
        let mut builder = StrokeBuilder::new(self.current_brush);
        let placeholder = ControlPair { c1: point.position, c2: point.position };
        let _segments = builder.add_point(point, width, None, placeholder);
        self.active_builder = Some(builder);
        proof {
            let (sv, ws) = self.model().builder.unwrap();
            assert(sv.points =~= seq![point]);
            assert(ws =~= seq![width]);
            assert(self.model() =~= (DrawEngineModel {
                builder: self.model().builder,
                ..old(self).model()
            }));
        }
        Vec::new()
    }

    /// Ingest the next sample of the in-flight stroke (a no-op when none is
    /// in flight). `linear` and `smoothed` carry the cubic control points
    /// computed by the numeric kernel, as in `StrokeBuilder::add_point`.
    /// Returns the incremental commands for the changed segments; an eraser
    /// stroke renders nothing.
    pub fn add_point(
        &mut self,
        point: StrokePoint,
        width: u64,
        smoothed: Option<ControlPair>,
        linear: ControlPair,
    ) -> (cmds: Vec<RenderCommand>)
        requires
            old(self).wf(),
            old(self).model().builder is Some ==> (smoothed is Some <==> old(
                self,
            ).model().builder.unwrap().0.points.len() + 1 >= 4),
        ensures
            final(self).wf(),
            old(self).model().builder is None ==> final(self).model() == old(self).model()
                && cmds@ === Seq::<RenderCommand>::empty(),
            old(self).model().builder is Some ==> ({
                let (sv, ws) = old(self).model().builder.unwrap();
                let segs = segments_after_add(
                    sv.points,
                    ws,
                    sv.segments,
                    point,
                    width,
                    smoothed,
                    linear,
                );
                &&& final(self).model() == (DrawEngineModel {
                    builder: Some(
                        (
                            StrokeView { points: sv.points.push(point), segments: segs, ..sv },
                            ws.push(width),
                        ),
                    ),
                    ..old(self).model()
                })
                &&& cmds.deep_view() == (if old(self).model().brush.brush_type
                    == BrushType::Eraser {
                    Seq::<RenderCommandView>::empty()
                } else {
                    incremental_spec(
                        emitted_after_add(segs, sv.points.len() + 1),
                        old(self).model().brush.color,
                        false,
                    )
                })
            }),
    {
        if let Some(builder) = &mut self.active_builder {
            let new_segments = builder.add_point(point, width, smoothed, linear);
            proof {
                let (sv, ws) = old(self).model().builder.unwrap();
                let segs = segments_after_add(
                    sv.points,
                    ws,
                    sv.segments,
                    point,
                    width,
                    smoothed,
                    linear,
                );
                assert(self.model() =~= (DrawEngineModel {
                    builder: Some(
                        (
                            StrokeView { points: sv.points.push(point), segments: segs, ..sv },
                            ws.push(width),
                        ),
                    ),
                    ..old(self).model()
                }));
            }
            if self.current_brush.brush_type == BrushType::Eraser {
                return Vec::new();
            }
            generate_incremental_commands(&new_segments, self.current_brush.color, false)
        } else {
            Vec::new()
        }
    }

    /// Take the in-flight stroke out of the engine and freeze it, as in
    /// `StrokeBuilder::finish`; the numeric kernel computes and assigns the
    /// frozen stroke's bounding box before it is committed. Returns nothing
    /// when no stroke is in flight.
    pub fn finish_stroke(&mut self, smoothed: Option<ControlPair>) -> (r: Option<Stroke>)
        requires
            old(self).wf(),
            old(self).model().builder is Some ==> (smoothed is Some <==> old(
                self,
            ).model().builder.unwrap().0.points.len() >= 4),
        ensures
            final(self).wf(),
            final(self).model() == (DrawEngineModel { builder: None, ..old(self).model() }),
            r is Some <==> old(self).model().builder is Some,
            old(self).model().builder is Some ==> ({
                let (sv, ws) = old(self).model().builder.unwrap();
                r.unwrap()@ == (StrokeView {
                    segments: finish_segments(sv.points, ws, sv.segments, smoothed),
                    ..sv
                })
            }),
    {
        let taken = self.active_builder.take();
        proof {
            assert(self.model() =~= (DrawEngineModel { builder: None, ..old(self).model() }));
        }
        match taken {
            Some(builder) => Some(builder.finish(smoothed)),
            None => None,
        }
    }

    /// Commit a finished pen or highlighter stroke: append it to the active
    /// layer and record the add action. An eraser stroke, or one without
    /// segments, changes nothing.
    pub fn commit_stroke(&mut self, stroke: Stroke)
        requires
            old(self).wf(),
        ensures
            final(self).wf(),
            final(self).model() == engine_commit(old(self).model(), stroke@),
    {
        if !stroke.is_eraser && stroke.segments.len() > 0 {
            let layer_idx: usize = self.layer_manager.active_layer_index;
            self.history.push(
                HistoryAction::AddStroke { layer_index: layer_idx, stroke: stroke.clone() },
            );
            let ghost layers0 = self.layer_manager.layers_view();
            let ghost sv = stroke@;
            let layer = self.layer_manager.active_layer_mut();
            layer.add_stroke(stroke);
            proof {
                assert(self.layer_manager.layers_view() =~= layers0.update(
                    layer_idx as int,
                    LayerView {
                        strokes: layers0[layer_idx as int].strokes.push(sv),
                        ..layers0[layer_idx as int]
                    },
                ));
                assert(self.model() =~= engine_commit(old(self).model(), sv));
            }
        }
    }

    /// Erase the strokes with the given identities from the active layer, in
    /// order, recording one remove action per stroke actually present.
    pub fn erase_strokes(&mut self, ids: &Vec<u128>)
        requires
            old(self).wf(),
        ensures
            final(self).wf(),
            final(self).model() == engine_erase_seq(old(self).model(), ids@),
    {
        let n: usize = ids.len();
        let mut i: usize = 0;
        while i < n
            invariant
                i <= n,
                n == ids.len(),
                self.wf(),
                self.model() == engine_erase_seq(old(self).model(), ids@.take(i as int)),
            decreases n - i,
        {
            proof {
                assert(ids@.take(i + 1).drop_last() =~= ids@.take(i as int));
            }
            let ghost m0 = self.model();
            let id: u128 = ids[i];
            let layer_idx: usize = self.layer_manager.active_layer_index;
            let ghost layers0 = self.layer_manager.layers_view();
            let layer = self.layer_manager.active_layer_mut();
            let removed = layer.remove_stroke(id);
            proof {
                assert(self.layer_manager.layers_view() =~= layers0.update(
                    layer_idx as int,
                    LayerView {
                        strokes: remove_first_by_id(layers0[layer_idx as int].strokes, id),
                        ..layers0[layer_idx as int]
                    },
                ));
            }
            if let Some(removed_stroke) = removed {
                self.history.push(
                    HistoryAction::RemoveStroke {
                        layer_index: layer_idx,
                        stroke: removed_stroke,
                    },
                );
                proof {
                    assert(self.model() =~= engine_erase_one(m0, id));
                }
            } else {
                proof {
                    crate::layer::lemma_remove_absent_id(layers0[layer_idx as int].strokes, id);
                    assert(self.model() =~= engine_erase_one(m0, id));
                }
            }
            i += 1;
        }
        proof {
            assert(ids@.take(n as int) =~= ids@);
        }
    }

    fn apply_history_action(&mut self, action: &HistoryAction)
        ensures
            final(self).model() == (DrawEngineModel {
                layers: apply_action(old(self).model().layers, action@),
                ..old(self).model()
            }),
    {
        let ghost layers0 = self.layer_manager.layers_view();
        match action {
            HistoryAction::AddStroke { layer_index, stroke } => {
                if *layer_index < self.layer_manager.layers.len() {
                    let ghost sv = stroke@;
                    let layer = &mut self.layer_manager.layers[*layer_index];
                    layer.add_stroke(stroke.clone());
                    proof {
                        assert(self.layer_manager.layers_view() =~= layers0.update(
                            *layer_index as int,
                            LayerView {
                                strokes: layers0[*layer_index as int].strokes.push(sv),
                                ..layers0[*layer_index as int]
                            },
                        ));
                        assert(self.model() =~= (DrawEngineModel {
                            layers: apply_action(layers0, action@),
                            ..old(self).model()
                        }));
                    }
                } else {
                    proof {
                        assert(self.model() =~= (DrawEngineModel {
                            layers: apply_action(layers0, action@),
                            ..old(self).model()
                        }));
                    }
                }
            },
            HistoryAction::RemoveStroke { layer_index, stroke } => {
                if *layer_index < self.layer_manager.layers.len() {
                    let id: u128 = stroke.id;
                    let layer = &mut self.layer_manager.layers[*layer_index];
                    let _removed = layer.remove_stroke(id);
                    proof {
                        assert(self.layer_manager.layers_view() =~= layers0.update(
                            *layer_index as int,
                            LayerView {
                                strokes: remove_first_by_id(
                                    layers0[*layer_index as int].strokes,
                                    id,
                                ),
                                ..layers0[*layer_index as int]
                            },
                        ));
                        assert(self.model() =~= (DrawEngineModel {
                            layers: apply_action(layers0, action@),
                            ..old(self).model()
                        }));
                    }
                } else {
                    proof {
                        assert(self.model() =~= (DrawEngineModel {
                            layers: apply_action(layers0, action@),
                            ..old(self).model()
                        }));
                    }
                }
            },
        }
    }

    /// Undo the most recent action (a no-op when there is none), then a full
    /// redraw.
    pub fn undo(&mut self) -> (cmds: Vec<RenderCommand>)
        requires
            old(self).wf(),
        ensures
            final(self).wf(),
            final(self).model() == engine_undo(old(self).model()),
            cmds.deep_view() == render_of(final(self).model()),
    {
        if let Some(action) = self.history.undo() {
            self.apply_history_action(&action);
            proof {
                assert(self.model() =~= engine_undo(old(self).model()));
            }
        } else {
            proof {
                assert(self.model() =~= engine_undo(old(self).model()));
            }
        }
        self.full_render()
    }

    /// Redo the most recently undone action (a no-op when there is none),
    /// then a full redraw.
    pub fn redo(&mut self) -> (cmds: Vec<RenderCommand>)
        requires
            old(self).wf(),
        ensures
            final(self).wf(),
            final(self).model() == engine_redo(old(self).model()),
            cmds.deep_view() == render_of(final(self).model()),
    {
        if let Some(action) = self.history.redo() {
            self.apply_history_action(&action);
            proof {
                assert(self.model() =~= engine_redo(old(self).model()));
            }
        } else {
            proof {
                assert(self.model() =~= engine_redo(old(self).model()));
            }
        }
        self.full_render()
    }

    /// The document record of the current state, for saving.
    pub fn document_data(&self) -> (doc: DocumentData)
        ensures
            doc@ == document_of(self.model()),
    {
        let mut layers: Vec<Layer> = Vec::new();
        let n: usize = self.layer_manager.layers.len();
        let mut i: usize = 0;
        while i < n
            invariant
                i <= n,
                n == self.layer_manager.layers.len(),
                layers.deep_view() == self.layer_manager.layers_view().take(i as int),
            decreases n - i,
        {
            let ghost d0 = layers.deep_view();
            let l = self.layer_manager.layers[i].clone();
            proof {
                assert(l@ == self.layer_manager.layers_view()[i as int]);
            }
            layers.push(l);
            proof {
                assert(layers.deep_view() =~= d0.push(
                    self.layer_manager.layers_view()[i as int],
                ));
                assert(layers.deep_view() =~= self.layer_manager.layers_view().take(i + 1));
            }
            i += 1;
        }
        proof {
            assert(self.layer_manager.layers_view().take(n as int)
                =~= self.layer_manager.layers_view());
        }
        let doc = DocumentData {
            version: DOCUMENT_VERSION,
            width: self.canvas_width,
            height: self.canvas_height,
            background_color: self.background_color,
            layers,
        };
        proof {
            assert(doc@ =~= document_of(self.model()));
        }
        doc
    }

    /// Load a document record. A version other than 1 is rejected and the
    /// engine is untouched; otherwise the canvas size, background and layers
    /// are taken over (a document without layers gets a fresh default
    /// layer), the first layer becomes active, and the history is cleared.
    pub fn apply_document(&mut self, doc: DocumentData) -> (r: Result<(), DrawEngineError>)
        requires
            old(self).wf(),
        ensures
            final(self).wf(),
            r is Err <==> doc@.version != DOCUMENT_VERSION,
            doc@.version != DOCUMENT_VERSION ==> final(self).model() == old(self).model(),
            doc@.version == DOCUMENT_VERSION && doc@.layers.len() > 0 ==> final(self).model()
                == engine_apply_document(old(self).model(), doc@),
            doc@.version == DOCUMENT_VERSION && doc@.layers.len() == 0 ==> final(self).model()
                == (DrawEngineModel {
                layers: final(self).model().layers,
                ..engine_apply_document(old(self).model(), doc@)
            }) && final(self).model().layers.len() == 1 && final(self).model().layers[0].strokes
                === Seq::<StrokeView>::empty(),
    {
        if doc.version != DOCUMENT_VERSION {
            return Result::Err(
                DrawEngineError::SerializationError {
                    message: "unsupported document version".to_owned(),
                },
            );
        }
        let DocumentData { version: _, width, height, background_color, layers } = doc;
        self.canvas_width = width;
        self.canvas_height = height;
        self.background_color = background_color;
        if layers.len() == 0 {
            self.layer_manager = LayerManager::new();
        } else {
            self.layer_manager = LayerManager { layers, active_layer_index: 0 };
        }
        self.history.clear();
        proof {
            if doc@.layers.len() > 0 {
                assert(self.model() =~= engine_apply_document(old(self).model(), doc@));
            } else {
                assert(self.model() =~= (DrawEngineModel {
                    layers: self.model().layers,
                    ..engine_apply_document(old(self).model(), doc@)
                }));
            }
        }
        Result::Ok(())
    }
}

/// Coherence of the most recent action with the layers it will replay onto:
/// an add action's stroke is the last of its layer and the only one there
/// with its identity; a remove action's stroke is absent from its layer.
/// Both hold whenever the engine itself recorded the action and stroke
/// identities are never reused.
pub open spec fn action_coherent(layers: Seq<LayerView>, a: HistoryActionView) -> bool {
    match a {
        HistoryActionView::AddStroke { layer_index, stroke } => {
            &&& layer_index < layers.len()
            &&& layers[layer_index as int].strokes.len() > 0
            &&& layers[layer_index as int].strokes.last() == stroke
            &&& forall|j: int|
                0 <= j < layers[layer_index as int].strokes.len() - 1 ==> (#[trigger] layers[
                    layer_index as int
                ].strokes[j]).id != stroke.id
        },
        HistoryActionView::RemoveStroke { layer_index, stroke } => {
            &&& layer_index < layers.len()
            &&& !contains_stroke_id(layers[layer_index as int].strokes, stroke.id)
        },
    }
}

/// Undoing and then redoing restores the engine exactly — layers, history
/// and all — provided the most recent action is coherent with the layers.
pub proof fn lemma_undo_redo_round_trip(m: DrawEngineModel)
    requires
        model_wf(m),
        m.history.undo.len() > 0,
        action_coherent(m.layers, m.history.undo.last()),
    ensures
        engine_redo(engine_undo(m)) == m,
{
    let a = m.history.undo.last();
    let m1 = engine_undo(m);
    assert(m1.history.redo.len() > 0);
    assert(m1.history.redo.last() == a);
    let m2 = engine_redo(m1);
    assert(m2.history.undo =~= m.history.undo);
    assert(m2.history.redo =~= m.history.redo);
    assert(m2.history =~= m.history);
    match a {
        HistoryActionView::AddStroke { layer_index, stroke } => {
            let idx = layer_index as int;
            let strokes = m.layers[idx].strokes;
            crate::layer::lemma_remove_first_at_index(strokes, stroke.id, strokes.len() - 1);
            assert(strokes.remove(strokes.len() - 1) =~= strokes.drop_last());
            assert(m1.layers[idx].strokes == strokes.drop_last());
            assert(m2.layers[idx].strokes =~= strokes);
            assert(m2.layers =~= m.layers);
        },
        HistoryActionView::RemoveStroke { layer_index, stroke } => {
            let idx = layer_index as int;
            let strokes = m.layers[idx].strokes;
            let pushed = strokes.push(stroke);
            assert(m1.layers[idx].strokes == pushed);
            assert(forall|j: int|
                0 <= j < strokes.len() ==> (#[trigger] pushed[j]).id != stroke.id);
            crate::layer::lemma_remove_first_at_index(pushed, stroke.id, strokes.len() as int);
            assert(pushed.remove(strokes.len() as int) =~= strokes);
            assert(m2.layers[idx].strokes =~= strokes);
            assert(m2.layers =~= m.layers);
        },
    }
    assert(m2 =~= m);
}

/// Committing a stroke whose identity is not already on the active layer —
/// as holds when identities are fresh — records an action that is coherent
/// with the layers it produced, so the round trip below applies to it.
pub proof fn lemma_commit_records_coherent_action(m: DrawEngineModel, s: StrokeView)
    requires
        model_wf(m),
        m.history.max >= 1,
        !s.is_eraser,
        s.segments.len() > 0,
        !contains_stroke_id(m.layers[m.active_layer_index as int].strokes, s.id),
    ensures
        engine_commit(m, s).history.undo.len() > 0,
        engine_commit(m, s).history.undo.last() == (HistoryActionView::AddStroke {
            layer_index: m.active_layer_index,
            stroke: s,
        }),
        action_coherent(engine_commit(m, s).layers, engine_commit(m, s).history.undo.last()),
{
    let idx = m.active_layer_index as int;
    let after = engine_commit(m, s);
    assert(after.layers[idx].strokes == m.layers[idx].strokes.push(s));
    assert(forall|j: int|
        0 <= j < after.layers[idx].strokes.len() - 1 ==> (#[trigger] after.layers[
            idx
        ].strokes[j]).id != s.id);
}

/// Erasing an identity that occurs exactly once on the active layer — as
/// holds when identities are fresh — records an action that is coherent with
/// the layers it produced, so the round trip below applies to it.
pub proof fn lemma_erase_records_coherent_action(m: DrawEngineModel, id: u128)
    requires
        model_wf(m),
        m.history.max >= 1,
        contains_stroke_id(m.layers[m.active_layer_index as int].strokes, id),
        !contains_stroke_id(
            remove_first_by_id(m.layers[m.active_layer_index as int].strokes, id),
            id,
        ),
    ensures
        engine_erase_one(m, id).history.undo.len() > 0,
        engine_erase_one(m, id).history.undo.last() == (HistoryActionView::RemoveStroke {
            layer_index: m.active_layer_index,
            stroke: first_stroke_with_id(m.layers[m.active_layer_index as int].strokes, id),
        }),
        action_coherent(engine_erase_one(m, id).layers, engine_erase_one(m, id).history.undo.last()),
{
    let idx = m.active_layer_index as int;
    let strokes = m.layers[idx].strokes;
    crate::layer::lemma_first_with_id_has_id(strokes, id);
    let after = engine_erase_one(m, id);
    assert(after.layers[idx].strokes == remove_first_by_id(strokes, id));
}

/// `n` undos in sequence.
pub open spec fn engine_undo_n(m: DrawEngineModel, n: nat) -> DrawEngineModel
    decreases n,
{
    if n == 0 {
        m
    } else {
        engine_undo_n(engine_undo(m), (n - 1) as nat)
    }
}

/// `n` redos in sequence.
pub open spec fn engine_redo_n(m: DrawEngineModel, n: nat) -> DrawEngineModel
    decreases n,
{
    if n == 0 {
        m
    } else {
        engine_redo(engine_redo_n(m, (n - 1) as nat))
    }
}

/// The top `n` actions of the undo stack are each coherent with the layers
/// they will replay onto, one undo at a time.
pub open spec fn undo_coherent_n(m: DrawEngineModel, n: nat) -> bool
    decreases n,
{
    n > 0 ==> {
        &&& m.history.undo.len() > 0
        &&& action_coherent(m.layers, m.history.undo.last())
        &&& undo_coherent_n(engine_undo(m), (n - 1) as nat)
    }
}

/// Undoing the `n` most recent actions and then redoing `n` times restores
/// the engine exactly, provided each action is coherent with the layers it
/// replays onto at its turn.
pub proof fn lemma_undo_redo_n_round_trip(m: DrawEngineModel, n: nat)
    requires
        model_wf(m),
        undo_coherent_n(m, n),
    ensures
        engine_redo_n(engine_undo_n(m, n), n) == m,
    decreases n,
{
    if n > 0 {
        let m1 = engine_undo(m);
        assert(m1.layers.len() == m.layers.len());
        assert(model_wf(m1));
        lemma_undo_redo_n_round_trip(m1, (n - 1) as nat);
        lemma_undo_redo_round_trip(m);
    }
}

/// Loading the document record a state saves restores that state's layers,
/// canvas size and background exactly, and leaves nothing to undo or redo.
pub proof fn lemma_document_round_trip(m: DrawEngineModel, m2: DrawEngineModel)
    requires
        model_wf(m),
    ensures
        document_of(m).version == DOCUMENT_VERSION,
        document_of(m).layers.len() > 0,
        engine_apply_document(m2, document_of(m)).layers == m.layers,
        engine_apply_document(m2, document_of(m)).canvas_width == m.canvas_width,
        engine_apply_document(m2, document_of(m)).canvas_height == m.canvas_height,
        engine_apply_document(m2, document_of(m)).background_color == m.background_color,
        engine_apply_document(m2, document_of(m)).history.undo.len() == 0,
        engine_apply_document(m2, document_of(m)).history.redo.len() == 0,
        model_wf(DrawEngineModel { builder: None, ..engine_apply_document(m2, document_of(m)) }),
{
}

/// The stroke total over a prefix never exceeds the total.
pub proof fn lemma_total_strokes_take_le(layers: Seq<LayerView>, i: int)
    requires
        0 <= i <= layers.len(),
    ensures
        total_strokes(layers.take(i)) <= total_strokes(layers),
    decreases layers.len() - i,
{
    if i == layers.len() {
        assert(layers.take(i) =~= layers);
    } else {
        lemma_total_strokes_take_le(layers, i + 1);
        assert(layers.take(i + 1).drop_last() =~= layers.take(i));
    }
}

} // verus!
