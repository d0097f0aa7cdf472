//! Layers and the layer manager.
//!
//! A layer holds strokes in paint order (first painted first). The manager
//! keeps at least one layer and a valid active-layer index at all times;
//! `all_visible_strokes` yields the document's paint order: layer order
//! first, then intra-layer stroke order.

use vstd::prelude::*;

use crate::ids::fresh_id;
use crate::point::F32_ONE_BITS;
use crate::stroke::{Stroke, StrokeView};

verus! {

/// The mathematical value of a layer.
#[verifier::ext_equal]
pub ghost struct LayerView {
    pub id: u128,
    pub name: Seq<char>,
    pub visible: bool,
    pub opacity: u32,
    pub strokes: Seq<StrokeView>,
}

/// A named, optionally hidden group of strokes in paint order. The opacity
/// is a single bit pattern.
pub struct Layer {
    pub id: u128,
    pub name: String,
    pub visible: bool,
    pub opacity: u32,
    pub strokes: Vec<Stroke>,
}

impl View for Layer {
    type V = LayerView;

    open spec fn view(&self) -> LayerView {
        LayerView {
            id: self.id,
            name: self.name@,
            visible: self.visible,
            opacity: self.opacity,
            strokes: self.strokes.deep_view(),
        }
    }
}

impl DeepView for Layer {
    type V = LayerView;

    open spec fn deep_view(&self) -> LayerView {
        self.view()
    }
}

impl Clone for Layer {
    fn clone(&self) -> (r: Layer)
        ensures
            r@ == self@,
    {
        let r = Layer {
            id: self.id,
            name: self.name.clone(),
            visible: self.visible,
            opacity: self.opacity,
            strokes: self.strokes.clone(),
        };
        proof {
            assert(r.strokes.deep_view() =~= self.strokes.deep_view());
            assert(r@ =~= self@);
        }
        r
    }
}

/// Whether some stroke in the sequence has the given identity.
pub open spec fn contains_stroke_id(strokes: Seq<StrokeView>, id: u128) -> bool {
    exists|i: int| 0 <= i < strokes.len() && (#[trigger] strokes[i]).id == id
}

/// The sequence with the first stroke of the given identity taken out;
/// unchanged when no stroke has it.
pub open spec fn remove_first_by_id(strokes: Seq<StrokeView>, id: u128) -> Seq<StrokeView>
    decreases strokes.len(),
{
    if strokes.len() == 0 {
        strokes
    } else if strokes.first().id == id {
        strokes.drop_first()
    } else {
        seq![strokes.first()] + remove_first_by_id(strokes.drop_first(), id)
    }
}

/// The first stroke of the given identity.
pub open spec fn first_stroke_with_id(strokes: Seq<StrokeView>, id: u128) -> StrokeView
    decreases strokes.len(),
{
    if strokes.len() == 0 {
        arbitrary()
    } else if strokes.first().id == id {
        strokes.first()
    } else {
        first_stroke_with_id(strokes.drop_first(), id)
    }
}

/// When index `idx` holds the first stroke of the given identity, removing
/// the first occurrence is removing index `idx`.
pub proof fn lemma_remove_first_at_index(strokes: Seq<StrokeView>, id: u128, idx: int)
    requires
        0 <= idx < strokes.len(),
        strokes[idx].id == id,
        forall|j: int| 0 <= j < idx ==> (#[trigger] strokes[j]).id != id,
    ensures
        remove_first_by_id(strokes, id) == strokes.remove(idx),
        first_stroke_with_id(strokes, id) == strokes[idx],
        contains_stroke_id(strokes, id),
    decreases idx,
{
    if idx == 0 {
        assert(remove_first_by_id(strokes, id) =~= strokes.remove(0));
    } else {
        lemma_remove_first_at_index(strokes.drop_first(), id, idx - 1);
        assert(seq![strokes.first()] + strokes.drop_first().remove(idx - 1) =~= strokes.remove(
            idx,
        ));
    }
}

/// The first stroke found under an identity indeed carries that identity.
pub proof fn lemma_first_with_id_has_id(strokes: Seq<StrokeView>, id: u128)
    requires
        contains_stroke_id(strokes, id),
    ensures
        first_stroke_with_id(strokes, id).id == id,
    decreases strokes.len(),
{
    if strokes.first().id != id {
        let i = choose|i: int| 0 <= i < strokes.len() && (#[trigger] strokes[i]).id == id;
        assert(strokes.drop_first()[i - 1].id == id);
        lemma_first_with_id_has_id(strokes.drop_first(), id);
    }
}

/// When no stroke has the given identity, removing it changes nothing.
pub proof fn lemma_remove_absent_id(strokes: Seq<StrokeView>, id: u128)
    requires
        !contains_stroke_id(strokes, id),
    ensures
        remove_first_by_id(strokes, id) == strokes,
    decreases strokes.len(),
{
    if strokes.len() > 0 {
        assert(strokes.first() == strokes[0]);
        assert(forall|i: int|
            0 <= i < strokes.drop_first().len() ==> #[trigger] strokes.drop_first()[i] == strokes[
                i + 1
            ]);
        lemma_remove_absent_id(strokes.drop_first(), id);
        assert(seq![strokes.first()] + strokes.drop_first() =~= strokes);
    }
}

impl Layer {
    /// A fresh, visible, fully opaque, empty layer with the given name and a
    /// new nonzero identifier.
    pub fn new(name: &str) -> (l: Layer)
        ensures
            l@.id != 0,
            l@.name == name@,
            l@.visible == true,
            l@.opacity == F32_ONE_BITS,
            l@.strokes === Seq::<StrokeView>::empty(),
    {
        let l = Layer {
            id: fresh_id(),
            name: name.to_owned(),
            visible: true,
            opacity: F32_ONE_BITS,
            strokes: Vec::new(),
        };
        proof {
            assert(l.strokes.deep_view() =~= Seq::<StrokeView>::empty());
        }
        l
    }

    /// Append a stroke at the top of the paint order.
    pub fn add_stroke(&mut self, stroke: Stroke)
        ensures
            final(self)@ == (LayerView {
                strokes: old(self)@.strokes.push(stroke@),
                ..old(self)@
            }),
    {
        let ghost s0 = self@.strokes;
        self.strokes.push(stroke);
        proof {
            assert(self.strokes.deep_view() =~= s0.push(self.strokes@.last()@));
            assert(self@ =~= (LayerView { strokes: s0.push(self.strokes@.last()@), ..old(
                self,
            )@ }));
        }
    }

    /// Remove and return the first stroke with the given identity, if any.
    pub fn remove_stroke(&mut self, stroke_id: u128) -> (r: Option<Stroke>)
        ensures
            final(self)@ == (LayerView {
                strokes: remove_first_by_id(old(self)@.strokes, stroke_id),
                ..old(self)@
            }),
            r is Some <==> contains_stroke_id(old(self)@.strokes, stroke_id),
            r is Some ==> r.unwrap()@ == first_stroke_with_id(old(self)@.strokes, stroke_id),
    {
        let n: usize = self.strokes.len();
        let mut i: usize = 0;
        while i < n
            invariant
                i <= n,
                n == self.strokes.len(),
                *self == *old(self),
                forall|j: int| 0 <= j < i ==> (#[trigger] self.strokes.deep_view()[j]).id
                    != stroke_id,
            decreases n - i,
        {
            if self.strokes[i].id == stroke_id {
                let ghost s0 = self@.strokes;
                let removed = self.strokes.remove(i);
                proof {
                    lemma_remove_first_at_index(s0, stroke_id, i as int);
                    assert(self.strokes.deep_view() =~= s0.remove(i as int));
                    assert(self@ =~= (LayerView {
                        strokes: remove_first_by_id(s0, stroke_id),
                        ..old(self)@
                    }));
                }
                return Some(removed);
            }
            i += 1;
        }
        proof {
            assert(!contains_stroke_id(self@.strokes, stroke_id));
            lemma_remove_absent_id(self@.strokes, stroke_id);
            assert(self@ =~= (LayerView {
                strokes: remove_first_by_id(old(self)@.strokes, stroke_id),
                ..old(self)@
            }));
        }
        None
    }
}

/// The strokes of the visible layers, in paint order: layer order first,
/// then intra-layer stroke order.
pub open spec fn visible_strokes(layers: Seq<LayerView>) -> Seq<StrokeView>
    decreases layers.len(),
{
    if layers.len() == 0 {
        Seq::empty()
    } else {
        let rest = visible_strokes(layers.drop_last());
        if layers.last().visible {
            rest + layers.last().strokes
        } else {
            rest
        }
    }
}

/// Holds the document's layers (always at least one) and the index of the
/// active layer.
pub struct LayerManager {
    pub layers: Vec<Layer>,
    pub active_layer_index: usize,
}

impl LayerManager {
    /// The layers as mathematical values.
    pub open spec fn layers_view(&self) -> Seq<LayerView> {
        self.layers.deep_view()
    }

    /// Structural well-formedness: at least one layer, and the active index
    /// in range.
    pub open spec fn wf(&self) -> bool {
        &&& self.layers.len() >= 1
        &&& self.active_layer_index < self.layers.len()
    }

    /// The view of the active layer.
    pub open spec fn active_layer_view(&self) -> LayerView {
        self.layers_view()[self.active_layer_index as int]
    }

    /// A manager with a single fresh default layer named "Layer 1", active.
    pub fn new() -> (lm: LayerManager)
        ensures
            lm.is_fresh(),
    {
        let default_layer = Layer::new("Layer 1");
        let mut layers: Vec<Layer> = Vec::new();
        layers.push(default_layer);
        let lm = LayerManager { layers, active_layer_index: 0 };
        proof {
            assert(lm.layers_view() =~= seq![lm.layers@[0]@]);
        }
        lm
    }

    /// Whether a manager is a fresh one: a single fresh default layer named
    /// "Layer 1", active.
    pub open spec fn is_fresh(&self) -> bool {
        &&& self.wf()
        &&& self.layers_view().len() == 1
        &&& self.layers_view()[0].name == "Layer 1"@
        &&& self.layers_view()[0].visible == true
        &&& self.layers_view()[0].opacity == F32_ONE_BITS
        &&& self.layers_view()[0].strokes === Seq::<StrokeView>::empty()
        &&& self.layers_view()[0].id != 0
        &&& self.active_layer_index == 0
    }

    /// The active layer.
    pub fn active_layer(&self) -> (l: &Layer)
        requires
            self.wf(),
        ensures
            l@ == self.active_layer_view(),
    {
        &self.layers[self.active_layer_index]
    }

    /// A mutable borrow of the active layer; the manager afterwards holds
    /// whatever the borrow was left as, at the same index.
    pub fn active_layer_mut(&mut self) -> (l: &mut Layer)
        requires
            old(self).wf(),
        ensures
            *l == old(self).layers@[old(self).active_layer_index as int],
            final(self).layers@ == old(self).layers@.update(
                old(self).active_layer_index as int,
                *final(l),
            ),
            final(self).active_layer_index == old(self).active_layer_index,
    {
        let idx: usize = self.active_layer_index;
        &mut self.layers[idx]
    }

    /// The identity of the active layer.
    pub fn active_layer_id(&self) -> (id: u128)
        requires
            self.wf(),
        ensures
            id == self.active_layer_view().id,
    {
        self.layers[self.active_layer_index].id
    }

    /// Owning copies of the visible layers' strokes, in paint order.
    pub fn all_visible_strokes(&self) -> (r: Vec<Stroke>)
        ensures
            r.deep_view() == visible_strokes(self.layers_view()),
    {
        let mut r: Vec<Stroke> = Vec::new();
        proof {
            assert(r.deep_view() =~= visible_strokes(self.layers_view().take(0)));
        }
        let mut i: usize = 0;
        let n: usize = self.layers.len();
        while i < n
            invariant
                i <= n,
                n == self.layers.len(),
                r.deep_view() == visible_strokes(self.layers_view().take(i as int)),
            decreases n - i,
        {
            let ghost taken = self.layers_view().take(i as int);
            let ghost lv = self.layers_view()[i as int];
            proof {
                assert(self.layers_view().take(i + 1).drop_last() =~= taken);
                assert(self.layers_view().take(i + 1).last() == lv);
            }
            if self.layers[i].visible {
                let mut j: usize = 0;
                let m: usize = self.layers[i].strokes.len();
                while j < m
                    invariant
                        j <= m,
                        i < n == self.layers.len(),
                        m == self.layers@[i as int].strokes.len(),
                        lv == self.layers_view()[i as int],
                        r.deep_view() == visible_strokes(taken) + lv.strokes.take(j as int),
                    decreases m - j,
                {
                    let ghost r0 = r.deep_view();
                    let s = self.layers[i].strokes[j].clone();
                    proof {
                        assert(s@ == lv.strokes[j as int]);
                    }
                    r.push(s);
                    proof {
                        assert(r.deep_view() =~= r0.push(lv.strokes[j as int]));
                        assert(r0.push(lv.strokes[j as int]) =~= visible_strokes(taken)
                            + lv.strokes.take(j + 1));
                    }
                    j += 1;
                }
                proof {
                    assert(lv.strokes.take(m as int) =~= lv.strokes);
                    assert(visible_strokes(self.layers_view().take(i + 1)) == visible_strokes(
                        taken,
                    ) + lv.strokes);
                }
            } else {
                proof {
                    assert(visible_strokes(self.layers_view().take(i + 1)) == visible_strokes(
                        taken,
                    ));
                    assert(r.deep_view() == visible_strokes(self.layers_view().take(i + 1)));
                }
            }
            i += 1;
        }
        proof {
            assert(self.layers_view().take(n as int) =~= self.layers_view());
        }
        r
    }

    /// The index of the first layer holding a stroke of the given identity.
    pub fn find_stroke_layer(&self, stroke_id: u128) -> (r: Option<usize>)
        ensures
            r is Some <==> exists|i: int|
                0 <= i < self.layers_view().len() && contains_stroke_id(
                    (#[trigger] self.layers_view()[i]).strokes,
                    stroke_id,
                ),
            r is Some ==> {
                &&& r.unwrap() < self.layers_view().len()
                &&& contains_stroke_id(self.layers_view()[r.unwrap() as int].strokes, stroke_id)
                &&& forall|j: int|
                    0 <= j < r.unwrap() ==> !contains_stroke_id(
                        (#[trigger] self.layers_view()[j]).strokes,
                        stroke_id,
                    )
            },
    {
        let n: usize = self.layers.len();
        let mut i: usize = 0;
        while i < n
            invariant
                i <= n,
                n == self.layers.len(),
                forall|j: int|
                    0 <= j < i ==> !contains_stroke_id(
                        (#[trigger] self.layers_view()[j]).strokes,
                        stroke_id,
                    ),
            decreases n - i,
        {
            let layer = &self.layers[i];
            let m: usize = layer.strokes.len();
            let mut j: usize = 0;
            let mut found: bool = false;
            while j < m
                invariant
                    j <= m,
                    m == layer.strokes.len(),
                    layer@ == self.layers_view()[i as int],
                    i < self.layers_view().len(),
                    !found ==> forall|k: int|
                        0 <= k < j ==> (#[trigger] layer@.strokes[k]).id != stroke_id,
                    found ==> contains_stroke_id(layer@.strokes, stroke_id),
                decreases m - j,
            {
                if layer.strokes[j].id == stroke_id {
                    proof {
                        assert((layer@.strokes[j as int]).id == stroke_id);
                    }
                    found = true;
                }
                j += 1;
            }
            if found {
                return Some(i);
            }
            i += 1;
        }
        None
    }
}

impl Default for LayerManager {
    fn default() -> (lm: LayerManager)
        ensures
            lm.is_fresh(),
    {
        LayerManager::new()
    }
}

} // verus!
