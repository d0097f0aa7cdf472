//! Bounded undo/redo history of inverse-action pairs.
//!
//! A history is two stacks sharing one size bound. Every `push` clears the
//! redo stack; when the undo stack outgrows the bound the oldest entry is
//! evicted. `undo` hands the caller the inverse of the most recent action
//! (the action itself moves to the redo stack); `redo` hands the action back
//! verbatim. Actions carry full stroke copies, so replay is deterministic.

use vstd::prelude::*;

use crate::stroke::{Stroke, StrokeView};

verus! {

/// The mathematical value of a history action.
#[verifier::ext_equal]
pub ghost enum HistoryActionView {
    AddStroke { layer_index: usize, stroke: StrokeView },
    RemoveStroke { layer_index: usize, stroke: StrokeView },
}

impl HistoryActionView {
    /// The inverse action: adding and removing the same stroke swap.
    pub open spec fn inverse(self) -> HistoryActionView {
        match self {
            HistoryActionView::AddStroke { layer_index, stroke } => HistoryActionView::RemoveStroke {
                layer_index,
                stroke,
            },
            HistoryActionView::RemoveStroke { layer_index, stroke } => HistoryActionView::AddStroke {
                layer_index,
                stroke,
            },
        }
    }

    pub open spec fn stroke(self) -> StrokeView {
        match self {
            HistoryActionView::AddStroke { stroke, .. } => stroke,
            HistoryActionView::RemoveStroke { stroke, .. } => stroke,
        }
    }

    pub open spec fn layer_index(self) -> usize {
        match self {
            HistoryActionView::AddStroke { layer_index, .. } => layer_index,
            HistoryActionView::RemoveStroke { layer_index, .. } => layer_index,
        }
    }
}

/// One undoable document edit, carrying an owning copy of the stroke it
/// added or removed and the index of the layer it happened on.
pub enum HistoryAction {
    AddStroke { layer_index: usize, stroke: Stroke },
    RemoveStroke { layer_index: usize, stroke: Stroke },
}

impl View for HistoryAction {
    type V = HistoryActionView;

    open spec fn view(&self) -> HistoryActionView {
        match self {
            HistoryAction::AddStroke { layer_index, stroke } => HistoryActionView::AddStroke {
                layer_index: *layer_index,
                stroke: stroke@,
            },
            HistoryAction::RemoveStroke { layer_index, stroke } => HistoryActionView::RemoveStroke {
                layer_index: *layer_index,
                stroke: stroke@,
            },
        }
    }
}

impl DeepView for HistoryAction {
    type V = HistoryActionView;

    open spec fn deep_view(&self) -> HistoryActionView {
        self.view()
    }
}

impl Clone for HistoryAction {
    fn clone(&self) -> (r: HistoryAction)
        ensures
            r@ == self@,
    {
        match self {
            HistoryAction::AddStroke { layer_index, stroke } => HistoryAction::AddStroke {
                layer_index: *layer_index,
                stroke: stroke.clone(),
            },
            HistoryAction::RemoveStroke { layer_index, stroke } => HistoryAction::RemoveStroke {
                layer_index: *layer_index,
                stroke: stroke.clone(),
            },
        }
    }
}

impl HistoryAction {
    /// The action that undoes this one.
    pub fn inverse(&self) -> (r: HistoryAction)
        ensures
            r@ == self@.inverse(),
    {
        match self {
            HistoryAction::AddStroke { layer_index, stroke } => HistoryAction::RemoveStroke {
                layer_index: *layer_index,
                stroke: stroke.clone(),
            },
            HistoryAction::RemoveStroke { layer_index, stroke } => HistoryAction::AddStroke {
                layer_index: *layer_index,
                stroke: stroke.clone(),
            },
        }
    }

    /// The identity of the stroke the action concerns.
    pub fn stroke_id(&self) -> (id: u128)
        ensures
            id == self@.stroke().id,
    {
        match self {
            HistoryAction::AddStroke { stroke, .. } => stroke.id,
            HistoryAction::RemoveStroke { stroke, .. } => stroke.id,
        }
    }
}

/// The mathematical value of a history: the two stacks (most recent last)
/// and the shared size bound.
#[verifier::ext_equal]
pub ghost struct HistoryModel {
    pub undo: Seq<HistoryActionView>,
    pub redo: Seq<HistoryActionView>,
    pub max: nat,
}

/// A stack capped at `max` entries: pushing beyond the cap evicts the oldest.
pub open spec fn evict_oldest(s: Seq<HistoryActionView>, max: nat) -> Seq<HistoryActionView> {
    if s.len() > max {
        s.subrange(1, s.len() as int)
    } else {
        s
    }
}

/// What `push` does: clear redo, append to undo, evict the oldest entry if
/// the bound is exceeded.
pub open spec fn model_push(m: HistoryModel, a: HistoryActionView) -> HistoryModel {
    HistoryModel { undo: evict_oldest(m.undo.push(a), m.max), redo: Seq::empty(), max: m.max }
}

/// What `undo` does to the stacks (nothing when there is nothing to undo).
pub open spec fn model_undo(m: HistoryModel) -> HistoryModel {
    if m.undo.len() == 0 {
        m
    } else {
        HistoryModel { undo: m.undo.drop_last(), redo: m.redo.push(m.undo.last()), max: m.max }
    }
}

/// What `redo` does to the stacks (nothing when there is nothing to redo).
pub open spec fn model_redo(m: HistoryModel) -> HistoryModel {
    if m.redo.len() == 0 {
        m
    } else {
        HistoryModel { undo: m.undo.push(m.redo.last()), redo: m.redo.drop_last(), max: m.max }
    }
}

/// Bounded undo/redo stacks over inverse-action pairs.
pub struct History {
    undo_stack: Vec<HistoryAction>,
    redo_stack: Vec<HistoryAction>,
    max_size: usize,
}

impl History {
    pub closed spec fn model(&self) -> HistoryModel {
        HistoryModel {
            undo: self.undo_stack.deep_view(),
            redo: self.redo_stack.deep_view(),
            max: self.max_size as nat,
        }
    }

    pub fn new(max_size: usize) -> (h: History)
        ensures
            h.model() == (HistoryModel {
                undo: Seq::<HistoryActionView>::empty(),
                redo: Seq::<HistoryActionView>::empty(),
                max: max_size as nat,
            }),
    {
        let h = History { undo_stack: Vec::new(), redo_stack: Vec::new(), max_size };
        proof {
            assert(h.model() =~= HistoryModel {
                undo: Seq::<HistoryActionView>::empty(),
                redo: Seq::<HistoryActionView>::empty(),
                max: max_size as nat,
            });
        }
        h
    }

    /// Record a new action: the redo stack is cleared, and the oldest entry
    /// is evicted once the bound is exceeded.
    pub fn push(&mut self, action: HistoryAction)
        ensures
            final(self).model() == model_push(old(self).model(), action@),
    {
        let ghost m0 = self.model();
        self.redo_stack.clear();
        self.undo_stack.push(action);
        proof {
            assert(self.undo_stack.deep_view() =~= m0.undo.push(action@));
        }
        if self.undo_stack.len() > self.max_size {
            let ghost pushed = self.undo_stack.deep_view();
            self.undo_stack.remove(0);
            proof {
                assert(self.undo_stack.deep_view() =~= pushed.subrange(1, pushed.len() as int));
            }
        }
        proof {
            assert(self.model() =~= model_push(m0, action@));
        }
    }

    /// Pop the most recent action, move it to the redo stack, and return its
    /// inverse for the caller to apply. Returns nothing (and changes
    /// nothing) when there is nothing to undo.
    pub fn undo(&mut self) -> (r: Option<HistoryAction>)
        ensures
            final(self).model() == model_undo(old(self).model()),
            r is Some <==> old(self).model().undo.len() > 0,
            r is Some ==> r.unwrap()@ == old(self).model().undo.last().inverse(),
    {
        let ghost m0 = self.model();
        if let Some(action) = self.undo_stack.pop() {
            let inverse = action.inverse();
            self.redo_stack.push(action);
            proof {
                assert(self.undo_stack.deep_view() =~= m0.undo.drop_last());
                assert(self.redo_stack.deep_view() =~= m0.redo.push(m0.undo.last()));
                assert(self.model() =~= model_undo(m0));
            }
            Some(inverse)
        } else {
            proof {
                assert(self.model() =~= model_undo(m0));
            }
            None
        }
    }

    /// Pop the most recent undone action, move it back to the undo stack,
    /// and return it verbatim for the caller to apply. Returns nothing (and
    /// changes nothing) when there is nothing to redo.
    pub fn redo(&mut self) -> (r: Option<HistoryAction>)
        ensures
            final(self).model() == model_redo(old(self).model()),
            r is Some <==> old(self).model().redo.len() > 0,
            r is Some ==> r.unwrap()@ == old(self).model().redo.last(),
    {
        let ghost m0 = self.model();
        if let Some(action) = self.redo_stack.pop() {
            let to_apply = action.clone();
            self.undo_stack.push(action);
            proof {
                assert(self.undo_stack.deep_view() =~= m0.undo.push(m0.redo.last()));
                assert(self.redo_stack.deep_view() =~= m0.redo.drop_last());
                assert(self.model() =~= model_redo(m0));
            }
            Some(to_apply)
        } else {
            proof {
                assert(self.model() =~= model_redo(m0));
            }
            None
        }
    }

    pub fn can_undo(&self) -> (b: bool)
        ensures
            b == (self.model().undo.len() > 0),
    {
        self.undo_stack.len() > 0
    }

    pub fn can_redo(&self) -> (b: bool)
        ensures
            b == (self.model().redo.len() > 0),
    {
        self.redo_stack.len() > 0
    }

    /// Empty both stacks; the bound is kept.
    pub fn clear(&mut self)
        ensures
            final(self).model() == (HistoryModel {
                undo: Seq::<HistoryActionView>::empty(),
                redo: Seq::<HistoryActionView>::empty(),
                max: old(self).model().max,
            }),
    {
        self.undo_stack.clear();
        self.redo_stack.clear();
        proof {
            assert(self.model() =~= HistoryModel {
                undo: Seq::<HistoryActionView>::empty(),
                redo: Seq::<HistoryActionView>::empty(),
                max: old(self).model().max,
            });
        }
    }
}

/// The default history bound.
pub const DEFAULT_HISTORY_SIZE: usize = 100;

impl Default for History {
    /// A fresh history with the default bound of 100 entries.
    fn default() -> (h: History)
        ensures
            h.model() == (HistoryModel {
                undo: Seq::<HistoryActionView>::empty(),
                redo: Seq::<HistoryActionView>::empty(),
                max: DEFAULT_HISTORY_SIZE as nat,
            }),
    {
        History::new(DEFAULT_HISTORY_SIZE)
    }
}

/// `n` pushes in sequence, oldest first.
pub open spec fn model_push_seq(m: HistoryModel, actions: Seq<HistoryActionView>) -> HistoryModel
    decreases actions.len(),
{
    if actions.len() == 0 {
        m
    } else {
        model_push(model_push_seq(m, actions.drop_last()), actions.last())
    }
}

/// `n` undos in sequence.
pub open spec fn model_undo_n(m: HistoryModel, n: nat) -> HistoryModel
    decreases n,
{
    if n == 0 {
        m
    } else {
        model_undo(model_undo_n(m, (n - 1) as nat))
    }
}

/// Pushing a sequence of actions onto a history with an empty undo stack
/// leaves exactly the most recent `max` of them on the undo stack (all of
/// them when they fit), and a nonempty sequence leaves the redo stack empty.
pub proof fn lemma_push_seq(m: HistoryModel, actions: Seq<HistoryActionView>)
    requires
        m.undo.len() == 0,
    ensures
        model_push_seq(m, actions).max == m.max,
        model_push_seq(m, actions).undo == (if actions.len() <= m.max {
            actions
        } else {
            actions.subrange(actions.len() - m.max, actions.len() as int)
        }),
        actions.len() > 0 ==> model_push_seq(m, actions).redo === Seq::<
            HistoryActionView,
        >::empty(),
        actions.len() == 0 ==> model_push_seq(m, actions) == m,
    decreases actions.len(),
{
    if actions.len() == 0 {
        assert(model_push_seq(m, actions) == m);
        assert(actions.len() <= m.max);
        assert(model_push_seq(m, actions).undo =~= actions);
    } else {
        let prefix = actions.drop_last();
        lemma_push_seq(m, prefix);
        let before = model_push_seq(m, prefix);
        let after = model_push(before, actions.last());
        if actions.len() <= m.max {
            assert(before.undo =~= prefix);
            assert(after.undo =~= actions);
        } else {
            // Either this push crosses the bound and evicts the oldest
            // entry, or the prefix was already at the bound and slides.
            assert(after.undo =~= actions.subrange(
                actions.len() - m.max,
                actions.len() as int,
            ));
        }
    }
}

/// Undoing `n` times when `n` actions are available empties the undo stack
/// step by step and grows the redo stack by the same amount.
pub proof fn lemma_undo_n(m: HistoryModel, n: nat)
    requires
        n <= m.undo.len(),
    ensures
        model_undo_n(m, n).max == m.max,
        model_undo_n(m, n).undo == m.undo.subrange(0, m.undo.len() - n),
        model_undo_n(m, n).redo.len() == m.redo.len() + n,
    decreases n,
{
    if n == 0 {
        assert(model_undo_n(m, n).undo =~= m.undo.subrange(0, m.undo.len() - n));
    } else {
        lemma_undo_n(m, (n - 1) as nat);
        let before = model_undo_n(m, (n - 1) as nat);
        assert(before.undo.len() == m.undo.len() - n + 1 > 0);
        assert(model_undo(before).undo =~= m.undo.subrange(0, m.undo.len() - n));
    }
}

/// After pushing `n` actions (with `1 <= n <= max`) onto a fresh history and
/// undoing `n` times, nothing is left to undo and something is left to redo.
pub proof fn lemma_pushes_then_undos_exhaust(m: HistoryModel, actions: Seq<HistoryActionView>)
    requires
        m.undo.len() == 0,
        1 <= actions.len() <= m.max,
    ensures
        model_undo_n(model_push_seq(m, actions), actions.len()).undo.len() == 0,
        model_undo_n(model_push_seq(m, actions), actions.len()).redo.len() == actions.len(),
{
    lemma_push_seq(m, actions);
    lemma_undo_n(model_push_seq(m, actions), actions.len());
}

/// Pushing more actions than the bound onto a fresh history keeps exactly
/// the most recent `max` of them: `max` undos exhaust the stack, and one
/// more undo changes nothing.
pub proof fn lemma_history_bound(m: HistoryModel, actions: Seq<HistoryActionView>)
    requires
        m.undo.len() == 0,
        actions.len() > m.max,
    ensures
        model_push_seq(m, actions).undo == actions.subrange(
            actions.len() - m.max,
            actions.len() as int,
        ),
        model_push_seq(m, actions).undo.len() == m.max,
        model_undo_n(model_push_seq(m, actions), m.max).undo.len() == 0,
        model_undo(model_undo_n(model_push_seq(m, actions), m.max)) == model_undo_n(
            model_push_seq(m, actions),
            m.max,
        ),
{
    lemma_push_seq(m, actions);
    lemma_undo_n(model_push_seq(m, actions), m.max);
}

} // verus!
