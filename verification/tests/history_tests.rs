use drawengine::brush::BrushConfig;
use drawengine::history::{History, HistoryAction};
use drawengine::stroke::Stroke;

fn make_stroke() -> Stroke {
    Stroke::new(BrushConfig::default())
}

#[test]
fn history_test_undo_redo() {
    let mut history = History::new(10);
    let stroke = make_stroke();
    let stroke_id = stroke.id;
    history.push(HistoryAction::AddStroke { layer_index: 0, stroke });
    assert!(history.can_undo());
    assert!(!history.can_redo());

    let inverse = history.undo().unwrap();
    match inverse {
        HistoryAction::RemoveStroke { stroke: s, .. } => {
            assert_eq!(s.id, stroke_id);
        }
        _ => panic!("Expected RemoveStroke"),
    }
    assert!(!history.can_undo());
    assert!(history.can_redo());

    let redo_action = history.redo().unwrap();
    match redo_action {
        HistoryAction::AddStroke { stroke: s, .. } => {
            assert_eq!(s.id, stroke_id);
        }
        _ => panic!("Expected AddStroke"),
    }
}

#[test]
fn test_push_clears_redo() {
    let mut history = History::new(10);
    history.push(HistoryAction::AddStroke {
        layer_index: 0,
        stroke: make_stroke(),
    });
    history.undo();
    assert!(history.can_redo());

    history.push(HistoryAction::AddStroke {
        layer_index: 0,
        stroke: make_stroke(),
    });
    assert!(!history.can_redo());
}

#[test]
fn test_max_size() {
    let mut history = History::new(3);
    for _ in 0..5 {
        history.push(HistoryAction::AddStroke {
            layer_index: 0,
            stroke: make_stroke(),
        });
    }
    let mut count = 0;
    while history.undo().is_some() {
        count += 1;
    }
    assert_eq!(count, 3);
}

#[test]
fn test_eviction_keeps_most_recent() {
    // With a bound of 3, pushing five actions keeps the last three: undoing
    // them yields the inverses of actions 5, 4, 3 in that order.
    let mut history = History::new(3);
    let mut ids = Vec::new();
    for i in 0..5 {
        let stroke = make_stroke();
        ids.push(stroke.id);
        history.push(HistoryAction::AddStroke {
            layer_index: i,
            stroke,
        });
    }
    for expect in [4usize, 3, 2] {
        let inverse = history.undo().unwrap();
        match inverse {
            HistoryAction::RemoveStroke { layer_index, stroke } => {
                assert_eq!(layer_index, expect);
                assert_eq!(stroke.id, ids[expect]);
            }
            _ => panic!("Expected RemoveStroke"),
        }
    }
    assert!(history.undo().is_none());
}

#[test]
fn test_undo_on_empty_history() {
    let mut history = History::new(10);
    assert!(history.undo().is_none());
    assert!(history.redo().is_none());
    assert!(!history.can_undo());
    assert!(!history.can_redo());
}

#[test]
fn test_clear_empties_both_stacks() {
    let mut history = History::new(10);
    history.push(HistoryAction::AddStroke {
        layer_index: 0,
        stroke: make_stroke(),
    });
    history.push(HistoryAction::AddStroke {
        layer_index: 0,
        stroke: make_stroke(),
    });
    history.undo();
    assert!(history.can_undo());
    assert!(history.can_redo());
    history.clear();
    assert!(!history.can_undo());
    assert!(!history.can_redo());
}

#[test]
fn test_action_inverse_swaps_variants() {
    let stroke = make_stroke();
    let stroke_id = stroke.id;
    let add = HistoryAction::AddStroke {
        layer_index: 2,
        stroke,
    };
    assert_eq!(add.stroke_id(), stroke_id);
    let remove = add.inverse();
    match &remove {
        HistoryAction::RemoveStroke { layer_index, stroke } => {
            assert_eq!(*layer_index, 2);
            assert_eq!(stroke.id, stroke_id);
        }
        _ => panic!("Expected RemoveStroke"),
    }
    match remove.inverse() {
        HistoryAction::AddStroke { layer_index, stroke } => {
            assert_eq!(layer_index, 2);
            assert_eq!(stroke.id, stroke_id);
        }
        _ => panic!("Expected AddStroke"),
    }
}
