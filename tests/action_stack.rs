use rog_editor::action_stack::ActionStack;
use rog_editor::components::{EditAction, Reversible, RogBrush, TileMaterial, TilePos};

fn place(x: u32, y: u32, material: TileMaterial) -> EditAction {
    EditAction::PlaceTile { tile_pos: TilePos { x, y }, material, size: 1 }
}

#[test]
fn empty_stack_has_nothing_to_undo_or_redo() {
    let mut stack = ActionStack::default();
    assert_eq!(stack.undo(), None);
    assert_eq!(stack.redo(), None);
    assert_eq!(stack.last_tilepos(), None);
}

#[test]
fn undo_hands_out_reverse_and_redo_hands_out_batch() {
    let mut stack = ActionStack::default();
    let value = vec![place(1, 1, TileMaterial::Wall)];
    let undo = vec![place(1, 1, TileMaterial::Floor)];
    stack.push(value.clone(), undo.clone());
    assert_eq!(stack.redo(), None);
    assert_eq!(stack.undo(), Some(undo.clone()));
    assert_eq!(stack.undo(), None);
    assert_eq!(stack.redo(), Some(value.clone()));
    assert_eq!(stack.redo(), None);
}

#[test]
fn undo_then_redo_round_trip() {
    let mut stack = ActionStack::default();
    for i in 0..3u32 {
        stack.push(vec![place(i, 0, TileMaterial::Wall)], vec![place(i, 0, TileMaterial::Floor)]);
    }
    let before = stack.last_tilepos();
    let mut undone = Vec::new();
    for _ in 0..3 {
        undone.push(stack.undo().unwrap());
    }
    assert_eq!(
        undone,
        vec![
            vec![place(2, 0, TileMaterial::Floor)],
            vec![place(1, 0, TileMaterial::Floor)],
            vec![place(0, 0, TileMaterial::Floor)],
        ]
    );
    assert_eq!(stack.last_tilepos(), Some(TilePos { x: 2, y: 0 }));
    let mut redone = Vec::new();
    for _ in 0..3 {
        redone.push(stack.redo().unwrap());
    }
    assert_eq!(
        redone,
        vec![
            vec![place(0, 0, TileMaterial::Wall)],
            vec![place(1, 0, TileMaterial::Wall)],
            vec![place(2, 0, TileMaterial::Wall)],
        ]
    );
    assert_eq!(stack.last_tilepos(), before);
    assert_eq!(stack.redo(), None);
    assert_eq!(stack.undo(), Some(vec![place(2, 0, TileMaterial::Floor)]));
}

#[test]
fn push_after_undo_discards_redo_branch() {
    let mut stack = ActionStack::default();
    stack.push(vec![place(0, 0, TileMaterial::Wall)], vec![place(0, 0, TileMaterial::Floor)]);
    stack.push(vec![place(1, 0, TileMaterial::Wall)], vec![place(1, 0, TileMaterial::Floor)]);
    stack.push(vec![place(2, 0, TileMaterial::Wall)], vec![place(2, 0, TileMaterial::Floor)]);
    assert!(stack.undo().is_some());
    assert!(stack.undo().is_some());
    stack.push(vec![place(5, 5, TileMaterial::Wall)], vec![place(5, 5, TileMaterial::Floor)]);
    assert_eq!(stack.redo(), None);
    assert_eq!(stack.last_tilepos(), Some(TilePos { x: 5, y: 5 }));
    assert_eq!(stack.undo(), Some(vec![place(5, 5, TileMaterial::Floor)]));
    assert_eq!(stack.undo(), Some(vec![place(0, 0, TileMaterial::Floor)]));
    assert_eq!(stack.undo(), None);
    assert_eq!(stack.redo(), Some(vec![place(0, 0, TileMaterial::Wall)]));
    assert_eq!(stack.redo(), Some(vec![place(5, 5, TileMaterial::Wall)]));
    assert_eq!(stack.redo(), None);
}

#[test]
fn last_tilepos_is_last_action_of_applied_batch() {
    let mut stack = ActionStack::default();
    stack.push(
        vec![place(1, 2, TileMaterial::Wall), place(3, 4, TileMaterial::Wall)],
        vec![place(1, 2, TileMaterial::Floor), place(3, 4, TileMaterial::Floor)],
    );
    assert_eq!(stack.last_tilepos(), Some(TilePos { x: 3, y: 4 }));
    stack.push(vec![], vec![]);
    assert_eq!(stack.last_tilepos(), None);
    stack.undo();
    assert_eq!(stack.last_tilepos(), None);
}

#[test]
fn last_tilepos_follows_last_push_not_undo() {
    let mut stack = ActionStack::default();
    stack.push(vec![place(1, 1, TileMaterial::Wall)], vec![place(1, 1, TileMaterial::Floor)]);
    stack.push(vec![place(5, 5, TileMaterial::Wall)], vec![place(5, 5, TileMaterial::Floor)]);
    stack.undo();
    assert_eq!(stack.last_tilepos(), Some(TilePos { x: 5, y: 5 }));
    stack.undo();
    assert_eq!(stack.last_tilepos(), Some(TilePos { x: 5, y: 5 }));
    stack.push(vec![place(7, 0, TileMaterial::Wall)], vec![place(7, 0, TileMaterial::Floor)]);
    assert_eq!(stack.last_tilepos(), Some(TilePos { x: 7, y: 0 }));
}

#[test]
fn reversible_and_brush_defaults() {
    let r = Reversible::new(3u8, 4u8);
    assert_eq!(r.value, 3);
    assert_eq!(r.undo, 4);
    let brush = RogBrush::default();
    assert_eq!(brush.material, TileMaterial::Wall);
    assert_eq!(brush.size, 1);
}
