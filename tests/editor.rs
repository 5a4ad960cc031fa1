use rog_editor::action_stack::ActionStack;
use rog_editor::board::{Board, Tile, TilemapSize};
use rog_editor::components::{
    EditAction, EditEvent, RedoEditEvent, RogBrush, TileMaterial, TilePos, UndoEditEvent,
};
use rog_editor::editor::{
    add_edit_actions, editor_frame, key_input, range_edit, redo_edit_action, setup_blank_level,
    tile_click, undo_edit_action, BLANK_TEXTURE, LEVEL_SIDE,
};

fn pos(x: u32, y: u32) -> TilePos {
    TilePos { x, y }
}

fn brush(material: TileMaterial, size: usize) -> RogBrush {
    RogBrush { material, size }
}

fn single(p: TilePos, material: TileMaterial) -> EditEvent {
    EditEvent(vec![EditAction::PlaceTile { tile_pos: p, material, size: 1 }])
}

#[test]
fn blank_level_is_floor() {
    let board = setup_blank_level();
    assert_eq!(board.size(), TilemapSize { x: LEVEL_SIDE, y: LEVEL_SIDE });
    assert_eq!(LEVEL_SIDE, 32);
    let t = board.tile(pos(31, 31)).unwrap();
    assert_eq!(t.material, TileMaterial::Floor);
    assert_eq!(t.texture_index, BLANK_TEXTURE);
    assert_eq!(board.tile(pos(32, 0)), None);
}

#[test]
fn key_input_requests() {
    let mut undos: Vec<UndoEditEvent> = Vec::new();
    let mut redos: Vec<RedoEditEvent> = Vec::new();
    key_input(true, false, true, &mut undos, &mut redos);
    assert_eq!((undos.len(), redos.len()), (1, 0));
    key_input(true, true, true, &mut undos, &mut redos);
    assert_eq!((undos.len(), redos.len()), (1, 1));
    key_input(false, false, true, &mut undos, &mut redos);
    key_input(false, true, true, &mut undos, &mut redos);
    key_input(true, false, false, &mut undos, &mut redos);
    key_input(true, true, false, &mut undos, &mut redos);
    assert_eq!((undos.len(), redos.len()), (1, 1));
}

#[test]
fn vertical_range_edit() {
    let actions = range_edit(pos(2, 2), pos(2, 6), &brush(TileMaterial::Wall, 1));
    let expected: Vec<EditAction> = (2..=6)
        .map(|y| EditAction::PlaceTile { tile_pos: pos(2, y), material: TileMaterial::Wall, size: 1 })
        .collect();
    assert_eq!(actions.len(), 5);
    assert_eq!(actions, expected);
}

#[test]
fn horizontal_range_edit_runs_upwards_on_click_row() {
    let actions = range_edit(pos(7, 1), pos(3, 2), &brush(TileMaterial::Floor, 4));
    let expected: Vec<EditAction> = (3..=7)
        .map(|x| EditAction::PlaceTile { tile_pos: pos(x, 2), material: TileMaterial::Floor, size: 4 })
        .collect();
    assert_eq!(actions, expected);
}

#[test]
fn equal_spans_run_along_y_on_click_column() {
    let actions = range_edit(pos(0, 3), pos(2, 1), &brush(TileMaterial::Wall, 1));
    let expected: Vec<EditAction> = (1..=3)
        .map(|y| EditAction::PlaceTile { tile_pos: pos(2, y), material: TileMaterial::Wall, size: 1 })
        .collect();
    assert_eq!(actions, expected);
    let same = range_edit(pos(4, 4), pos(4, 4), &brush(TileMaterial::Wall, 1));
    assert_eq!(same, vec![EditAction::PlaceTile { tile_pos: pos(4, 4), material: TileMaterial::Wall, size: 1 }]);
}

#[test]
fn click_without_shift_stamps_one_tile() {
    let stack = ActionStack::default();
    let b = brush(TileMaterial::PlayerSpawn, 2);
    let r = tile_click(pos(5, 6), false, &stack, &b);
    assert_eq!(
        r,
        Some(EditEvent(vec![EditAction::PlaceTile { tile_pos: pos(5, 6), material: TileMaterial::PlayerSpawn, size: 2 }]))
    );
}

#[test]
fn shift_click_draws_from_last_edit() {
    let mut stack = ActionStack::default();
    let b = brush(TileMaterial::Wall, 1);
    assert_eq!(tile_click(pos(2, 6), true, &stack, &b), None);
    let mut board = setup_blank_level();
    add_edit_actions(&mut board, &mut stack, &vec![single(pos(2, 2), TileMaterial::Wall)]);
    let r = tile_click(pos(2, 6), true, &stack, &b).unwrap();
    assert_eq!(r.0, range_edit(pos(2, 2), pos(2, 6), &b));
    assert_eq!(r.0.len(), 5);
}

#[test]
fn shift_click_after_undo_draws_from_last_pushed_edit() {
    let mut board = setup_blank_level();
    let mut stack = ActionStack::default();
    let b = brush(TileMaterial::Wall, 1);
    add_edit_actions(&mut board, &mut stack, &vec![single(pos(1, 1), TileMaterial::Wall)]);
    add_edit_actions(&mut board, &mut stack, &vec![single(pos(5, 5), TileMaterial::Wall)]);
    undo_edit_action(&mut board, &mut stack, &vec![UndoEditEvent]);
    let r = tile_click(pos(5, 8), true, &stack, &b).unwrap();
    assert_eq!(r.0, range_edit(pos(5, 5), pos(5, 8), &b));
    assert_eq!(r.0.len(), 4);
}

#[test]
fn wall_then_floor_then_undo_leaves_wall() {
    let mut board = setup_blank_level();
    let mut stack = ActionStack::default();
    let p = pos(4, 9);
    add_edit_actions(&mut board, &mut stack, &vec![single(p, TileMaterial::Wall)]);
    add_edit_actions(&mut board, &mut stack, &vec![single(p, TileMaterial::Floor)]);
    assert_eq!(board.tile(p).unwrap().material, TileMaterial::Floor);
    undo_edit_action(&mut board, &mut stack, &vec![UndoEditEvent]);
    assert_eq!(board.tile(p).unwrap().material, TileMaterial::Wall);
    undo_edit_action(&mut board, &mut stack, &vec![UndoEditEvent]);
    assert_eq!(board.tile(p).unwrap().material, TileMaterial::Floor);
    redo_edit_action(&mut board, &mut stack, &vec![RedoEditEvent, RedoEditEvent, RedoEditEvent]);
    assert_eq!(board.tile(p).unwrap().material, TileMaterial::Floor);
    assert_eq!(stack.redo(), None);
}

#[test]
fn undo_and_redo_on_empty_history_change_nothing() {
    let mut board = setup_blank_level();
    let mut stack = ActionStack::default();
    undo_edit_action(&mut board, &mut stack, &vec![UndoEditEvent]);
    redo_edit_action(&mut board, &mut stack, &vec![RedoEditEvent]);
    assert_eq!(board.tile(pos(0, 0)).unwrap().material, TileMaterial::Floor);
    assert_eq!(stack.undo(), None);
}

#[test]
fn frame_runs_stages_in_order_and_refreshes() {
    let mut board = Board::new(TilemapSize { x: 3, y: 1 }, Some(Tile { material: TileMaterial::Floor, texture_index: 0 }));
    let mut stack = ActionStack::default();
    let edits = vec![
        EditEvent(vec![
            EditAction::PlaceTile { tile_pos: pos(0, 0), material: TileMaterial::Wall, size: 1 },
            EditAction::PlaceTile { tile_pos: pos(1, 0), material: TileMaterial::Wall, size: 1 },
        ]),
        single(pos(2, 0), TileMaterial::Wall),
    ];
    editor_frame(&mut board, &mut stack, &edits, &vec![UndoEditEvent], &vec![]);
    assert_eq!(board.tile(pos(0, 0)).unwrap().texture_index, 14);
    assert_eq!(board.tile(pos(1, 0)).unwrap().texture_index, 9);
    assert_eq!(board.tile(pos(2, 0)).unwrap().material, TileMaterial::Floor);
    assert_eq!(board.tile(pos(2, 0)).unwrap().texture_index, 11);
    editor_frame(&mut board, &mut stack, &vec![], &vec![], &vec![RedoEditEvent]);
    assert_eq!(board.tile(pos(1, 0)).unwrap().texture_index, 3);
    assert_eq!(board.tile(pos(2, 0)).unwrap().texture_index, 9);
}
