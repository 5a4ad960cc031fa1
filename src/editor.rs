//! What the editor does with one frame's input: turning keys and clicks into
//! requests, committing batches, stepping the history and refreshing sprites.
use vstd::prelude::*;
use crate::action_stack::{ActionStack, StackModel};
use crate::board::{Board, BoardModel, Tile, TilemapSize};
use crate::components::{
    copy_actions, EditAction, EditEvent, RedoEditEvent, RogBrush, TileMaterial, TilePos,
    UndoEditEvent,
};

verus! {

/// Width and height of a blank level.
pub const LEVEL_SIDE: u32 = 32;

/// Sprite index that the tiles of a blank level start with.
pub const BLANK_TEXTURE: u32 = 32;

/// Number of cells from `a` to `b`, both included.
pub open spec fn span(a: u32, b: u32) -> nat {
    if a <= b {
        (b - a + 1) as nat
    } else {
        (a - b + 1) as nat
    }
}

pub open spec fn low(a: u32, b: u32) -> int {
    if a <= b {
        a as int
    } else {
        b as int
    }
}

/// A line edit from `last` to `clicked` runs along x when it spans more
/// columns than rows, else along y; the other coordinate is the click's.
pub open spec fn range_is_horizontal(last: TilePos, clicked: TilePos) -> bool {
    span(last.x, clicked.x) > span(last.y, clicked.y)
}

/// The actions of a line edit from `last` to `clicked`, in increasing order
/// of the coordinate that varies.
pub open spec fn range_actions(
    last: TilePos,
    clicked: TilePos,
    material: TileMaterial,
    size: usize,
) -> Seq<EditAction> {
    if range_is_horizontal(last, clicked) {
        Seq::new(
            span(last.x, clicked.x),
            |k: int|
                EditAction::PlaceTile {
                    tile_pos: TilePos { x: (low(last.x, clicked.x) + k) as u32, y: clicked.y },
                    material,
                    size,
                },
        )
    } else {
        Seq::new(
            span(last.y, clicked.y),
            |k: int|
                EditAction::PlaceTile {
                    tile_pos: TilePos { x: clicked.x, y: (low(last.y, clicked.y) + k) as u32 },
                    material,
                    size,
                },
        )
    }
}

/// Grid and history after committing each batch in turn.
pub open spec fn after_edits(b: BoardModel, s: StackModel, batches: Seq<Seq<EditAction>>) -> (
    BoardModel,
    StackModel,
)
    decreases batches.len(),
{
    if batches.len() == 0 {
        (b, s)
    } else {
        let (b1, s1) = after_edits(b, s, batches.drop_last());
        let acts = batches.last();
        (b1.apply(acts), s1.push(acts, b1.inverses(acts)))
    }
}

/// Grid and history after `n` steps back, each applying the batch handed out.
pub open spec fn after_undos(b: BoardModel, s: StackModel, n: nat) -> (BoardModel, StackModel)
    decreases n,
{
    if n == 0 {
        (b, s)
    } else {
        let (b1, s1) = after_undos(b, s, (n - 1) as nat);
        match s1.undone() {
            Some(u) => (b1.apply(u), s1.undo()),
            None => (b1, s1),
        }
    }
}

/// Grid and history after `n` steps forward, each applying the batch handed out.
pub open spec fn after_redos(b: BoardModel, s: StackModel, n: nat) -> (BoardModel, StackModel)
    decreases n,
{
    if n == 0 {
        (b, s)
    } else {
        let (b1, s1) = after_redos(b, s, (n - 1) as nat);
        match s1.redone() {
            Some(v) => (b1.apply(v), s1.redo()),
            None => (b1, s1),
        }
    }
}

/// The batches that a frame's edit requests carry.
pub open spec fn batches_of(events: Seq<EditEvent>) -> Seq<Seq<EditAction>> {
    events.map_values(|e: EditEvent| e.0@)
}

/// Grid and history after one frame: edits, then steps back, then steps
/// forward, then a refresh of every sprite.
pub open spec fn after_frame(
    b: BoardModel,
    s: StackModel,
    batches: Seq<Seq<EditAction>>,
    undos: nat,
    redos: nat,
) -> (BoardModel, StackModel) {
    let (b1, s1) = after_edits(b, s, batches);
    let (b2, s2) = after_undos(b1, s1, undos);
    let (b3, s3) = after_redos(b2, s2, redos);
    (b3.refreshed(), s3)
}

/// A blank level: a square grid of floor tiles.
pub fn setup_blank_level() -> (r: Board)
    ensures
        r@.wf(),
        r@.size_x == LEVEL_SIDE,
        r@.size_y == LEVEL_SIDE,
        forall|i: int|
            0 <= i < r@.tiles.len() ==> r@.tiles[i] == Some(
                Tile { material: TileMaterial::Floor, texture_index: BLANK_TEXTURE },
            ),
{
    Board::new(
        TilemapSize { x: LEVEL_SIDE, y: LEVEL_SIDE },
        Some(Tile { material: TileMaterial::Floor, texture_index: BLANK_TEXTURE }),
    )
}

/// Turns the key state of a frame into history requests: with Alt held, the
/// release of Z asks to step back, or forward when Shift is held too.
pub fn key_input(
    alt_pressed: bool,
    shift_pressed: bool,
    z_released: bool,
    undo_edit_action: &mut Vec<UndoEditEvent>,
    redo_edit_action: &mut Vec<RedoEditEvent>,
)
    ensures
        final(undo_edit_action)@ == (if alt_pressed && !shift_pressed && z_released {
            old(undo_edit_action)@.push(UndoEditEvent)
        } else {
            old(undo_edit_action)@
        }),
        final(redo_edit_action)@ == (if alt_pressed && shift_pressed && z_released {
            old(redo_edit_action)@.push(RedoEditEvent)
        } else {
            old(redo_edit_action)@
        }),
{
    if alt_pressed {
        if shift_pressed {
            if z_released {
                redo_edit_action.push(RedoEditEvent);
            }
        } else {
            if z_released {
                undo_edit_action.push(UndoEditEvent);
            }
        }
    }
}

/// The actions of a line edit from `last` to `clicked` with the brush's
/// material and size.
pub fn range_edit(last: TilePos, clicked: TilePos, brush: &RogBrush) -> (r: Vec<EditAction>)
    ensures
        r@ == range_actions(last, clicked, brush.material, brush.size),
{
    let (lo_x, hi_x) = if last.x <= clicked.x {
        (last.x, clicked.x)
    } else {
        (clicked.x, last.x)
    };
    let (lo_y, hi_y) = if last.y <= clicked.y {
        (last.y, clicked.y)
    } else {
        (clicked.y, last.y)
    };
    let horizontal = hi_x - lo_x > hi_y - lo_y;
    let (lo, hi) = if horizontal {
        (lo_x, hi_x)
    } else {
        (lo_y, hi_y)
    };
    let ghost expected = range_actions(last, clicked, brush.material, brush.size);
    let mut actions: Vec<EditAction> = Vec::new();
    let count: u64 = (hi - lo) as u64 + 1;
    let mut k: u64 = 0;
    while k < count
        invariant
            expected == range_actions(last, clicked, brush.material, brush.size),
            count == expected.len(),
            k <= count,
            lo as int + count - 1 == hi,
            horizontal == range_is_horizontal(last, clicked),
            horizontal ==> lo == low(last.x, clicked.x),
            !horizontal ==> lo == low(last.y, clicked.y),
            actions@ == expected.take(k as int),
        decreases count - k,
    {
        let c = lo + k as u32;
        let tile_pos = if horizontal {
            TilePos { x: c, y: clicked.y }
        } else {
            TilePos { x: clicked.x, y: c }
        };
        let action = EditAction::PlaceTile { tile_pos, material: brush.material, size: brush.size };
        assert(expected[k as int] == action);
        actions.push(action);
        k = k + 1;
        assert(actions@ =~= expected.take(k as int));
    }
    assert(expected.take(count as int) =~= expected);
    actions
}

/// The edit request of a click on `clicked`: the brush stamped there alone, or,
/// with Shift held, a line from the last position of the most recently pushed
/// batch. Shift with no such position asks for nothing.
pub fn tile_click(clicked: TilePos, shift_pressed: bool, stack: &ActionStack, brush: &RogBrush) -> (r:
    Option<EditEvent>)
    requires
        stack@.wf(),
    ensures
        !shift_pressed ==> (r matches Some(e) && e.0@ == seq![
            EditAction::PlaceTile { tile_pos: clicked, material: brush.material, size: brush.size },
        ]),
        shift_pressed ==> match stack@.last_tilepos() {
            Some(last) => (r matches Some(e) && e.0@ == range_actions(
                last,
                clicked,
                brush.material,
                brush.size,
            )),
            None => r is None,
        },
{
    if !shift_pressed {
        let mut actions: Vec<EditAction> = Vec::new();
        actions.push(EditAction::PlaceTile { tile_pos: clicked, material: brush.material, size: brush.size });
        return Some(EditEvent(actions));
    }
    match stack.last_tilepos() {
        Some(last) => Some(EditEvent(range_edit(last, clicked, brush))),
        None => None,
    }
}

/// Commits each requested batch in turn and records it in the history.
pub fn add_edit_actions(board: &mut Board, action_stack: &mut ActionStack, events: &Vec<EditEvent>)
    requires
        old(board)@.wf(),
        old(action_stack)@.wf(),
    ensures
        final(board)@.wf(),
        final(action_stack)@.wf(),
        (final(board)@, final(action_stack)@) == after_edits(
            old(board)@,
            old(action_stack)@,
            batches_of(events@),
        ),
{
    let ghost b0 = board@;
    let ghost s0 = action_stack@;
    let mut i: usize = 0;
    while i < events.len()
        invariant
            board@.wf(),
            action_stack@.wf(),
            i <= events.len(),
            (board@, action_stack@) == after_edits(b0, s0, batches_of(events@.take(i as int))),
        decreases events.len() - i,
    {
        let actions = &events[i].0;
        let undos = board.apply_batch(actions);
        action_stack.push(copy_actions(actions), undos);
        i = i + 1;
        assert(batches_of(events@.take(i as int)).drop_last() =~= batches_of(events@.take(i - 1)));
        assert(batches_of(events@.take(i as int)).last() == actions@);
    }
    assert(events@.take(events.len() as int) =~= events@);
}

/// Steps the history back once per request, applying each batch handed out.
pub fn undo_edit_action(
    board: &mut Board,
    action_stack: &mut ActionStack,
    events: &Vec<UndoEditEvent>,
)
    requires
        old(board)@.wf(),
        old(action_stack)@.wf(),
    ensures
        final(board)@.wf(),
        final(action_stack)@.wf(),
        (final(board)@, final(action_stack)@) == after_undos(
            old(board)@,
            old(action_stack)@,
            events@.len(),
        ),
{
    let ghost b0 = board@;
    let ghost s0 = action_stack@;
    let mut i: usize = 0;
    while i < events.len()
        invariant
            board@.wf(),
            action_stack@.wf(),
            i <= events.len(),
            (board@, action_stack@) == after_undos(b0, s0, i as nat),
        decreases events.len() - i,
    {
        match action_stack.undo() {
            Some(actions) => {
                let _ = board.apply_batch(&actions);
            },
            None => {},
        }
        i = i + 1;
    }
}

/// Steps the history forward once per request, applying each batch handed out.
pub fn redo_edit_action(
    board: &mut Board,
    action_stack: &mut ActionStack,
    events: &Vec<RedoEditEvent>,
)
    requires
        old(board)@.wf(),
        old(action_stack)@.wf(),
    ensures
        final(board)@.wf(),
        final(action_stack)@.wf(),
        (final(board)@, final(action_stack)@) == after_redos(
            old(board)@,
            old(action_stack)@,
            events@.len(),
        ),
{
    let ghost b0 = board@;
    let ghost s0 = action_stack@;
    let mut i: usize = 0;
    while i < events.len()
        invariant
            board@.wf(),
            action_stack@.wf(),
            i <= events.len(),
            (board@, action_stack@) == after_redos(b0, s0, i as nat),
        decreases events.len() - i,
    {
        match action_stack.redo() {
            Some(actions) => {
                let _ = board.apply_batch(&actions);
            },
            None => {},
        }
        i = i + 1;
    }
}

/// One frame of the editor, stage after stage: commit the edit requests, step
/// back, step forward, then refresh every sprite.
pub fn editor_frame(
    board: &mut Board,
    action_stack: &mut ActionStack,
    edits: &Vec<EditEvent>,
    undos: &Vec<UndoEditEvent>,
    redos: &Vec<RedoEditEvent>,
)
    requires
        old(board)@.wf(),
        old(action_stack)@.wf(),
    ensures
        final(board)@.wf(),
        final(action_stack)@.wf(),
        (final(board)@, final(action_stack)@) == after_frame(
            old(board)@,
            old(action_stack)@,
            batches_of(edits@),
            undos@.len(),
            redos@.len(),
        ),
{
    add_edit_actions(board, action_stack, edits);
    undo_edit_action(board, action_stack, undos);
    redo_edit_action(board, action_stack, redos);
    board.update_board();
}

} // verus!
