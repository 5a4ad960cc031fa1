//! Properties that relate several operations of the editor.
use vstd::arithmetic::div_mod::lemma_fundamental_div_mod_converse;
use vstd::prelude::*;
use crate::action_stack::StackModel;
use crate::board::{lemma_cell_in_range, BoardModel, Tile};
use crate::components::{EditAction, TileMaterial, TilePos};
use crate::editor::{after_edits, after_undos};

verus! {

/// `n` steps back move the cursor back by `n`, stopping at the start.
proof fn lemma_undo_n(m: StackModel, n: nat)
    ensures
        m.undo_n(n) == (StackModel {
            cursor: if n <= m.cursor { (m.cursor - n) as nat } else { 0 },
            entries: m.entries,
        }),
    decreases n,
{
    if n > 0 {
        lemma_undo_n(m, (n - 1) as nat);
    }
}

/// `n` steps forward move the cursor on by `n`, stopping at the end.
proof fn lemma_redo_n(m: StackModel, n: nat)
    requires
        m.wf(),
    ensures
        m.redo_n(n) == (StackModel {
            cursor: if m.cursor + n <= m.entries.len() { m.cursor + n } else { m.entries.len() },
            entries: m.entries,
        }),
    decreases n,
{
    if n > 0 {
        lemma_redo_n(m, (n - 1) as nat);
    }
}

/// Stepping back `n` times and then forward `n` times gives the history
/// back as it was, provided the steps back all took effect or nothing was
/// left to redo beforehand (as after any run of pushes).
pub proof fn lemma_undo_redo_round_trip(m: StackModel, n: nat)
    requires
        m.wf(),
        n <= m.cursor || m.cursor == m.entries.len(),
    ensures
        m.undo_n(n).redo_n(n) == m,
{
    lemma_undo_n(m, n);
    lemma_redo_n(m.undo_n(n), n);
}

/// A push after any number of steps back leaves nothing to redo: the entries
/// that had been stepped back over are gone, and stepping forward any number
/// of times changes nothing and hands out nothing.
pub proof fn lemma_push_discards_redo(
    m: StackModel,
    k: nat,
    value: Seq<EditAction>,
    undo: Seq<EditAction>,
    j: nat,
)
    requires
        m.wf(),
    ensures
        m.undo_n(k).push(value, undo).entries == m.entries.take(m.undo_n(k).cursor as int).push(
            (value, undo),
        ),
        m.undo_n(k).push(value, undo).redone() is None,
        m.undo_n(k).push(value, undo).redo_n(j) == m.undo_n(k).push(value, undo),
{
    lemma_undo_n(m, k);
    let p = m.undo_n(k).push(value, undo);
    lemma_redo_n(p, j);
}

/// Whether `a` lands on cell `j` of a `w` by `h` grid.
spec fn targets(w: nat, h: nat, a: EditAction, j: int) -> bool {
    a.pos().x < w && a.pos().y < h && a.pos().y * w + a.pos().x == j
}

/// Whether some action of `acts` lands on cell `j`.
spec fn any_targets(w: nat, h: nat, acts: Seq<EditAction>, j: int) -> bool
    decreases acts.len(),
{
    acts.len() > 0 && (any_targets(w, h, acts.drop_last(), j) || targets(w, h, acts.last(), j))
}

/// Cell `j`, starting as `c`, after the actions of a batch in order.
spec fn cell_after(w: nat, h: nat, c: Option<Tile>, acts: Seq<EditAction>, j: int) -> Option<Tile>
    decreases acts.len(),
{
    if acts.len() == 0 {
        c
    } else {
        let c1 = cell_after(w, h, c, acts.drop_last(), j);
        match c1 {
            Some(t) => if targets(w, h, acts.last(), j) {
                Some(Tile { material: acts.last().mat(), texture_index: t.texture_index })
            } else {
                c1
            },
            None => c1,
        }
    }
}

/// A batch acts on each cell on its own.
proof fn lemma_apply_cellwise(b: BoardModel, acts: Seq<EditAction>)
    requires
        b.wf(),
    ensures
        b.apply(acts).wf(),
        b.apply(acts).size_x == b.size_x,
        b.apply(acts).size_y == b.size_y,
        forall|j: int|
            0 <= j < b.tiles.len() ==> #[trigger] b.apply(acts).tiles[j] == cell_after(
                b.size_x,
                b.size_y,
                b.tiles[j],
                acts,
                j,
            ),
    decreases acts.len(),
{
    if acts.len() > 0 {
        lemma_apply_cellwise(b, acts.drop_last());
        let b1 = b.apply(acts.drop_last());
        let a = acts.last();
        if b1.in_bounds(a.pos().x as int, a.pos().y as int) {
            lemma_cell_in_range(b.size_x as int, b.size_y as int, a.pos().x as int, a.pos().y as int);
        }
    }
}

/// A missing tile stays missing.
proof fn lemma_cell_after_none(w: nat, h: nat, acts: Seq<EditAction>, j: int)
    ensures
        cell_after(w, h, None, acts, j) is None,
    decreases acts.len(),
{
    if acts.len() > 0 {
        lemma_cell_after_none(w, h, acts.drop_last(), j);
    }
}

/// A tile keeps its sprite under a batch, and keeps everything where no
/// action of the batch lands on it.
proof fn lemma_cell_after_some(w: nat, h: nat, t: Tile, acts: Seq<EditAction>, j: int)
    ensures
        cell_after(w, h, Some(t), acts, j) matches Some(t2) && t2.texture_index == t.texture_index,
        !any_targets(w, h, acts, j) ==> cell_after(w, h, Some(t), acts, j) == Some(t),
    decreases acts.len(),
{
    if acts.len() > 0 {
        lemma_cell_after_some(w, h, t, acts.drop_last(), j);
    }
}

/// Where every action landing on a tile brings material `m`, the tile ends
/// with `m` if any lands on it, and as it was if none does.
proof fn lemma_cell_after_uniform(
    w: nat,
    h: nat,
    t: Tile,
    acts: Seq<EditAction>,
    j: int,
    m: TileMaterial,
)
    requires
        forall|k: int| 0 <= k < acts.len() && targets(w, h, #[trigger] acts[k], j) ==> acts[k].mat() == m,
    ensures
        cell_after(w, h, Some(t), acts, j) == (if any_targets(w, h, acts, j) {
            Some(Tile { material: m, texture_index: t.texture_index })
        } else {
            Some(t)
        }),
    decreases acts.len(),
{
    if acts.len() > 0 {
        let d = acts.drop_last();
        assert forall|k: int| 0 <= k < d.len() && targets(w, h, #[trigger] d[k], j) implies d[k].mat()
            == m by {
            assert(d[k] == acts[k]);
        }
        lemma_cell_after_uniform(w, h, t, d, j, m);
        lemma_cell_after_some(w, h, t, d, j);
        assert(acts.last() == acts[acts.len() - 1]);
    }
}

/// The reverses of a batch land on the same cells as the batch.
proof fn lemma_inverses_target(b: BoardModel, acts: Seq<EditAction>, j: int)
    ensures
        any_targets(b.size_x, b.size_y, b.inverses(acts), j) == any_targets(b.size_x, b.size_y, acts, j),
    decreases acts.len(),
{
    if acts.len() > 0 {
        assert(b.inverses(acts).drop_last() =~= b.inverses(acts.drop_last()));
        lemma_inverses_target(b, acts.drop_last(), j);
    }
}

/// Applying a batch and then the reverses read before it gives the grid back
/// exactly: materials and sprites of every cell.
pub proof fn lemma_batch_undo_restores(b: BoardModel, acts: Seq<EditAction>)
    requires
        b.wf(),
    ensures
        b.apply(acts).apply(b.inverses(acts)) == b,
{
    let w = b.size_x;
    let h = b.size_y;
    let b1 = b.apply(acts);
    let invs = b.inverses(acts);
    lemma_apply_cellwise(b, acts);
    lemma_apply_cellwise(b1, invs);
    let b2 = b1.apply(invs);
    assert forall|j: int| 0 <= j < b.tiles.len() implies b2.tiles[j] == b.tiles[j] by {
        assert(b2.tiles[j] == cell_after(w, h, b1.tiles[j], invs, j));
        assert(b1.tiles[j] == cell_after(w, h, b.tiles[j], acts, j));
        match b.tiles[j] {
            None => {
                lemma_cell_after_none(w, h, acts, j);
                lemma_cell_after_none(w, h, invs, j);
            },
            Some(t) => {
                lemma_cell_after_some(w, h, t, acts, j);
                lemma_inverses_target(b, acts, j);
                assert forall|k: int|
                    0 <= k < invs.len() && targets(w, h, #[trigger] invs[k], j) implies invs[k].mat()
                    == t.material by {
                    assert(invs[k] == b.inverse(acts[k]));
                }
                let t1 = b1.tiles[j]->Some_0;
                lemma_cell_after_uniform(w, h, t1, invs, j, t.material);
            },
        }
    }
    assert(b2.tiles =~= b.tiles);
}

/// After a refresh, every tile holds the sprite that its material and its
/// neighbours call for, as the board reports it for that position.
pub proof fn lemma_refresh_sprite(b: BoardModel, pos: TilePos)
    requires
        b.wf(),
        b.tile_at(pos) is Some,
    ensures
        b.refreshed().tile_at(pos) == Some(
            Tile {
                material: b.tile_at(pos)->Some_0.material,
                texture_index: b.sprite_at(pos)->Some_0.spec_code(),
            },
        ),
{
    let w = b.size_x as int;
    let x = pos.x as int;
    let y = pos.y as int;
    lemma_cell_in_range(w, b.size_y as int, x, y);
    lemma_fundamental_div_mod_converse(y * w + x, w, y, x);
}

/// One action on a tile that stands gives it the action's material.
proof fn lemma_place_on_tile(b: BoardModel, a: EditAction)
    requires
        b.wf(),
        b.tile_at(a.pos()) is Some,
    ensures
        b.place(a).wf(),
        b.place(a).size_x == b.size_x,
        b.place(a).size_y == b.size_y,
        b.place(a).material_at(a.pos()) == Some(a.mat()),
{
    lemma_cell_in_range(b.size_x as int, b.size_y as int, a.pos().x as int, a.pos().y as int);
}

/// Painting a wall on a tile, then floor on the same tile, then stepping back
/// once leaves a wall there: the step back restores what the floor replaced.
pub proof fn lemma_wall_floor_undo(
    b: BoardModel,
    s: StackModel,
    pos: TilePos,
    wall_size: usize,
    floor_size: usize,
)
    requires
        b.wf(),
        s.wf(),
        b.tile_at(pos) is Some,
    ensures
        ({
            let wall = seq![EditAction::PlaceTile { tile_pos: pos, material: TileMaterial::Wall, size: wall_size }];
            let floor = seq![EditAction::PlaceTile { tile_pos: pos, material: TileMaterial::Floor, size: floor_size }];
            let (b2, s2) = after_edits(b, s, seq![wall, floor]);
            after_undos(b2, s2, 1).0.material_at(pos) == Some(TileMaterial::Wall)
        }),
{
    let wall_a = EditAction::PlaceTile { tile_pos: pos, material: TileMaterial::Wall, size: wall_size };
    let floor_a = EditAction::PlaceTile { tile_pos: pos, material: TileMaterial::Floor, size: floor_size };
    let wall = seq![wall_a];
    let floor = seq![floor_a];
    let batches = seq![wall, floor];
    assert(batches.drop_last() =~= seq![wall]);
    assert(seq![wall].drop_last() =~= Seq::<Seq<EditAction>>::empty());
    assert(wall.drop_last() =~= Seq::<EditAction>::empty());
    assert(floor.drop_last() =~= Seq::<EditAction>::empty());
    let b1 = b.apply(wall);
    assert(b.apply(wall.drop_last()) == b);
    assert(wall.last() == wall_a);
    lemma_place_on_tile(b, wall_a);
    assert(b1 == b.place(wall_a));
    let s1 = s.push(wall, b.inverses(wall));
    assert(after_edits(b, s, seq![wall].drop_last()) == (b, s));
    assert(seq![wall].last() == wall);
    assert(after_edits(b, s, seq![wall]) == (b1, s1));
    let undo_floor = b1.inverses(floor);
    let back = EditAction::PlaceTile { tile_pos: pos, material: TileMaterial::Wall, size: 1 };
    assert(undo_floor =~= seq![back]);
    let b2 = b1.apply(floor);
    assert(b1.apply(floor.drop_last()) == b1);
    assert(floor.last() == floor_a);
    lemma_place_on_tile(b1, floor_a);
    assert(b2 == b1.place(floor_a));
    let s2 = s1.push(floor, undo_floor);
    assert(after_edits(b, s, batches) == (b2, s2));
    assert(s2.undone() == Some(undo_floor));
    assert(seq![back].drop_last() =~= Seq::<EditAction>::empty());
    assert(b2.apply(seq![back].drop_last()) == b2);
    assert(seq![back].last() == back);
    lemma_place_on_tile(b2, back);
    assert(b2.apply(seq![back]) == b2.place(back));
    assert(after_undos(b2, s2, 0) == (b2, s2));
    assert(after_undos(b2, s2, 1).0 == b2.apply(undo_floor));
}

} // verus!
