//! Plain data of the editor: positions, materials, brushes and edit actions.
use vstd::prelude::*;

verus! {

/// A cell coordinate on the tile grid.
#[derive(Clone, Copy, Debug, PartialEq, Eq, Structural)]
pub struct TilePos {
    pub x: u32,
    pub y: u32,
}

/// What a grid cell is made of.
#[derive(Clone, Copy, Debug, PartialEq, Eq, Structural)]
pub enum TileMaterial {
    Wall,
    Floor,
    PlayerSpawn,
}

/// The material and size that new edits are stamped with.
pub struct RogBrush {
    pub material: TileMaterial,
    pub size: usize,
}

impl RogBrush {
    /// A wall brush of size one.
    pub fn default() -> (r: Self)
        ensures
            r.material == TileMaterial::Wall,
            r.size == 1,
    {
        RogBrush { material: TileMaterial::Wall, size: 1 }
    }
}

/// Scope marker for things that are removed when the editor is left.
pub enum Cleanup {
    CleanupInEditorExit,
}

/// A forward value paired with the value that reverses it.
#[derive(Clone, Debug, PartialEq)]
pub struct Reversible<T> {
    pub value: T,
    pub undo: T,
}

impl<T> Reversible<T> {
    pub fn new(value: T, undo: T) -> (r: Self)
        ensures
            r.value == value,
            r.undo == undo,
    {
        Reversible { value, undo }
    }
}

/// One edit of the grid.
#[derive(Clone, Copy, Debug, PartialEq, Eq, Structural)]
pub enum EditAction {
    PlaceTile { tile_pos: TilePos, material: TileMaterial, size: usize },
}

impl EditAction {
    pub open spec fn pos(self) -> TilePos {
        match self {
            EditAction::PlaceTile { tile_pos, .. } => tile_pos,
        }
    }

    pub open spec fn mat(self) -> TileMaterial {
        match self {
            EditAction::PlaceTile { material, .. } => material,
        }
    }
}

/// A copy of a batch of edits, element by element.
pub fn copy_actions(v: &Vec<EditAction>) -> (r: Vec<EditAction>)
    ensures
        r@ == v@,
{
    let mut r: Vec<EditAction> = Vec::new();
    let mut i: usize = 0;
    while i < v.len()
        invariant
            i <= v.len(),
            r@ == v@.take(i as int),
        decreases v.len() - i,
    {
        r.push(v[i]);
        i = i + 1;
        assert(r@ =~= v@.take(i as int));
    }
    assert(v@.take(v.len() as int) =~= v@);
    r
}

/// A batch of edits made by one gesture.
#[derive(Clone, Debug, PartialEq)]
pub struct EditEvent(pub Vec<EditAction>);

/// A request to step the history back by one batch.
#[derive(Clone, Copy, Debug, PartialEq, Eq, Structural)]
pub struct UndoEditEvent;

/// A request to step the history forward by one batch.
#[derive(Clone, Copy, Debug, PartialEq, Eq, Structural)]
pub struct RedoEditEvent;

/// Sprite-sheet entries of the tile set. A wall is named by the neighbours it
/// connects to, read clockwise from north: `X` connected, `O` not. So
/// `WallXOXX` is a T piece joining north, south and west.
#[derive(Clone, Copy, Debug, PartialEq, Eq, Structural)]
pub enum TileMapIndex {
    WallOXXX,
    WallXOXX,
    WallOXXO,
    WallOXOX,
    WallOOXX,
    WallXXXX,
    WallXXXO,
    WallXXOX,
    WallXXOO,
    WallOOOX,
    WallXOXO,
    Floor,
    WallXOOO,
    WallOOXO,
    WallOXOO,
    WallXOOX,
    QuestionMark,
    PlayerSpawn,
}

impl TileMapIndex {
    /// Position of the entry in the sprite sheet.
    pub open spec fn spec_code(&self) -> u32 {
        match self {
            TileMapIndex::WallOXXX => 0,
            TileMapIndex::WallXOXX => 1,
            TileMapIndex::WallOXXO => 2,
            TileMapIndex::WallOXOX => 3,
            TileMapIndex::WallOOXX => 4,
            TileMapIndex::WallXXXX => 5,
            TileMapIndex::WallXXXO => 6,
            TileMapIndex::WallXXOX => 7,
            TileMapIndex::WallXXOO => 8,
            TileMapIndex::WallOOOX => 9,
            TileMapIndex::WallXOXO => 10,
            TileMapIndex::Floor => 11,
            TileMapIndex::WallXOOO => 12,
            TileMapIndex::WallOOXO => 13,
            TileMapIndex::WallOXOO => 14,
            TileMapIndex::WallXOOX => 16,
            TileMapIndex::QuestionMark => 17,
            TileMapIndex::PlayerSpawn => 18,
        }
    }

    #[verifier::when_used_as_spec(spec_code)]
    pub fn code(&self) -> (r: u32)
        ensures
            r == self.spec_code(),
    {
        match self {
            TileMapIndex::WallOXXX => 0,
            TileMapIndex::WallXOXX => 1,
            TileMapIndex::WallOXXO => 2,
            TileMapIndex::WallOXOX => 3,
            TileMapIndex::WallOOXX => 4,
            TileMapIndex::WallXXXX => 5,
            TileMapIndex::WallXXXO => 6,
            TileMapIndex::WallXXOX => 7,
            TileMapIndex::WallXXOO => 8,
            TileMapIndex::WallOOOX => 9,
            TileMapIndex::WallXOXO => 10,
            TileMapIndex::Floor => 11,
            TileMapIndex::WallXOOO => 12,
            TileMapIndex::WallOOXO => 13,
            TileMapIndex::WallOXOO => 14,
            TileMapIndex::WallXOOX => 16,
            TileMapIndex::QuestionMark => 17,
            TileMapIndex::PlayerSpawn => 18,
        }
    }
}

} // verus!
