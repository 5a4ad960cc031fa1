//! The tile grid that edits are committed to, and the resolver that picks the
//! sprite of each tile from its material and its neighbours.
use vstd::prelude::*;
use crate::components::{EditAction, TileMapIndex, TileMaterial, TilePos};

verus! {

/// Width (`x`) and height (`y`) of a grid, in cells.
#[derive(Clone, Copy, Debug, PartialEq, Eq, Structural)]
pub struct TilemapSize {
    pub x: u32,
    pub y: u32,
}

/// What stands in an occupied cell: its material and the sprite drawn for it.
#[derive(Clone, Copy, Debug, PartialEq, Eq, Structural)]
pub struct Tile {
    pub material: TileMaterial,
    pub texture_index: u32,
}

/// Sprite of a wall from which neighbours it connects to, read clockwise from
/// north. A wall with no connection is drawn as `WallOXOX`.
pub open spec fn spec_wall_index(north: bool, east: bool, south: bool, west: bool) -> TileMapIndex {
    match (north, east, south, west) {
        (false, true, true, true) => TileMapIndex::WallOXXX,
        (true, false, true, true) => TileMapIndex::WallXOXX,
        (false, true, true, false) => TileMapIndex::WallOXXO,
        (false, true, false, true) => TileMapIndex::WallOXOX,
        (false, false, true, true) => TileMapIndex::WallOOXX,
        (true, true, true, true) => TileMapIndex::WallXXXX,
        (true, true, true, false) => TileMapIndex::WallXXXO,
        (true, true, false, true) => TileMapIndex::WallXXOX,
        (false, false, false, true) => TileMapIndex::WallOOOX,
        (true, false, true, false) => TileMapIndex::WallXOXO,
        (false, false, false, false) => TileMapIndex::WallOXOX,
        (true, false, false, false) => TileMapIndex::WallXOOO,
        (false, false, true, false) => TileMapIndex::WallOOXO,
        (true, true, false, false) => TileMapIndex::WallXXOO,
        (false, true, false, false) => TileMapIndex::WallOXOO,
        (true, false, false, true) => TileMapIndex::WallXOOX,
    }
}

/// The material of a cell, if it holds a tile.
pub open spec fn cell_material(c: Option<Tile>) -> Option<TileMaterial> {
    match c {
        Some(t) => Some(t.material),
        None => None,
    }
}

/// Cell (x, y) of a `w` by `h` grid lies inside its `w * h` cells.
pub proof fn lemma_cell_in_range(w: int, h: int, x: int, y: int)
    requires
        0 <= x < w,
        0 <= y < h,
    ensures
        0 <= y * w + x < w * h,
{
    assert(0 <= y * w + x < w * h) by (nonlinear_arith)
        requires
            0 <= x < w,
            0 <= y < h,
    ;
}

/// The grid as a mathematical value: cells in rows of `size_x`, row `y`
/// starting at `y * size_x`; `None` is a cell with no tile.
pub struct BoardModel {
    pub size_x: nat,
    pub size_y: nat,
    pub tiles: Seq<Option<Tile>>,
}

impl BoardModel {
    pub open spec fn wf(self) -> bool {
        self.tiles.len() == self.size_x * self.size_y
    }

    pub open spec fn in_bounds(self, x: int, y: int) -> bool {
        0 <= x < self.size_x && 0 <= y < self.size_y
    }

    pub open spec fn tile_at(self, pos: TilePos) -> Option<Tile> {
        if self.in_bounds(pos.x as int, pos.y as int) {
            self.tiles[pos.y * self.size_x + pos.x]
        } else {
            None
        }
    }

    pub open spec fn material_at(self, pos: TilePos) -> Option<TileMaterial> {
        match self.tile_at(pos) {
            Some(t) => Some(t.material),
            None => None,
        }
    }

    /// Whether cell (x, y) exists and holds a wall.
    pub open spec fn wall_at(self, x: int, y: int) -> bool {
        self.in_bounds(x, y) && (self.tiles[y * self.size_x + x] matches Some(t)
            && t.material == TileMaterial::Wall)
    }

    /// Sprite of a tile of material `m` at (x, y); north is `y + 1`.
    pub open spec fn sprite(self, m: TileMaterial, x: int, y: int) -> TileMapIndex {
        match m {
            TileMaterial::Wall => spec_wall_index(
                self.wall_at(x, y + 1),
                self.wall_at(x + 1, y),
                self.wall_at(x, y - 1),
                self.wall_at(x - 1, y),
            ),
            TileMaterial::Floor => TileMapIndex::Floor,
            TileMaterial::PlayerSpawn => TileMapIndex::PlayerSpawn,
        }
    }

    /// Two grids of one size whose cells hold the same materials.
    pub open spec fn same_materials(self, other: BoardModel) -> bool {
        &&& self.size_x == other.size_x
        &&& self.size_y == other.size_y
        &&& self.tiles.len() == other.tiles.len()
        &&& forall|j: int|
            0 <= j < self.tiles.len() ==> #[trigger] cell_material(self.tiles[j]) == cell_material(
                other.tiles[j],
            )
    }

    /// Sprites depend on the materials alone.
    pub proof fn lemma_sprite_same_materials(self, other: BoardModel, m: TileMaterial, x: int, y: int)
        requires
            self.wf(),
            self.same_materials(other),
        ensures
            self.sprite(m, x, y) == other.sprite(m, x, y),
    {
        let w = self.size_x as int;
        let h = self.size_y as int;
        if self.in_bounds(x, y + 1) {
            lemma_cell_in_range(w, h, x, y + 1);
            assert(cell_material(self.tiles[(y + 1) * w + x]) == cell_material(other.tiles[(y + 1) * w + x]));
        }
        if self.in_bounds(x + 1, y) {
            lemma_cell_in_range(w, h, x + 1, y);
            assert(cell_material(self.tiles[y * w + x + 1]) == cell_material(other.tiles[y * w + x + 1]));
        }
        if self.in_bounds(x, y - 1) {
            lemma_cell_in_range(w, h, x, y - 1);
            assert(cell_material(self.tiles[(y - 1) * w + x]) == cell_material(other.tiles[(y - 1) * w + x]));
        }
        if self.in_bounds(x - 1, y) {
            lemma_cell_in_range(w, h, x - 1, y);
            assert(cell_material(self.tiles[y * w + x - 1]) == cell_material(other.tiles[y * w + x - 1]));
        }
    }

    /// Sprite of the tile at `pos`, if there is one.
    pub open spec fn sprite_at(self, pos: TilePos) -> Option<TileMapIndex> {
        match self.material_at(pos) {
            Some(m) => Some(self.sprite(m, pos.x as int, pos.y as int)),
            None => None,
        }
    }

    /// The grid with every tile's sprite recomputed from the materials.
    pub open spec fn refreshed(self) -> BoardModel {
        BoardModel {
            size_x: self.size_x,
            size_y: self.size_y,
            tiles: Seq::new(
                self.tiles.len(),
                |i: int|
                    match self.tiles[i] {
                        Some(t) => Some(
                            Tile {
                                material: t.material,
                                texture_index: self.sprite(
                                    t.material,
                                    i % (self.size_x as int),
                                    i / (self.size_x as int),
                                ).spec_code(),
                            },
                        ),
                        None => None,
                    },
            ),
        }
    }

    /// The action that reverses `a`, read from the grid before `a` is applied:
    /// it puts back the material that the cell holds now. Where no tile
    /// stands, nothing changes, and `a` is its own reverse.
    pub open spec fn inverse(self, a: EditAction) -> EditAction {
        match self.tile_at(a.pos()) {
            Some(t) => EditAction::PlaceTile { tile_pos: a.pos(), material: t.material, size: 1 },
            None => a,
        }
    }

    /// The reverses of a batch, each read from the grid before the batch.
    pub open spec fn inverses(self, acts: Seq<EditAction>) -> Seq<EditAction> {
        acts.map_values(|a: EditAction| self.inverse(a))
    }

    /// The grid after `a`: the tile at its position takes its material and
    /// keeps its sprite until the next refresh; a missing tile stays missing.
    pub open spec fn place(self, a: EditAction) -> BoardModel {
        match self.tile_at(a.pos()) {
            Some(t) => BoardModel {
                tiles: self.tiles.update(
                    a.pos().y * self.size_x + a.pos().x,
                    Some(Tile { material: a.mat(), texture_index: t.texture_index }),
                ),
                ..self
            },
            None => self,
        }
    }

    /// The grid after a batch, applied in order.
    pub open spec fn apply(self, acts: Seq<EditAction>) -> BoardModel
        decreases acts.len(),
    {
        if acts.len() == 0 {
            self
        } else {
            self.apply(acts.drop_last()).place(acts.last())
        }
    }
}

/// The tile grid of a level.
pub struct Board {
    size: TilemapSize,
    tiles: Vec<Option<Tile>>,
}

impl View for Board {
    type V = BoardModel;

    closed spec fn view(&self) -> BoardModel {
        BoardModel { size_x: self.size.x as nat, size_y: self.size.y as nat, tiles: self.tiles@ }
    }
}

/// The sprite of a wall from which neighbours are walls too, read clockwise from north.
pub fn wall_index(north: bool, east: bool, south: bool, west: bool) -> (r: TileMapIndex)
    ensures
        r == spec_wall_index(north, east, south, west),
{
    match (north, east, south, west) {
        (false, true, true, true) => TileMapIndex::WallOXXX,
        (true, false, true, true) => TileMapIndex::WallXOXX,
        (false, true, true, false) => TileMapIndex::WallOXXO,
        (false, true, false, true) => TileMapIndex::WallOXOX,
        (false, false, true, true) => TileMapIndex::WallOOXX,
        (true, true, true, true) => TileMapIndex::WallXXXX,
        (true, true, true, false) => TileMapIndex::WallXXXO,
        (true, true, false, true) => TileMapIndex::WallXXOX,
        (false, false, false, true) => TileMapIndex::WallOOOX,
        (true, false, true, false) => TileMapIndex::WallXOXO,
        (false, false, false, false) => TileMapIndex::WallOXOX,
        (true, false, false, false) => TileMapIndex::WallXOOO,
        (false, false, true, false) => TileMapIndex::WallOOXO,
        (true, true, false, false) => TileMapIndex::WallXXOO,
        (false, true, false, false) => TileMapIndex::WallOXOO,
        (true, false, false, true) => TileMapIndex::WallXOOX,
    }
}

impl Board {
    /// A grid of `size` whose every cell holds `tile`.
    pub fn new(size: TilemapSize, tile: Option<Tile>) -> (r: Board)
        requires
            size.x * size.y <= usize::MAX,
        ensures
            r@.wf(),
            r@.size_x == size.x,
            r@.size_y == size.y,
            forall|i: int| 0 <= i < r@.tiles.len() ==> r@.tiles[i] == tile,
    {
        let n: usize = (size.x as usize) * (size.y as usize);
        let mut tiles: Vec<Option<Tile>> = Vec::new();
        let mut i: usize = 0;
        while i < n
            invariant
                i <= n,
                tiles@.len() == i,
                forall|j: int| 0 <= j < i ==> tiles@[j] == tile,
            decreases n - i,
        {
            tiles.push(tile);
            i = i + 1;
        }
        Board { size, tiles }
    }

    pub fn size(&self) -> (r: TilemapSize)
        ensures
            r.x == self@.size_x,
            r.y == self@.size_y,
    {
        self.size
    }

    /// Index of `pos` in the cell vector, where `pos` lies on the grid.
    fn cell_index(&self, pos: TilePos) -> (r: Option<usize>)
        requires
            self@.wf(),
        ensures
            r is Some <==> self@.in_bounds(pos.x as int, pos.y as int),
            r matches Some(i) ==> i == pos.y * self@.size_x + pos.x && i < self@.tiles.len(),
    {
        if pos.x < self.size.x && pos.y < self.size.y {
            let w = self.size.x as usize;
            let h = self.size.y as usize;
            let x = pos.x as usize;
            let y = pos.y as usize;
            assert((y as int) * (w as int) + (x as int) < (w as int) * (h as int))
                by (nonlinear_arith)
                requires
                    y < h,
                    x < w,
            ;
            let n = self.tiles.len();
            assert(n == (w as int) * (h as int));
            Some(y * w + x)
        } else {
            None
        }
    }

    /// The tile at `pos`, if there is one.
    pub fn tile(&self, pos: TilePos) -> (r: Option<Tile>)
        requires
            self@.wf(),
        ensures
            r == self@.tile_at(pos),
    {
        match self.cell_index(pos) {
            Some(i) => self.tiles[i],
            None => None,
        }
    }

    /// Puts `tile` in the cell at `pos`, or empties the cell; off the grid nothing changes.
    pub fn set_tile(&mut self, pos: TilePos, tile: Option<Tile>)
        requires
            old(self)@.wf(),
        ensures
            final(self)@.wf(),
            final(self)@ == (if old(self)@.in_bounds(pos.x as int, pos.y as int) {
                BoardModel {
                    tiles: old(self)@.tiles.update(pos.y * old(self)@.size_x + pos.x, tile),
                    ..old(self)@
                }
            } else {
                old(self)@
            }),
    {
        match self.cell_index(pos) {
            Some(i) => {
                self.tiles.set(i, tile);
            },
            None => {},
        }
    }

    /// The action that reverses `action` on the grid as it stands.
    pub fn inverse_action(&self, action: &EditAction) -> (r: EditAction)
        requires
            self@.wf(),
        ensures
            r == self@.inverse(*action),
    {
        match *action {
            EditAction::PlaceTile { tile_pos, .. } => match self.tile(tile_pos) {
                Some(t) => EditAction::PlaceTile { tile_pos, material: t.material, size: 1 },
                None => *action,
            },
        }
    }

    /// Applies one action: the tile at its position takes its material.
    fn place_tile(&mut self, action: &EditAction)
        requires
            old(self)@.wf(),
        ensures
            final(self)@.wf(),
            final(self)@ == old(self)@.place(*action),
    {
        match *action {
            EditAction::PlaceTile { tile_pos, material, .. } => match self.cell_index(tile_pos) {
                Some(i) => match self.tiles[i] {
                    Some(t) => {
                        self.tiles.set(i, Some(Tile { material, texture_index: t.texture_index }));
                    },
                    None => {},
                },
                None => {},
            },
        }
    }

    /// Commits a batch and returns the batch that reverses it. Every reverse is
    /// read before any write, so the writes of a batch take effect together.
    pub fn apply_batch(&mut self, actions: &Vec<EditAction>) -> (undos: Vec<EditAction>)
        requires
            old(self)@.wf(),
        ensures
            final(self)@.wf(),
            final(self)@ == old(self)@.apply(actions@),
            undos@ == old(self)@.inverses(actions@),
    {
        let mut undos: Vec<EditAction> = Vec::new();
        let mut i: usize = 0;
        while i < actions.len()
            invariant
                self@.wf(),
                i <= actions.len(),
                undos@ == self@.inverses(actions@.take(i as int)),
            decreases actions.len() - i,
        {
            undos.push(self.inverse_action(&actions[i]));
            i = i + 1;
            assert(undos@ =~= self@.inverses(actions@.take(i as int)));
        }
        assert(actions@.take(actions.len() as int) =~= actions@);
        let ghost start = self@;
        let mut k: usize = 0;
        while k < actions.len()
            invariant
                start.wf(),
                k <= actions.len(),
                self@ == start.apply(actions@.take(k as int)),
                self@.wf(),
            decreases actions.len() - k,
        {
            self.place_tile(&actions[k]);
            k = k + 1;
            assert(actions@.take(k as int).drop_last() =~= actions@.take(k as int - 1));
        }
        undos
    }

    /// Whether cell (x, y) exists and holds a wall.
    fn wall_at(&self, x: u64, y: u64) -> (r: bool)
        requires
            self@.wf(),
        ensures
            r == self@.wall_at(x as int, y as int),
    {
        if x < self.size.x as u64 && y < self.size.y as u64 {
            match self.tile(TilePos { x: x as u32, y: y as u32 }) {
                Some(t) => t.material == TileMaterial::Wall,
                None => false,
            }
        } else {
            false
        }
    }

    /// Sprite of a tile of material `m` at (x, y).
    fn sprite(&self, m: TileMaterial, x: u64, y: u64) -> (r: TileMapIndex)
        requires
            self@.wf(),
            x < u64::MAX,
            y < u64::MAX,
        ensures
            r == self@.sprite(m, x as int, y as int),
    {
        match m {
            TileMaterial::Wall => {
                let north = self.wall_at(x, y + 1);
                let east = self.wall_at(x + 1, y);
                let south = y > 0 && self.wall_at(x, y - 1);
                let west = x > 0 && self.wall_at(x - 1, y);
                wall_index(north, east, south, west)
            },
            TileMaterial::Floor => TileMapIndex::Floor,
            TileMaterial::PlayerSpawn => TileMapIndex::PlayerSpawn,
        }
    }

    /// Recomputes the sprite of every tile from the materials of the grid.
    pub fn update_board(&mut self)
        requires
            old(self)@.wf(),
        ensures
            final(self)@.wf(),
            final(self)@ == old(self)@.refreshed(),
    {
        let ghost start = self@;
        let w = self.size.x as usize;
        let n = self.tiles.len();
        let mut i: usize = 0;
        while i < n
            invariant
                start.wf(),
                self@.wf(),
                n == start.tiles.len(),
                w == start.size_x,
                self@.same_materials(start),
                i <= n,
                forall|j: int| 0 <= j < i ==> self@.tiles[j] == start.refreshed().tiles[j],
                forall|j: int| i <= j < n ==> self@.tiles[j] == start.tiles[j],
            decreases n - i,
        {
            match self.tiles[i] {
                Some(t) => {
                    assert(w > 0) by (nonlinear_arith)
                        requires
                            i < n,
                            n == w * start.size_y,
                    ;
                    assert(i / w <= i) by (nonlinear_arith)
                        requires
                            w > 0,
                    ;
                    let x = (i % w) as u64;
                    let y = (i / w) as u64;
                    let sprite = self.sprite(t.material, x, y);
                    proof {
                        self@.lemma_sprite_same_materials(start, t.material, x as int, y as int);
                    }
                    self.tiles.set(i, Some(Tile { material: t.material, texture_index: sprite.code() }));
                    assert(cell_material(self@.tiles[i as int]) == cell_material(start.tiles[i as int]));
                },
                None => {},
            }
            i = i + 1;
        }
        assert(self@.tiles =~= start.refreshed().tiles);
    }

    /// Sprite of the tile at `pos`, if there is one.
    pub fn tile_index(&self, pos: TilePos) -> (r: Option<TileMapIndex>)
        requires
            self@.wf(),
        ensures
            r == self@.sprite_at(pos),
    {
        match self.tile(pos) {
            Some(t) => Some(self.sprite(t.material, pos.x as u64, pos.y as u64)),
            None => None,
        }
    }
}

} // verus!
