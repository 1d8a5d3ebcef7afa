//! The tile grid of the dungeon.

use vstd::prelude::*;
use crate::grid::{cells, inside, is_rectangular, rectangular};

verus! {

/// One cell of the dungeon.
#[derive(Clone, Copy, Debug, PartialEq, Eq, Structural)]
pub struct Tile {
    /// Nothing can stand here.
    pub blocked: bool,
    /// Sight does not pass through.
    pub block_sight: bool,
    /// The player has seen this tile at least once.
    pub explored: bool,
}

impl Tile {
    /// Open floor that nobody has seen yet.
    pub fn empty() -> (t: Tile)
        ensures
            t == (Tile { blocked: false, block_sight: false, explored: false }),
    {
        Tile { blocked: false, block_sight: false, explored: false }
    }

    /// Solid rock that nobody has seen yet.
    pub fn wall() -> (t: Tile)
        ensures
            t == (Tile { blocked: true, block_sight: true, explored: false }),
    {
        Tile { blocked: true, block_sight: true, explored: false }
    }

    /// The same tile once it has been seen.
    pub open spec fn seen(self) -> Tile {
        Tile { explored: true, ..self }
    }

    /// `self` is what `earlier` may have become: the same walls, and
    /// nothing forgotten.
    pub open spec fn extends(self, earlier: Tile) -> bool {
        &&& self.blocked == earlier.blocked
        &&& self.block_sight == earlier.block_sight
        &&& earlier.explored ==> self.explored
    }
}

/// A rectangular grid of tiles, addressed by column `x` and row `y`.
///
/// Its walls are fixed once it is built. The only thing that changes
/// afterwards is the memory of which tiles have been seen.
#[derive(Clone, Debug, PartialEq, Eq)]
pub struct TileMap {
    tiles: Vec<Vec<Tile>>,
}

impl View for TileMap {
    type V = Seq<Seq<Tile>>;

    closed spec fn view(&self) -> Seq<Seq<Tile>> {
        cells(self.tiles@)
    }
}

impl TileMap {
    /// Every value handed out by this module is well formed.
    pub open spec fn wf(&self) -> bool {
        rectangular(self@)
    }

    /// Number of columns.
    pub open spec fn spec_width(&self) -> int {
        self@.len() as int
    }

    /// Number of rows.
    pub open spec fn spec_height(&self) -> int {
        self@[0].len() as int
    }

    /// `(x, y)` is a tile of this map.
    pub open spec fn contains(&self, x: int, y: int) -> bool {
        inside(self@, x, y)
    }

    /// `self` is a later state of `earlier`: same size, same walls, and
    /// every tile that was explored still is.
    pub open spec fn extends(&self, earlier: &TileMap) -> bool {
        &&& self@.len() == earlier@.len()
        &&& forall|x: int|
            0 <= x < self@.len() ==> (#[trigger] self@[x]).len() == earlier@[x].len()
        &&& forall|x: int, y: int|
            0 <= x < self@.len() && 0 <= y < self@[x].len() ==> (#[trigger] self@[x][y]).extends(
                earlier@[x][y],
            )
    }

    /// Takes a grid of tiles as the map, if it is rectangular.
    pub fn from_tiles(tiles: Vec<Vec<Tile>>) -> (made: Option<TileMap>)
        ensures
            made.is_some() == rectangular(cells(tiles@)),
            made matches Some(m) ==> m.wf() && m@ == cells(tiles@),
    {
        if is_rectangular(&tiles) {
            Some(TileMap { tiles })
        } else {
            None
        }
    }

    /// Number of columns.
    pub fn width(&self) -> (w: i32)
        requires
            self.wf(),
        ensures
            w == self.spec_width(),
    {
        self.tiles.len() as i32
    }

    /// Number of rows.
    pub fn height(&self) -> (h: i32)
        requires
            self.wf(),
        ensures
            h == self.spec_height(),
    {
        self.tiles[0].len() as i32
    }

    /// Whether `(x, y)` is a tile of this map.
    pub fn in_bounds(&self, x: i32, y: i32) -> (b: bool)
        requires
            self.wf(),
        ensures
            b == self.contains(x as int, y as int),
    {
        0 <= x && x < self.width() && 0 <= y && y < self.height()
    }

    /// The tile at `(x, y)`.
    pub fn tile(&self, x: i32, y: i32) -> (t: Tile)
        requires
            self.wf(),
            self.contains(x as int, y as int),
        ensures
            t == self@[x as int][y as int],
    {
        assert(self@[x as int].len() == self.spec_height());
        self.tiles[x as usize][y as usize]
    }

    /// Remembers that the tile at `(x, y)` has been seen.
    pub fn mark_explored(&mut self, x: i32, y: i32)
        requires
            old(self).wf(),
            old(self).contains(x as int, y as int),
        ensures
            final(self).wf(),
            final(self)@ == old(self)@.update(
                x as int,
                old(self)@[x as int].update(y as int, old(self)@[x as int][y as int].seen()),
            ),
            final(self).extends(old(self)),
    {
        assert(self@[x as int].len() == self.spec_height());
        self.tiles[x as usize][y as usize].explored = true;
        assert(self@ =~~= old(self)@.update(
            x as int,
            old(self)@[x as int].update(y as int, old(self)@[x as int][y as int].seen()),
        ));
    }
}

/// A map that extends a map that extends a third extends the third: what
/// was explored at any earlier time is explored at every later time.
pub proof fn lemma_extends_transitive(a: &TileMap, b: &TileMap, c: &TileMap)
    requires
        b.extends(a),
        c.extends(b),
    ensures
        c.extends(a),
{
}

/// Exploration is never undone. Take the states of the map at successive
/// moments, each extending the one before: a tile that is explored at one
/// moment is explored at every later moment, and its walls are the same.
pub proof fn lemma_explored_stays(history: Seq<TileMap>, i: int, j: int, x: int, y: int)
    requires
        forall|k: int| 0 < k < history.len() ==> (#[trigger] history[k]).extends(&history[k - 1]),
        0 <= i <= j < history.len(),
        0 <= x < history[i]@.len(),
        0 <= y < history[i]@[x].len(),
    ensures
        history[j].extends(&history[i]),
        history[j]@[x][y].blocked == history[i]@[x][y].blocked,
        history[j]@[x][y].block_sight == history[i]@[x][y].block_sight,
        history[i]@[x][y].explored ==> history[j]@[x][y].explored,
    decreases j - i,
{
    if i < j {
        lemma_explored_stays(history, i, j - 1, x, y);
        lemma_extends_transitive(&history[i], &history[j - 1], &history[j]);
    }
}

} // verus!
