//! What the player can see.
//!
//! Which tiles are in view is not worked out here. That is the business of
//! a field-of-view oracle outside this crate: it is told where sight is
//! blocked, asked with a [`FovRequest`], and its answer, one flag per tile,
//! is written down in the [`FovMap`] with [`FovMap::record`]. Everything else
//! reads the answer from there until the next one arrives.

use vstd::prelude::*;
use crate::grid::{cells, filled, has_size, inside, rectangular};
use crate::map::{Tile, TileMap};
use crate::object::{Object, PLAYER};

verus! {

/// How far the player's torch reaches.
pub const TORCH_RADIUS: i32 = 10;

/// Whether the walls at the edge of the lit area are lit too.
pub const FOV_LIGHT_WALLS: bool = true;

/// The methods an oracle may offer for working out the field of view.
#[derive(Clone, Copy, Debug, PartialEq, Eq, Structural)]
pub enum FovAlgorithm {
    Basic,
    Diamond,
    Shadow,
    Permissive0,
    Permissive1,
    Permissive2,
    Permissive3,
    Permissive4,
    Permissive5,
    Permissive6,
    Permissive7,
    Permissive8,
    Restrictive,
}

/// The method by which the player's field of view is worked out.
pub const FOV_ALGO: FovAlgorithm = FovAlgorithm::Basic;

/// A question for the oracle: what can be seen from this tile?
#[derive(Clone, Copy, Debug, PartialEq, Eq, Structural)]
pub struct FovRequest {
    pub origin_x: i32,
    pub origin_y: i32,
    pub radius: i32,
    pub light_walls: bool,
    pub algorithm: FovAlgorithm,
}

/// The question that is asked for a viewer standing on `(x, y)`.
pub open spec fn request_from(x: i32, y: i32) -> FovRequest {
    FovRequest {
        origin_x: x,
        origin_y: y,
        radius: TORCH_RADIUS,
        light_walls: FOV_LIGHT_WALLS,
        algorithm: FOV_ALGO,
    }
}

/// The question to ask the oracle on behalf of the player.
pub fn fov_request(objects: &[Object]) -> (request: FovRequest)
    requires
        objects@.len() > 0,
    ensures
        request == request_from(objects@[PLAYER as int].x, objects@[PLAYER as int].y),
{
    FovRequest {
        origin_x: objects[PLAYER].x,
        origin_y: objects[PLAYER].y,
        radius: TORCH_RADIUS,
        light_walls: FOV_LIGHT_WALLS,
        algorithm: FOV_ALGO,
    }
}

/// The visibility grid: per tile, whether sight passes, whether one can
/// walk there, and whether the oracle last said it was in view.
#[derive(Clone, Debug, PartialEq, Eq)]
pub struct FovMap {
    transparent: Vec<Vec<bool>>,
    walkable: Vec<Vec<bool>>,
    in_fov: Vec<Vec<bool>>,
}

impl FovMap {
    /// Per tile, whether sight passes through it.
    pub closed spec fn transparent(&self) -> Seq<Seq<bool>> {
        cells(self.transparent@)
    }

    /// Per tile, whether one can walk on it.
    pub closed spec fn walkable(&self) -> Seq<Seq<bool>> {
        cells(self.walkable@)
    }

    /// Per tile, whether it was in view when the oracle last answered.
    pub closed spec fn visible(&self) -> Seq<Seq<bool>> {
        cells(self.in_fov@)
    }

    /// Number of columns.
    pub open spec fn spec_width(&self) -> int {
        self.visible().len() as int
    }

    /// Number of rows.
    pub open spec fn spec_height(&self) -> int {
        self.visible()[0].len() as int
    }

    /// The three grids are rectangular and of one size.
    pub open spec fn wf(&self) -> bool {
        &&& rectangular(self.visible())
        &&& has_size(self.transparent(), self.spec_width(), self.spec_height())
        &&& has_size(self.walkable(), self.spec_width(), self.spec_height())
    }

    /// `(x, y)` is a tile of this grid.
    pub open spec fn contains(&self, x: int, y: int) -> bool {
        inside(self.visible(), x, y)
    }

    /// The grid says of every tile what the map says: sight passes where
    /// the tile does not block sight, and one can walk where it is not
    /// blocked.
    pub open spec fn mirrors(&self, tiles: Seq<Seq<Tile>>) -> bool {
        &&& has_size(tiles, self.spec_width(), self.spec_height())
        &&& forall|x: int, y: int|
            self.contains(x, y) ==> (#[trigger] self.transparent()[x][y])
                == !tiles[x][y].block_sight
        &&& forall|x: int, y: int|
            self.contains(x, y) ==> (#[trigger] self.walkable()[x][y]) == !tiles[x][y].blocked
    }

    /// A grid of the given size on which nothing is transparent, walkable
    /// or in view.
    pub fn new(width: i32, height: i32) -> (made: FovMap)
        requires
            0 < width,
            0 < height,
        ensures
            made.wf(),
            made.spec_width() == width,
            made.spec_height() == height,
            forall|x: int, y: int|
                made.contains(x, y) ==> !(#[trigger] made.transparent()[x][y]),
            forall|x: int, y: int| made.contains(x, y) ==> !(#[trigger] made.walkable()[x][y]),
            forall|x: int, y: int| made.contains(x, y) ==> !(#[trigger] made.visible()[x][y]),
    {
        FovMap {
            transparent: filled(width, height, false),
            walkable: filled(width, height, false),
            in_fov: filled(width, height, false),
        }
    }

    /// Width and height.
    pub fn size(&self) -> (s: (i32, i32))
        requires
            self.wf(),
        ensures
            s.0 == self.spec_width(),
            s.1 == self.spec_height(),
    {
        (self.in_fov.len() as i32, self.in_fov[0].len() as i32)
    }

    /// Whether `(x, y)` is a tile of this grid.
    pub fn in_bounds(&self, x: i32, y: i32) -> (b: bool)
        requires
            self.wf(),
        ensures
            b == self.contains(x as int, y as int),
    {
        let (width, height) = self.size();
        0 <= x && x < width && 0 <= y && y < height
    }

    /// Says of the tile at `(x, y)` whether sight passes and whether one
    /// can walk there.
    pub fn set(&mut self, x: i32, y: i32, transparent: bool, walkable: bool)
        requires
            old(self).wf(),
            old(self).contains(x as int, y as int),
        ensures
            final(self).wf(),
            final(self).visible() == old(self).visible(),
            final(self).transparent() == old(self).transparent().update(
                x as int,
                old(self).transparent()[x as int].update(y as int, transparent),
            ),
            final(self).walkable() == old(self).walkable().update(
                x as int,
                old(self).walkable()[x as int].update(y as int, walkable),
            ),
    {
        assert(self.transparent()[x as int].len() == self.spec_height());
        assert(self.walkable()[x as int].len() == self.spec_height());
        self.transparent[x as usize][y as usize] = transparent;
        self.walkable[x as usize][y as usize] = walkable;
        assert(self.transparent() =~~= old(self).transparent().update(
            x as int,
            old(self).transparent()[x as int].update(y as int, transparent),
        ));
        assert(self.walkable() =~~= old(self).walkable().update(
            x as int,
            old(self).walkable()[x as int].update(y as int, walkable),
        ));
    }

    /// Whether sight passes through the tile at `(x, y)`.
    pub fn is_transparent(&self, x: i32, y: i32) -> (b: bool)
        requires
            self.wf(),
            self.contains(x as int, y as int),
        ensures
            b == self.transparent()[x as int][y as int],
    {
        assert(self.transparent()[x as int].len() == self.spec_height());
        self.transparent[x as usize][y as usize]
    }

    /// Whether one can walk on the tile at `(x, y)`.
    pub fn is_walkable(&self, x: i32, y: i32) -> (b: bool)
        requires
            self.wf(),
            self.contains(x as int, y as int),
        ensures
            b == self.walkable()[x as int][y as int],
    {
        assert(self.walkable()[x as int].len() == self.spec_height());
        self.walkable[x as usize][y as usize]
    }

    /// Whether the tile at `(x, y)` was in view when the oracle last
    /// answered.
    pub fn is_in_fov(&self, x: i32, y: i32) -> (b: bool)
        requires
            self.wf(),
            self.contains(x as int, y as int),
        ensures
            b == self.visible()[x as int][y as int],
    {
        assert(self.visible()[x as int].len() == self.spec_height());
        self.in_fov[x as usize][y as usize]
    }

    /// Whether an answer of the oracle has the size of this grid.
    pub fn fits(&self, answer: &Vec<Vec<bool>>) -> (ok: bool)
        requires
            self.wf(),
        ensures
            ok == has_size(cells(answer@), self.spec_width(), self.spec_height()),
    {
        let (width, height) = self.size();
        crate::grid::has_dimensions(answer, width, height)
    }

    /// Writes down the oracle's answer: from now on a tile is in view
    /// exactly when the answer says so.
    pub fn record(&mut self, answer: Vec<Vec<bool>>)
        requires
            old(self).wf(),
            has_size(cells(answer@), old(self).spec_width(), old(self).spec_height()),
        ensures
            final(self).wf(),
            final(self).visible() == cells(answer@),
            final(self).transparent() == old(self).transparent(),
            final(self).walkable() == old(self).walkable(),
            final(self).spec_width() == old(self).spec_width(),
            final(self).spec_height() == old(self).spec_height(),
    {
        self.in_fov = answer;
    }

    /// The visibility grid for a map: it mirrors the map's walls, and
    /// nothing is in view yet.
    pub fn from_map(map: &TileMap) -> (made: FovMap)
        requires
            map.wf(),
        ensures
            made.wf(),
            made.mirrors(map@),
            forall|x: int, y: int| made.contains(x, y) ==> !(#[trigger] made.visible()[x][y]),
    {
        let width: i32 = map.width();
        let height: i32 = map.height();
        let mut fov_map = FovMap::new(width, height);
        let ghost blank = fov_map.visible();
        let mut y: i32 = 0;
        while y < height
            invariant
                0 <= y <= height,
                map.wf(),
                fov_map.wf(),
                width == map.spec_width() == fov_map.spec_width(),
                height == map.spec_height() == fov_map.spec_height(),
                fov_map.visible() == blank,
                forall|i: int, j: int|
                    0 <= i < width && 0 <= j < y ==> (#[trigger] fov_map.transparent()[i][j])
                        == !map@[i][j].block_sight,
                forall|i: int, j: int|
                    0 <= i < width && 0 <= j < y ==> (#[trigger] fov_map.walkable()[i][j])
                        == !map@[i][j].blocked,
            decreases height - y,
        {
            let mut x: i32 = 0;
            while x < width
                invariant
                    0 <= x <= width,
                    0 <= y < height,
                    map.wf(),
                    fov_map.wf(),
                    width == map.spec_width() == fov_map.spec_width(),
                    height == map.spec_height() == fov_map.spec_height(),
                    fov_map.visible() == blank,
                    forall|i: int, j: int|
                        0 <= i < width && (0 <= j < y || (j == y && i < x)) ==> (
                        #[trigger] fov_map.transparent()[i][j]) == !map@[i][j].block_sight,
                    forall|i: int, j: int|
                        0 <= i < width && (0 <= j < y || (j == y && i < x)) ==> (
                        #[trigger] fov_map.walkable()[i][j]) == !map@[i][j].blocked,
                decreases width - x,
            {
                let tile = map.tile(x, y);
                fov_map.set(x, y, !tile.block_sight, !tile.blocked);
                x += 1;
            }
            y += 1;
        }
        fov_map
    }
}

} // verus!
