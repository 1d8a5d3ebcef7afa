//! From what is in view to what is drawn and what is remembered.

use vstd::prelude::*;
use crate::fov::FovMap;
use crate::grid::{cells, has_size};
use crate::map::{Tile, TileMap};
use crate::object::{all_inside, Color, Glyph, Object};

verus! {

/// The four ways to paint a tile.
#[derive(Clone, Copy, Debug, PartialEq, Eq, Structural)]
pub enum DrawClass {
    DarkWall,
    DarkGround,
    LightWall,
    LightGround,
}

/// How a tile is painted: lit when it is in view and dark when it is only
/// remembered, as a wall when it blocks sight and as ground when not.
pub open spec fn class_of(visible: bool, wall: bool) -> DrawClass {
    match (visible, wall) {
        (false, true) => DrawClass::DarkWall,
        (false, false) => DrawClass::DarkGround,
        (true, true) => DrawClass::LightWall,
        (true, false) => DrawClass::LightGround,
    }
}

/// How a tile is painted.
pub fn classify(visible: bool, wall: bool) -> (class: DrawClass)
    ensures
        class == class_of(visible, wall),
{
    match (visible, wall) {
        (false, true) => DrawClass::DarkWall,
        (false, false) => DrawClass::DarkGround,
        (true, true) => DrawClass::LightWall,
        (true, false) => DrawClass::LightGround,
    }
}

impl DrawClass {
    /// The background colour of a tile of this class.
    pub open spec fn spec_color(self) -> Color {
        match self {
            DrawClass::DarkWall => Color { r: 0, g: 0, b: 100 },
            DrawClass::LightWall => Color { r: 130, g: 110, b: 50 },
            DrawClass::DarkGround => Color { r: 50, g: 50, b: 150 },
            DrawClass::LightGround => Color { r: 200, g: 180, b: 50 },
        }
    }

    /// The background colour of a tile of this class.
    pub fn color(self) -> (c: Color)
        ensures
            c == self.spec_color(),
    {
        match self {
            DrawClass::DarkWall => Color { r: 0, g: 0, b: 100 },
            DrawClass::LightWall => Color { r: 130, g: 110, b: 50 },
            DrawClass::DarkGround => Color { r: 50, g: 50, b: 150 },
            DrawClass::LightGround => Color { r: 200, g: 180, b: 50 },
        }
    }
}

/// What one frame puts on the screen.
#[derive(Clone, Debug, PartialEq, Eq)]
pub struct Frame {
    /// Per tile, how to paint its background, or `None` for a tile that
    /// is left alone because it has never been seen. The whole grid is
    /// absent when the field of view has not changed: then the
    /// backgrounds of the frame before still stand.
    pub backgrounds: Option<Vec<Vec<Option<DrawClass>>>>,
    /// The characters of the entities in view, in store order.
    pub glyphs: Vec<Glyph>,
}

/// The tiles after a fresh look around: what is in view has been seen,
/// and nothing else has changed.
pub open spec fn revealed(tiles: Seq<Seq<Tile>>, visible: Seq<Seq<bool>>) -> Seq<Seq<Tile>> {
    Seq::new(
        tiles.len(),
        |x: int|
            Seq::new(
                tiles[x].len(),
                |y: int|
                    if visible[x][y] {
                        tiles[x][y].seen()
                    } else {
                        tiles[x][y]
                    },
            ),
    )
}

/// How one tile is painted after a fresh look around: by its class if it
/// is in view or has been seen before, and not at all otherwise.
pub open spec fn background_of(tile: Tile, visible: bool) -> Option<DrawClass> {
    if visible || tile.explored {
        Some(class_of(visible, tile.block_sight))
    } else {
        None
    }
}

/// How every tile is painted after a fresh look around.
pub open spec fn backgrounds_of(tiles: Seq<Seq<Tile>>, visible: Seq<Seq<bool>>) -> Seq<
    Seq<Option<DrawClass>>,
> {
    Seq::new(
        tiles.len(),
        |x: int| Seq::new(tiles[x].len(), |y: int| background_of(tiles[x][y], visible[x][y])),
    )
}

/// An entity's character if its tile is in view, and nothing otherwise.
pub open spec fn shown(visible: Seq<Seq<bool>>) -> spec_fn(Object) -> Option<Glyph> {
    |o: Object|
        if visible[o.x as int][o.y as int] {
            Some(o.drawn())
        } else {
            None
        }
}

/// The characters of the entities in view, in store order.
pub open spec fn glyphs_of(objects: Seq<Object>, visible: Seq<Seq<bool>>) -> Seq<Glyph> {
    objects.filter_map(shown(visible))
}

/// Marks every tile in view as explored and says how each tile is painted.
fn mark_visible(map: &mut TileMap, fov_map: &FovMap) -> (backgrounds: Vec<Vec<Option<DrawClass>>>)
    requires
        old(map).wf(),
        fov_map.wf(),
        has_size(old(map)@, fov_map.spec_width(), fov_map.spec_height()),
    ensures
        final(map).wf(),
        final(map)@ == revealed(old(map)@, fov_map.visible()),
        cells(backgrounds@) == backgrounds_of(old(map)@, fov_map.visible()),
{
    let ghost before = map@;
    let ghost visible = fov_map.visible();
    let width: i32 = map.width();
    let height: i32 = map.height();
    let mut backgrounds: Vec<Vec<Option<DrawClass>>> = Vec::new();
    let mut x: i32 = 0;
    while x < width
        invariant
            0 <= x <= width,
            map.wf(),
            fov_map.wf(),
            visible == fov_map.visible(),
            has_size(before, width as int, height as int),
            has_size(map@, width as int, height as int),
            width == fov_map.spec_width(),
            height == fov_map.spec_height(),
            forall|i: int, j: int|
                0 <= i < width && 0 <= j < height ==> (#[trigger] map@[i][j]) == if i < x {
                    revealed(before, visible)[i][j]
                } else {
                    before[i][j]
                },
            backgrounds@.len() == x,
            forall|i: int| 0 <= i < x ==> (#[trigger] backgrounds@[i])@.len() == height,
            forall|i: int, j: int|
                0 <= i < x && 0 <= j < height ==> (#[trigger] backgrounds@[i]@[j]) == background_of(
                    before[i][j],
                    visible[i][j],
                ),
        decreases width - x,
    {
        let mut column: Vec<Option<DrawClass>> = Vec::new();
        let mut y: i32 = 0;
        while y < height
            invariant
                0 <= x < width,
                0 <= y <= height,
                map.wf(),
                fov_map.wf(),
                visible == fov_map.visible(),
                has_size(before, width as int, height as int),
                has_size(map@, width as int, height as int),
                width == fov_map.spec_width(),
                height == fov_map.spec_height(),
                forall|i: int, j: int|
                    0 <= i < width && 0 <= j < height ==> (#[trigger] map@[i][j]) == if i < x || (i
                        == x && j < y) {
                        revealed(before, visible)[i][j]
                    } else {
                        before[i][j]
                    },
                column@.len() == y,
                forall|j: int|
                    0 <= j < y ==> (#[trigger] column@[j]) == background_of(
                        before[x as int][j],
                        visible[x as int][j],
                    ),
            decreases height - y,
        {
            let in_view = fov_map.is_in_fov(x, y);
            let wall = map.tile(x, y).block_sight;
            let class = classify(in_view, wall);
            if in_view {
                map.mark_explored(x, y);
            }
            if map.tile(x, y).explored {
                column.push(Some(class));
            } else {
                column.push(None);
            }
            y += 1;
        }
        backgrounds.push(column);
        x += 1;
    }
    assert(map@ =~~= revealed(before, visible));
    assert(cells(backgrounds@) =~~= backgrounds_of(before, visible));
    backgrounds
}

/// Works out one frame. A fresh answer of the field-of-view oracle, if
/// there is one, is written down first; every tile it puts in view is
/// marked as explored, and every tile that has been explored gets its
/// background. Without a fresh answer the map and the backgrounds are
/// left as they are. Either way the entities that stand in view are drawn.
pub fn render_all(
    objects: &[Object],
    map: &mut TileMap,
    fov_map: &mut FovMap,
    fresh: Option<Vec<Vec<bool>>>,
) -> (frame: Frame)
    requires
        old(map).wf(),
        old(fov_map).wf(),
        has_size(old(map)@, old(fov_map).spec_width(), old(fov_map).spec_height()),
        fresh matches Some(answer) ==> has_size(
            cells(answer@),
            old(fov_map).spec_width(),
            old(fov_map).spec_height(),
        ),
        all_inside(objects@, old(map)@),
    ensures
        final(fov_map).wf(),
        final(fov_map).transparent() == old(fov_map).transparent(),
        final(fov_map).walkable() == old(fov_map).walkable(),
        final(fov_map).visible() == match fresh {
            Some(answer) => cells(answer@),
            None => old(fov_map).visible(),
        },
        final(map).wf(),
        final(map).extends(old(map)),
        final(map)@ == match fresh {
            Some(_) => revealed(old(map)@, final(fov_map).visible()),
            None => old(map)@,
        },
        match frame.backgrounds {
            Some(painted) => fresh is Some && cells(painted@) == backgrounds_of(
                old(map)@,
                final(fov_map).visible(),
            ),
            None => fresh is None,
        },
        frame.glyphs@ == glyphs_of(objects@, final(fov_map).visible()),
{
    let backgrounds = match fresh {
        Some(answer) => {
            fov_map.record(answer);
            Some(mark_visible(map, fov_map))
        },
        None => None,
    };
    let ghost visible = fov_map.visible();
    let mut glyphs: Vec<Glyph> = Vec::new();
    let mut i: usize = 0;
    while i < objects.len()
        invariant
            i <= objects@.len(),
            fov_map.wf(),
            visible == fov_map.visible(),
            forall|k: int|
                0 <= k < objects@.len() ==> fov_map.contains(
                    (#[trigger] objects@[k]).x as int,
                    objects@[k].y as int,
                ),
            glyphs@ == objects@.take(i as int).filter_map(shown(visible)),
        decreases objects@.len() - i,
    {
        proof {
            objects@.lemma_filter_map_take_succ(shown(visible), i as int);
        }
        if fov_map.is_in_fov(objects[i].x, objects[i].y) {
            glyphs.push(objects[i].draw());
        }
        i += 1;
    }
    assert(objects@.take(objects@.len() as int) =~= objects@);
    Frame { backgrounds, glyphs }
}

} // verus!
