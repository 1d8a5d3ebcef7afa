//! Shapes of nested vectors that are used as two-dimensional grids.
//!
//! A grid is stored column by column: `g[x][y]` is the cell in column `x`,
//! row `y`.

use vstd::prelude::*;

verus! {

/// The grid held by a vector of columns, as nested sequences.
pub open spec fn cells<T>(columns: Seq<Vec<T>>) -> Seq<Seq<T>> {
    Seq::new(columns.len(), |x: int| columns[x]@)
}

/// The grid has exactly `width` columns of `height` cells each.
pub open spec fn has_size<T>(g: Seq<Seq<T>>, width: int, height: int) -> bool {
    &&& g.len() == width
    &&& forall|x: int| 0 <= x < g.len() ==> (#[trigger] g[x]).len() == height
}

/// The grid has at least one cell, all its columns are equally long, and
/// both of its dimensions can be held in an `i32`.
pub open spec fn rectangular<T>(g: Seq<Seq<T>>) -> bool {
    &&& 0 < g.len() <= i32::MAX
    &&& 0 < g[0].len() <= i32::MAX
    &&& has_size(g, g.len() as int, g[0].len() as int)
}

/// `(x, y)` names a cell of the grid.
pub open spec fn inside<T>(g: Seq<Seq<T>>, x: int, y: int) -> bool {
    0 <= x < g.len() && 0 <= y < g[0].len()
}

/// Decides whether a vector of columns is a rectangular grid.
pub fn is_rectangular<T>(columns: &Vec<Vec<T>>) -> (ok: bool)
    ensures
        ok == rectangular(cells(columns@)),
{
    let width: usize = columns.len();
    if width == 0 || width > i32::MAX as usize {
        return false;
    }
    let height: usize = columns[0].len();
    if height == 0 || height > i32::MAX as usize {
        return false;
    }
    let mut x: usize = 1;
    while x < width
        invariant
            1 <= x <= width,
            width == columns@.len(),
            height == columns@[0]@.len(),
            forall|k: int| 0 <= k < x ==> (#[trigger] cells(columns@)[k]).len() == height,
        decreases width - x,
    {
        if columns[x].len() != height {
            assert(cells(columns@)[x as int].len() != height);
            return false;
        }
        x += 1;
    }
    true
}

/// Decides whether a vector of columns is a grid of the given size.
pub fn has_dimensions<T>(columns: &Vec<Vec<T>>, width: i32, height: i32) -> (ok: bool)
    ensures
        ok == has_size(cells(columns@), width as int, height as int),
{
    if width < 0 || columns.len() != width as usize {
        return false;
    }
    let mut x: usize = 0;
    while x < columns.len()
        invariant
            x <= columns@.len(),
            columns@.len() == width,
            forall|k: int| 0 <= k < x ==> (#[trigger] cells(columns@)[k]).len() == height,
        decreases columns@.len() - x,
    {
        if height < 0 || columns[x].len() != height as usize {
            assert(cells(columns@)[x as int].len() != height);
            return false;
        }
        x += 1;
    }
    true
}

/// A grid of the given size with the same value in every cell.
pub fn filled<T: Copy>(width: i32, height: i32, value: T) -> (columns: Vec<Vec<T>>)
    requires
        0 <= width,
        0 <= height,
    ensures
        has_size(cells(columns@), width as int, height as int),
        forall|x: int, y: int|
            0 <= x < width && 0 <= y < height ==> (#[trigger] cells(columns@)[x][y]) == value,
{
    let mut columns: Vec<Vec<T>> = Vec::new();
    let mut x: i32 = 0;
    while x < width
        invariant
            0 <= x <= width,
            0 <= height,
            columns@.len() == x,
            forall|k: int| 0 <= k < x ==> (#[trigger] columns@[k])@.len() == height,
            forall|k: int, y: int|
                0 <= k < x && 0 <= y < height ==> (#[trigger] columns@[k]@[y]) == value,
        decreases width - x,
    {
        let mut column: Vec<T> = Vec::new();
        let mut y: i32 = 0;
        while y < height
            invariant
                0 <= y <= height,
                column@.len() == y,
                forall|k: int| 0 <= k < y ==> (#[trigger] column@[k]) == value,
            decreases height - y,
        {
            column.push(value);
            y += 1;
        }
        columns.push(column);
        x += 1;
    }
    columns
}

} // verus!
