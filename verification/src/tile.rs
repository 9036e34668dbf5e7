//! The tile grid: addresses of cells, points of the world, and the mapping
//! between the two.
//!
//! A [`Grid`] is laid over the world from an origin, which is the lower left
//! corner of the visible bounds. The cell `(x, y)` covers the world units from
//! `origin + (x, y) * tile_size` up to, but not including, the next multiple,
//! and is drawn at its centre.

use vstd::prelude::*;
use crate::arith::{clamp, clamp_i64, div_floor};

verus! {

/// Edge length of a cell of the default grid, in world units.
pub const TILE_SIZE: u16 = 32;

/// Largest distance from zero, on either axis, at which a grid's origin may lie.
///
/// With the origin inside this limit the centre of every cell that a
/// [`TilePos`] can address is a point of the world.
pub const ORIGIN_LIMIT: i64 = 0x4000_0000_0000_0000;

/// Address of a cell of the grid.
#[derive(Clone, Copy, Debug, PartialEq, Eq, Hash, Structural)]
pub struct TilePos {
    pub x: i32,
    pub y: i32,
}

/// A point of the world, in world units.
#[derive(Clone, Copy, Debug, PartialEq, Eq, Hash, Structural)]
pub struct WorldPos {
    pub x: i64,
    pub y: i64,
}

/// The part of the world that the viewport shows: its lower left and upper
/// right corners.
#[derive(Clone, Copy, Debug, PartialEq, Eq, Structural)]
pub struct VisibleBounds {
    pub min: WorldPos,
    pub max: WorldPos,
}

/// A tile grid: where its cell `(0, 0)` begins and how large a cell is.
#[derive(Clone, Copy, Debug, PartialEq, Eq)]
pub struct Grid {
    origin: WorldPos,
    tile_size: u16,
}

/// Whether a coordinate may serve as a grid's origin.
pub open spec fn within_origin_limit(c: int) -> bool {
    -ORIGIN_LIMIT <= c <= ORIGIN_LIMIT
}

/// Centre, on one axis, of the cell with index `tile`.
pub open spec fn cell_center(origin: int, tile_size: int, tile: int) -> int {
    origin + tile * tile_size + tile_size / 2
}

/// Index, on one axis, of the cell that holds the coordinate `world`, kept
/// inside the range of cell indices.
pub open spec fn cell_index(origin: int, tile_size: int, world: int) -> int {
    clamp((world - origin) / tile_size, i32::MIN as int, i32::MAX as int)
}

impl VisibleBounds {
    /// The bounds of a viewport of the given size that looks at the world's
    /// zero point: they begin half the size below it.
    pub open spec fn spec_centered(width: u32, height: u32) -> VisibleBounds {
        VisibleBounds {
            min: WorldPos { x: (-(width / 2)) as i64, y: (-(height / 2)) as i64 },
            max: WorldPos {
                x: (-(width / 2) + width) as i64,
                y: (-(height / 2) + height) as i64,
            },
        }
    }

    /// The bounds of a viewport of the given size that looks at the world's
    /// zero point: they begin half the size below it.
    #[verifier::when_used_as_spec(spec_centered)]
    pub fn centered(width: u32, height: u32) -> (bounds: VisibleBounds)
        ensures
            bounds == VisibleBounds::centered(width, height),
    {
        let min_x: i64 = -((width / 2) as i64);
        let min_y: i64 = -((height / 2) as i64);
        VisibleBounds {
            min: WorldPos { x: min_x, y: min_y },
            max: WorldPos { x: min_x + width as i64, y: min_y + height as i64 },
        }
    }
}

impl Grid {
    /// A grid has cells of at least one world unit and an origin inside
    /// [`ORIGIN_LIMIT`].
    #[verifier::type_invariant]
    pub closed spec fn wf(&self) -> bool {
        &&& self.tile_size >= 1
        &&& within_origin_limit(self.origin.x as int)
        &&& within_origin_limit(self.origin.y as int)
    }

    /// Where the cell `(0, 0)` begins.
    pub closed spec fn spec_origin(&self) -> WorldPos {
        self.origin
    }

    /// Edge length of a cell.
    pub closed spec fn spec_tile_size(&self) -> u16 {
        self.tile_size
    }

    /// Where the cell at `tile` is drawn: its centre.
    pub open spec fn tile_center(&self, tile: TilePos) -> WorldPos {
        WorldPos {
            x: cell_center(self.origin().x as int, self.tile_size() as int, tile.x as int) as i64,
            y: cell_center(self.origin().y as int, self.tile_size() as int, tile.y as int) as i64,
        }
    }

    /// The cell that holds the point `world`. A point further out than cell
    /// indices reach is given the outermost cell on that side.
    pub open spec fn tile_at(&self, world: WorldPos) -> TilePos {
        TilePos {
            x: cell_index(self.origin().x as int, self.tile_size() as int, world.x as int) as i32,
            y: cell_index(self.origin().y as int, self.tile_size() as int, world.y as int) as i32,
        }
    }

    /// The grid with the given origin and cell size, unless the cell size is
    /// zero or the origin lies outside [`ORIGIN_LIMIT`].
    pub fn new(origin: WorldPos, tile_size: u16) -> (grid: Option<Grid>)
        ensures
            grid is Some <==> tile_size >= 1 && within_origin_limit(origin.x as int)
                && within_origin_limit(origin.y as int),
            grid matches Some(g) ==> g.wf() && g.origin() == origin && g.tile_size()
                == tile_size,
    {
        if tile_size >= 1 && -ORIGIN_LIMIT <= origin.x && origin.x <= ORIGIN_LIMIT
            && -ORIGIN_LIMIT <= origin.y && origin.y <= ORIGIN_LIMIT {
            Some(Grid { origin, tile_size })
        } else {
            None
        }
    }

    /// The grid of [`TILE_SIZE`] cells whose origin is the lower left corner
    /// of a window of the given size centred on the world's zero point.
    pub fn for_window(width: u32, height: u32) -> (grid: Grid)
        ensures
            grid.wf(),
            grid.origin() == VisibleBounds::centered(width, height).min,
            grid.tile_size() == TILE_SIZE,
    {
        let bounds = VisibleBounds::centered(width, height);
        Grid { origin: bounds.min, tile_size: TILE_SIZE }
    }

    /// Where the cell `(0, 0)` begins.
    #[verifier::when_used_as_spec(spec_origin)]
    pub fn origin(&self) -> (origin: WorldPos)
        ensures
            origin == self.origin(),
    {
        self.origin
    }

    /// Edge length of a cell.
    #[verifier::when_used_as_spec(spec_tile_size)]
    pub fn tile_size(&self) -> (size: u16)
        ensures
            size == self.tile_size(),
            size >= 1,
    {
        proof {
            use_type_invariant(self);
        }
        self.tile_size
    }
}

/// Centre of one cell on one axis.
fn axis_center(origin: i64, tile_size: u16, tile: i32) -> (world: i64)
    requires
        tile_size >= 1,
        within_origin_limit(origin as int),
    ensures
        world == cell_center(origin as int, tile_size as int, tile as int),
{
    proof {
        lemma_center_in_world(origin as int, tile_size as int, tile as int);
    }
    let offset: i64 = (tile as i64) * (tile_size as i64);
    origin + offset + (tile_size / 2) as i64
}

/// Cell index of one coordinate on one axis.
fn axis_index(origin: i64, tile_size: u16, world: i64) -> (tile: i32)
    requires
        tile_size >= 1,
    ensures
        tile == cell_index(origin as int, tile_size as int, world as int),
{
    let distance: i128 = world as i128 - origin as i128;
    let cell: i128 = div_floor(distance, tile_size as i128);
    clamp_i64(cell, i32::MIN as i64, i32::MAX as i64) as i32
}

/// World position at which the cell `tile_pos` of `grid` is drawn.
pub fn get_tile_to_world(tile_pos: TilePos, grid: &Grid) -> (world: WorldPos)
    ensures
        world == grid.tile_center(tile_pos),
{
    proof {
        use_type_invariant(grid);
    }
    WorldPos {
        x: axis_center(grid.origin.x, grid.tile_size, tile_pos.x),
        y: axis_center(grid.origin.y, grid.tile_size, tile_pos.y),
    }
}

/// Cell of `grid` in which the world position `world_pos` lies.
pub fn get_world_to_tile(world_pos: WorldPos, grid: &Grid) -> (tile: TilePos)
    ensures
        tile == grid.tile_at(world_pos),
{
    proof {
        use_type_invariant(grid);
    }
    TilePos {
        x: axis_index(grid.origin.x, grid.tile_size, world_pos.x),
        y: axis_index(grid.origin.y, grid.tile_size, world_pos.y),
    }
}

/// On one axis, the cell that holds a cell's centre is that cell.
pub proof fn lemma_axis_round_trip(origin: int, tile_size: int, tile: int)
    requires
        tile_size >= 1,
        i32::MIN <= tile <= i32::MAX,
    ensures
        cell_index(origin, tile_size, cell_center(origin, tile_size, tile)) == tile,
{
    let half: int = tile_size / 2;
    let distance: int = cell_center(origin, tile_size, tile) - origin;
    assert(distance == tile * tile_size + half);
    vstd::arithmetic::div_mod::lemma_fundamental_div_mod_converse(distance, tile_size, tile, half);
}

/// Mapping a cell to the world and the result back to the grid gives the cell
/// again, for every cell of every grid.
pub proof fn lemma_tile_round_trip(grid: Grid, tile: TilePos)
    requires
        grid.wf(),
    ensures
        grid.tile_at(grid.tile_center(tile)) == tile,
{
    lemma_center_in_world(grid.origin.x as int, grid.tile_size as int, tile.x as int);
    lemma_center_in_world(grid.origin.y as int, grid.tile_size as int, tile.y as int);
    lemma_axis_round_trip(grid.origin.x as int, grid.tile_size as int, tile.x as int);
    lemma_axis_round_trip(grid.origin.y as int, grid.tile_size as int, tile.y as int);
}

/// The centre of an addressable cell of a valid grid is a world coordinate.
pub proof fn lemma_center_in_world(origin: int, tile_size: int, tile: int)
    requires
        1 <= tile_size <= u16::MAX,
        within_origin_limit(origin),
        i32::MIN <= tile <= i32::MAX,
    ensures
        i64::MIN <= cell_center(origin, tile_size, tile) <= i64::MAX,
        -0x8000_0000_0000 <= tile * tile_size < 0x8000_0000_0000,
        -ORIGIN_LIMIT - 0x8000_0000_0000 <= cell_center(origin, tile_size, tile) <= ORIGIN_LIMIT
            + 0x8000_0000_0000,
{
    assert(-0x8000_0000 * 0xffff <= tile * tile_size <= 0x8000_0000 * 0xffff)
        by (nonlinear_arith)
        requires
            1 <= tile_size <= 0xffff,
            -0x8000_0000 <= tile <= 0x7fff_ffff,
    ;
}

} // verus!
