//! The extent of the loaded map in the world.

use vstd::prelude::*;
use crate::tile::WorldPos;

verus! {

/// The rectangle of the world that the map covers, by its lower left and
/// upper right corners.
#[derive(Clone, Copy, Debug, PartialEq, Eq)]
pub struct MapBounds {
    min: WorldPos,
    max: WorldPos,
}

/// Lower edge, on one axis, of a map of `cells` cells of `cell_size` world
/// units whose middle lies at `center`.
pub open spec fn map_low(center: int, cells: int, cell_size: int) -> int {
    center - cells * cell_size / 2
}

/// Upper edge, on one axis, of that map.
pub open spec fn map_high(center: int, cells: int, cell_size: int) -> int {
    map_low(center, cells, cell_size) + cells * cell_size
}

/// Whether both edges of that map, on one axis, are coordinates of the world.
pub open spec fn map_axis_fits(center: int, cells: int, cell_size: int) -> bool {
    i64::MIN <= map_low(center, cells, cell_size) && map_high(center, cells, cell_size)
        <= i64::MAX
}

impl MapBounds {
    /// On each axis the lower corner is not above the upper one.
    #[verifier::type_invariant]
    pub closed spec fn wf(&self) -> bool {
        self.min.x <= self.max.x && self.min.y <= self.max.y
    }

    /// The lower left corner.
    pub closed spec fn spec_min(&self) -> WorldPos {
        self.min
    }

    /// The upper right corner.
    pub closed spec fn spec_max(&self) -> WorldPos {
        self.max
    }

    /// The bounds with the given corners, unless `min` lies above `max` on
    /// some axis.
    pub fn new(min: WorldPos, max: WorldPos) -> (bounds: Option<MapBounds>)
        ensures
            bounds is Some <==> min.x <= max.x && min.y <= max.y,
            bounds matches Some(b) ==> b.wf() && b.min() == min && b.max() == max,
    {
        if min.x <= max.x && min.y <= max.y {
            Some(MapBounds { min, max })
        } else {
            None
        }
    }

    /// The bounds of a map of `columns` by `rows` cells, each `cell_width` by
    /// `cell_height` world units, whose middle lies at `center`; `None` where
    /// a corner would lie outside the world.
    pub fn around(center: WorldPos, columns: u32, rows: u32, cell_width: u16, cell_height: u16)
        -> (bounds: Option<MapBounds>)
        ensures
            bounds is Some <==> map_axis_fits(center.x as int, columns as int, cell_width as int)
                && map_axis_fits(center.y as int, rows as int, cell_height as int),
            bounds matches Some(b) ==> {
                &&& b.wf()
                &&& b.min().x == map_low(center.x as int, columns as int, cell_width as int)
                &&& b.min().y == map_low(center.y as int, rows as int, cell_height as int)
                &&& b.max().x == map_high(center.x as int, columns as int, cell_width as int)
                &&& b.max().y == map_high(center.y as int, rows as int, cell_height as int)
            },
    {
        match (axis_extent(center.x, columns, cell_width), axis_extent(center.y, rows, cell_height)) {
            (Some(x), Some(y)) => Some(
                MapBounds { min: WorldPos { x: x.0, y: y.0 }, max: WorldPos { x: x.1, y: y.1 } },
            ),
            _ => None,
        }
    }

    /// The lower left corner.
    #[verifier::when_used_as_spec(spec_min)]
    pub fn min(&self) -> (min: WorldPos)
        ensures
            min == self.min(),
    {
        self.min
    }

    /// The upper right corner.
    #[verifier::when_used_as_spec(spec_max)]
    pub fn max(&self) -> (max: WorldPos)
        ensures
            max == self.max(),
    {
        self.max
    }

    /// A valid map's corners are in order.
    pub proof fn lemma_corners_in_order(&self)
        requires
            self.wf(),
        ensures
            self.min().x <= self.max().x,
            self.min().y <= self.max().y,
    {
    }
}

/// Both edges of the map on one axis, where they are coordinates of the world.
fn axis_extent(center: i64, cells: u32, cell_size: u16) -> (edges: Option<(i64, i64)>)
    ensures
        edges is Some <==> map_axis_fits(center as int, cells as int, cell_size as int),
        edges matches Some(e) ==> e.0 == map_low(center as int, cells as int, cell_size as int)
            && e.1 == map_high(center as int, cells as int, cell_size as int) && e.0 <= e.1,
{
    assert(0 <= cells * cell_size <= 0xffff_ffff * 0xffff) by (nonlinear_arith)
        requires
            0 <= cells <= 0xffff_ffff,
            0 <= cell_size <= 0xffff,
    ;
    let extent: i128 = (cells as i128) * (cell_size as i128);
    let low: i128 = center as i128 - extent / 2;
    let high: i128 = low + extent;
    if low >= i64::MIN as i128 && high <= i64::MAX as i128 {
        Some((low as i64, high as i64))
    } else {
        None
    }
}

} // verus!
