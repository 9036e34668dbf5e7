//! The camera controller: it follows the actor and keeps the viewport inside
//! the map.
//!
//! It runs after movement has settled, on the place at which the actor is
//! drawn at this tick. The two axes are treated alike and independently.

use vstd::prelude::*;
use crate::arith::{clamp, clamp_i64, div_floor};
use crate::map::MapBounds;
use crate::tile::WorldPos;

verus! {

/// The size of what the camera shows, in world units.
#[derive(Clone, Copy, Debug, PartialEq, Eq, Structural)]
pub struct Viewport {
    pub width: u32,
    pub height: u32,
}

/// The lowest place, on one axis, from which the camera shows nothing below
/// the map: half a viewport above the map's lower edge.
pub open spec fn camera_low(map_min: int, viewport: int) -> int {
    map_min + viewport / 2
}

/// The highest place, on one axis, from which the camera shows nothing above
/// the map: half a viewport below the map's upper edge.
pub open spec fn camera_high(map_max: int, viewport: int) -> int {
    map_max - viewport / 2
}

/// Where the camera goes on one axis: to `target`, kept between
/// [`camera_low`] and [`camera_high`]; or, where the viewport is larger than
/// the map and there is no such place, to the middle of the map.
pub open spec fn camera_axis(target: int, map_min: int, map_max: int, viewport: int) -> int {
    if camera_low(map_min, viewport) > camera_high(map_max, viewport) {
        (map_min + map_max) / 2
    } else {
        clamp(target, camera_low(map_min, viewport), camera_high(map_max, viewport))
    }
}

/// Where the camera goes on one axis.
fn track_axis(target: i64, map_min: i64, map_max: i64, viewport: u32) -> (camera: i64)
    requires
        map_min <= map_max,
    ensures
        camera == camera_axis(target as int, map_min as int, map_max as int, viewport as int),
{
    let half: i128 = (viewport / 2) as i128;
    let low: i128 = map_min as i128 + half;
    let high: i128 = map_max as i128 - half;
    if low > high {
        div_floor(map_min as i128 + map_max as i128, 2) as i64
    } else {
        clamp_i64(target as i128, low as i64, high as i64)
    }
}

/// Places the camera on the actor, as far as the map allows.
///
/// On each axis the camera goes to the actor's place, kept so far from the
/// map's edges that the viewport shows nothing outside the map. Where the
/// viewport is larger than the map on an axis, the camera goes to the middle
/// of the map on that axis.
pub fn track_camera(player: WorldPos, viewport: Viewport, map: &MapBounds) -> (camera: WorldPos)
    ensures
        camera.x == camera_axis(
            player.x as int,
            map.min().x as int,
            map.max().x as int,
            viewport.width as int,
        ),
        camera.y == camera_axis(
            player.y as int,
            map.min().y as int,
            map.max().y as int,
            viewport.height as int,
        ),
{
    proof {
        use_type_invariant(map);
        map.lemma_corners_in_order();
    }
    let low = map.min();
    let high = map.max();
    WorldPos {
        x: track_axis(player.x, low.x, high.x, viewport.width),
        y: track_axis(player.y, low.y, high.y, viewport.height),
    }
}

/// The camera stays where the viewport fits into the map, wherever the actor
/// is; where the viewport does not fit, it stands at the middle of the map.
/// Either way it stands inside the map.
pub proof fn lemma_camera_keeps_viewport_inside(target: int, map_min: int, map_max: int, viewport: int)
    requires
        map_min <= map_max,
        0 <= viewport,
    ensures
        camera_low(map_min, viewport) <= camera_high(map_max, viewport) ==> camera_low(
            map_min,
            viewport,
        ) <= camera_axis(target, map_min, map_max, viewport) <= camera_high(map_max, viewport),
        camera_low(map_min, viewport) > camera_high(map_max, viewport) ==> camera_axis(
            target,
            map_min,
            map_max,
            viewport,
        ) == (map_min + map_max) / 2,
        map_min <= camera_axis(target, map_min, map_max, viewport) <= map_max,
{
}

} // verus!
