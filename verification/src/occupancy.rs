//! The spatial index that knows what stands where.
//!
//! The index is the quadtree of `bevy_quadtree`, which its plugin fills from
//! the colliders of the running game. This library never looks inside it: it
//! asks one question of it, through [`region_is_empty`], and is verified for
//! either answer.

use vstd::prelude::*;
use bevy::math::{I64Vec2, Rect, U16Vec2};
use bevy_quadtree::{CollisionRect, Contain, Contained, Overlap, QOr, QuadTree};
use crate::tile::WorldPos;

verus! {

/// `bevy_quadtree::QuadTree`, carried through as an opaque value.
#[verifier::external_type_specification]
#[verifier::external_body]
pub struct ExQuadTree<const ID: usize>(QuadTree<ID>);

/// Calls `QuadTree::query` of `bevy_quadtree` with the relation
/// `QOr<(Overlap, Contain, Contained)>` and, as boundary, the axis-aligned
/// rectangle of the given size centred on `center`, and says whether the set
/// of entities that comes back is empty.
///
/// The centre and the size reach the quadtree through `I64Vec2::as_vec2` and
/// `U16Vec2::as_vec2`, that is, as the nearest values that its coordinates
/// can hold.
///
/// Nothing is claimed of the answer: it depends on the shapes that the
/// quadtree holds at the time of the call, of which this library keeps no
/// model. The sizes are unsigned because `Rect::from_center_size` panics on a
/// negative size.
#[verifier::external_body]
pub(crate) fn region_is_empty(quadtree: &QuadTree<1>, center: WorldPos, width: u16, height: u16)
    -> (empty: bool)
{
    let middle = I64Vec2::new(center.x, center.y).as_vec2();
    let size = U16Vec2::new(width, height).as_vec2();
    let boundary = CollisionRect::from(Rect::from_center_size(middle, size));
    quadtree.query::<QOr<(Overlap, Contain, Contained)>>(&boundary).is_empty()
}

} // verus!
