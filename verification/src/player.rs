//! The movement controller: from held directions to a move from one cell to
//! the next, and from elapsed time to the actor's place along that move.
//!
//! An actor is idle or moving. While it is idle, [`start_movement`] may begin
//! a move; while it moves, [`handle_movement`] advances the move and, at its
//! end, writes the new cell into the [`Player`] and leaves the actor idle
//! again. A move under way is never redirected or cut short.

use vstd::prelude::*;
use vstd::arithmetic::div_mod::{lemma_div_is_ordered, lemma_div_multiples_vanish};
use bevy_quadtree::QuadTree;
use crate::actions::InputSnapshot;
use crate::arith::{clamp, clamp_i64, div_floor, min_int};
use crate::map::MapBounds;
use crate::occupancy::region_is_empty;
use crate::tile::{get_tile_to_world, get_world_to_tile, Grid, TilePos, WorldPos};

verus! {

/// The progress of a finished move. Progress counts in millionths of a move.
pub const PROGRESS_ONE: u32 = 1_000_000;

/// Nanoseconds in a second.
pub const NANOS_PER_SECOND: u64 = 1_000_000_000;

/// Progress gained per second by a move along one axis: eight moves a second.
pub const VELOCITY: u32 = 8_000_000;

/// Progress gained per second by a diagonal move: [`VELOCITY`] divided by the
/// square root of two and rounded down, so that the actor covers the same
/// ground per second on the longer diagonal path.
pub const DIAGONAL_VELOCITY: u32 = 5_656_854;

/// Edge length of the square, centred on a move's destination, that has to be
/// free of occupants for the move to begin.
pub const PROBE_SIZE: u16 = 15;

/// A place in the world together with its layer.
#[derive(Clone, Copy, Debug, PartialEq, Eq, Structural)]
pub struct Place {
    pub x: i64,
    pub y: i64,
    pub z: i64,
}

/// Where the actor stands: its cell and its layer. Only the end of a move
/// changes the cell.
#[derive(Clone, Copy, Debug, PartialEq, Eq, Structural)]
pub struct Player {
    pub tile_position: TilePos,
    pub z: i64,
}

/// The number of cells to go on each axis: -1, 0 or 1.
#[derive(Clone, Copy, Debug, PartialEq, Eq, Structural)]
pub struct Direction {
    pub x: i8,
    pub y: i8,
}

/// A move that the held directions ask for: from where, to where, and how
/// much progress it gains per second.
#[derive(Clone, Copy, Debug, PartialEq, Eq, Structural)]
pub struct MovePlan {
    pub start: Place,
    pub target: Place,
    pub speed: u32,
}

/// A move under way. Its progress runs from zero to [`PROGRESS_ONE`].
#[derive(Clone, Copy, Debug, PartialEq, Eq)]
pub struct Movement {
    plan: MovePlan,
    progress: u32,
}

/// What one tick made of a move.
#[derive(Clone, Copy, Debug, PartialEq, Eq)]
pub struct MovementStep {
    /// Where the actor is to be drawn.
    pub place: Place,
    /// The move, if it goes on; `None` once it has finished.
    pub movement: Option<Movement>,
    /// The actor's position, with the new cell once the move has finished.
    pub player: Player,
}

/// The step that the held directions add up to. Opposite directions cancel.
pub open spec fn direction_of(input: InputSnapshot) -> Direction {
    Direction {
        x: ((if input.right { 1int } else { 0 }) - (if input.left { 1int } else { 0 })) as i8,
        y: ((if input.forward { 1int } else { 0 }) - (if input.backward { 1int } else { 0 })) as i8,
    }
}

/// Progress per second of a move, by whether it goes along both axes.
pub open spec fn speed_of(direction: Direction) -> u32 {
    if direction.x != 0 && direction.y != 0 {
        DIAGONAL_VELOCITY
    } else {
        VELOCITY
    }
}

/// The move that `input` asks of an idle actor at `player`: one cell in the
/// held direction, from the centre of the actor's cell, with the destination
/// kept inside the map. `None` where the directions add up to no step.
pub open spec fn planned_movement(player: Player, input: InputSnapshot, grid: Grid, map: MapBounds)
    -> Option<MovePlan> {
    let direction = direction_of(input);
    let start = grid.tile_center(player.tile_position);
    if direction.x == 0 && direction.y == 0 {
        None
    } else {
        Some(
            MovePlan {
                start: Place { x: start.x, y: start.y, z: player.z },
                target: Place {
                    x: clamp(
                        start.x + direction.x * grid.tile_size(),
                        map.min().x as int,
                        map.max().x as int,
                    ) as i64,
                    y: clamp(
                        start.y + direction.y * grid.tile_size(),
                        map.min().y as int,
                        map.max().y as int,
                    ) as i64,
                    z: player.z,
                },
                speed: speed_of(direction),
            },
        )
    }
}

/// Progress of a move after `elapsed_ns` more nanoseconds at `speed`: it grows
/// by the elapsed seconds times the speed and stops at [`PROGRESS_ONE`].
pub open spec fn progress_after(progress: int, elapsed_ns: int, speed: int) -> int {
    min_int(PROGRESS_ONE as int, progress + elapsed_ns * speed / (NANOS_PER_SECOND as int))
}

/// The coordinate at `progress` on the straight line from `from` to `to`.
pub open spec fn lerp(from: int, to: int, progress: int) -> int {
    from + (to - from) * progress / (PROGRESS_ONE as int)
}

/// The place at `progress` on the straight line from `from` to `to`.
pub open spec fn lerp_place(from: Place, to: Place, progress: int)
    -> Place {
    Place {
        x: lerp(from.x as int, to.x as int, progress) as i64,
        y: lerp(from.y as int, to.y as int, progress) as i64,
        z: lerp(from.z as int, to.z as int, progress) as i64,
    }
}

impl Place {
    /// The place without its layer.
    pub open spec fn spec_position(&self) -> WorldPos {
        WorldPos { x: self.x, y: self.y }
    }

    /// The place without its layer.
    #[verifier::when_used_as_spec(spec_position)]
    pub fn position(&self) -> (position: WorldPos)
        ensures
            position == self.position(),
    {
        WorldPos { x: self.x, y: self.y }
    }
}

impl Movement {
    /// The progress of a move never exceeds [`PROGRESS_ONE`].
    #[verifier::type_invariant]
    pub closed spec fn wf(&self) -> bool {
        self.progress <= PROGRESS_ONE
    }

    /// What the move was begun with.
    pub closed spec fn spec_plan(&self) -> MovePlan {
        self.plan
    }

    /// How far the move has come, in millionths.
    pub closed spec fn spec_progress(&self) -> u32 {
        self.progress
    }

    /// The move `plan` at its beginning.
    pub fn begin(plan: MovePlan) -> (movement: Movement)
        ensures
            movement.wf(),
            movement.plan() == plan,
            movement.progress() == 0,
    {
        Movement { plan, progress: 0 }
    }

    /// What the move was begun with.
    #[verifier::when_used_as_spec(spec_plan)]
    pub fn plan(&self) -> (plan: MovePlan)
        ensures
            plan == self.plan(),
    {
        self.plan
    }

    /// How far the move has come, in millionths.
    #[verifier::when_used_as_spec(spec_progress)]
    pub fn progress(&self) -> (progress: u32)
        ensures
            progress == self.progress(),
            progress <= PROGRESS_ONE,
    {
        proof {
            use_type_invariant(self);
        }
        self.progress
    }

    /// A move's progress lies between zero and [`PROGRESS_ONE`].
    pub proof fn lemma_progress_in_range(&self)
        requires
            self.wf(),
        ensures
            0 <= self.progress() <= PROGRESS_ONE,
    {
    }
}

/// The step that the held directions add up to.
pub fn input_direction(input: &InputSnapshot) -> (direction: Direction)
    ensures
        direction == direction_of(*input),
        -1 <= direction.x <= 1,
        -1 <= direction.y <= 1,
{
    let mut x: i8 = 0;
    let mut y: i8 = 0;
    if input.forward {
        y = y + 1;
    }
    if input.backward {
        y = y - 1;
    }
    if input.left {
        x = x - 1;
    }
    if input.right {
        x = x + 1;
    }
    Direction { x, y }
}

/// One coordinate of a move's destination: a cell further in the direction,
/// kept between the map's edges.
fn axis_target(start: i64, step: i8, tile_size: u16, low: i64, high: i64) -> (target: i64)
    requires
        -1 <= step <= 1,
        low <= high,
    ensures
        target == clamp(start + step * tile_size, low as int, high as int),
{
    assert(step * tile_size == if step == 0 {
        0int
    } else if step == 1 {
        tile_size as int
    } else {
        -(tile_size as int)
    }) by (nonlinear_arith)
        requires
            -1 <= step <= 1,
    ;
    let wanted: i128 = start as i128 + (step as i128) * (tile_size as i128);
    clamp_i64(wanted, low, high)
}

/// The move that `input` asks of an idle actor at `player`, before anything
/// is known of what stands at its destination.
pub fn plan_movement(player: &Player, input: &InputSnapshot, grid: &Grid, map: &MapBounds)
    -> (plan: Option<MovePlan>)
    ensures
        plan == planned_movement(*player, *input, *grid, *map),
{
    let direction = input_direction(input);
    if direction.x == 0 && direction.y == 0 {
        return None;
    }
    proof {
        use_type_invariant(map);
        map.lemma_corners_in_order();
    }
    let start = get_tile_to_world(player.tile_position, grid);
    let low = map.min();
    let high = map.max();
    let target_x = axis_target(start.x, direction.x, grid.tile_size(), low.x, high.x);
    let target_y = axis_target(start.y, direction.y, grid.tile_size(), low.y, high.y);
    let speed = if direction.x != 0 && direction.y != 0 {
        DIAGONAL_VELOCITY
    } else {
        VELOCITY
    };
    Some(
        MovePlan {
            start: Place { x: start.x, y: start.y, z: player.z },
            target: Place { x: target_x, y: target_y, z: player.z },
            speed,
        },
    )
}

/// Begins the planned move if its destination is free. A move whose
/// destination is occupied never begins: the actor stays idle.
pub fn commit_movement(plan: MovePlan, destination_free: bool) -> (movement: Option<Movement>)
    ensures
        !destination_free ==> movement is None,
        destination_free ==> (movement matches Some(m) && m.wf() && m.plan() == plan
            && m.progress() == 0),
{
    if destination_free {
        Some(Movement::begin(plan))
    } else {
        None
    }
}

/// Decides whether an idle actor begins a move at this tick.
///
/// The move is the one that [`planned_movement`] gives. It begins unless the
/// quadtree reports an occupant that overlaps, contains or is contained by the
/// square of [`PROBE_SIZE`] centred on the destination. Whether there is one
/// depends on what the quadtree holds, which this contract does not speak of:
/// [`commit_movement`] states what follows from either answer.
pub fn start_movement(
    player: &Player,
    input: &InputSnapshot,
    grid: &Grid,
    map: &MapBounds,
    quadtree: &QuadTree<1>,
) -> (movement: Option<Movement>)
    ensures
        planned_movement(*player, *input, *grid, *map) is None ==> movement is None,
        movement matches Some(m) ==> m.wf() && m.progress() == 0 && Some(m.plan())
            == planned_movement(*player, *input, *grid, *map),
{
    match plan_movement(player, input, grid, map) {
        None => None,
        Some(plan) => {
            let free = region_is_empty(quadtree, plan.target.position(), PROBE_SIZE, PROBE_SIZE);
            commit_movement(plan, free)
        },
    }
}

/// Progress of a move after `elapsed_ns` more nanoseconds.
fn advance_progress(progress: u32, elapsed_ns: u64, speed: u32) -> (next: u32)
    requires
        progress <= PROGRESS_ONE,
    ensures
        next == progress_after(progress as int, elapsed_ns as int, speed as int),
        progress <= next <= PROGRESS_ONE,
{
    assert(0 <= elapsed_ns * speed <= 0xffff_ffff_ffff_ffff * 0xffff_ffff) by (nonlinear_arith)
        requires
            0 <= elapsed_ns <= 0xffff_ffff_ffff_ffff,
            0 <= speed <= 0xffff_ffff,
    ;
    let gained: u128 = (elapsed_ns as u128) * (speed as u128) / (NANOS_PER_SECOND as u128);
    let total: u128 = progress as u128 + gained;
    if total >= PROGRESS_ONE as u128 {
        PROGRESS_ONE
    } else {
        total as u32
    }
}

/// The coordinate at `progress` on the line from `from` to `to`.
fn lerp_axis(from: i64, to: i64, progress: u32) -> (at: i64)
    requires
        progress <= PROGRESS_ONE,
    ensures
        at == lerp(from as int, to as int, progress as int),
{
    let distance: i128 = to as i128 - from as i128;
    proof {
        lemma_lerp_between(from as int, to as int, progress as int);
        assert(-0x1_0000_0000_0000_0000 * 1_000_000 <= distance * progress
            <= 0x1_0000_0000_0000_0000 * 1_000_000) by (nonlinear_arith)
            requires
                -0x1_0000_0000_0000_0000 <= distance <= 0x1_0000_0000_0000_0000,
                0 <= progress <= 1_000_000,
        ;
    }
    let scaled: i128 = distance * (progress as i128);
    let gone: i128 = div_floor(scaled, PROGRESS_ONE as i128);
    (from as i128 + gone) as i64
}

/// The place at `progress` on the line from `from` to `to`.
fn interpolate(from: Place, to: Place, progress: u32) -> (at: Place)
    requires
        progress <= PROGRESS_ONE,
    ensures
        at == lerp_place(from, to, progress as int),
{
    Place {
        x: lerp_axis(from.x, to.x, progress),
        y: lerp_axis(from.y, to.y, progress),
        z: lerp_axis(from.z, to.z, progress),
    }
}

/// Advances a move by the time that has passed since the last tick.
///
/// The progress grows by the elapsed seconds times the move's speed and stops
/// at [`PROGRESS_ONE`]; it never shrinks. The actor is drawn on the straight
/// line from the move's start to its target, at that progress. At the tick at
/// which the progress reaches [`PROGRESS_ONE`], and only then, the move ends:
/// the actor's cell becomes the one that holds the target, and no move is
/// left. Until then the actor's cell stays as it is.
pub fn handle_movement(movement: &Movement, player: &Player, elapsed_ns: u64, grid: &Grid)
    -> (step: MovementStep)
    ensures
        movement.progress() <= progress_after(
            movement.progress() as int,
            elapsed_ns as int,
            movement.plan().speed as int,
        ) <= PROGRESS_ONE,
        step.place == lerp_place(
            movement.plan().start,
            movement.plan().target,
            progress_after(
                movement.progress() as int,
                elapsed_ns as int,
                movement.plan().speed as int,
            ),
        ),
        progress_after(movement.progress() as int, elapsed_ns as int, movement.plan().speed as int)
            < PROGRESS_ONE ==> {
            &&& step.player == *player
            &&& step.movement matches Some(m)
            &&& m.wf()
            &&& m.plan() == movement.plan()
            &&& m.progress() == progress_after(
                movement.progress() as int,
                elapsed_ns as int,
                movement.plan().speed as int,
            )
        },
        progress_after(movement.progress() as int, elapsed_ns as int, movement.plan().speed as int)
            == PROGRESS_ONE ==> {
            &&& step.movement is None
            &&& step.place == movement.plan().target
            &&& step.player == Player {
                tile_position: grid.tile_at(movement.plan().target.position()),
                z: player.z,
            }
        },
{
    proof {
        use_type_invariant(movement);
    }
    let plan = movement.plan;
    let progress = advance_progress(movement.progress, elapsed_ns, plan.speed);
    let place = interpolate(plan.start, plan.target, progress);
    if progress >= PROGRESS_ONE {
        proof {
            lemma_lerp_ends(plan.start.x as int, plan.target.x as int);
            lemma_lerp_ends(plan.start.y as int, plan.target.y as int);
            lemma_lerp_ends(plan.start.z as int, plan.target.z as int);
        }
        let tile_position = get_world_to_tile(plan.target.position(), grid);
        MovementStep {
            place,
            movement: None,
            player: Player { tile_position, z: player.z },
        }
    } else {
        MovementStep { place, movement: Some(Movement { plan, progress }), player: *player }
    }
}

/// A move begins at its start and ends at its target.
pub proof fn lemma_lerp_ends(from: int, to: int)
    ensures
        lerp(from, to, 0) == from,
        lerp(from, to, PROGRESS_ONE as int) == to,
{
    lemma_div_multiples_vanish(to - from, PROGRESS_ONE as int);
    assert((to - from) * 0 == 0);
}

/// On its way the actor never leaves the stretch between start and target.
pub proof fn lemma_lerp_between(from: int, to: int, progress: int)
    requires
        0 <= progress <= PROGRESS_ONE,
    ensures
        from <= to ==> from <= lerp(from, to, progress) <= to,
        to <= from ==> to <= lerp(from, to, progress) <= from,
{
    let one: int = PROGRESS_ONE as int;
    let distance: int = to - from;
    lemma_div_multiples_vanish(distance, one);
    if distance >= 0 {
        assert(0 <= distance * progress <= distance * one) by (nonlinear_arith)
            requires
                0 <= distance,
                0 <= progress <= one,
        ;
        lemma_div_is_ordered(0, distance * progress, one);
        lemma_div_is_ordered(distance * progress, distance * one, one);
    } else {
        assert(distance * one <= distance * progress <= 0) by (nonlinear_arith)
            requires
                distance <= 0,
                0 <= progress <= one,
        ;
        lemma_div_is_ordered(distance * progress, 0, one);
        lemma_div_is_ordered(distance * one, distance * progress, one);
    }
}

/// Progress never shrinks, never passes [`PROGRESS_ONE`], and once there stays
/// there.
pub proof fn lemma_progress_monotone(progress: int, elapsed_ns: int, speed: int)
    requires
        0 <= progress <= PROGRESS_ONE,
        0 <= elapsed_ns,
        0 <= speed,
    ensures
        progress <= progress_after(progress, elapsed_ns, speed) <= PROGRESS_ONE,
        progress == PROGRESS_ONE ==> progress_after(progress, elapsed_ns, speed) == PROGRESS_ONE,
{
    assert(0 <= elapsed_ns * speed) by (nonlinear_arith)
        requires
            0 <= elapsed_ns,
            0 <= speed,
    ;
    lemma_div_is_ordered(0, elapsed_ns * speed, NANOS_PER_SECOND as int);
}

/// More elapsed time never gives less progress.
pub proof fn lemma_progress_grows_with_time(progress: int, earlier_ns: int, later_ns: int, speed: int)
    requires
        0 <= earlier_ns <= later_ns,
        0 <= speed,
    ensures
        progress_after(progress, earlier_ns, speed) <= progress_after(progress, later_ns, speed),
{
    assert(earlier_ns * speed <= later_ns * speed) by (nonlinear_arith)
        requires
            0 <= earlier_ns <= later_ns,
            0 <= speed,
    ;
    lemma_div_is_ordered(earlier_ns * speed, later_ns * speed, NANOS_PER_SECOND as int);
}

/// The diagonal speed is the axis speed divided by the square root of two, to
/// the last unit: doubled, its square does not exceed the square of the axis
/// speed, and the square of the next larger speed does. A diagonal move is
/// longer than a move along an axis by the square root of two, so both cover
/// the same ground per second.
pub proof fn lemma_diagonal_speed_normalized()
    ensures
        2 * (DIAGONAL_VELOCITY * DIAGONAL_VELOCITY) <= VELOCITY * VELOCITY,
        VELOCITY * VELOCITY < 2 * ((DIAGONAL_VELOCITY + 1) * (DIAGONAL_VELOCITY + 1)),
{
    assert(DIAGONAL_VELOCITY * DIAGONAL_VELOCITY == 31_999_997_177_316) by (nonlinear_arith)
        requires
            DIAGONAL_VELOCITY == 5_656_854,
    ;
    assert((DIAGONAL_VELOCITY + 1) * (DIAGONAL_VELOCITY + 1) == 32_000_008_491_025)
        by (nonlinear_arith)
        requires
            DIAGONAL_VELOCITY == 5_656_854,
    ;
    assert(VELOCITY * VELOCITY == 64_000_000_000_000) by (nonlinear_arith)
        requires
            VELOCITY == 8_000_000,
    ;
}

} // verus!
