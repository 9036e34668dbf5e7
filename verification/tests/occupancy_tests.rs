use bevy::app::App;
use bevy::math::{Rect, Vec2, Vec3};
use bevy::transform::components::GlobalTransform;
use bevy_quadtree::{CollisionRect, QuadTree, QuadTreePlugin};
use tilewalk::actions::InputSnapshot;
use tilewalk::map::MapBounds;
use tilewalk::player::{plan_movement, start_movement, Player, Place, VELOCITY};
use tilewalk::tile::{Grid, TilePos, WorldPos};

type Colliders = QuadTreePlugin<(CollisionRect, GlobalTransform), 40, 8, 10000, 10000, 0, 0, 20, 1>;

fn world_with(colliders: &[(f32, f32, f32, f32)]) -> App {
    let mut app = App::new();
    app.add_plugins(Colliders::default());
    for &(x, y, width, height) in colliders {
        app.world_mut().spawn((
            CollisionRect::new(Rect::from_center_size(Vec2::new(x, y), Vec2::new(width, height))),
            GlobalTransform::from_translation(Vec3::new(x, y, 0.0)),
        ));
    }
    app.update();
    app
}

fn forward() -> InputSnapshot {
    InputSnapshot { forward: true, backward: false, left: false, right: false }
}

fn setting() -> (Player, Grid, MapBounds) {
    let player = Player { tile_position: TilePos { x: 0, y: 0 }, z: 1 };
    let grid = Grid::new(WorldPos { x: 0, y: 0 }, 32).unwrap();
    let map = MapBounds::new(WorldPos { x: -4000, y: -4000 }, WorldPos { x: 4000, y: 4000 }).unwrap();
    (player, grid, map)
}

#[test]
fn a_free_destination_starts_the_move() {
    let app = world_with(&[]);
    let tree = app.world().resource::<QuadTree<1>>();
    let (player, grid, map) = setting();
    let movement = start_movement(&player, &forward(), &grid, &map, tree).unwrap();
    assert_eq!(movement.progress(), 0);
    assert_eq!(Some(movement.plan()), plan_movement(&player, &forward(), &grid, &map));
    assert_eq!(movement.plan().target, Place { x: 16, y: 48, z: 1 });
    assert_eq!(movement.plan().speed, VELOCITY);
}

#[test]
fn an_occupant_on_the_destination_rejects_the_move() {
    let app = world_with(&[(16.0, 48.0, 32.0, 32.0)]);
    let tree = app.world().resource::<QuadTree<1>>();
    let (player, grid, map) = setting();
    assert_eq!(start_movement(&player, &forward(), &grid, &map, tree), None);
    let right = InputSnapshot { forward: false, backward: false, left: false, right: true };
    assert!(start_movement(&player, &right, &grid, &map, tree).is_some());
}

#[test]
fn an_occupant_elsewhere_does_not_reject_the_move() {
    let app = world_with(&[(16.0, 112.0, 32.0, 32.0), (-400.0, 48.0, 32.0, 32.0)]);
    let tree = app.world().resource::<QuadTree<1>>();
    let (player, grid, map) = setting();
    assert!(start_movement(&player, &forward(), &grid, &map, tree).is_some());
}

#[test]
fn an_occupant_touching_the_probe_at_its_edge_rejects_the_move() {
    let touching = world_with(&[(16.0, 65.5, 20.0, 20.0)]);
    let (player, grid, map) = setting();
    let tree = touching.world().resource::<QuadTree<1>>();
    assert_eq!(start_movement(&player, &forward(), &grid, &map, tree), None);
    let apart = world_with(&[(16.0, 66.5, 20.0, 20.0)]);
    let tree = apart.world().resource::<QuadTree<1>>();
    assert!(start_movement(&player, &forward(), &grid, &map, tree).is_some());
}

#[test]
fn an_occupant_around_or_inside_the_probe_rejects_the_move() {
    let (player, grid, map) = setting();
    let around = world_with(&[(16.0, 48.0, 200.0, 200.0)]);
    let tree = around.world().resource::<QuadTree<1>>();
    assert_eq!(start_movement(&player, &forward(), &grid, &map, tree), None);
    let inside = world_with(&[(17.0, 47.0, 2.0, 2.0)]);
    let tree = inside.world().resource::<QuadTree<1>>();
    assert_eq!(start_movement(&player, &forward(), &grid, &map, tree), None);
}

#[test]
fn no_direction_starts_nothing_whatever_the_tree_holds() {
    let app = world_with(&[(16.0, 48.0, 32.0, 32.0)]);
    let tree = app.world().resource::<QuadTree<1>>();
    let (player, grid, map) = setting();
    assert_eq!(start_movement(&player, &InputSnapshot::released(), &grid, &map, tree), None);
    let empty = world_with(&[]);
    let tree = empty.world().resource::<QuadTree<1>>();
    assert_eq!(start_movement(&player, &InputSnapshot::released(), &grid, &map, tree), None);
}
