use pixel_world::bounds::{apply_bounds, hits_bounds};
use pixel_world::direction::Direction;
use pixel_world::error::WorldError;
use pixel_world::model::Motion;
use pixel_world::world::World;

fn wrapped(width: u32, height: u32, size: i16) -> World {
    World::new(width, height, size).unwrap()
}

fn walk(world: &mut World, direction: Direction, ticks: u32) {
    world.set_direction(direction);
    for _ in 0..ticks {
        world.update();
    }
}

#[test]
fn new_world_starts_at_origin_heading_right() {
    let world = wrapped(320, 240, 8);
    assert_eq!(world.x(), 0);
    assert_eq!(world.y(), 0);
    assert_eq!(world.size(), 8);
    assert_eq!(world.width(), 320);
    assert_eq!(world.height(), 240);
    assert_eq!(world.motion(), Motion::Intent(Direction::Right));
}

#[test]
fn new_refuses_zero_width() {
    assert_eq!(World::new(0, 240, 8).err(), Some(WorldError::ZeroArea));
}

#[test]
fn new_refuses_zero_height() {
    assert_eq!(World::new(320, 0, 8).err(), Some(WorldError::ZeroArea));
}

#[test]
fn bouncing_refuses_zero_area() {
    assert_eq!(World::bouncing(0, 0, 8, 1, 1).err(), Some(WorldError::ZeroArea));
    assert_eq!(World::bouncing(5, 0, 8, 1, 1).err(), Some(WorldError::ZeroArea));
}

#[test]
fn bouncing_world_starts_with_unit_velocity() {
    let world = World::bouncing(320, 240, 8, 24, 16).unwrap();
    assert_eq!(world.x(), 24);
    assert_eq!(world.y(), 16);
    assert_eq!(world.motion(), Motion::Velocity { dx: 1, dy: 1 });
}

#[test]
fn unit_steps_of_the_five_directions() {
    assert_eq!(Direction::Up.unit_step(), (0, -1));
    assert_eq!(Direction::Down.unit_step(), (0, 1));
    assert_eq!(Direction::Left.unit_step(), (-1, 0));
    assert_eq!(Direction::Right.unit_step(), (1, 0));
    assert_eq!(Direction::Still.unit_step(), (0, 0));
}

#[test]
fn set_direction_stores_the_intent() {
    let mut world = wrapped(20, 20, 5);
    world.set_direction(Direction::Down);
    assert_eq!(world.motion(), Motion::Intent(Direction::Down));
    assert_eq!((world.x(), world.y()), (0, 0));
    world.set_direction(Direction::Still);
    assert_eq!(world.motion(), Motion::Intent(Direction::Still));
}

#[test]
fn set_direction_leaves_a_bouncing_world_alone() {
    let mut world = World::bouncing(20, 20, 5, 3, 4).unwrap();
    world.set_direction(Direction::Left);
    assert_eq!(world.motion(), Motion::Velocity { dx: 1, dy: 1 });
    assert_eq!((world.x(), world.y()), (3, 4));
}

#[test]
fn right_moves_one_column_and_keeps_the_row() {
    let mut world = wrapped(20, 20, 5);
    walk(&mut world, Direction::Down, 7);
    walk(&mut world, Direction::Right, 1);
    assert_eq!((world.x(), world.y()), (1, 7));
    walk(&mut world, Direction::Right, 1);
    assert_eq!((world.x(), world.y()), (2, 7));
}

#[test]
fn each_direction_moves_by_its_unit_step() {
    let mut world = wrapped(20, 20, 5);
    walk(&mut world, Direction::Right, 10);
    walk(&mut world, Direction::Down, 10);
    assert_eq!((world.x(), world.y()), (10, 10));
    walk(&mut world, Direction::Up, 1);
    assert_eq!((world.x(), world.y()), (10, 9));
    walk(&mut world, Direction::Left, 1);
    assert_eq!((world.x(), world.y()), (9, 9));
    walk(&mut world, Direction::Still, 3);
    assert_eq!((world.x(), world.y()), (9, 9));
}

#[test]
fn two_ticks_move_twice() {
    let mut world = wrapped(20, 20, 5);
    world.update();
    world.update();
    assert_eq!(world.x(), 2);
}

#[test]
fn wrap_past_the_extent_lands_in_column_one() {
    let mut world = wrapped(20, 20, 5);
    walk(&mut world, Direction::Right, 20);
    assert_eq!(world.x(), 20);
    walk(&mut world, Direction::Right, 1);
    assert_eq!(world.x(), 1);
}

#[test]
fn wrap_before_the_origin_lands_one_past_the_extent() {
    let mut world = wrapped(320, 240, 8);
    walk(&mut world, Direction::Left, 1);
    assert_eq!((world.x(), world.y()), (321, 0));
    walk(&mut world, Direction::Left, 1);
    assert_eq!(world.x(), 320);
    let mut world = wrapped(320, 240, 8);
    walk(&mut world, Direction::Up, 1);
    assert_eq!((world.x(), world.y()), (0, 241));
}

#[test]
fn one_past_the_extent_is_brought_back_by_any_tick() {
    let mut world = wrapped(20, 30, 5);
    walk(&mut world, Direction::Up, 1);
    assert_eq!(world.y(), 31);
    walk(&mut world, Direction::Right, 1);
    assert_eq!((world.x(), world.y()), (1, 1));
    let mut world = wrapped(20, 30, 5);
    walk(&mut world, Direction::Left, 1);
    walk(&mut world, Direction::Right, 1);
    assert_eq!(world.x(), 2);
}

#[test]
fn wrapped_sprite_stays_on_the_surface() {
    let directions = [
        Direction::Up,
        Direction::Down,
        Direction::Left,
        Direction::Right,
        Direction::Still,
    ];
    for start_x in 0..=6u32 {
        for start_y in 0..=4u32 {
            for direction in directions {
                let mut world = wrapped(6, 4, 2);
                walk(&mut world, Direction::Right, start_x);
                walk(&mut world, Direction::Down, start_y);
                assert_eq!((world.x(), world.y()), (start_x as i64, start_y as i64));
                if start_x == 0 && direction == Direction::Left {
                    continue;
                }
                if start_y == 0 && direction == Direction::Up {
                    continue;
                }
                walk(&mut world, direction, 1);
                assert!(0 <= world.x() && world.x() <= 6);
                assert!(0 <= world.y() && world.y() <= 4);
            }
        }
    }
}

#[test]
fn apply_bounds_follows_the_three_cases() {
    assert_eq!(apply_bounds(0, 320, -1), 321);
    assert_eq!(apply_bounds(0, 320, 321), 1);
    assert_eq!(apply_bounds(0, 320, 322), 2);
    assert_eq!(apply_bounds(0, 320, 0), 0);
    assert_eq!(apply_bounds(0, 320, 320), 320);
    assert_eq!(apply_bounds(0, 320, 77), 77);
    assert_eq!(apply_bounds(10, 20, 7), 13);
    assert_eq!(apply_bounds(10, 20, 26), 16);
    assert_eq!(apply_bounds(-5, 5, -8), 13);
}

#[test]
fn apply_bounds_at_the_ends_of_the_range() {
    assert_eq!(apply_bounds(0, -1, i64::MIN), i64::MAX);
    assert_eq!(apply_bounds(i64::MIN, -1, i64::MAX), 0);
}

#[test]
fn hits_bounds_at_both_edges() {
    assert!(hits_bounds(0, 5, 20));
    assert!(hits_bounds(-1, 5, 20));
    assert!(!hits_bounds(1, 5, 20));
    assert!(!hits_bounds(15, 5, 20));
    assert!(hits_bounds(16, 5, 20));
    assert!(hits_bounds(3, 30, 20));
    assert!(!hits_bounds(25, -10, 20));
}

#[test]
fn reflect_turns_at_the_far_edge() {
    let mut world = World::bouncing(20, 20, 5, 14, 3).unwrap();
    world.update();
    assert_eq!((world.x(), world.y()), (15, 4));
    assert_eq!(world.motion(), Motion::Velocity { dx: 1, dy: 1 });
    world.update();
    assert_eq!((world.x(), world.y()), (16, 5));
    assert_eq!(world.motion(), Motion::Velocity { dx: 1, dy: 1 });
    world.update();
    assert_eq!((world.x(), world.y()), (15, 6));
    assert_eq!(world.motion(), Motion::Velocity { dx: -1, dy: 1 });
    world.update();
    assert_eq!((world.x(), world.y()), (14, 7));
    assert_eq!(world.motion(), Motion::Velocity { dx: -1, dy: 1 });
}

#[test]
fn reflect_turns_at_the_origin() {
    let mut world = World::bouncing(20, 20, 5, 14, 14).unwrap();
    for _ in 0..2 {
        world.update();
    }
    assert_eq!((world.x(), world.y()), (16, 16));
    for _ in 0..16 {
        world.update();
    }
    assert_eq!((world.x(), world.y()), (0, 0));
    assert_eq!(world.motion(), Motion::Velocity { dx: -1, dy: -1 });
    world.update();
    assert_eq!((world.x(), world.y()), (1, 1));
    assert_eq!(world.motion(), Motion::Velocity { dx: 1, dy: 1 });
}

#[test]
fn reflect_from_the_origin_turns_every_tick() {
    let mut world = World::bouncing(20, 20, 5, 0, 0).unwrap();
    world.update();
    assert_eq!((world.x(), world.y()), (-1, -1));
    assert_eq!(world.motion(), Motion::Velocity { dx: -1, dy: -1 });
    world.update();
    assert_eq!((world.x(), world.y()), (0, 0));
    assert_eq!(world.motion(), Motion::Velocity { dx: 1, dy: 1 });
}

#[test]
fn oversized_sprite_turns_every_tick() {
    let mut world = World::bouncing(4, 4, 9, 2, 2).unwrap();
    let mut expected_dx = 1;
    for _ in 0..10 {
        world.update();
        expected_dx = -expected_dx;
        assert_eq!(world.motion(), Motion::Velocity { dx: expected_dx, dy: expected_dx });
        assert!(world.x() == 1 || world.x() == 2);
        assert!(world.y() == 1 || world.y() == 2);
    }
}

#[test]
fn reflect_turns_exactly_where_the_boundary_test_fails() {
    let mut world = World::bouncing(12, 9, 3, 5, 2).unwrap();
    for _ in 0..500 {
        let (x, y) = (world.x(), world.y());
        let (dx, dy) = match world.motion() {
            Motion::Velocity { dx, dy } => (dx, dy),
            Motion::Intent(_) => unreachable!(),
        };
        world.update();
        let (next_dx, next_dy) = match world.motion() {
            Motion::Velocity { dx, dy } => (dx, dy),
            Motion::Intent(_) => unreachable!(),
        };
        let x_hit = x <= 0 || x + 3 > 12;
        let y_hit = y <= 0 || y + 3 > 9;
        assert_eq!(next_dx == -dx, x_hit);
        assert_eq!(next_dy == -dy, y_hit);
        assert_eq!(world.x(), x + next_dx);
        assert_eq!(world.y(), y + next_dy);
        assert!(-3 <= world.x() && world.x() <= 12);
        assert!(-3 <= world.y() && world.y() <= 9);
    }
}

#[test]
fn the_widest_surface_is_walked_without_overflow() {
    let mut world = wrapped(u32::MAX, u32::MAX, i16::MAX);
    walk(&mut world, Direction::Left, 1);
    assert_eq!(world.x(), u32::MAX as i64 + 1);
    walk(&mut world, Direction::Right, 1);
    assert_eq!(world.x(), 2);
    let mut world = World::bouncing(u32::MAX, 1, i16::MIN, u32::MAX, u32::MAX).unwrap();
    world.update();
    assert_eq!(world.x(), u32::MAX as i64 + 1);
    assert_eq!(world.y(), u32::MAX as i64 - 1);
}

#[test]
fn reflect_started_past_the_surface_stays_there() {
    let mut world = World::bouncing(20, 20, 5, 30, 30).unwrap();
    for _ in 0..6 {
        world.update();
        assert_eq!((world.x(), world.y()), (29, 29));
        world.update();
        assert_eq!((world.x(), world.y()), (30, 30));
    }
}

#[test]
fn reflect_started_on_the_surface_stays_near_it() {
    for start in 0..=20u32 {
        let mut world = World::bouncing(20, 20, 5, start, 20 - start).unwrap();
        for _ in 0..100 {
            world.update();
            assert!(-5 <= world.x() && world.x() <= 20);
            assert!(-5 <= world.y() && world.y() <= 20);
        }
    }
}
