use rocket_lander::collision::ColliderType;
use rocket_lander::collision::Role;
use rocket_lander::level::AssetId;
use rocket_lander::level::ChangeEvent;
use rocket_lander::level::Level;
use rocket_lander::level::LevelRegistry;
use rocket_lander::tween_move::TweenMove;
use rocket_lander::tween_move::Vec3i;

#[test]
fn next_wraps_around_the_catalog() {
    let mut reg = LevelRegistry::standard();
    assert_eq!(reg.resolve(ChangeEvent::Next), 1);
    reg.current = 1;
    assert_eq!(reg.resolve(ChangeEvent::Next), 2);
    reg.current = 2;
    assert_eq!(reg.resolve(ChangeEvent::Next), 3);
    reg.current = 3;
    assert_eq!(reg.resolve(ChangeEvent::Next), 0);
}

#[test]
fn next_four_times_returns_to_start() {
    for start in 0..4usize {
        let mut reg = LevelRegistry::standard();
        reg.current = start;
        for _ in 0..4 {
            reg.load(ChangeEvent::Next);
        }
        assert_eq!(reg.current, start);
    }
}

#[test]
fn five_nexts_from_zero_walk_the_cycle() {
    let mut reg = LevelRegistry::standard();
    let mut seen = Vec::new();
    for _ in 0..5 {
        seen.push(reg.load(ChangeEvent::Next));
    }
    assert_eq!(seen, vec![1, 2, 3, 0, 1]);
}

#[test]
fn set_to_is_idempotent() {
    let mut reg = LevelRegistry::standard();
    let first = reg.load(ChangeEvent::SetTo(Level::Third));
    let second = reg.load(ChangeEvent::SetTo(Level::Third));
    assert_eq!(first, 2);
    assert_eq!(second, 2);
}

#[test]
fn set_to_unknown_level_defaults_to_zero() {
    let mut reg = LevelRegistry::with_catalog(vec![Level::Second, Level::Third]);
    reg.current = 1;
    assert_eq!(reg.resolve(ChangeEvent::SetTo(Level::Fourth)), 0);
    assert_eq!(reg.load(ChangeEvent::SetTo(Level::Fourth)), 0);
    assert_eq!(reg.load(ChangeEvent::SetTo(Level::Fourth)), 0);
}

#[test]
fn reload_keeps_the_current_index() {
    let mut reg = LevelRegistry::standard();
    reg.current = 2;
    assert_eq!(reg.resolve(ChangeEvent::Reload), 2);
    assert_eq!(reg.load(ChangeEvent::Reload), 2);
}

#[test]
fn first_level_spawns_only_the_base_pieces() {
    let reg = LevelRegistry::standard();
    let inst = reg.materialize(0);
    assert_eq!(inst.level, Level::First);
    assert_eq!(inst.pieces.len(), 3);
    assert_eq!(inst.pieces[0].asset, AssetId::Floor);
    assert_eq!(inst.pieces[0].role, Some(Role::Obstacle));
    assert_eq!(inst.pieces[1].asset, AssetId::LandingPad);
    assert_eq!(inst.pieces[1].role, Some(Role::Finish));
    assert_eq!(inst.pieces[2].asset, AssetId::LaunchPad);
    assert_eq!(inst.pieces[2].role, None);
    assert!(inst.pieces.iter().all(|p| p.mover.is_none()));
    assert!(inst.pieces.iter().all(|p| p.body == ColliderType::Static));
}

#[test]
fn second_and_third_levels_add_their_obstacle_variant() {
    let reg = LevelRegistry::standard();
    let second = reg.materialize(1);
    assert_eq!(second.level, Level::Second);
    assert_eq!(second.pieces.len(), 4);
    assert_eq!(second.pieces[3].asset, AssetId::SecondObstacle);
    assert_eq!(second.pieces[3].role, Some(Role::Obstacle));
    assert!(second.pieces[3].mover.is_none());

    let third = reg.materialize(2);
    assert_eq!(third.level, Level::Third);
    assert_eq!(third.pieces.len(), 4);
    assert_eq!(third.pieces[3].asset, AssetId::ThirdObstacle);
    assert_eq!(third.pieces[3].role, Some(Role::Obstacle));
    assert!(third.pieces[3].mover.is_none());
}

#[test]
fn fourth_level_reuses_the_second_obstacle_as_a_moving_hazard() {
    let reg = LevelRegistry::standard();
    let fourth = reg.materialize(3);
    assert_eq!(fourth.level, Level::Fourth);
    assert_eq!(fourth.pieces.len(), 4);
    assert_eq!(fourth.pieces[3].asset, AssetId::SecondObstacle);
    assert_eq!(fourth.pieces[3].role, Some(Role::Obstacle));
    assert_eq!(
        fourth.pieces[3].mover,
        Some(TweenMove { target: Vec3i { x: 0, y: 2500, z: 0 }, duration: 2000 })
    );
}
