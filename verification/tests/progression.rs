use rocket_lander::collision::CollisionEvent;
use rocket_lander::collision::Role;
use rocket_lander::level::Level;
use rocket_lander::level::LevelRegistry;
use rocket_lander::progression::AppState;
use rocket_lander::progression::Cue;
use rocket_lander::progression::Effect;
use rocket_lander::progression::Game;
use rocket_lander::progression::InputEvent;

const PLAYER: u64 = 1;
const OBSTACLE: u64 = 2;
const FINISH: u64 = 3;

/// A game that has auto-started into its first attempt, with the level's
/// entities bound to their roles, as the engine does after spawning.
fn started_game() -> Game {
    let mut game = Game::new(LevelRegistry::standard());
    game.handle(InputEvent::Start);
    bind_current_level(&mut game);
    game
}

fn bind_current_level(game: &mut Game) {
    game.bind(PLAYER, Role::Player);
    game.bind(OBSTACLE, Role::Obstacle);
    game.bind(FINISH, Role::Finish);
}

fn cue_effects(fx: &[Effect]) -> Vec<&Effect> {
    fx.iter()
        .filter(|e| matches!(e, Effect::PlayCue(_)))
        .collect()
}

#[test]
fn auto_start_enters_the_first_level_with_attempt_one() {
    let mut game = Game::new(LevelRegistry::standard());
    assert_eq!(game.state, AppState::Setup);
    let fx = game.handle(InputEvent::Start);
    assert_eq!(game.state, AppState::InGame);
    assert_eq!(game.registry.current, 0);
    assert_eq!(game.instance.as_ref().unwrap().level, Level::First);
    assert_eq!(game.tracker.tries.0, 1);
    assert!(!game.tracker.reported);
    assert_eq!(fx.len(), 3);
    assert_eq!(fx[0], Effect::ClearLevel);
    assert!(matches!(fx[1], Effect::SpawnLevel(ref inst) if inst.level == Level::First));
    assert_eq!(fx[2], Effect::RespawnPlayer);
}

#[test]
fn hitting_an_obstacle_fails_the_run_with_one_death_cue() {
    let mut game = started_game();
    let fx = game.handle(InputEvent::Collision(CollisionEvent(PLAYER, OBSTACLE)));
    assert_eq!(game.state, AppState::Failed);
    assert!(game.tracker.reported);
    assert_eq!(game.cues, vec![Cue::DeathExplosion]);
    assert_eq!(fx, vec![Effect::PlayCue(Cue::DeathExplosion)]);

    let fx2 = game.handle(InputEvent::Collision(CollisionEvent(PLAYER, OBSTACLE)));
    assert_eq!(game.state, AppState::Failed);
    assert!(fx2.is_empty());
    assert_eq!(game.cues, vec![Cue::DeathExplosion]);
    assert!(cue_effects(&fx2).is_empty());
}

#[test]
fn retry_reloads_the_same_level_with_a_fresh_attempt() {
    let mut game = started_game();
    game.handle(InputEvent::Collision(CollisionEvent(PLAYER, OBSTACLE)));
    let fx = game.handle(InputEvent::Retry);
    assert_eq!(game.state, AppState::InGame);
    assert_eq!(game.registry.current, 0);
    assert_eq!(game.instance.as_ref().unwrap().level, Level::First);
    assert_eq!(game.tracker.tries.0, 2);
    assert!(!game.tracker.reported);
    assert!(game.cues.is_empty());
    assert_eq!(fx[0], Effect::StopCues);
    assert_eq!(fx[1], Effect::ClearLevel);
    assert!(matches!(fx[2], Effect::SpawnLevel(ref inst) if inst.level == Level::First));
    assert_eq!(fx[3], Effect::RespawnPlayer);
}

#[test]
fn finishing_the_second_level_advances_to_the_third() {
    let mut game = started_game();
    // Reach the second level: finish the first and advance.
    game.handle(InputEvent::Collision(CollisionEvent(PLAYER, FINISH)));
    game.handle(InputEvent::Advance);
    bind_current_level(&mut game);
    assert_eq!(game.state, AppState::InGame);
    assert_eq!(game.instance.as_ref().unwrap().level, Level::Second);
    let attempts_before = game.tracker.tries.0;

    let fx = game.handle(InputEvent::Collision(CollisionEvent(PLAYER, FINISH)));
    assert_eq!(game.state, AppState::Succeed);
    assert_eq!(game.cues, vec![Cue::Success]);
    assert_eq!(fx, vec![Effect::PlayCue(Cue::Success)]);

    let fx2 = game.handle(InputEvent::Advance);
    assert_eq!(game.state, AppState::InGame);
    assert_eq!(game.instance.as_ref().unwrap().level, Level::Third);
    assert_eq!(game.tracker.tries.0, attempts_before + 1);
    assert!(game.cues.is_empty());
    assert_eq!(fx2[0], Effect::StopCues);
}

#[test]
fn from_failed_only_retry_changes_the_phase() {
    let mut game = started_game();
    game.handle(InputEvent::Collision(CollisionEvent(PLAYER, OBSTACLE)));
    assert_eq!(game.state, AppState::Failed);

    let fx_start = game.handle(InputEvent::Start);
    assert_eq!(game.state, AppState::Failed);
    assert!(fx_start.is_empty());
    let fx_advance = game.handle(InputEvent::Advance);
    assert_eq!(game.state, AppState::Failed);
    assert!(fx_advance.is_empty());
    let fx_hit = game.handle(InputEvent::Collision(CollisionEvent(PLAYER, FINISH)));
    assert_eq!(game.state, AppState::Failed);
    assert!(fx_hit.is_empty());

    game.handle(InputEvent::Retry);
    assert_eq!(game.state, AppState::InGame);
}

#[test]
fn from_succeed_only_advance_changes_the_phase() {
    let mut game = started_game();
    game.handle(InputEvent::Collision(CollisionEvent(PLAYER, FINISH)));
    assert_eq!(game.state, AppState::Succeed);

    let fx_start = game.handle(InputEvent::Start);
    assert_eq!(game.state, AppState::Succeed);
    assert!(fx_start.is_empty());
    let fx_retry = game.handle(InputEvent::Retry);
    assert_eq!(game.state, AppState::Succeed);
    assert!(fx_retry.is_empty());
    let fx_hit = game.handle(InputEvent::Collision(CollisionEvent(PLAYER, OBSTACLE)));
    assert_eq!(game.state, AppState::Succeed);
    assert!(fx_hit.is_empty());

    game.handle(InputEvent::Advance);
    assert_eq!(game.state, AppState::InGame);
    assert_eq!(game.instance.as_ref().unwrap().level, Level::Second);
}

#[test]
fn collisions_outside_the_game_phase_are_ignored() {
    let mut game = Game::new(LevelRegistry::standard());
    bind_current_level(&mut game);
    let fx = game.handle(InputEvent::Collision(CollisionEvent(PLAYER, OBSTACLE)));
    assert_eq!(game.state, AppState::Setup);
    assert!(!game.tracker.reported);
    assert!(fx.is_empty());
    assert_eq!(game.tracker.tries.0, 0);
}

#[test]
fn collisions_of_untagged_entities_are_ignored_in_game() {
    let mut game = started_game();
    let fx = game.handle(InputEvent::Collision(CollisionEvent(OBSTACLE, FINISH)));
    assert_eq!(game.state, AppState::InGame);
    assert!(!game.tracker.reported);
    assert!(fx.is_empty());
}

#[test]
fn pair_matching_both_roles_settles_on_succeed() {
    let mut game = started_game();
    // One entity tagged both obstacle and finish: both semantic events
    // fire; the finish outcome is applied last and sticks.
    game.bind(OBSTACLE, Role::Finish);
    let fx = game.handle(InputEvent::Collision(CollisionEvent(PLAYER, OBSTACLE)));
    assert_eq!(game.state, AppState::Succeed);
    assert_eq!(game.cues, vec![Cue::Success]);
    assert_eq!(cue_effects(&fx).len(), 1);
}

#[test]
fn raw_pair_order_does_not_matter_for_outcomes() {
    let mut game = started_game();
    let _ = game.handle(InputEvent::Collision(CollisionEvent(OBSTACLE, PLAYER)));
    assert_eq!(game.state, AppState::Failed);
}

#[test]
fn full_loop_walks_all_levels_and_wraps() {
    let mut game = Game::new(LevelRegistry::standard());
    game.handle(InputEvent::Start);
    let mut levels_seen = vec![game.instance.as_ref().unwrap().level];
    for _ in 0..4 {
        bind_current_level(&mut game);
        game.handle(InputEvent::Collision(CollisionEvent(PLAYER, FINISH)));
        game.handle(InputEvent::Advance);
        levels_seen.push(game.instance.as_ref().unwrap().level);
    }
    assert_eq!(
        levels_seen,
        vec![Level::First, Level::Second, Level::Third, Level::Fourth, Level::First]
    );
    assert_eq!(game.tracker.tries.0, 5);
}
