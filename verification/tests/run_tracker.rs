use rocket_lander::collision::SemanticEvent;
use rocket_lander::tracker::RunTracker;

#[test]
fn first_report_is_accepted_later_ones_refused() {
    let mut t = RunTracker::new();
    t.begin_attempt();
    assert_eq!(t.tries.0, 1);
    assert!(t.report_once(SemanticEvent::PlayerHitObstacle(1, 2)));
    assert!(!t.report_once(SemanticEvent::PlayerHitObstacle(1, 2)));
    assert!(!t.report_once(SemanticEvent::PlayerHitFinish(1, 3)));
    assert!(!t.report_once(SemanticEvent::PlayerHitObstacle(4, 5)));
}

#[test]
fn suppression_is_independent_of_outcome_kind() {
    let mut t = RunTracker::new();
    t.begin_attempt();
    assert!(t.report_once(SemanticEvent::PlayerHitFinish(7, 8)));
    assert!(!t.report_once(SemanticEvent::PlayerHitObstacle(7, 8)));
}

#[test]
fn new_attempt_resets_the_flag_and_keeps_counting() {
    let mut t = RunTracker::new();
    t.begin_attempt();
    assert!(t.report_once(SemanticEvent::PlayerHitObstacle(1, 2)));
    t.begin_attempt();
    assert_eq!(t.tries.0, 2);
    assert!(!t.reported);
    assert!(t.report_once(SemanticEvent::PlayerHitFinish(1, 3)));
    t.begin_attempt();
    t.begin_attempt();
    assert_eq!(t.tries.0, 4);
}

#[test]
fn counter_is_never_decremented_across_cycles() {
    let mut t = RunTracker::new();
    for expected in 1..=10u32 {
        t.begin_attempt();
        assert_eq!(t.tries.0, expected);
        t.report_once(SemanticEvent::PlayerHitObstacle(1, 2));
        assert_eq!(t.tries.0, expected);
    }
}
