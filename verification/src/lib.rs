//! Core logic of a small "land the rocket" arcade game: the progression
//! state machine and its collaborators, verified. The engine that renders,
//! simulates physics, polls input and plays audio is an external
//! collaborator; this crate holds the decisions the game makes each tick:
//! classifying raw collisions, resolving level-change requests, counting
//! attempts and suppressing duplicate outcomes, driving phase transitions,
//! and scheduling the back-and-forth motion of a moving obstacle.

pub mod collision;
pub mod level;
pub mod progression;
pub mod tracker;
pub mod tween_move;
