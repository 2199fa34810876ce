//! The game progression state machine: the orchestrator that owns the
//! overall phase, reacts to classified collision events and to retry and
//! advance input, and issues level-change and audio-cue side effects. The
//! engine performs each emitted effect and hands the next event back; the
//! decisions all happen here.

use vstd::prelude::*;
use crate::collision::CollisionEvent;
use crate::collision::EntityId;
use crate::collision::Role;
use crate::collision::SemanticEvent;
use crate::collision::TagRegistry;
use crate::level::pieces_for;
use crate::level::resolve_index;
use crate::level::ChangeEvent;
use crate::level::Level;
use crate::level::LevelInstance;
use crate::level::LevelRegistry;
use crate::tracker::begun;
use crate::tracker::RunTracker;

verus! {

/// The overall phase of the game. There is exactly one; it only moves
/// along the defined edges, and the loop runs indefinitely.
#[derive(Clone, Copy, Debug, PartialEq, Eq, Structural, Default)]
pub enum AppState {
    #[default]
    Setup,
    InGame,
    Failed,
    Succeed,
}

/// An external stimulus delivered to the state machine, one per call:
/// the automatic start signal, the retry and advance key edges, and raw
/// collision reports from the physics collaborator.
#[derive(Clone, Copy, Debug, PartialEq, Eq, Structural)]
pub enum InputEvent {
    Start,
    Retry,
    Advance,
    Collision(CollisionEvent),
}

/// A one-shot audio cue.
#[derive(Clone, Copy, Debug, PartialEq, Eq, Structural)]
pub enum Cue {
    DeathExplosion,
    Success,
}

/// A side effect the engine is asked to perform, in order. The state
/// machine mirrors each effect in its own model, so the engine only has
/// to mirror them back into the scene.
#[derive(Clone, Debug, PartialEq, Eq)]
pub enum Effect {
    /// Despawn every still-playing one-shot cue entity.
    StopCues,
    /// Despawn the whole current level-instance tree.
    ClearLevel,
    /// Spawn the described level instance.
    SpawnLevel(LevelInstance),
    /// Despawn and respawn the player at the launch pose.
    RespawnPlayer,
    /// Spawn a transient entity playing the given one-shot clip.
    PlayCue(Cue),
}

/// The cue an outcome phase plays on entry.
pub open spec fn cue_for(s: AppState) -> Cue {
    if s is Succeed {
        Cue::Success
    } else {
        Cue::DeathExplosion
    }
}

/// The game: the phase, the level registry, the run tracker, the tag
/// registry the classifier queries, the live level instance, and the
/// one-shot cues currently playing.
pub struct Game {
    pub state: AppState,
    pub registry: LevelRegistry,
    pub tracker: RunTracker,
    pub tags: TagRegistry,
    pub instance: Option<LevelInstance>,
    pub cues: Vec<Cue>,
}

impl Game {
    /// The game's invariant: the registry is well formed; the live
    /// instance, when present, is the materialization of the current
    /// catalog entry; and each phase pins down the bookkeeping: before the
    /// first start nothing is spawned and nothing counted, in game no
    /// outcome is reported yet and no cue plays, and each outcome phase
    /// has its outcome reported and exactly its own cue playing.
    pub open spec fn wf(self) -> bool {
        &&& self.registry.wf()
        &&& (self.instance matches Some(inst) ==> {
            &&& inst.level == self.registry.catalog@[self.registry.current as int]
            &&& inst.pieces@ == pieces_for(inst.level)
        })
        &&& match self.state {
            AppState::Setup => {
                &&& self.instance is None
                &&& self.tracker.tries.0 == 0
                &&& !self.tracker.reported
                &&& self.cues@.len() == 0
            },
            AppState::InGame => {
                &&& self.instance is Some
                &&& self.tracker.tries.0 >= 1
                &&& !self.tracker.reported
                &&& self.cues@.len() == 0
            },
            AppState::Failed => {
                &&& self.instance is Some
                &&& self.tracker.reported
                &&& self.cues@ == seq![Cue::DeathExplosion]
            },
            AppState::Succeed => {
                &&& self.instance is Some
                &&& self.tracker.reported
                &&& self.cues@ == seq![Cue::Success]
            },
        }
    }

    /// A fresh game over the given registry, in the setup phase.
    pub fn new(registry: LevelRegistry) -> (g: Game)
        requires
            registry.wf(),
        ensures
            g.wf(),
            g.state is Setup,
            g.registry == registry,
            g.tracker.tries.0 == 0,
            !g.tracker.reported,
            g.instance is None,
            g.cues@.len() == 0,
            g.tags.entries@.len() == 0,
    {
        Game {
            state: AppState::Setup,
            registry,
            tracker: RunTracker::new(),
            tags: TagRegistry::new(),
            instance: None,
            cues: Vec::new(),
        }
    }

    /// Register an engine entity id under a role, so the classifier can
    /// recognize it. The engine binds ids after spawning what a
    /// `SpawnLevel` or `RespawnPlayer` effect asked for.
    pub fn bind(&mut self, id: EntityId, role: Role)
        ensures
            final(self).tags.entries@ == old(self).tags.entries@.push((id, role)),
            final(self).state == old(self).state,
            final(self).registry == old(self).registry,
            final(self).tracker == old(self).tracker,
            final(self).instance == old(self).instance,
            final(self).cues == old(self).cues,
            final(self).wf() == old(self).wf(),
    {
        self.tags.register(id, role);
    }
}

/// The effects that leaving phase `s` emits before the in-game phase is
/// entered: outcome phases stop their still-playing cue.
pub open spec fn cleanup_effects(s: AppState) -> Seq<Effect> {
    if s is Failed || s is Succeed {
        seq![Effect::StopCues]
    } else {
        Seq::empty()
    }
}

/// Relation: from `pre`, entering the in-game phase through change request
/// `req` yields state `post` and effect trace `fx`. Entering always
/// despawns any stale level instance, materializes the resolved level,
/// begins a new attempt (counter up, outcome flag cleared), forgets the
/// previous instance's tags, and respawns the player.
pub open spec fn enters_in_game(pre: Game, req: ChangeEvent, post: Game, fx: Seq<Effect>) -> bool {
    let idx = resolve_index(pre.registry.catalog@, pre.registry.current as int, req);
    let lvl = pre.registry.catalog@[idx];
    let cleanup = cleanup_effects(pre.state);
    &&& post.state is InGame
    &&& post.registry.catalog@ == pre.registry.catalog@
    &&& post.registry.current == idx
    &&& (post.instance matches Some(inst) && inst.level == lvl && inst.pieces@ == pieces_for(lvl))
    &&& post.tracker == begun(pre.tracker)
    &&& post.tags.entries@.len() == 0
    &&& post.cues@.len() == 0
    &&& fx.len() == cleanup.len() + 3
    &&& fx.subrange(0, cleanup.len() as int) == cleanup
    &&& fx[cleanup.len() as int] == Effect::ClearLevel
    &&& (fx[cleanup.len() as int + 1] matches Effect::SpawnLevel(spawned) && spawned.level == lvl
        && spawned.pieces@ == pieces_for(lvl))
    &&& fx[cleanup.len() as int + 2] == Effect::RespawnPlayer
}

/// Relation: `pre` moves to outcome phase `out` (`Failed` or `Succeed`):
/// only the phase, the outcome flag and the cue change, and exactly one
/// cue is spawned.
pub open spec fn reaches_outcome(pre: Game, out: AppState, post: Game, fx: Seq<Effect>) -> bool {
    &&& post.state == out
    &&& post.registry == pre.registry
    &&& post.instance == pre.instance
    &&& post.tags == pre.tags
    &&& post.tracker.tries == pre.tracker.tries
    &&& post.tracker.reported
    &&& post.cues@ == seq![cue_for(out)]
    &&& fx == seq![Effect::PlayCue(cue_for(out))]
}

/// Relation: the event is ignored; nothing changes and nothing is emitted.
pub open spec fn ignored(pre: Game, post: Game, fx: Seq<Effect>) -> bool {
    &&& post == pre
    &&& fx == Seq::<Effect>::empty()
}

/// The outcome phase a collision report leads to, if any: the player
/// touching an obstacle fails the run and the player touching the finish
/// succeeds it. A pair somehow matching both fires both semantic events;
/// the finish outcome is applied last, so it is the one that sticks.
pub open spec fn collision_outcome(pre: Game, c: CollisionEvent) -> Option<AppState> {
    let hit_obstacle = pre.tags.pair_hits(c.0, c.1, Role::Obstacle);
    let hit_finish = pre.tags.pair_hits(c.0, c.1, Role::Finish);
    if hit_finish {
        Some(AppState::Succeed)
    } else if hit_obstacle {
        Some(AppState::Failed)
    } else {
        None
    }
}

/// The transition relation of the state machine, one event per step:
/// the start signal leaves setup, retry leaves the failed phase reloading
/// the same level, advance leaves the succeed phase moving to the next
/// level, and a collision report in game moves to the outcome phase the
/// classifier decides — at most once per attempt. Everything else is
/// ignored: unmatched input in any phase, collisions outside the in-game
/// phase, and collisions after the attempt's outcome is reported.
pub open spec fn step(pre: Game, ev: InputEvent, post: Game, fx: Seq<Effect>) -> bool {
    match ev {
        InputEvent::Start => if pre.state is Setup {
            enters_in_game(pre, ChangeEvent::SetTo(Level::First), post, fx)
        } else {
            ignored(pre, post, fx)
        },
        InputEvent::Retry => if pre.state is Failed {
            enters_in_game(pre, ChangeEvent::Reload, post, fx)
        } else {
            ignored(pre, post, fx)
        },
        InputEvent::Advance => if pre.state is Succeed {
            enters_in_game(pre, ChangeEvent::Next, post, fx)
        } else {
            ignored(pre, post, fx)
        },
        InputEvent::Collision(c) => if pre.state is InGame && !pre.tracker.reported {
            match collision_outcome(pre, c) {
                Some(out) => reaches_outcome(pre, out, post, fx),
                None => ignored(pre, post, fx),
            }
        } else {
            ignored(pre, post, fx)
        },
    }
}

impl Game {
    /// Enter the in-game phase through the given change request.
    fn enter_in_game(&mut self, req: ChangeEvent) -> (fx: Vec<Effect>)
        requires
            old(self).wf(),
            old(self).tracker.tries.0 < u32::MAX,
        ensures
            final(self).wf(),
            enters_in_game(*old(self), req, *final(self), fx@),
    {
        let mut fx: Vec<Effect> = Vec::new();
        if self.state == AppState::Failed || self.state == AppState::Succeed {
            self.cues.clear();
            fx.push(Effect::StopCues);
        }
        self.instance = None;
        fx.push(Effect::ClearLevel);
        let idx = self.registry.load(req);
        let inst = self.registry.materialize(idx);
        self.instance = Some(inst);
        // The effect carries its own materialization of the same entry:
        // nothing is known here about what a clone of the instance holds.
        let described = self.registry.materialize(idx);
        fx.push(Effect::SpawnLevel(described));
        self.tags.clear();
        self.tracker.begin_attempt();
        fx.push(Effect::RespawnPlayer);
        self.state = AppState::InGame;
        proof {
            let cleanup = cleanup_effects(old(self).state);
            assert(fx@.subrange(0, cleanup.len() as int) =~= cleanup);
        }
        fx
    }

    /// Feed one external event to the state machine. The returned effects
    /// are what the engine must perform, in order; the game's own model
    /// (phase, registry, tracker, instance, cues) is already updated.
    pub fn handle(&mut self, ev: InputEvent) -> (fx: Vec<Effect>)
        requires
            old(self).wf(),
            old(self).tracker.tries.0 < u32::MAX,
        ensures
            final(self).wf(),
            step(*old(self), ev, *final(self), fx@),
    {
        match ev {
            InputEvent::Start => {
                if self.state == AppState::Setup {
                    self.enter_in_game(ChangeEvent::SetTo(Level::First))
                } else {
                    Vec::new()
                }
            },
            InputEvent::Retry => {
                if self.state == AppState::Failed {
                    self.enter_in_game(ChangeEvent::Reload)
                } else {
                    Vec::new()
                }
            },
            InputEvent::Advance => {
                if self.state == AppState::Succeed {
                    self.enter_in_game(ChangeEvent::Next)
                } else {
                    Vec::new()
                }
            },
            InputEvent::Collision(c) => {
                let mut fx: Vec<Effect> = Vec::new();
                if self.state == AppState::InGame {
                    let hit_obstacle = self.tags.pair_matches(c.0, c.1, Role::Obstacle);
                    let hit_finish = self.tags.pair_matches(c.0, c.1, Role::Finish);
                    if hit_obstacle || hit_finish {
                        let outcome_event = if hit_finish {
                            SemanticEvent::PlayerHitFinish(c.0, c.1)
                        } else {
                            SemanticEvent::PlayerHitObstacle(c.0, c.1)
                        };
                        let accepted = self.tracker.report_once(outcome_event);
                        if accepted {
                            let target = if hit_finish {
                                AppState::Succeed
                            } else {
                                AppState::Failed
                            };
                            let cue = if hit_finish {
                                Cue::Success
                            } else {
                                Cue::DeathExplosion
                            };
                            self.state = target;
                            self.cues.push(cue);
                            fx.push(Effect::PlayCue(cue));
                            proof {
                                assert(self.cues@ =~= seq![cue_for(self.state)]);
                                assert(fx@ =~= seq![Effect::PlayCue(cue_for(self.state))]);
                            }
                        }
                    }
                }
                fx
            },
        }
    }
}

/// Phase-transition completeness for the failed phase: from `Failed`,
/// only the retry input moves the game to the in-game phase; every other
/// input or event leaves the game untouched and emits nothing.
pub proof fn lemma_failed_only_retry(pre: Game, ev: InputEvent, post: Game, fx: Seq<Effect>)
    requires
        pre.state is Failed,
        step(pre, ev, post, fx),
    ensures
        post.state is InGame <==> ev is Retry,
        !(ev is Retry) ==> post == pre && fx == Seq::<Effect>::empty(),
{
}

/// Phase-transition completeness for the succeed phase: from `Succeed`,
/// only the advance input moves the game to the in-game phase; every
/// other input or event leaves the game untouched and emits nothing.
pub proof fn lemma_succeed_only_advance(pre: Game, ev: InputEvent, post: Game, fx: Seq<Effect>)
    requires
        pre.state is Succeed,
        step(pre, ev, post, fx),
    ensures
        post.state is InGame <==> ev is Advance,
        !(ev is Advance) ==> post == pre && fx == Seq::<Effect>::empty(),
{
}

/// The side-effect ordering every load obeys: whenever a step asks the
/// engine to spawn a level instance, it has already asked it to despawn
/// the existing one, so no stale colliders or duplicate finish markers
/// ever coexist with the new content.
pub proof fn lemma_despawn_precedes_spawn(pre: Game, ev: InputEvent, post: Game, fx: Seq<Effect>)
    requires
        step(pre, ev, post, fx),
    ensures
        forall|i: int|
            (0 <= i < fx.len() && (#[trigger] fx[i]) matches Effect::SpawnLevel(_)) ==> (exists|
                j: int,
            | 0 <= j < i && fx[j] == Effect::ClearLevel),
{
    assert forall|i: int|
        0 <= i < fx.len() && (#[trigger] fx[i]) matches Effect::SpawnLevel(_) implies exists|j: int|
        0 <= j < i && fx[j] == Effect::ClearLevel by {
        let cleanup = cleanup_effects(pre.state);
        if fx.len() == cleanup.len() + 3 && fx.subrange(0, cleanup.len() as int) == cleanup {
            if i < cleanup.len() {
                assert(fx[i] == fx.subrange(0, cleanup.len() as int)[i]);
            } else {
                assert(0 <= cleanup.len() < i && fx[cleanup.len() as int] == Effect::ClearLevel);
            }
        }
    }
}

/// Once an attempt's outcome is reported, no later collision report of
/// the same attempt triggers any phase transition: the game and its run
/// tracker stay exactly as they are.
pub proof fn lemma_reported_outcome_blocks_collisions(
    pre: Game,
    c: CollisionEvent,
    post: Game,
    fx: Seq<Effect>,
)
    requires
        pre.tracker.reported,
        step(pre, InputEvent::Collision(c), post, fx),
    ensures
        post == pre,
        fx == Seq::<Effect>::empty(),
{
}

/// Collision reports delivered while the phase is not `InGame` never
/// change the phase, the run tracker's flag, or anything else, and emit
/// no effect: the physics world may keep reporting contacts during
/// teardown, and they all fall on the floor.
pub proof fn lemma_collision_ignored_outside_game(
    pre: Game,
    c: CollisionEvent,
    post: Game,
    fx: Seq<Effect>,
)
    requires
        !(pre.state is InGame),
        step(pre, InputEvent::Collision(c), post, fx),
    ensures
        post == pre,
        fx == Seq::<Effect>::empty(),
{
}

} // verus!
