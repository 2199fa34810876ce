//! The collision classifier: a stateless transform from raw "two bodies
//! began touching" events to semantic events, driven by a small registry
//! that maps entity ids to their roles. The two raw ids are unordered, so
//! each role pair is checked in both orders. A pair that matches both the
//! obstacle and the finish membership fires both semantic events.

use vstd::prelude::*;

verus! {

/// An engine-side entity identifier, opaque to this core.
pub type EntityId = u64;

/// The body kind a spawned object declares to the physics collaborator.
#[derive(Clone, Copy, Debug, PartialEq, Eq, Structural)]
pub enum ColliderType {
    Static,
    Dynamic,
}

/// A raw physics event: entities that began touching this tick, in no
/// particular order.
#[derive(Clone, Copy, Debug, PartialEq, Eq, Structural)]
pub struct CollisionEvent(pub EntityId, pub EntityId);

/// The role an entity plays for outcome classification.
#[derive(Clone, Copy, Debug, PartialEq, Eq, Structural)]
pub enum Role {
    Player,
    Obstacle,
    Finish,
}

/// A classified, domain-meaningful event; it carries the originating raw
/// pair for diagnostics only, never for outcome logic.
#[derive(Clone, Copy, Debug, PartialEq, Eq, Structural)]
pub enum SemanticEvent {
    PlayerHitObstacle(EntityId, EntityId),
    PlayerHitFinish(EntityId, EntityId),
}

/// The registry mapping entity ids to roles. An id may carry several
/// roles; membership in each role is what classification queries.
pub struct TagRegistry {
    pub entries: Vec<(EntityId, Role)>,
}

impl TagRegistry {
    /// Whether `id` is registered with role `r`.
    pub open spec fn spec_has_role(self, id: EntityId, r: Role) -> bool {
        self.entries@.contains((id, r))
    }

    /// Whether the unordered pair `(a, b)` pairs the player with an entity
    /// of role `r`, in either order.
    pub open spec fn pair_hits(self, a: EntityId, b: EntityId, r: Role) -> bool {
        ||| self.spec_has_role(a, Role::Player) && self.spec_has_role(b, r)
        ||| self.spec_has_role(b, Role::Player) && self.spec_has_role(a, r)
    }

    /// An empty registry.
    pub fn new() -> (t: TagRegistry)
        ensures
            t.entries@ =~= Seq::<(EntityId, Role)>::empty(),
    {
        TagRegistry { entries: Vec::new() }
    }

    /// Register `id` as playing role `r`.
    pub fn register(&mut self, id: EntityId, r: Role)
        ensures
            final(self).entries@ == old(self).entries@.push((id, r)),
    {
        self.entries.push((id, r));
    }

    /// Forget every registered tag.
    pub fn clear(&mut self)
        ensures
            final(self).entries@ =~= Seq::<(EntityId, Role)>::empty(),
    {
        self.entries.clear();
    }

    /// Whether `id` is registered with role `r`.
    pub fn has_role(&self, id: EntityId, r: Role) -> (found: bool)
        ensures
            found == self.spec_has_role(id, r),
    {
        let n = self.entries.len();
        let mut k: usize = 0;
        while k < n
            invariant
                n == self.entries@.len(),
                k <= n,
                forall|j: int| 0 <= j < k ==> self.entries@[j] != (id, r),
            decreases n - k,
        {
            let (eid, er) = self.entries[k];
            if eid == id && er == r {
                assert(self.entries@[k as int] == (id, r));
                return true;
            }
            k = k + 1;
        }
        false
    }

    /// Whether the unordered pair `(a, b)` pairs the player with an entity
    /// of role `r`, checking both orders of the raw pair.
    pub fn pair_matches(&self, a: EntityId, b: EntityId, r: Role) -> (found: bool)
        ensures
            found == self.pair_hits(a, b, r),
    {
        self.has_role(a, Role::Player) && self.has_role(b, r) || self.has_role(b, Role::Player)
            && self.has_role(a, r)
    }
}

/// The semantic events that classifying the raw pair `(a, b)` produces:
/// a player-obstacle contact, then a player-finish contact, each present
/// exactly when the pair matches the role in either order.
pub open spec fn classify_spec(tags: TagRegistry, a: EntityId, b: EntityId) -> Seq<SemanticEvent> {
    let hit_obstacle = tags.pair_hits(a, b, Role::Obstacle);
    let hit_finish = tags.pair_hits(a, b, Role::Finish);
    if hit_obstacle && hit_finish {
        seq![SemanticEvent::PlayerHitObstacle(a, b), SemanticEvent::PlayerHitFinish(a, b)]
    } else if hit_obstacle {
        seq![SemanticEvent::PlayerHitObstacle(a, b)]
    } else if hit_finish {
        seq![SemanticEvent::PlayerHitFinish(a, b)]
    } else {
        Seq::empty()
    }
}

/// Classify one raw collision event against the registry. No state is
/// retained: the result is a pure function of the registry and the pair.
pub fn classify(tags: &TagRegistry, ev: &CollisionEvent) -> (out: Vec<SemanticEvent>)
    ensures
        out@ == classify_spec(*tags, ev.0, ev.1),
{
    let hit_obstacle = tags.pair_matches(ev.0, ev.1, Role::Obstacle);
    let hit_finish = tags.pair_matches(ev.0, ev.1, Role::Finish);
    let mut out: Vec<SemanticEvent> = Vec::new();
    if hit_obstacle {
        out.push(SemanticEvent::PlayerHitObstacle(ev.0, ev.1));
    }
    if hit_finish {
        out.push(SemanticEvent::PlayerHitFinish(ev.0, ev.1));
    }
    proof {
        assert(out@ =~= classify_spec(*tags, ev.0, ev.1));
    }
    out
}

} // verus!
