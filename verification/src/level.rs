//! The level registry: a fixed, ordered catalog of levels, the index of the
//! level that is currently loaded, and the resolution of change requests
//! (`Next`, `SetTo`, `Reload`) to a concrete catalog index.

use vstd::prelude::*;
use crate::collision::ColliderType;
use crate::collision::Role;
use crate::tween_move::TweenMove;
use crate::tween_move::Vec3i;

verus! {

/// Identity of a level in the fixed, totally ordered catalog.
#[derive(Clone, Copy, Debug, PartialEq, Eq, Structural)]
pub enum Level {
    First,
    Second,
    Third,
    Fourth,
}

/// A request to change which level is loaded.
#[derive(Clone, Copy, Debug, PartialEq, Eq, Structural)]
pub enum ChangeEvent {
    /// Advance to the next catalog entry, wrapping at the end.
    Next,
    /// Load a specific level; an unknown level falls back to index 0.
    SetTo(Level),
    /// Load the current level again.
    Reload,
}

/// Index of the first occurrence of `l` in `cat`; `cat.len()` when absent.
pub open spec fn first_position(cat: Seq<Level>, l: Level) -> int
    decreases cat.len(),
{
    if cat.len() == 0 {
        0
    } else if cat[0] == l {
        0
    } else {
        1 + first_position(cat.drop_first(), l)
    }
}

/// The catalog index that a `SetTo` request resolves to: the position of the
/// requested level, or 0 as the defensive default when it is not listed.
pub open spec fn set_index(cat: Seq<Level>, l: Level) -> int {
    if cat.contains(l) {
        first_position(cat, l)
    } else {
        0
    }
}

/// The catalog index that a change request resolves to, from current index
/// `current` in catalog `cat`.
pub open spec fn resolve_index(cat: Seq<Level>, current: int, ev: ChangeEvent) -> int {
    match ev {
        ChangeEvent::Next => (current + 1) % (cat.len() as int),
        ChangeEvent::SetTo(l) => set_index(cat, l),
        ChangeEvent::Reload => current,
    }
}

proof fn lemma_first_position_found(cat: Seq<Level>, l: Level, i: int)
    requires
        0 <= i < cat.len(),
        cat[i] == l,
        forall|j: int| 0 <= j < i ==> cat[j] != l,
    ensures
        first_position(cat, l) == i,
        cat.contains(l),
    decreases i,
{
    assert(cat.contains(l));
    if i == 0 {
    } else {
        assert(cat[0] != l);
        let tail = cat.drop_first();
        assert(tail[i - 1] == cat[i]);
        assert(forall|j: int| 0 <= j < i - 1 ==> tail[j] == cat[j + 1] && cat[j + 1] != l);
        lemma_first_position_found(tail, l, i - 1);
    }
}

/// The index reached after issuing `Next` `k` times from index `i` in a
/// catalog of `n` entries.
pub open spec fn next_times(i: int, k: nat, n: int) -> int
    decreases k,
{
    if k == 0 {
        i
    } else {
        next_times((i + 1) % n, (k - 1) as nat, n)
    }
}

proof fn lemma_next_times_adds(i: int, k: nat, n: int)
    requires
        0 <= i < n,
    ensures
        next_times(i, k, n) == (i + k) % n,
    decreases k,
{
    if k == 0 {
        vstd::arithmetic::div_mod::lemma_small_mod(i as nat, n as nat);
    } else {
        let i1 = (i + 1) % n;
        vstd::arithmetic::div_mod::lemma_mod_bound(i + 1, n);
        lemma_next_times_adds(i1, (k - 1) as nat, n);
        vstd::arithmetic::div_mod::lemma_add_mod_noop(i + 1, k - 1, n);
        vstd::arithmetic::div_mod::lemma_mod_twice(i + 1, n);
        vstd::arithmetic::div_mod::lemma_add_mod_noop(i1, k - 1, n);
        assert(next_times(i, k, n) == (i1 + (k - 1)) % n);
        assert((i1 + (k - 1)) % n == ((i1 % n) + ((k - 1) % n)) % n);
        assert(((i + 1) % n + ((k - 1) % n)) % n == (i + k) % n);
    }
}

/// Resolving `Next` from index `i` yields `(i + 1) % n`, and issuing `Next`
/// `n` times in a catalog of `n` entries leads back to `i`.
pub proof fn lemma_next_cycles(i: int, n: int)
    requires
        0 <= i < n,
    ensures
        next_times(i, 1, n) == (i + 1) % n,
        next_times(i, n as nat, n) == i,
{
    lemma_next_times_adds(i, 1, n);
    lemma_next_times_adds(i, n as nat, n);
    vstd::arithmetic::div_mod::lemma_mod_add_multiples_vanish(i, n);
    vstd::arithmetic::div_mod::lemma_small_mod(i as nat, n as nat);
}

/// One step of `next_times` is exactly what a `Next` request resolves to,
/// whatever the current index: the chain of `Next` resolutions walks the
/// catalog in order.
pub proof fn lemma_next_step(cat: Seq<Level>, i: int)
    requires
        0 <= i < cat.len(),
    ensures
        resolve_index(cat, i, ChangeEvent::Next) == next_times(i, 1, cat.len() as int),
{
    lemma_next_times_adds(i, 1, cat.len() as int);
}

/// `SetTo` is idempotent: what a `SetTo` request resolves to depends only on
/// the catalog, never on the current index, so resolving the same level a
/// second time yields the same index; and an unknown level always resolves
/// to index 0.
pub proof fn lemma_set_to_idempotent(cat: Seq<Level>, cur1: int, cur2: int, l: Level)
    ensures
        resolve_index(cat, cur1, ChangeEvent::SetTo(l)) == resolve_index(
            cat,
            cur2,
            ChangeEvent::SetTo(l),
        ),
        !cat.contains(l) ==> resolve_index(cat, cur1, ChangeEvent::SetTo(l)) == 0,
{
}

/// A named scene asset a piece is built from; the asset collaborator
/// resolves these to models and collider meshes.
#[derive(Clone, Copy, Debug, PartialEq, Eq, Structural)]
pub enum AssetId {
    Floor,
    LaunchPad,
    LandingPad,
    SecondObstacle,
    ThirdObstacle,
}

/// One spawned piece of a level: its asset, the body kind it declares to
/// the physics collaborator, the role it plays for outcome classification,
/// and its moving-obstacle descriptor when it is a moving hazard.
#[derive(Clone, Copy, Debug, PartialEq, Eq)]
pub struct Piece {
    pub asset: AssetId,
    pub body: ColliderType,
    pub role: Option<Role>,
    pub mover: Option<TweenMove>,
}

/// The live spawned representation of one level: the pieces parented under
/// one root marker. At most one instance exists at a time; it is destroyed
/// in full before the next one is spawned.
#[derive(Clone, Debug, PartialEq, Eq)]
pub struct LevelInstance {
    pub level: Level,
    pub pieces: Vec<Piece>,
}

/// The floor: a static obstacle; touching it ends the attempt.
pub open spec fn floor_piece() -> Piece {
    Piece { asset: AssetId::Floor, body: ColliderType::Static, role: Some(Role::Obstacle), mover: None }
}

/// The landing pad: the finish marker.
pub open spec fn landing_pad_piece() -> Piece {
    Piece {
        asset: AssetId::LandingPad,
        body: ColliderType::Static,
        role: Some(Role::Finish),
        mover: None,
    }
}

/// The launch pad: scenery with no role in outcome classification.
pub open spec fn launch_pad_piece() -> Piece {
    Piece { asset: AssetId::LaunchPad, body: ColliderType::Static, role: None, mover: None }
}

/// The obstacle variant the second level adds.
pub open spec fn second_obstacle_piece() -> Piece {
    Piece {
        asset: AssetId::SecondObstacle,
        body: ColliderType::Static,
        role: Some(Role::Obstacle),
        mover: None,
    }
}

/// The obstacle variant the third level adds.
pub open spec fn third_obstacle_piece() -> Piece {
    Piece {
        asset: AssetId::ThirdObstacle,
        body: ColliderType::Static,
        role: Some(Role::Obstacle),
        mover: None,
    }
}

/// The fourth level reuses the second level's obstacle asset and turns it
/// into a moving hazard: it sweeps 2.5 world units upward over 2 seconds.
pub open spec fn fourth_obstacle_piece() -> Piece {
    Piece {
        asset: AssetId::SecondObstacle,
        body: ColliderType::Static,
        role: Some(Role::Obstacle),
        mover: Some(TweenMove { target: Vec3i { x: 0, y: 2500, z: 0 }, duration: 2000 }),
    }
}

/// The pieces a level spawns: floor, landing pad and launch pad always,
/// then the obstacle the level adds, if any.
pub open spec fn pieces_for(l: Level) -> Seq<Piece> {
    let base = seq![floor_piece(), landing_pad_piece(), launch_pad_piece()];
    match l {
        Level::First => base,
        Level::Second => base.push(second_obstacle_piece()),
        Level::Third => base.push(third_obstacle_piece()),
        Level::Fourth => base.push(fourth_obstacle_piece()),
    }
}

/// The registry: the catalog and the currently loaded index.
pub struct LevelRegistry {
    /// The fixed, ordered catalog of levels.
    pub catalog: Vec<Level>,
    /// Index of the currently loaded level.
    pub current: usize,
}

impl LevelRegistry {
    /// The catalog is never empty and the current index stays inside it.
    pub open spec fn wf(self) -> bool {
        0 < self.catalog@.len() && self.current < self.catalog@.len()
    }

    /// A registry over the given catalog, positioned at its first entry.
    pub fn with_catalog(catalog: Vec<Level>) -> (r: LevelRegistry)
        requires
            catalog@.len() > 0,
        ensures
            r.wf(),
            r.catalog@ == catalog@,
            r.current == 0,
    {
        LevelRegistry { catalog, current: 0 }
    }

    /// The standard four-level catalog, positioned at the first level.
    pub fn standard() -> (r: LevelRegistry)
        ensures
            r.wf(),
            r.catalog@ =~= seq![Level::First, Level::Second, Level::Third, Level::Fourth],
            r.current == 0,
    {
        let catalog = vec![Level::First, Level::Second, Level::Third, Level::Fourth];
        LevelRegistry { catalog, current: 0 }
    }

    /// Resolve a change request to a catalog index without loading it.
    /// `Next` wraps around the catalog, `SetTo` finds the requested level or
    /// falls back to index 0, `Reload` keeps the current index.
    pub fn resolve(&self, ev: ChangeEvent) -> (i: usize)
        requires
            self.wf(),
        ensures
            i == resolve_index(self.catalog@, self.current as int, ev),
            i < self.catalog@.len(),
            (ev matches ChangeEvent::SetTo(l) && !self.catalog@.contains(l)) ==> i == 0,
    {
        match ev {
            ChangeEvent::Next => {
                let n = self.catalog.len();
                (self.current + 1) % n
            },
            ChangeEvent::SetTo(l) => {
                let n = self.catalog.len();
                let mut k: usize = 0;
                while k < n
                    invariant
                        self.wf(),
                        ev == ChangeEvent::SetTo(l),
                        n == self.catalog@.len(),
                        k <= n,
                        forall|j: int| 0 <= j < k ==> self.catalog@[j] != l,
                    decreases n - k,
                {
                    if self.catalog[k] == l {
                        proof {
                            lemma_first_position_found(self.catalog@, l, k as int);
                        }
                        return k;
                    }
                    k = k + 1;
                }
                assert(!self.catalog@.contains(l));
                0
            },
            ChangeEvent::Reload => self.current,
        }
    }

    /// Enumerate the level-instance description for catalog entry `index`:
    /// which static pieces to spawn, the role each plays for outcome
    /// classification, and the moving-obstacle descriptor when the level
    /// has one.
    pub fn materialize(&self, index: usize) -> (inst: LevelInstance)
        requires
            self.wf(),
            index < self.catalog@.len(),
        ensures
            inst.level == self.catalog@[index as int],
            inst.pieces@ == pieces_for(inst.level),
    {
        let level = self.catalog[index];
        let mut pieces: Vec<Piece> = Vec::new();
        pieces.push(
            Piece {
                asset: AssetId::Floor,
                body: ColliderType::Static,
                role: Some(Role::Obstacle),
                mover: None,
            },
        );
        pieces.push(
            Piece {
                asset: AssetId::LandingPad,
                body: ColliderType::Static,
                role: Some(Role::Finish),
                mover: None,
            },
        );
        pieces.push(
            Piece { asset: AssetId::LaunchPad, body: ColliderType::Static, role: None, mover: None },
        );
        match level {
            Level::First => {},
            Level::Second => pieces.push(
                Piece {
                    asset: AssetId::SecondObstacle,
                    body: ColliderType::Static,
                    role: Some(Role::Obstacle),
                    mover: None,
                },
            ),
            Level::Third => pieces.push(
                Piece {
                    asset: AssetId::ThirdObstacle,
                    body: ColliderType::Static,
                    role: Some(Role::Obstacle),
                    mover: None,
                },
            ),
            Level::Fourth => pieces.push(
                Piece {
                    asset: AssetId::SecondObstacle,
                    body: ColliderType::Static,
                    role: Some(Role::Obstacle),
                    mover: Some(
                        TweenMove { target: Vec3i { x: 0, y: 2500, z: 0 }, duration: 2000 },
                    ),
                },
            ),
        }
        proof {
            assert(pieces@ =~= pieces_for(level));
        }
        LevelInstance { level, pieces }
    }

    /// Resolve a change request and make its index the current one.
    pub fn load(&mut self, ev: ChangeEvent) -> (i: usize)
        requires
            old(self).wf(),
        ensures
            final(self).wf(),
            final(self).catalog@ == old(self).catalog@,
            final(self).current == resolve_index(old(self).catalog@, old(self).current as int, ev),
            i == final(self).current,
    {
        let i = self.resolve(ev);
        self.current = i;
        i
    }
}

} // verus!
