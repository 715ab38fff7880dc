//! Movement and collision resolution: a velocity is applied to an actor's
//! position one axis at a time, and a move along an axis is rejected whenever
//! the actor's box at the candidate position would overlap a static boundary.
//! Resolving the axes separately produces wall sliding: motion continues along
//! a free axis even when the other axis is blocked, X first, then Y.

use vstd::prelude::*;

use crate::geom::{aabb_overlap, overlaps_at, Boundary, Vec2i};

verus! {

/// Side length of the actor's collision box, in world units.
pub const PLAYER_SIZE: i64 = 32;

/// Half-extent of the actor's collision box on each axis.
pub const PLAYER_HALF: i64 = 16;

/// An actor's velocity for the current tick, in world units per tick.
#[derive(Clone, Copy, Debug, PartialEq, Eq, Structural)]
pub struct Velocity(pub Vec2i);

/// The static boundary list of the current level, immutable for the session.
#[derive(Debug)]
pub struct Boundaries(pub Vec<Boundary>);

/// The actor's half-extents, used by every collision test.
pub open spec fn player_half() -> Vec2i {
    Vec2i { x: PLAYER_HALF, y: PLAYER_HALF }
}

/// Whether the actor's box centered at `(px, py)` overlaps some boundary.
pub open spec fn blocked_at(bounds: Seq<Boundary>, px: int, py: int) -> bool {
    exists|i: int|
        0 <= i < bounds.len() && overlaps_at(bounds[i].center, bounds[i].half, px, py, player_half())
}

impl Boundaries {
    /// Index of the first boundary the actor's box at `player_pos` overlaps,
    /// or `None` when the position is collision-free.
    pub fn collide(&self, player_pos: Vec2i) -> (r: Option<usize>)
        ensures
            match r {
                Some(i) => {
                    &&& 0 <= i < self.0@.len()
                    &&& overlaps_at(
                        self.0@[i as int].center,
                        self.0@[i as int].half,
                        player_pos.x as int,
                        player_pos.y as int,
                        player_half(),
                    )
                    &&& forall|j: int|
                        0 <= j < i ==> !overlaps_at(
                            self.0@[j].center,
                            self.0@[j].half,
                            player_pos.x as int,
                            player_pos.y as int,
                            player_half(),
                        )
                },
                None => !blocked_at(self.0@, player_pos.x as int, player_pos.y as int),
            },
    {
        let n: usize = self.0.len();
        let mut i: usize = 0;
        while i < n
            invariant
                n == self.0@.len(),
                0 <= i <= n,
                forall|j: int|
                    0 <= j < i ==> !overlaps_at(
                        self.0@[j].center,
                        self.0@[j].half,
                        player_pos.x as int,
                        player_pos.y as int,
                        player_half(),
                    ),
            decreases n - i,
        {
            let b = self.0[i];
            if aabb_overlap(b.center, b.half, player_pos, Vec2i { x: PLAYER_HALF, y: PLAYER_HALF })
            {
                return Some(i);
            }
            i = i + 1;
        }
        None
    }
}

/// Resolved X coordinate: the candidate `px + vx` is committed only when the
/// actor's box there (at the unchanged Y) overlaps no boundary.
pub open spec fn step_x(bounds: Seq<Boundary>, px: int, py: int, vx: int) -> int {
    if blocked_at(bounds, px + vx, py) {
        px
    } else {
        px + vx
    }
}

/// Resolved Y coordinate, tested at the already-resolved X.
pub open spec fn step_y(bounds: Seq<Boundary>, rx: int, py: int, vy: int) -> int {
    if blocked_at(bounds, rx, py + vy) {
        py
    } else {
        py + vy
    }
}

/// One tick of axis-separated movement: X is resolved first, then Y at the
/// new X. Returns the resolved coordinates as unbounded integers.
pub open spec fn resolve_at(bounds: Seq<Boundary>, px: int, py: int, vx: int, vy: int) -> (int,
    int) {
    let rx = step_x(bounds, px, py, vx);
    (rx, step_y(bounds, rx, py, vy))
}

/// Applies one tick of velocity to a position, axis-separated, X before Y.
/// A camera or viewport anchor, if one is tracked, is set to the returned
/// position with no smoothing.
pub fn move_system(pos: Vec2i, velocity: &Velocity, boundaries: &Boundaries) -> (new_pos: Vec2i)
    requires
        i64::MIN <= pos.x + velocity.0.x <= i64::MAX,
        i64::MIN <= pos.y + velocity.0.y <= i64::MAX,
    ensures
        (new_pos.x as int, new_pos.y as int) == resolve_at(
            boundaries.0@,
            pos.x as int,
            pos.y as int,
            velocity.0.x as int,
            velocity.0.y as int,
        ),
{
    let mut x: i64 = pos.x;
    let mut y: i64 = pos.y;
    if boundaries.collide(Vec2i { x: x + velocity.0.x, y }).is_none() {
        x = x + velocity.0.x;
    }
    if boundaries.collide(Vec2i { x, y: y + velocity.0.y }).is_none() {
        y = y + velocity.0.y;
    }
    Vec2i { x, y }
}

/// The resolved position of a whole path of per-tick velocities, applied in
/// order from a starting position.
pub open spec fn resolve_path(bounds: Seq<Boundary>, px: int, py: int, vels: Seq<Vec2i>) -> (int,
    int)
    decreases vels.len(),
{
    if vels.len() == 0 {
        (px, py)
    } else {
        let stepped = resolve_at(bounds, px, py, vels[0].x as int, vels[0].y as int);
        resolve_path(bounds, stepped.0, stepped.1, vels.skip(1))
    }
}

/// One resolved step never moves a collision-free actor into a boundary:
/// whichever axis moves was tested against every boundary, and a rejected
/// axis keeps its old, collision-free coordinate.
pub proof fn lemma_step_stays_clear(bounds: Seq<Boundary>, px: int, py: int, vx: int, vy: int)
    requires
        !blocked_at(bounds, px, py),
    ensures
        !blocked_at(bounds, resolve_at(bounds, px, py, vx, vy).0, resolve_at(
            bounds,
            px,
            py,
            vx,
            vy,
        ).1),
{
}

/// Movement safety over any path: an actor that starts with its box outside
/// every boundary can step with arbitrary per-tick velocities, toward a
/// boundary or not, and its resolved box never overlaps any boundary.
pub proof fn lemma_path_stays_clear(bounds: Seq<Boundary>, px: int, py: int, vels: Seq<Vec2i>)
    requires
        !blocked_at(bounds, px, py),
    ensures
        !blocked_at(bounds, resolve_path(bounds, px, py, vels).0, resolve_path(
            bounds,
            px,
            py,
            vels,
        ).1),
    decreases vels.len(),
{
    if vels.len() > 0 {
        let stepped = resolve_at(bounds, px, py, vels[0].x as int, vels[0].y as int);
        lemma_step_stays_clear(bounds, px, py, vels[0].x as int, vels[0].y as int);
        lemma_path_stays_clear(bounds, stepped.0, stepped.1, vels.skip(1));
    }
}

} // verus!
