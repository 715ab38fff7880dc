//! Lifecycle of ephemeral duration-bound effects — principally the smoke
//! bomb's concealment circle. An effect is spawned with a fixed countdown
//! when its cast resolves, drains every tick, and is removed the tick its
//! countdown finishes. All effects are also removed en masse when the
//! session ends, whatever time they had left.

use vstd::prelude::*;

use crate::geom::{Vec2i, MAX_COORD};

verus! {

/// Radius of the concealment circle a smoke bomb spawns, in world units.
pub const SMOKE_BOMB_RADIUS: i64 = 100;

/// A live concealment effect: where it sits, the radius inside which the
/// actor cannot be detected, and how long it has left.
#[derive(Clone, Copy, Debug, PartialEq, Eq, Structural)]
pub struct SmokeBomb {
    pub pos: Vec2i,
    pub radius: i64,
    pub time_left_ms: u64,
}

impl SmokeBomb {
    /// Position and radius small enough for exact squared-distance tests.
    pub open spec fn wf(self) -> bool {
        &&& self.pos.in_world()
        &&& 0 <= self.radius <= MAX_COORD
    }
}

/// The live effects after one tick: each countdown loses `delta_ms`, and an
/// effect whose countdown finishes is removed, the rest keeping their order.
pub open spec fn ticked_effects(effects: Seq<SmokeBomb>, delta_ms: u64) -> Seq<SmokeBomb>
    decreases effects.len(),
{
    if effects.len() == 0 {
        Seq::empty()
    } else {
        let front = ticked_effects(effects.drop_last(), delta_ms);
        let b = effects.last();
        if b.time_left_ms <= delta_ms {
            front
        } else {
            front.push(SmokeBomb { time_left_ms: (b.time_left_ms - delta_ms) as u64, ..b })
        }
    }
}

/// Ticking never invents an effect: it only drains countdowns and drops the
/// ones that finished, so well-formedness of every effect is preserved.
pub proof fn lemma_ticked_effects_wf(effects: Seq<SmokeBomb>, delta_ms: u64)
    requires
        forall|i: int| 0 <= i < effects.len() ==> effects[i].wf(),
    ensures
        forall|i: int|
            0 <= i < ticked_effects(effects, delta_ms).len() ==> ticked_effects(
                effects,
                delta_ms,
            )[i].wf(),
    decreases effects.len(),
{
    if effects.len() > 0 {
        lemma_ticked_effects_wf(effects.drop_last(), delta_ms);
        let front = ticked_effects(effects.drop_last(), delta_ms);
        let b = effects.last();
        if b.time_left_ms > delta_ms {
            let res = front.push(SmokeBomb { time_left_ms: (b.time_left_ms - delta_ms) as u64, ..b });
            assert forall|i: int| 0 <= i < res.len() implies res[i].wf() by {
                if i < front.len() {
                    assert(res[i] == front[i]);
                } else {
                    assert(res[i].pos == b.pos && res[i].radius == b.radius);
                }
            }
        }
    }
}

/// One tick of the effect lifecycle: drains every live effect's countdown by
/// `delta_ms` and despawns those that finish, in place.
pub fn despawn_duration_spells(effects: &mut Vec<SmokeBomb>, delta_ms: u64)
    ensures
        final(effects)@ == ticked_effects(old(effects)@, delta_ms),
{
    let n: usize = effects.len();
    let mut out: Vec<SmokeBomb> = Vec::new();
    let mut i: usize = 0;
    while i < n
        invariant
            n == old(effects)@.len(),
            *effects == *old(effects),
            0 <= i <= n,
            out@ == ticked_effects(old(effects)@.take(i as int), delta_ms),
        decreases n - i,
    {
        let b = effects[i];
        if b.time_left_ms > delta_ms {
            out.push(
                SmokeBomb {
                    pos: b.pos,
                    radius: b.radius,
                    time_left_ms: b.time_left_ms - delta_ms,
                },
            );
        }
        proof {
            assert(old(effects)@.take(i + 1).drop_last() =~= old(effects)@.take(i as int));
        }
        i = i + 1;
    }
    proof {
        assert(old(effects)@.take(n as int) =~= old(effects)@);
    }
    *effects = out;
}

/// Session exit: removes every live effect at once, regardless of the time
/// each had left.
pub fn clear_session(effects: &mut Vec<SmokeBomb>)
    ensures
        final(effects)@.len() == 0,
{
    effects.clear();
}

} // verus!
