//! The per-tick simulation driver. One actor's whole mutable state lives in
//! an explicit [`Actor`] context and the level's world state in a [`Level`];
//! [`tick`] advances both by one tick in the fixed intra-tick order: input
//! mapping, cooldown tick, effect lifecycle, dash controller, casting state
//! machine (with its resolution effects applied before movement), movement
//! and collision, then detection over the fully updated world.

use vstd::prelude::*;

use crate::casting::{machine_step, process_casting, Casting, CastingCommand};
use crate::dash::{dash, dash_step, start_dash, Dashing};
use crate::detect::{detect_player, detects, Camera};
use crate::effects::{
    clear_session, despawn_duration_spells, lemma_ticked_effects_wf, ticked_effects, SmokeBomb,
    SMOKE_BOMB_RADIUS,
};
use crate::geom::{lemma_mul_in_range, Boundary, Vec2i, MAX_COORD};
use crate::input::{
    dashing_commands, keyboard_commands, keyboard_velocity, move_keyboard,
    move_keyboard_for_dashing, KeyFrame,
};
use crate::movement::{move_system, resolve_at, Boundaries, Velocity};
use crate::skills::SkillsState;
use crate::spells::{SpellKind, SpellTimes, MAX_MULTIPLIER, MAX_SPEED};

verus! {

/// Largest velocity magnitude per axis an actor can ever carry: the largest
/// movement intent scaled by the largest dash multiplier.
pub const MAX_ACTOR_VEL: i64 = MAX_SPEED * MAX_MULTIPLIER;

/// One actor's complete simulation state. Holding the optional casting and
/// dash states as fields of an explicit per-actor context (rather than
/// process-wide singletons) keeps independent actors independent; that each
/// is an `Option` of a single record makes two concurrent casts, or two
/// concurrent dashes, for one actor unrepresentable.
#[derive(Clone, Copy, Debug)]
pub struct Actor {
    pub pos: Vec2i,
    pub velocity: Velocity,
    pub last_velocity: Vec2i,
    pub casting: Option<Casting>,
    pub dashing: Option<Dashing>,
    pub skills: SkillsState,
}

impl Actor {
    /// The bounds every tick preserves: the velocity never exceeds a dash's,
    /// the recorded movement intent never exceeds the base speed, and an
    /// in-progress cast bar never holds more than its full length.
    pub open spec fn wf(self) -> bool {
        &&& -MAX_ACTOR_VEL <= self.velocity.0.x <= MAX_ACTOR_VEL
        &&& -MAX_ACTOR_VEL <= self.velocity.0.y <= MAX_ACTOR_VEL
        &&& -MAX_SPEED <= self.last_velocity.x <= MAX_SPEED
        &&& -MAX_SPEED <= self.last_velocity.y <= MAX_SPEED
        &&& self.casting matches Some(c) ==> c.wf()
    }

    /// A freshly spawned actor: at rest, idle, every ability ready, facing
    /// down (the default movement intent before the actor has ever moved).
    pub fn new(pos: Vec2i, times: &SpellTimes) -> (r: Actor)
        requires
            times.valid(),
        ensures
            r == (Actor {
                pos,
                velocity: Velocity(Vec2i { x: 0, y: 0 }),
                last_velocity: Vec2i { x: 0, y: (-times.move_speed) as i64 },
                casting: None::<Casting>,
                dashing: None::<Dashing>,
                skills: SkillsState::spec_default(),
            }),
            r.wf(),
    {
        Actor {
            pos,
            velocity: Velocity(Vec2i { x: 0, y: 0 }),
            last_velocity: Vec2i { x: 0, y: -times.move_speed },
            casting: None,
            dashing: None,
            skills: SkillsState::new(),
        }
    }
}

/// The level's world state: its immutable boundary and vision-source lists,
/// and the live concealment effects.
#[derive(Debug)]
pub struct Level {
    pub boundaries: Boundaries,
    pub cameras: Vec<Camera>,
    pub smoke_bombs: Vec<SmokeBomb>,
}

impl Level {
    pub open spec fn wf(self) -> bool {
        &&& forall|i: int| 0 <= i < self.cameras@.len() ==> self.cameras@[i].wf()
        &&& forall|i: int| 0 <= i < self.smoke_bombs@.len() ==> self.smoke_bombs@[i].wf()
    }

    pub fn new(boundaries: Boundaries, cameras: Vec<Camera>) -> (r: Level)
        requires
            forall|i: int| 0 <= i < cameras@.len() ==> cameras@[i].wf(),
        ensures
            r.boundaries.0@ == boundaries.0@,
            r.cameras@ == cameras@,
            r.smoke_bombs@.len() == 0,
            r.wf(),
    {
        Level { boundaries, cameras, smoke_bombs: Vec::new() }
    }

    /// Session exit: every ephemeral effect is removed at once, whatever
    /// time it had left.
    pub fn end_session(&mut self)
        ensures
            final(self).boundaries.0@ == old(self).boundaries.0@,
            final(self).cameras@ == old(self).cameras@,
            final(self).smoke_bombs@.len() == 0,
    {
        clear_session(&mut self.smoke_bombs);
    }
}

/// What a tick reports to the caller: the ability that resolved this tick,
/// if any, and one detection verdict per vision source.
#[derive(Debug)]
pub struct TickOutput {
    pub resolved: Option<SpellKind>,
    pub detected: Vec<bool>,
}

/// Positions from which even a full dash step stays within the world's
/// coordinate range.
pub open spec fn in_playfield(p: Vec2i) -> bool {
    &&& -(MAX_COORD - MAX_ACTOR_VEL) <= p.x <= MAX_COORD - MAX_ACTOR_VEL
    &&& -(MAX_COORD - MAX_ACTOR_VEL) <= p.y <= MAX_COORD - MAX_ACTOR_VEL
}

/// The mathematical model of one whole tick; every component is stated over
/// the stage models of the individual modules.
pub struct TickModel {
    pub actor: Actor,
    pub smoke_bombs: Seq<SmokeBomb>,
    pub resolved: Option<SpellKind>,
    pub detected: Seq<bool>,
}

/// One tick, as a function of the old actor, the old world and the tick's
/// inputs. The stages in order:
/// 1. input sampling becomes this tick's command queue, and — while no dash
///    is in progress — the tick's movement velocity and last movement intent;
/// 2. every pending cooldown drains;
/// 3. every live effect drains, despawning the finished ones;
/// 4. an already-running dash drains, ending (and zeroing the velocity) on
///    expiry or on any interrupting command of this tick;
/// 5. the casting machine honors the first command of the queue and resolves
///    a filled cast bar, starting its cooldown;
/// 6. a resolved dash inserts the dash state and overrides the velocity, a
///    resolved smoke spawns a concealment effect at the caster's position;
/// 7. movement applies the resulting velocity, axis-separated, against the
///    boundary list;
/// 8. detection judges the post-movement position against every source.
pub open spec fn spec_tick(
    a: Actor,
    bounds: Seq<Boundary>,
    cams: Seq<Camera>,
    bombs: Seq<SmokeBomb>,
    keys: KeyFrame,
    delta_ms: u64,
    times: SpellTimes,
) -> TickModel {
    let queue = if a.dashing is Some {
        dashing_commands(keys)
    } else {
        keyboard_commands(keys)
    };
    let kv = keyboard_velocity(keys, a.casting, times.move_speed);
    let vel0 = if a.dashing is Some {
        a.velocity.0
    } else {
        kv
    };
    let last1 = if a.dashing is Some || kv.is_zero() {
        a.last_velocity
    } else {
        kv
    };
    let skills1 = a.skills.spec_ticked(delta_ms);
    let bombs1 = ticked_effects(bombs, delta_ms);
    let stepped = dash_step(a.dashing, vel0, queue, delta_ms);
    let first_cmd = if queue.len() == 0 {
        None
    } else {
        Some(queue[0])
    };
    let (cast1, skills2, res) = machine_step(a.casting, skills1, first_cmd, delta_ms, times);
    let dash2 = if res == Some(SpellKind::Dash) {
        Some(Dashing(times.dash.duration_ms))
    } else {
        stepped.0
    };
    let vel2 = if res == Some(SpellKind::Dash) {
        Vec2i {
            x: (last1.x * times.dash_multiplier) as i64,
            y: (last1.y * times.dash_multiplier) as i64,
        }
    } else {
        stepped.1
    };
    let bombs2 = if res == Some(SpellKind::Smoke) {
        bombs1.push(
            SmokeBomb {
                pos: a.pos,
                radius: SMOKE_BOMB_RADIUS,
                time_left_ms: times.smoke.duration_ms,
            },
        )
    } else {
        bombs1
    };
    let rpos = resolve_at(bounds, a.pos.x as int, a.pos.y as int, vel2.x as int, vel2.y as int);
    let pos1 = Vec2i { x: rpos.0 as i64, y: rpos.1 as i64 };
    let detected = Seq::new(cams.len(), |i: int| detects(cams[i], bombs2, pos1));
    TickModel {
        actor: Actor {
            pos: pos1,
            velocity: Velocity(vel2),
            last_velocity: last1,
            casting: cast1,
            dashing: dash2,
            skills: skills2,
        },
        smoke_bombs: bombs2,
        resolved: res,
        detected,
    }
}

/// Advances the simulation by one tick of `delta_ms` milliseconds. The
/// boundary and vision-source lists never change; the live effects, the
/// actor and the outputs land exactly on the tick model.
pub fn tick(
    actor: &mut Actor,
    level: &mut Level,
    keys: &KeyFrame,
    delta_ms: u64,
    times: &SpellTimes,
) -> (out: TickOutput)
    requires
        times.valid(),
        old(actor).wf(),
        in_playfield(old(actor).pos),
        old(level).wf(),
    ensures
        ({
            let m = spec_tick(
                *old(actor),
                old(level).boundaries.0@,
                old(level).cameras@,
                old(level).smoke_bombs@,
                *keys,
                delta_ms,
                *times,
            );
            &&& *final(actor) == m.actor
            &&& final(level).smoke_bombs@ == m.smoke_bombs
            &&& out.resolved == m.resolved
            &&& out.detected@ == m.detected
        }),
        final(level).boundaries.0@ == old(level).boundaries.0@,
        final(level).cameras@ == old(level).cameras@,
        final(actor).wf(),
        final(level).wf(),
{
    let mut queue: Vec<CastingCommand> = Vec::new();
    if actor.dashing.is_some() {
        move_keyboard_for_dashing(keys, &mut queue);
    } else {
        move_keyboard(
            keys,
            &mut actor.velocity,
            &mut actor.last_velocity,
            &actor.casting,
            times.move_speed,
            &mut queue,
        );
    }
    actor.skills.tick_states(delta_ms);
    despawn_duration_spells(&mut level.smoke_bombs, delta_ms);
    proof {
        lemma_ticked_effects_wf(old(level).smoke_bombs@, delta_ms);
    }
    dash(&mut actor.dashing, &mut actor.velocity, &queue, delta_ms);
    let first_cmd: Option<CastingCommand> = if queue.len() == 0 {
        None
    } else {
        Some(queue[0])
    };
    let resolved = process_casting(&mut actor.casting, &mut actor.skills, first_cmd, delta_ms,
        times);
    match resolved {
        Some(SpellKind::Dash) => {
            actor.dashing = Some(Dashing(times.duration(SpellKind::Dash)));
            start_dash(&mut actor.velocity, actor.last_velocity, times.dash_multiplier);
            proof {
                lemma_mul_in_range(
                    actor.last_velocity.x as int,
                    times.dash_multiplier as int,
                    MAX_SPEED as int,
                    MAX_MULTIPLIER as int,
                );
                lemma_mul_in_range(
                    actor.last_velocity.y as int,
                    times.dash_multiplier as int,
                    MAX_SPEED as int,
                    MAX_MULTIPLIER as int,
                );
            }
        },
        Some(SpellKind::Smoke) => {
            level.smoke_bombs.push(
                SmokeBomb {
                    pos: actor.pos,
                    radius: SMOKE_BOMB_RADIUS,
                    time_left_ms: times.duration(SpellKind::Smoke),
                },
            );
        },
        _ => {},
    }
    actor.pos = move_system(actor.pos, &actor.velocity, &level.boundaries);
    let detected = detect_player(&level.cameras, &level.smoke_bombs, actor.pos);
    proof {
        let m = spec_tick(
            *old(actor),
            old(level).boundaries.0@,
            old(level).cameras@,
            old(level).smoke_bombs@,
            *keys,
            delta_ms,
            *times,
        );
        assert(detected@ =~= m.detected);
    }
    TickOutput { resolved, detected }
}

} // verus!
