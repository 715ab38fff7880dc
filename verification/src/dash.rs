//! The dash controller. When a dash cast resolves, the actor gets a
//! `Dashing` countdown and its velocity is overridden with the last non-zero
//! movement intent scaled by the dash multiplier. While the countdown runs,
//! each tick drains it; the moment it finishes — or an interrupt or a
//! competing cast is enqueued — the dash ends and the velocity drops to zero
//! in the same tick.

use vstd::prelude::*;

use crate::casting::CastingCommand;
use crate::geom::{scale, Vec2i};
use crate::movement::Velocity;
use crate::spells::{SpellKind, MAX_MULTIPLIER, MAX_SPEED};

verus! {

/// The dash-in-progress state: milliseconds left on the dash.
#[derive(Clone, Copy, Debug, PartialEq, Eq, Structural)]
pub struct Dashing(pub u64);

/// Whether this tick's queue holds anything that cuts a dash short: any
/// interrupt, or any cast of an ability other than the dash itself.
pub open spec fn dash_interrupted(queue: Seq<CastingCommand>) -> bool {
    exists|i: int| 0 <= i < queue.len() && queue[i] != CastingCommand::Cast(SpellKind::Dash)
}

/// The dash state and velocity after one tick: `(dashing, velocity)`.
pub open spec fn dash_step(
    dashing: Option<Dashing>,
    velocity: Vec2i,
    queue: Seq<CastingCommand>,
    delta_ms: u64,
) -> (Option<Dashing>, Vec2i) {
    match dashing {
        None => (dashing, velocity),
        Some(Dashing(left)) => {
            let drained: u64 = if left <= delta_ms {
                0u64
            } else {
                (left - delta_ms) as u64
            };
            if drained == 0 || dash_interrupted(queue) {
                (None, Vec2i { x: 0, y: 0 })
            } else {
                (Some(Dashing(drained)), velocity)
            }
        },
    }
}

/// One tick of the dash controller, scanning the whole tick's queue (every
/// enqueued command can cut a dash short, not only the honored first one).
/// With no dash in progress it changes nothing.
pub fn dash(
    dashing: &mut Option<Dashing>,
    velocity: &mut Velocity,
    queue: &Vec<CastingCommand>,
    delta_ms: u64,
)
    ensures
        (*final(dashing), final(velocity).0) == dash_step(
            *old(dashing),
            old(velocity).0,
            queue@,
            delta_ms,
        ),
{
    let left: u64 = match dashing {
        Some(d) => d.0,
        None => {
            return ;
        },
    };
    let drained = left.saturating_sub(delta_ms);
    let mut needs_interrupt: bool = drained == 0;
    let n: usize = queue.len();
    let mut i: usize = 0;
    while i < n
        invariant
            n == queue@.len(),
            0 <= i <= n,
            needs_interrupt == (drained == 0 || exists|j: int|
                0 <= j < i && queue@[j] != CastingCommand::Cast(SpellKind::Dash)),
        decreases n - i,
    {
        let is_dash_cast: bool = match queue[i] {
            CastingCommand::Cast(SpellKind::Dash) => true,
            _ => false,
        };
        if !is_dash_cast {
            needs_interrupt = true;
        }
        i = i + 1;
    }
    if needs_interrupt {
        *dashing = None;
        velocity.0 = Vec2i { x: 0, y: 0 };
    } else {
        *dashing = Some(Dashing(drained));
    }
}

/// Initializes the dash velocity when a dash cast resolves: the last
/// non-zero movement intent, scaled by the dash multiplier. This runs in the
/// resolution tick, before movement consumes the velocity.
pub fn start_dash(velocity: &mut Velocity, last_velocity: Vec2i, multiplier: i64)
    requires
        -MAX_SPEED <= last_velocity.x <= MAX_SPEED,
        -MAX_SPEED <= last_velocity.y <= MAX_SPEED,
        0 <= multiplier <= MAX_MULTIPLIER,
    ensures
        final(velocity).0.x == last_velocity.x * multiplier,
        final(velocity).0.y == last_velocity.y * multiplier,
{
    proof {
        assert(-MAX_SPEED * MAX_MULTIPLIER <= last_velocity.x * multiplier <= MAX_SPEED
            * MAX_MULTIPLIER) by (nonlinear_arith)
            requires
                -MAX_SPEED <= last_velocity.x <= MAX_SPEED,
                0 <= multiplier <= MAX_MULTIPLIER,
        ;
        assert(-MAX_SPEED * MAX_MULTIPLIER <= last_velocity.y * multiplier <= MAX_SPEED
            * MAX_MULTIPLIER) by (nonlinear_arith)
            requires
                -MAX_SPEED <= last_velocity.y <= MAX_SPEED,
                0 <= multiplier <= MAX_MULTIPLIER,
        ;
    }
    velocity.0 = scale(last_velocity, multiplier);
}

/// Dash ending law: in the tick the dash countdown finishes (and in any tick
/// an interrupt or competing cast is enqueued), the dash state is removed
/// and the velocity is exactly zero, in that same tick.
pub proof fn lemma_dash_end_zeroes_velocity(
    left: u64,
    velocity: Vec2i,
    queue: Seq<CastingCommand>,
    delta_ms: u64,
)
    requires
        left <= delta_ms || dash_interrupted(queue),
    ensures
        dash_step(Some(Dashing(left)), velocity, queue, delta_ms) == (
            None::<Dashing>,
            Vec2i { x: 0, y: 0 },
        ),
{
}

/// Dash speed law: scaling a velocity by the dash multiplier scales its
/// squared magnitude by the multiplier squared, so the dash speed is exactly
/// the last non-zero speed times the multiplier.
pub proof fn lemma_dash_speed(v: Vec2i, scaled: Vec2i, m: i64)
    requires
        scaled.x == v.x * m,
        scaled.y == v.y * m,
    ensures
        scaled.mag_sq() == m * m * v.mag_sq(),
{
    assert((v.x * m) * (v.x * m) + (v.y * m) * (v.y * m) == m * m * (v.x * v.x + v.y * v.y))
        by (nonlinear_arith);
}

} // verus!
