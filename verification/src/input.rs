//! Input-to-command mapping. Key states are sampled once per tick by the
//! caller and handed in as plain booleans; this module turns them into a
//! movement velocity and the tick's ordered queue of casting commands.

use vstd::prelude::*;

use crate::casting::{Casting, CastingCommand};
use crate::geom::Vec2i;
use crate::movement::Velocity;
use crate::spells::SpellKind;

verus! {

/// One tick's sampled key states. The `*_held` fields are level-triggered;
/// the `*_just` fields are edge-triggered ("just pressed" this tick) and are
/// consulted only while a dash is in progress.
#[derive(Clone, Copy, Debug, PartialEq, Eq, Structural)]
pub struct KeyFrame {
    pub up_held: bool,
    pub down_held: bool,
    pub left_held: bool,
    pub right_held: bool,
    pub dash_held: bool,
    pub smoke_held: bool,
    pub emp_held: bool,
    pub up_just: bool,
    pub down_just: bool,
    pub left_just: bool,
    pub right_just: bool,
    pub smoke_just: bool,
    pub emp_just: bool,
}

impl KeyFrame {
    /// A frame with no key active.
    pub fn released() -> (r: KeyFrame)
        ensures
            r == Self::spec_released(),
    {
        KeyFrame {
            up_held: false,
            down_held: false,
            left_held: false,
            right_held: false,
            dash_held: false,
            smoke_held: false,
            emp_held: false,
            up_just: false,
            down_just: false,
            left_just: false,
            right_just: false,
            smoke_just: false,
            emp_just: false,
        }
    }

    pub open spec fn spec_released() -> KeyFrame {
        KeyFrame {
            up_held: false,
            down_held: false,
            left_held: false,
            right_held: false,
            dash_held: false,
            smoke_held: false,
            emp_held: false,
            up_just: false,
            down_just: false,
            left_just: false,
            right_just: false,
            smoke_just: false,
            emp_just: false,
        }
    }
}

/// Net contribution of a pair of opposing direction keys: they cancel when
/// both or neither are held.
pub open spec fn axis(pos: bool, neg: bool, speed: i64) -> i64
    recommends
        speed >= 0,
{
    if pos == neg {
        0
    } else if pos {
        speed
    } else {
        (-speed) as i64
    }
}

/// The movement-intent velocity of this tick: zero while a cast is in
/// progress (directional keys move nothing mid-cast), otherwise `speed`
/// along each held direction.
pub open spec fn keyboard_velocity(keys: KeyFrame, casting: Option<Casting>, speed: i64) -> Vec2i {
    if casting is Some {
        Vec2i { x: 0, y: 0 }
    } else {
        Vec2i {
            x: axis(keys.right_held, keys.left_held, speed),
            y: axis(keys.up_held, keys.down_held, speed),
        }
    }
}

/// The command queue produced while no dash is in progress: one ability
/// trigger wins over the others (dash, then smoke, then emp), and failing
/// those, any held direction key enqueues an interrupt.
pub open spec fn keyboard_commands(keys: KeyFrame) -> Seq<CastingCommand> {
    if keys.dash_held {
        seq![CastingCommand::Cast(SpellKind::Dash)]
    } else if keys.smoke_held {
        seq![CastingCommand::Cast(SpellKind::Smoke)]
    } else if keys.emp_held {
        seq![CastingCommand::Cast(SpellKind::Emp)]
    } else if keys.up_held || keys.down_held || keys.left_held || keys.right_held {
        seq![CastingCommand::Interrupt]
    } else {
        Seq::empty()
    }
}

/// The command queue produced while a dash is in progress: a just-pressed
/// direction key enqueues an interrupt, and a just-pressed ability key
/// (smoke over emp) additionally enqueues a competing cast. Held keys do
/// nothing: re-triggering during a dash is edge-triggered.
pub open spec fn dashing_commands(keys: KeyFrame) -> Seq<CastingCommand> {
    let moved = if keys.up_just || keys.down_just || keys.left_just || keys.right_just {
        seq![CastingCommand::Interrupt]
    } else {
        Seq::<CastingCommand>::empty()
    };
    if keys.smoke_just {
        moved.push(CastingCommand::Cast(SpellKind::Smoke))
    } else if keys.emp_just {
        moved.push(CastingCommand::Cast(SpellKind::Emp))
    } else {
        moved
    }
}

/// Movement and casting input while no dash is in progress: sets this tick's
/// velocity from the held direction keys (suppressed to zero mid-cast),
/// records it as the last non-zero movement intent when it is non-zero, and
/// appends this tick's commands to the queue.
pub fn move_keyboard(
    keys: &KeyFrame,
    velocity: &mut Velocity,
    last_velocity: &mut Vec2i,
    cast_res: &Option<Casting>,
    speed: i64,
    queue: &mut Vec<CastingCommand>,
)
    requires
        speed >= 0,
    ensures
        final(velocity).0 == keyboard_velocity(*keys, *cast_res, speed),
        *final(last_velocity) == if !keyboard_velocity(*keys, *cast_res, speed).is_zero() {
            keyboard_velocity(*keys, *cast_res, speed)
        } else {
            *old(last_velocity)
        },
        final(queue)@ == old(queue)@ + keyboard_commands(*keys),
{
    velocity.0.x = 0;
    velocity.0.y = 0;
    if cast_res.is_none() {
        if keys.up_held {
            velocity.0.y = velocity.0.y + speed;
        }
        if keys.down_held {
            velocity.0.y = velocity.0.y - speed;
        }
        if keys.right_held {
            velocity.0.x = velocity.0.x + speed;
        }
        if keys.left_held {
            velocity.0.x = velocity.0.x - speed;
        }
        if velocity.0.x != 0 || velocity.0.y != 0 {
            *last_velocity = velocity.0;
        }
    }
    if keys.dash_held {
        queue.push(CastingCommand::Cast(SpellKind::Dash));
    } else if keys.smoke_held {
        queue.push(CastingCommand::Cast(SpellKind::Smoke));
    } else if keys.emp_held {
        queue.push(CastingCommand::Cast(SpellKind::Emp));
    } else if keys.up_held || keys.down_held || keys.left_held || keys.right_held {
        queue.push(CastingCommand::Interrupt);
    }
    proof {
        assert(final(queue)@ =~= old(queue)@ + keyboard_commands(*keys));
    }
}

/// Casting input while a dash is in progress: directional movement and
/// competing ability triggers only enqueue commands; the dash keeps the
/// actor's velocity until the dash controller ends it.
pub fn move_keyboard_for_dashing(keys: &KeyFrame, queue: &mut Vec<CastingCommand>)
    ensures
        final(queue)@ == old(queue)@ + dashing_commands(*keys),
{
    if keys.up_just || keys.down_just || keys.left_just || keys.right_just {
        queue.push(CastingCommand::Interrupt);
    }
    if keys.smoke_just {
        queue.push(CastingCommand::Cast(SpellKind::Smoke));
    } else if keys.emp_just {
        queue.push(CastingCommand::Cast(SpellKind::Emp));
    }
    proof {
        assert(final(queue)@ =~= old(queue)@ + dashing_commands(*keys));
    }
}

} // verus!
