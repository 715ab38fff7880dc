use stealth_core::dash::Dashing;
use stealth_core::detect::Camera;
use stealth_core::geom::Vec2i;
use stealth_core::input::KeyFrame;
use stealth_core::movement::Boundaries;
use stealth_core::sim::{tick, Actor, Level};
use stealth_core::spells::{KindTimes, SpellKind, SpellTimes};

fn v(x: i64, y: i64) -> Vec2i {
    Vec2i { x, y }
}

fn empty_level() -> Level {
    Level::new(Boundaries(vec![]), vec![])
}

fn east_wedge(ox: i64, oy: i64) -> Camera {
    Camera {
        origin: v(ox, oy),
        a: v(200, 100),
        b: v(200, -100),
    }
}

fn released() -> KeyFrame {
    KeyFrame::released()
}

#[test]
fn dash_from_idle_applies_the_override_in_the_same_tick() {
    let times = SpellTimes::standard();
    let mut actor = Actor::new(v(0, 0), &times);
    let mut level = empty_level();

    // one tick of moving right records the last non-zero movement intent
    let mut keys = released();
    keys.right_held = true;
    tick(&mut actor, &mut level, &keys, 100, &times);
    assert_eq!(actor.pos, v(2, 0));
    assert_eq!(actor.last_velocity, v(2, 0));

    // dash has a zero cast time: state and velocity change this very tick
    let mut keys = released();
    keys.dash_held = true;
    let out = tick(&mut actor, &mut level, &keys, 100, &times);
    assert_eq!(out.resolved, Some(SpellKind::Dash));
    assert_eq!(actor.dashing, Some(Dashing(500)));
    // dash velocity: last non-zero velocity (2, 0) times the multiplier 3
    assert_eq!(actor.velocity.0, v(6, 0));
    assert_eq!(actor.pos, v(8, 0));
}

#[test]
fn dash_velocity_drops_to_zero_the_tick_the_timer_elapses() {
    let times = SpellTimes::standard();
    let mut actor = Actor::new(v(0, 0), &times);
    let mut level = empty_level();

    let mut keys = released();
    keys.right_held = true;
    tick(&mut actor, &mut level, &keys, 100, &times);
    let mut keys = released();
    keys.dash_held = true;
    tick(&mut actor, &mut level, &keys, 100, &times);
    assert_eq!(actor.pos, v(8, 0));

    // the 500 ms dash survives four more 100 ms ticks at full speed
    for expected_x in [14, 20, 26, 32] {
        tick(&mut actor, &mut level, &released(), 100, &times);
        assert_eq!(actor.velocity.0, v(6, 0));
        assert_eq!(actor.pos, v(expected_x, 0));
    }
    // in the tick the timer finishes the dash is removed and the velocity
    // is exactly zero
    tick(&mut actor, &mut level, &released(), 100, &times);
    assert_eq!(actor.dashing, None);
    assert_eq!(actor.velocity.0, v(0, 0));
    assert_eq!(actor.pos, v(32, 0));
}

#[test]
fn movement_input_cancels_a_dash_in_the_same_tick() {
    let times = SpellTimes::standard();
    let mut actor = Actor::new(v(0, 0), &times);
    let mut level = empty_level();

    let mut keys = released();
    keys.dash_held = true;
    tick(&mut actor, &mut level, &keys, 100, &times);
    assert!(actor.dashing.is_some());

    let mut keys = released();
    keys.up_just = true;
    tick(&mut actor, &mut level, &keys, 100, &times);
    assert_eq!(actor.dashing, None);
    assert_eq!(actor.velocity.0, v(0, 0));
}

#[test]
fn a_competing_cast_ends_the_dash_and_starts_its_bar() {
    let times = SpellTimes::standard();
    let mut actor = Actor::new(v(0, 0), &times);
    let mut level = empty_level();

    let mut keys = released();
    keys.dash_held = true;
    tick(&mut actor, &mut level, &keys, 100, &times);
    assert!(actor.dashing.is_some());

    let mut keys = released();
    keys.smoke_just = true;
    tick(&mut actor, &mut level, &keys, 100, &times);
    assert_eq!(actor.dashing, None);
    assert_eq!(actor.velocity.0, v(0, 0));
    let c = actor.casting.expect("smoke cast started");
    assert_eq!(c.kind, SpellKind::Smoke);
    assert_eq!(c.remaining_ms, 1000);
}

#[test]
fn only_the_first_command_of_a_tick_is_honored() {
    let times = SpellTimes::standard();
    let mut actor = Actor::new(v(0, 0), &times);
    let mut level = empty_level();

    let mut keys = released();
    keys.dash_held = true;
    tick(&mut actor, &mut level, &keys, 100, &times);
    assert!(actor.dashing.is_some());

    // while dashing, a just-pressed direction enqueues an interrupt ahead
    // of the competing cast: the interrupt wins, the cast is discarded
    let mut keys = released();
    keys.up_just = true;
    keys.smoke_just = true;
    tick(&mut actor, &mut level, &keys, 100, &times);
    assert_eq!(actor.dashing, None);
    assert!(actor.casting.is_none());
}

#[test]
fn interrupt_at_half_bar_leaves_idle_no_effect_no_cooldown() {
    let times = SpellTimes::standard();
    let mut actor = Actor::new(v(0, 0), &times);
    let mut level = empty_level();

    // a 1.0 s smoke cast
    let mut keys = released();
    keys.smoke_held = true;
    tick(&mut actor, &mut level, &keys, 100, &times);
    assert_eq!(actor.casting.expect("casting").remaining_ms, 1000);

    // half a second passes
    for _ in 0..5 {
        tick(&mut actor, &mut level, &released(), 100, &times);
    }
    assert_eq!(actor.casting.expect("half way").remaining_ms, 500);

    // movement input enqueues the interrupt
    let mut keys = released();
    keys.left_held = true;
    let out = tick(&mut actor, &mut level, &keys, 100, &times);
    assert_eq!(out.resolved, None);
    assert!(actor.casting.is_none());
    assert_eq!(level.smoke_bombs.len(), 0);
    assert!(actor.skills.is_ready(SpellKind::Smoke));
}

#[test]
fn movement_is_suppressed_while_casting() {
    let times = SpellTimes::standard();
    let mut actor = Actor::new(v(0, 0), &times);
    let mut level = empty_level();

    let mut keys = released();
    keys.smoke_held = true;
    tick(&mut actor, &mut level, &keys, 100, &times);

    // holding a direction *and* the same cast key: the cast command wins the
    // queue, the velocity stays zero while the bar fills
    let mut keys = released();
    keys.right_held = true;
    keys.smoke_held = true;
    tick(&mut actor, &mut level, &keys, 100, &times);
    assert_eq!(actor.pos, v(0, 0));
    assert!(actor.casting.is_some());
}

#[test]
fn smoke_resolution_spawns_the_effect_and_starts_the_cooldown() {
    let times = SpellTimes::standard();
    let mut actor = Actor::new(v(50, 60), &times);
    let mut level = empty_level();

    let mut keys = released();
    keys.smoke_held = true;
    tick(&mut actor, &mut level, &keys, 100, &times);
    let mut resolved = None;
    for _ in 0..10 {
        let out = tick(&mut actor, &mut level, &released(), 100, &times);
        if out.resolved.is_some() {
            resolved = out.resolved;
        }
    }
    assert_eq!(resolved, Some(SpellKind::Smoke));
    assert!(actor.casting.is_none());
    assert_eq!(level.smoke_bombs.len(), 1);
    assert_eq!(level.smoke_bombs[0].pos, v(50, 60));
    assert_eq!(level.smoke_bombs[0].radius, 100);
    assert_eq!(level.smoke_bombs[0].time_left_ms, 50_000);
    assert!(!actor.skills.is_ready(SpellKind::Smoke));
    assert_eq!(actor.skills.remaining(SpellKind::Smoke), Some(5_000));
}

fn instant_smoke_times(duration_ms: i64) -> SpellTimes {
    let dash = KindTimes::new(0, 0, 500).unwrap();
    let smoke = KindTimes::new(0, 5000, duration_ms).unwrap();
    let emp = KindTimes::new(1500, 10_000, 1500).unwrap();
    SpellTimes::new(dash, smoke, emp, 3, 2).unwrap()
}

#[test]
fn effects_despawn_the_tick_their_countdown_finishes() {
    let times = instant_smoke_times(250);
    let mut actor = Actor::new(v(0, 0), &times);
    let mut level = empty_level();

    let mut keys = released();
    keys.smoke_held = true;
    let out = tick(&mut actor, &mut level, &keys, 100, &times);
    assert_eq!(out.resolved, Some(SpellKind::Smoke));
    assert_eq!(level.smoke_bombs.len(), 1);

    tick(&mut actor, &mut level, &released(), 100, &times);
    assert_eq!(level.smoke_bombs[0].time_left_ms, 150);
    tick(&mut actor, &mut level, &released(), 100, &times);
    assert_eq!(level.smoke_bombs[0].time_left_ms, 50);
    tick(&mut actor, &mut level, &released(), 100, &times);
    assert_eq!(level.smoke_bombs.len(), 0);
}

#[test]
fn session_end_removes_every_effect_at_once() {
    let times = instant_smoke_times(60_000);
    let mut actor = Actor::new(v(0, 0), &times);
    let mut level = empty_level();

    let mut keys = released();
    keys.smoke_held = true;
    tick(&mut actor, &mut level, &keys, 100, &times);
    assert_eq!(level.smoke_bombs.len(), 1);

    level.end_session();
    assert_eq!(level.smoke_bombs.len(), 0);
}

#[test]
fn concealment_hides_the_actor_from_both_wedges() {
    let times = SpellTimes::standard();
    // the actor stands inside the first of two non-overlapping wedges
    let mut level = Level::new(Boundaries(vec![]), vec![east_wedge(0, 0), east_wedge(10_000, 0)]);
    let mut actor = Actor::new(v(100, 0), &times);

    // geometrically visible to the first source while no effect is live
    let out = tick(&mut actor, &mut level, &released(), 100, &times);
    assert_eq!(out.detected, vec![true, false]);

    // cast smoke: a 1.0 s bar, then the effect covers the actor
    let mut keys = released();
    keys.smoke_held = true;
    tick(&mut actor, &mut level, &keys, 100, &times);
    let mut last = None;
    for _ in 0..10 {
        let out = tick(&mut actor, &mut level, &released(), 100, &times);
        if out.resolved.is_some() {
            last = Some(out);
        }
    }
    let out = last.expect("smoke resolved");
    // both sources report not-detected, though the actor is still inside
    // the first wedge
    assert_eq!(out.detected, vec![false, false]);
    assert_eq!(level.smoke_bombs.len(), 1);
}

#[test]
fn a_fresh_actor_is_idle_at_rest_and_faces_down() {
    let times = SpellTimes::standard();
    let actor = Actor::new(v(7, 8), &times);
    assert_eq!(actor.pos, v(7, 8));
    assert_eq!(actor.velocity.0, v(0, 0));
    // the default movement intent before the actor has ever moved
    assert_eq!(actor.last_velocity, v(0, -2));
    assert!(actor.casting.is_none());
    assert!(actor.dashing.is_none());
    assert!(actor.skills.is_ready(SpellKind::Dash));
}

#[test]
fn emp_resolution_spawns_nothing_but_starts_its_cooldown() {
    let times = SpellTimes::standard();
    let mut actor = Actor::new(v(0, 0), &times);
    let mut level = empty_level();

    let mut keys = released();
    keys.emp_held = true;
    tick(&mut actor, &mut level, &keys, 100, &times);
    assert_eq!(actor.casting.expect("casting emp").remaining_ms, 1500);

    let mut resolved = None;
    for _ in 0..15 {
        let out = tick(&mut actor, &mut level, &released(), 100, &times);
        if out.resolved.is_some() {
            resolved = out.resolved;
        }
    }
    assert_eq!(resolved, Some(SpellKind::Emp));
    assert!(actor.casting.is_none());
    assert!(actor.dashing.is_none());
    assert_eq!(level.smoke_bombs.len(), 0);
    assert_eq!(actor.skills.remaining(SpellKind::Emp), Some(10_000));
}

#[test]
fn detection_runs_on_the_post_movement_position() {
    let times = SpellTimes::standard();
    // the wedge starts at x > 0; the actor steps into it this tick
    let mut level = Level::new(Boundaries(vec![]), vec![east_wedge(0, 0)]);
    let mut actor = Actor::new(v(-1, 0), &times);

    let mut keys = released();
    keys.right_held = true;
    let out = tick(&mut actor, &mut level, &keys, 100, &times);
    assert_eq!(actor.pos, v(1, 0));
    assert_eq!(out.detected, vec![true]);
}
