use stealth_core::geom::{Boundary, Vec2i};
use stealth_core::movement::{move_system, Boundaries, Velocity};

fn wall(cx: i64, cy: i64, hx: i64, hy: i64) -> Boundary {
    Boundary {
        center: Vec2i { x: cx, y: cy },
        half: Vec2i { x: hx, y: hy },
    }
}

#[test]
fn free_movement_applies_the_velocity() {
    let bounds = Boundaries(vec![]);
    let pos = move_system(
        Vec2i { x: 10, y: -20 },
        &Velocity(Vec2i { x: 3, y: 7 }),
        &bounds,
    );
    assert_eq!(pos, Vec2i { x: 13, y: -13 });
}

#[test]
fn blocked_axis_is_rejected_and_free_axis_slides() {
    // the actor's box is 32 wide (half-extent 16); the wall's half-extents
    // are 10 and 50, so centers closer than 26 on X overlap
    let bounds = Boundaries(vec![wall(100, 0, 10, 50)]);
    // candidate X = 75 is 25 from the wall center: blocked; Y is free
    let pos = move_system(
        Vec2i { x: 60, y: 0 },
        &Velocity(Vec2i { x: 15, y: 8 }),
        &bounds,
    );
    assert_eq!(pos, Vec2i { x: 60, y: 8 });
}

#[test]
fn x_resolves_before_y() {
    // a wall that blocks the diagonal candidate only once X has moved
    let bounds = Boundaries(vec![wall(100, 40, 10, 10)]);
    // X alone: candidate (80, 0) does not overlap (Y centers 40 apart >= 26);
    // then Y: candidate (80, 30) is 20 from the wall on X and 10 on Y: blocked
    let pos = move_system(
        Vec2i { x: 60, y: 0 },
        &Velocity(Vec2i { x: 20, y: 30 }),
        &bounds,
    );
    assert_eq!(pos, Vec2i { x: 80, y: 0 });
}

#[test]
fn touching_edges_do_not_collide() {
    // centers exactly 26 apart: the boxes touch but do not overlap
    let bounds = Boundaries(vec![wall(100, 0, 10, 50)]);
    let pos = move_system(
        Vec2i { x: 60, y: 0 },
        &Velocity(Vec2i { x: 14, y: 0 }),
        &bounds,
    );
    assert_eq!(pos, Vec2i { x: 74, y: 0 });
}

#[test]
fn repeated_steps_toward_a_wall_never_overlap_it() {
    let bounds = Boundaries(vec![wall(300, 0, 20, 200)]);
    let mut pos = Vec2i { x: 0, y: 0 };
    for step in [1_i64, 3, 7, 50, 123, 9, 264, 1, 77] {
        for _ in 0..40 {
            pos = move_system(pos, &Velocity(Vec2i { x: step, y: 0 }), &bounds);
            // the resolved box never overlaps the wall, whatever the step
            assert!(bounds.collide(pos).is_none());
        }
    }
}

#[test]
fn collide_reports_the_first_overlapping_boundary() {
    let bounds = Boundaries(vec![
        wall(500, 500, 10, 10),
        wall(0, 0, 30, 30),
        wall(5, 5, 30, 30),
    ]);
    assert_eq!(bounds.collide(Vec2i { x: 0, y: 0 }), Some(1));
    assert_eq!(bounds.collide(Vec2i { x: 1000, y: 1000 }), None);
}
