//! The detection engine. Each vision source watches a wedge approximated by
//! a triangle — the source's origin and two rim points, straight chords
//! instead of the true arc, a deliberate under-approximation of the sector.
//! Per tick, a source detects the actor exactly when the actor's position
//! lies inside its triangle and inside no active concealment circle;
//! concealment is a single OR across all live effects and hides the actor
//! from every source at once.

use vstd::prelude::*;

use crate::effects::SmokeBomb;
use crate::geom::{lemma_mul_in_range, Vec2i, MAX_COORD};

verus! {

/// One vision source: its origin in world coordinates, and the two rim
/// points of its wedge triangle, relative to the origin. The rim points sit
/// at the wedge's radius along its start and end angles; they are computed
/// once when the source is created and are immutable afterwards.
#[derive(Clone, Copy, Debug, PartialEq, Eq, Structural)]
pub struct Camera {
    pub origin: Vec2i,
    pub a: Vec2i,
    pub b: Vec2i,
}

impl Camera {
    /// Coordinates small enough for exact `i128` cross products.
    pub open spec fn wf(self) -> bool {
        &&& self.origin.in_world()
        &&& self.a.in_world()
        &&& self.b.in_world()
    }
}

/// Point-in-triangle by cross-product signs, over unbounded integers. The
/// comparisons are strict (`> 0`), which gives one consistent half-open
/// boundary rule: a point exactly on an edge shared by two adjacent wedges
/// is never counted as inside both.
pub open spec fn in_triangle_at(sx: int, sy: int, a: Vec2i, b: Vec2i, c: Vec2i) -> bool {
    let as_x = sx - a.x;
    let as_y = sy - a.y;
    let s_ab = (b.x - a.x) * as_y - (b.y - a.y) * as_x > 0;
    let s_ac = (c.x - a.x) * as_y - (c.y - a.y) * as_x > 0;
    if s_ac == s_ab {
        false
    } else {
        ((c.x - b.x) * (sy - b.y) - (c.y - b.y) * (sx - b.x) > 0) == s_ab
    }
}

pub open spec fn in_triangle(s: Vec2i, a: Vec2i, b: Vec2i, c: Vec2i) -> bool {
    in_triangle_at(s.x as int, s.y as int, a, b, c)
}

/// Exact point-in-triangle test; `s` is the point, `a`, `b`, `c` the corners.
pub fn is_in_triangle(s: Vec2i, a: Vec2i, b: Vec2i, c: Vec2i) -> (r: bool)
    requires
        s.in_world(),
        a.in_world(),
        b.in_world(),
        c.in_world(),
    ensures
        r == in_triangle(s, a, b, c),
{
    triangle_test(s.x as i128, s.y as i128, a, b, c)
}

/// The shared exact sign test; the point may come from a difference of two
/// in-world points, so it is taken in `i128`.
fn triangle_test(sx: i128, sy: i128, a: Vec2i, b: Vec2i, c: Vec2i) -> (r: bool)
    requires
        -2 * MAX_COORD <= sx <= 2 * MAX_COORD,
        -2 * MAX_COORD <= sy <= 2 * MAX_COORD,
        a.in_world(),
        b.in_world(),
        c.in_world(),
    ensures
        r == in_triangle_at(sx as int, sy as int, a, b, c),
{
    let as_x: i128 = sx - a.x as i128;
    let as_y: i128 = sy - a.y as i128;
    let ab_x: i128 = b.x as i128 - a.x as i128;
    let ab_y: i128 = b.y as i128 - a.y as i128;
    let ac_x: i128 = c.x as i128 - a.x as i128;
    let ac_y: i128 = c.y as i128 - a.y as i128;
    let bc_x: i128 = c.x as i128 - b.x as i128;
    let bc_y: i128 = c.y as i128 - b.y as i128;
    let bs_x: i128 = sx - b.x as i128;
    let bs_y: i128 = sy - b.y as i128;
    proof {
        lemma_mul_in_range(ab_x as int, as_y as int, 2 * MAX_COORD, 3 * MAX_COORD);
        lemma_mul_in_range(ab_y as int, as_x as int, 2 * MAX_COORD, 3 * MAX_COORD);
        lemma_mul_in_range(ac_x as int, as_y as int, 2 * MAX_COORD, 3 * MAX_COORD);
        lemma_mul_in_range(ac_y as int, as_x as int, 2 * MAX_COORD, 3 * MAX_COORD);
        lemma_mul_in_range(bc_x as int, bs_y as int, 2 * MAX_COORD, 3 * MAX_COORD);
        lemma_mul_in_range(bc_y as int, bs_x as int, 2 * MAX_COORD, 3 * MAX_COORD);
    }
    let s_ab: bool = ab_x * as_y - ab_y * as_x > 0;
    let s_ac: bool = ac_x * as_y - ac_y * as_x > 0;
    if s_ac == s_ab {
        return false;
    }
    let last: bool = bc_x * bs_y - bc_y * bs_x > 0;
    last == s_ab
}

/// Whether one concealment effect covers the point: strictly closer to the
/// effect's center than its radius.
pub open spec fn conceals(bomb: SmokeBomb, p: Vec2i) -> bool {
    let dx = p.x - bomb.pos.x;
    let dy = p.y - bomb.pos.y;
    dx * dx + dy * dy < bomb.radius * bomb.radius
}

/// Whether any live concealment effect covers the point. Evaluated once per
/// tick and applied uniformly to every vision source.
pub open spec fn is_smoked(bombs: Seq<SmokeBomb>, p: Vec2i) -> bool {
    exists|i: int| 0 <= i < bombs.len() && conceals(bombs[i], p)
}

/// Whether the point lies in the source's wedge triangle: the actor's
/// position relative to the origin, tested against the triangle with corners
/// at the origin and the two rim points.
pub open spec fn in_wedge(cam: Camera, p: Vec2i) -> bool {
    in_triangle_at(p.x - cam.origin.x, p.y - cam.origin.y, Vec2i { x: 0, y: 0 }, cam.a, cam.b)
}

/// One source's verdict for the tick: detected exactly when inside the
/// wedge triangle and covered by no concealment effect.
pub open spec fn detects(cam: Camera, bombs: Seq<SmokeBomb>, p: Vec2i) -> bool {
    !is_smoked(bombs, p) && in_wedge(cam, p)
}

fn bomb_conceals(bomb: &SmokeBomb, p: Vec2i) -> (r: bool)
    requires
        bomb.wf(),
        p.in_world(),
    ensures
        r == conceals(*bomb, p),
{
    let dx: i128 = p.x as i128 - bomb.pos.x as i128;
    let dy: i128 = p.y as i128 - bomb.pos.y as i128;
    let rr: i128 = bomb.radius as i128;
    proof {
        lemma_mul_in_range(dx as int, dx as int, 2 * MAX_COORD, 2 * MAX_COORD);
        lemma_mul_in_range(dy as int, dy as int, 2 * MAX_COORD, 2 * MAX_COORD);
        lemma_mul_in_range(rr as int, rr as int, MAX_COORD as int, MAX_COORD as int);
    }
    dx * dx + dy * dy < rr * rr
}

/// The detection pass of one tick: runs after movement and after the effect
/// lifecycle, so it sees the tick's final world state. Returns one verdict
/// per vision source, in the sources' order.
pub fn detect_player(cameras: &Vec<Camera>, smoke_bombs: &Vec<SmokeBomb>, player: Vec2i) -> (r: Vec<
    bool,
>)
    requires
        player.in_world(),
        forall|i: int| 0 <= i < cameras@.len() ==> cameras@[i].wf(),
        forall|i: int| 0 <= i < smoke_bombs@.len() ==> smoke_bombs@[i].wf(),
    ensures
        r@.len() == cameras@.len(),
        forall|i: int| 0 <= i < r@.len() ==> r@[i] == detects(cameras@[i], smoke_bombs@, player),
{
    let nb: usize = smoke_bombs.len();
    let mut smoked: bool = false;
    let mut i: usize = 0;
    while i < nb
        invariant
            nb == smoke_bombs@.len(),
            player.in_world(),
            forall|k: int| 0 <= k < smoke_bombs@.len() ==> smoke_bombs@[k].wf(),
            0 <= i <= nb,
            smoked == exists|j: int| 0 <= j < i && conceals(smoke_bombs@[j], player),
        decreases nb - i,
    {
        if bomb_conceals(&smoke_bombs[i], player) {
            smoked = true;
        }
        i = i + 1;
    }
    assert(smoked == is_smoked(smoke_bombs@, player));
    let nc: usize = cameras.len();
    let mut r: Vec<bool> = Vec::new();
    let mut i: usize = 0;
    while i < nc
        invariant
            nc == cameras@.len(),
            player.in_world(),
            forall|k: int| 0 <= k < cameras@.len() ==> cameras@[k].wf(),
            smoked == is_smoked(smoke_bombs@, player),
            0 <= i <= nc,
            r@.len() == i,
            forall|j: int| 0 <= j < i ==> r@[j] == detects(cameras@[j], smoke_bombs@, player),
        decreases nc - i,
    {
        let cam = cameras[i];
        let relx: i128 = player.x as i128 - cam.origin.x as i128;
        let rely: i128 = player.y as i128 - cam.origin.y as i128;
        let inside = triangle_test(relx, rely, Vec2i { x: 0, y: 0 }, cam.a, cam.b);
        r.push(!smoked && inside);
        i = i + 1;
    }
    r
}

/// Concealment overrides geometry: an actor covered by any live concealment
/// effect is reported not-detected by every vision source, whether or not it
/// stands inside the source's wedge.
pub proof fn lemma_concealment_hides(cam: Camera, bombs: Seq<SmokeBomb>, p: Vec2i)
    requires
        is_smoked(bombs, p),
    ensures
        !detects(cam, bombs, p),
{
}

/// Exposure law: an actor inside a source's wedge triangle and outside every
/// live concealment circle is reported detected by that source.
pub proof fn lemma_exposed_in_wedge_is_seen(cam: Camera, bombs: Seq<SmokeBomb>, p: Vec2i)
    requires
        in_wedge(cam, p),
        forall|i: int| 0 <= i < bombs.len() ==> !conceals(bombs[i], p),
    ensures
        detects(cam, bombs, p),
{
}

} // verus!
