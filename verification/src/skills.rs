//! The cooldown tracker: one optional millisecond countdown per ability.
//! An entry is written by the casting state machine when a cast resolves,
//! counts down every tick, and is cleared the moment it elapses, which is
//! when the ability becomes ready again.

use vstd::prelude::*;

use crate::spells::SpellKind;

verus! {

/// Cooldown state of one ability: `Some(r)` while the ability is cooling
/// down with `r` milliseconds left, `None` when it is ready.
#[derive(Clone, Copy, Debug, PartialEq, Eq)]
pub struct SkillState {
    pub time_to_cd: Option<u64>,
}

/// The per-actor cooldown table, one entry per ability.
#[derive(Clone, Copy, Debug, PartialEq, Eq)]
pub struct SkillsState {
    pub q: SkillState,
    pub e: SkillState,
    pub r: SkillState,
}

/// One tick of a single cooldown entry: the countdown loses `delta_ms` and
/// is cleared when it reaches zero.
pub open spec fn ticked_skill(s: SkillState, delta_ms: u64) -> SkillState {
    match s.time_to_cd {
        Some(left) => if left <= delta_ms {
            SkillState { time_to_cd: None }
        } else {
            SkillState { time_to_cd: Some((left - delta_ms) as u64) }
        },
        None => s,
    }
}

impl SkillsState {
    pub open spec fn spec_state(self, kind: SpellKind) -> SkillState {
        match kind {
            SpellKind::Dash => self.q,
            SpellKind::Smoke => self.e,
            SpellKind::Emp => self.r,
        }
    }

    /// The table with one ability's entry replaced.
    pub open spec fn spec_with(self, kind: SpellKind, s: SkillState) -> SkillsState {
        match kind {
            SpellKind::Dash => SkillsState { q: s, ..self },
            SpellKind::Smoke => SkillsState { e: s, ..self },
            SpellKind::Emp => SkillsState { r: s, ..self },
        }
    }

    /// An ability is ready exactly while it has no cooldown entry.
    pub open spec fn spec_is_ready(self, kind: SpellKind) -> bool {
        self.spec_state(kind).time_to_cd is None
    }

    /// The table after a cooldown of `duration_ms` is started on `kind`.
    /// Starting over an existing entry overwrites the remaining time.
    pub open spec fn spec_started(self, kind: SpellKind, duration_ms: u64) -> SkillsState {
        self.spec_with(kind, SkillState { time_to_cd: Some(duration_ms) })
    }

    /// The table after one tick of `delta_ms` on every entry.
    pub open spec fn spec_ticked(self, delta_ms: u64) -> SkillsState {
        SkillsState {
            q: ticked_skill(self.q, delta_ms),
            e: ticked_skill(self.e, delta_ms),
            r: ticked_skill(self.r, delta_ms),
        }
    }

    pub open spec fn spec_default() -> SkillsState {
        SkillsState {
            q: SkillState { time_to_cd: None },
            e: SkillState { time_to_cd: None },
            r: SkillState { time_to_cd: None },
        }
    }

    /// A fresh table with every ability ready.
    pub fn new() -> (r: SkillsState)
        ensures
            r == Self::spec_default(),
    {
        SkillsState {
            q: SkillState { time_to_cd: None },
            e: SkillState { time_to_cd: None },
            r: SkillState { time_to_cd: None },
        }
    }

    pub fn get_state(&self, kind: SpellKind) -> (r: &SkillState)
        ensures
            *r == self.spec_state(kind),
    {
        match kind {
            SpellKind::Dash => &self.q,
            SpellKind::Smoke => &self.e,
            SpellKind::Emp => &self.r,
        }
    }

    pub fn get_state_mut(&mut self, kind: SpellKind) -> (r: &mut SkillState)
        ensures
            *r == old(self).spec_state(kind),
            *final(self) == old(self).spec_with(kind, *final(r)),
    {
        match kind {
            SpellKind::Dash => &mut self.q,
            SpellKind::Smoke => &mut self.e,
            SpellKind::Emp => &mut self.r,
        }
    }

    /// Whether `kind` can be cast now (no cooldown entry is pending).
    pub fn is_ready(&self, kind: SpellKind) -> (r: bool)
        ensures
            r == self.spec_is_ready(kind),
    {
        self.get_state(kind).time_to_cd.is_none()
    }

    /// Starts (or overwrites) the cooldown of `kind` at `duration_ms`.
    pub fn start(&mut self, kind: SpellKind, duration_ms: u64)
        ensures
            *final(self) == old(self).spec_started(kind, duration_ms),
    {
        let state = self.get_state_mut(kind);
        state.time_to_cd = Some(duration_ms);
    }

    /// Remaining cooldown of `kind` in milliseconds, for presentation;
    /// `None` when the ability is ready.
    pub fn remaining(&self, kind: SpellKind) -> (r: Option<u64>)
        ensures
            r == self.spec_state(kind).time_to_cd,
    {
        self.get_state(kind).time_to_cd
    }

    /// Advances every pending cooldown by `delta_ms`, clearing entries that
    /// reach zero.
    pub fn tick_states(&mut self, delta_ms: u64)
        ensures
            *final(self) == old(self).spec_ticked(delta_ms),
    {
        tick_skill(&mut self.q, delta_ms);
        tick_skill(&mut self.e, delta_ms);
        tick_skill(&mut self.r, delta_ms);
    }

    /// Whether any cooldown entry is pending at all.
    pub fn needs_to_tick(&self) -> (r: bool)
        ensures
            r == !(self.spec_is_ready(SpellKind::Dash) && self.spec_is_ready(SpellKind::Smoke)
                && self.spec_is_ready(SpellKind::Emp)),
    {
        self.q.time_to_cd.is_some() || self.e.time_to_cd.is_some() || self.r.time_to_cd.is_some()
    }
}

impl Default for SkillsState {
    /// A fresh table with every ability ready.
    fn default() -> (r: SkillsState)
        ensures
            r == SkillsState::spec_default(),
    {
        SkillsState::new()
    }
}

fn tick_skill(s: &mut SkillState, delta_ms: u64)
    ensures
        *final(s) == ticked_skill(*old(s), delta_ms),
{
    match s.time_to_cd {
        Some(left) => {
            if left <= delta_ms {
                s.time_to_cd = None;
            } else {
                s.time_to_cd = Some(left - delta_ms);
            }
        },
        None => {},
    }
}

/// A cooldown table after a whole sequence of ticks, applied in order.
pub open spec fn spec_tick_fold(s: SkillsState, deltas: Seq<u64>) -> SkillsState
    decreases deltas.len(),
{
    if deltas.len() == 0 {
        s
    } else {
        spec_tick_fold(s.spec_ticked(deltas[0]), deltas.skip(1))
    }
}

/// Total elapsed time of a sequence of tick deltas, as an unbounded integer.
pub open spec fn total_elapsed(deltas: Seq<u64>) -> int
    decreases deltas.len(),
{
    if deltas.len() == 0 {
        0
    } else {
        deltas[0] + total_elapsed(deltas.skip(1))
    }
}

proof fn lemma_total_elapsed_nonneg(deltas: Seq<u64>)
    ensures
        total_elapsed(deltas) >= 0,
    decreases deltas.len(),
{
    if deltas.len() > 0 {
        lemma_total_elapsed_nonneg(deltas.skip(1));
    }
}

/// One cooldown entry after a whole sequence of ticks.
pub open spec fn spec_skill_fold(s: SkillState, deltas: Seq<u64>) -> SkillState
    decreases deltas.len(),
{
    if deltas.len() == 0 {
        s
    } else {
        spec_skill_fold(ticked_skill(s, deltas[0]), deltas.skip(1))
    }
}

/// Folding the whole table ticks each entry independently.
proof fn lemma_fold_componentwise(s: SkillsState, kind: SpellKind, deltas: Seq<u64>)
    ensures
        spec_tick_fold(s, deltas).spec_state(kind) == spec_skill_fold(s.spec_state(kind), deltas),
    decreases deltas.len(),
{
    if deltas.len() > 0 {
        lemma_fold_componentwise(s.spec_ticked(deltas[0]), kind, deltas.skip(1));
    }
}

/// A pending countdown of `left` milliseconds clears exactly when the total
/// elapsed tick time reaches it.
proof fn lemma_skill_fold_clears(left: u64, deltas: Seq<u64>)
    requires
        left > 0,
    ensures
        spec_skill_fold(SkillState { time_to_cd: Some(left) }, deltas).time_to_cd is None
            <==> total_elapsed(deltas) >= left,
    decreases deltas.len(),
{
    if deltas.len() > 0 {
        let d = deltas[0];
        if left <= d {
            lemma_ready_skill_stays_ready(deltas.skip(1));
            lemma_total_elapsed_nonneg(deltas.skip(1));
        } else {
            lemma_skill_fold_clears((left - d) as u64, deltas.skip(1));
        }
    }
}

/// An entry with no pending cooldown is untouched by ticking.
proof fn lemma_ready_skill_stays_ready(deltas: Seq<u64>)
    ensures
        spec_skill_fold(SkillState { time_to_cd: None }, deltas).time_to_cd is None,
    decreases deltas.len(),
{
    if deltas.len() > 0 {
        lemma_ready_skill_stays_ready(deltas.skip(1));
    }
}

/// Cooldown law: starting a positive cooldown on an ability makes it not
/// ready immediately, and after any sequence of ticks it is ready exactly
/// when the total elapsed time has reached the cooldown — so readiness
/// returns only once the full cooldown has passed, to the tick.
pub proof fn lemma_cooldown_runs_out(s: SkillsState, kind: SpellKind, cd_ms: u64, deltas: Seq<u64>)
    requires
        cd_ms > 0,
    ensures
        !s.spec_started(kind, cd_ms).spec_is_ready(kind),
        spec_tick_fold(s.spec_started(kind, cd_ms), deltas).spec_is_ready(kind) <==> total_elapsed(
            deltas,
        ) >= cd_ms,
{
    let started = s.spec_started(kind, cd_ms);
    lemma_fold_componentwise(started, kind, deltas);
    assert(started.spec_state(kind) == SkillState { time_to_cd: Some(cd_ms) });
    lemma_skill_fold_clears(cd_ms, deltas);
}

} // verus!
