//! The casting state machine. An actor is either idle or casting exactly one
//! ability — the in-progress cast is an `Option<Casting>`, so two concurrent
//! casts for one actor are unrepresentable by construction. Each tick the
//! machine advances the cast bar, honors at most the first command of the
//! tick's queue, and then, if the bar has filled, resolves the ability's
//! effect and starts its cooldown.

use vstd::prelude::*;

use crate::skills::SkillsState;
use crate::spells::{SpellKind, SpellTimes};

verus! {

/// A casting command, collected from input once per tick in enqueue order.
#[derive(Clone, Copy, Debug, PartialEq, Eq, Structural)]
pub enum CastingCommand {
    Cast(SpellKind),
    Interrupt,
}

/// The single in-progress cast: which ability, how many milliseconds of cast
/// bar are left, and the bar's full length (for progress reporting).
#[derive(Clone, Copy, Debug, PartialEq, Eq, Structural)]
pub struct Casting {
    pub kind: SpellKind,
    pub remaining_ms: u64,
    pub total_ms: u64,
}

impl Casting {
    /// The cast bar never holds more time than its full length.
    pub open spec fn wf(self) -> bool {
        self.remaining_ms <= self.total_ms
    }

    pub open spec fn spec_progress_permille(self) -> int {
        if self.total_ms == 0 {
            1000
        } else {
            (self.total_ms - self.remaining_ms) * 1000 / (self.total_ms as int)
        }
    }

    /// Cast-bar fill for presentation, in thousandths: 0 at the start of a
    /// cast, 1000 when the bar is full (a zero-length bar counts as full).
    pub fn progress_permille(&self) -> (r: u64)
        requires
            self.wf(),
        ensures
            r == self.spec_progress_permille(),
            r <= 1000,
    {
        if self.total_ms == 0 {
            1000
        } else {
            let elapsed: u128 = (self.total_ms - self.remaining_ms) as u128;
            proof {
                let e = elapsed as int;
                let t = self.total_ms as int;
                assert(e * 1000 <= t * 1000) by (nonlinear_arith)
                    requires
                        0 <= e <= t,
                ;
                vstd::arithmetic::div_mod::lemma_div_is_ordered(e * 1000, t * 1000, t);
                vstd::arithmetic::div_mod::lemma_div_multiples_vanish(1000, t);
            }
            ((elapsed * 1000) / (self.total_ms as u128)) as u64
        }
    }
}

/// A fresh cast of `kind` with a full bar of its configured cast time.
pub open spec fn new_cast(kind: SpellKind, times: SpellTimes) -> Casting {
    Casting {
        kind,
        remaining_ms: times.spec_times_of(kind).cast_ms,
        total_ms: times.spec_times_of(kind).cast_ms,
    }
}

/// The cast bar after this tick's time has drained from it.
pub open spec fn ticked_cast(c: Casting, delta_ms: u64) -> Casting {
    Casting {
        remaining_ms: if c.remaining_ms <= delta_ms {
            0u64
        } else {
            (c.remaining_ms - delta_ms) as u64
        },
        ..c
    }
}

pub open spec fn tick_cast_opt(c: Option<Casting>, delta_ms: u64) -> Option<Casting> {
    match c {
        Some(x) => Some(ticked_cast(x, delta_ms)),
        None => None,
    }
}

/// The casting state after the tick's honored command (the first of the
/// queue, or none):
/// - idle + `Cast(k)`: start casting `k`, unless `k` is cooling down, in
///   which case the command is ignored;
/// - casting `k` + `Cast(k)`: no-op, the timer is untouched;
/// - casting + `Cast(other)`: discard the current cast's progress with no
///   cooldown penalty and start casting `other`, subject to the same
///   cooldown check (ignored if `other` is cooling down);
/// - casting + `Interrupt`: discard progress and return to idle, resolving
///   no effect and starting no cooldown.
pub open spec fn after_command(
    c: Option<Casting>,
    skills: SkillsState,
    cmd: Option<CastingCommand>,
    times: SpellTimes,
) -> Option<Casting> {
    match cmd {
        None => c,
        Some(CastingCommand::Interrupt) => None,
        Some(CastingCommand::Cast(k)) => match c {
            None => if skills.spec_is_ready(k) {
                Some(new_cast(k, times))
            } else {
                None
            },
            Some(cur) => if cur.kind == k {
                Some(cur)
            } else if skills.spec_is_ready(k) {
                Some(new_cast(k, times))
            } else {
                Some(cur)
            },
        },
    }
}

/// The ability whose cast bar has just filled, if any: checked after command
/// processing, so a cast with zero cast time resolves in the tick it is
/// issued.
pub open spec fn resolving(c: Option<Casting>) -> Option<SpellKind> {
    match c {
        Some(x) => if x.remaining_ms == 0 {
            Some(x.kind)
        } else {
            None
        },
        None => None,
    }
}

/// One full tick of the casting state machine: drain this tick's time from
/// the cast bar, apply the honored command, then resolve if the bar is full.
/// Returns the new casting state, the new cooldown table (the resolved
/// ability's cooldown is started when it is positive) and the resolved
/// ability, if any.
pub open spec fn machine_step(
    c: Option<Casting>,
    skills: SkillsState,
    cmd: Option<CastingCommand>,
    delta_ms: u64,
    times: SpellTimes,
) -> (Option<Casting>, SkillsState, Option<SpellKind>) {
    let mid = after_command(tick_cast_opt(c, delta_ms), skills, cmd, times);
    match resolving(mid) {
        Some(k) => (
            None,
            if times.spec_times_of(k).cd_ms > 0 {
                skills.spec_started(k, times.spec_times_of(k).cd_ms)
            } else {
                skills
            },
            Some(k),
        ),
        None => (mid, skills, None),
    }
}

/// Runs one tick of the casting state machine on the actor's casting state
/// and cooldown table. `cmd` is the first command of this tick's queue;
/// later commands of the tick are discarded by the caller. The returned
/// ability, if any, resolved this tick: its effect must be applied before
/// movement runs, and its cooldown (when positive) has already been started
/// here.
pub fn process_casting(
    cast_res: &mut Option<Casting>,
    skills: &mut SkillsState,
    cmd: Option<CastingCommand>,
    delta_ms: u64,
    times: &SpellTimes,
) -> (resolved: Option<SpellKind>)
    ensures
        ({
            let (c2, s2, r) = machine_step(*old(cast_res), *old(skills), cmd, delta_ms, *times);
            &&& *final(cast_res) == c2
            &&& *final(skills) == s2
            &&& resolved == r
        }),
{
    match cast_res {
        Some(casting) => {
            casting.remaining_ms = casting.remaining_ms.saturating_sub(delta_ms);
        },
        None => {},
    }
    match cmd {
        None => {},
        Some(CastingCommand::Interrupt) => {
            *cast_res = None;
        },
        Some(CastingCommand::Cast(k)) => {
            let start_new: bool = match cast_res {
                Some(cur) => if cur.kind == k {
                    false
                } else {
                    skills.is_ready(k)
                },
                None => skills.is_ready(k),
            };
            if start_new {
                let t = times.cast_time(k);
                *cast_res = Some(Casting { kind: k, remaining_ms: t, total_ms: t });
            }
        },
    }
    let mut resolved: Option<SpellKind> = None;
    match cast_res {
        Some(casting) => {
            if casting.remaining_ms == 0 {
                resolved = Some(casting.kind);
            }
        },
        None => {},
    }
    match resolved {
        Some(k) => {
            let cd = times.cd_time(k);
            if cd > 0 {
                skills.start(k, cd);
            }
            *cast_res = None;
        },
        None => {},
    }
    resolved
}

/// Re-issuing the ability already being cast changes nothing: a tick whose
/// first command is `Cast(k)` while `k` is being cast behaves exactly like a
/// tick with no command at all — no reset, no re-trigger.
pub proof fn lemma_no_recast_reset(
    c: Casting,
    skills: SkillsState,
    delta_ms: u64,
    times: SpellTimes,
)
    ensures
        machine_step(Some(c), skills, Some(CastingCommand::Cast(c.kind)), delta_ms, times)
            == machine_step(Some(c), skills, None, delta_ms, times),
{
}

/// A filled bar never lingers: whenever the machine leaves a cast in
/// progress, its bar still has time on it — a cast whose bar fills resolves
/// in that same tick and the machine returns to idle.
pub proof fn lemma_filled_bar_never_lingers(
    c: Option<Casting>,
    skills: SkillsState,
    cmd: Option<CastingCommand>,
    delta_ms: u64,
    times: SpellTimes,
)
    ensures
        machine_step(c, skills, cmd, delta_ms, times).0 matches Some(left) ==> left.remaining_ms
            > 0,
{
}

/// The cooldown table moves only on resolution: a tick in which no cast
/// resolves — idle ticks, mid-cast ticks, interrupts, discarded or ignored
/// commands — leaves every cooldown entry exactly as it was.
pub proof fn lemma_no_resolution_no_cooldown_change(
    c: Option<Casting>,
    skills: SkillsState,
    cmd: Option<CastingCommand>,
    delta_ms: u64,
    times: SpellTimes,
)
    requires
        machine_step(c, skills, cmd, delta_ms, times).2 is None,
    ensures
        machine_step(c, skills, cmd, delta_ms, times).1 == skills,
{
}

/// When a cast resolves for an ability with a positive cooldown, that
/// ability is not ready in the resulting cooldown table.
pub proof fn lemma_resolution_starts_cooldown(
    c: Option<Casting>,
    skills: SkillsState,
    cmd: Option<CastingCommand>,
    delta_ms: u64,
    times: SpellTimes,
    kind: SpellKind,
)
    requires
        machine_step(c, skills, cmd, delta_ms, times).2 == Some(kind),
        times.spec_times_of(kind).cd_ms > 0,
    ensures
        !machine_step(c, skills, cmd, delta_ms, times).1.spec_is_ready(kind),
{
}

} // verus!
