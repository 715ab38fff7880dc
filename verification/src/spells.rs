//! The closed set of castable abilities and their timing table: cast time,
//! cooldown and effect duration per ability, a dash velocity multiplier and
//! the base movement speed. All times are whole milliseconds; a zero cast
//! time is valid and means the ability resolves in the tick it is issued.

use vstd::prelude::*;

verus! {

/// Largest movement speed the simulation accepts, in world units per tick.
pub const MAX_SPEED: i64 = 1_000_000;

/// Largest dash velocity multiplier the simulation accepts.
pub const MAX_MULTIPLIER: i64 = 1_000;

/// Base cast time of each ability, in milliseconds.
pub const DASH_CAST_MS: u64 = 0;

pub const SMOKE_CAST_MS: u64 = 1_000;

pub const EMP_CAST_MS: u64 = 1_500;

/// Base effect duration of each ability, in milliseconds.
pub const DASH_DURATION_MS: u64 = 500;

pub const SMOKE_DURATION_MS: u64 = 50_000;

pub const EMP_DURATION_MS: u64 = 1_500;

/// Base cooldown of each ability, in milliseconds.
pub const DASH_CD_MS: u64 = 0;

pub const SMOKE_CD_MS: u64 = 5_000;

pub const EMP_CD_MS: u64 = 10_000;

/// Base scalar applied to the last non-zero velocity when a dash starts.
pub const DASH_VEL_MULTI: i64 = 3;

/// Base movement speed, in world units per tick.
pub const PLAYER_SPEED: i64 = 2;

/// The abilities an actor can cast.
#[derive(Clone, Copy, Debug, PartialEq, Eq, Structural)]
pub enum SpellKind {
    Dash,
    Smoke,
    Emp,
}

/// Cast time, cooldown and effect duration of one ability, in milliseconds.
#[derive(Clone, Copy, Debug, PartialEq, Eq, Structural)]
pub struct KindTimes {
    pub cast_ms: u64,
    pub cd_ms: u64,
    pub duration_ms: u64,
}

/// Why a timing configuration was rejected at load time.
#[derive(Clone, Copy, Debug, PartialEq, Eq, Structural)]
pub enum ConfigError {
    NegativeTime,
    MultiplierOutOfRange,
    SpeedOutOfRange,
}

impl KindTimes {
    /// Validates one ability's timing constants: every time must be
    /// non-negative; zero is allowed everywhere.
    pub fn new(cast_ms: i64, cd_ms: i64, duration_ms: i64) -> (r: Result<KindTimes, ConfigError>)
        ensures
            cast_ms >= 0 && cd_ms >= 0 && duration_ms >= 0 <==> r is Ok,
            r matches Ok(t) ==> t == (KindTimes {
                cast_ms: cast_ms as u64,
                cd_ms: cd_ms as u64,
                duration_ms: duration_ms as u64,
            }),
            r is Err ==> r == Result::<KindTimes, ConfigError>::Err(ConfigError::NegativeTime),
    {
        if cast_ms < 0 || cd_ms < 0 || duration_ms < 0 {
            Err(ConfigError::NegativeTime)
        } else {
            Ok(
                KindTimes {
                    cast_ms: cast_ms as u64,
                    cd_ms: cd_ms as u64,
                    duration_ms: duration_ms as u64,
                },
            )
        }
    }
}

/// The timing table the simulation runs on: per-ability constants after any
/// upstream stat modifiers have been applied, plus the dash multiplier and
/// the base movement speed.
#[derive(Clone, Copy, Debug, PartialEq, Eq, Structural)]
pub struct SpellTimes {
    pub dash: KindTimes,
    pub smoke: KindTimes,
    pub emp: KindTimes,
    pub dash_multiplier: i64,
    pub move_speed: i64,
}

impl SpellTimes {
    /// The multiplier and speed are small enough that a dash velocity
    /// (last non-zero velocity times multiplier) fits comfortably in `i64`
    /// and within the world's coordinate range.
    pub open spec fn valid(self) -> bool {
        &&& 0 <= self.dash_multiplier <= MAX_MULTIPLIER
        &&& 0 <= self.move_speed <= MAX_SPEED
    }

    /// Validates a full timing table; the per-ability times arrive already
    /// validated by [`KindTimes::new`].
    pub fn new(dash: KindTimes, smoke: KindTimes, emp: KindTimes, dash_multiplier: i64,
        move_speed: i64) -> (r: Result<SpellTimes, ConfigError>)
        ensures
            r is Ok <==> 0 <= dash_multiplier <= MAX_MULTIPLIER && 0 <= move_speed <= MAX_SPEED,
            r matches Ok(t) ==> t == (SpellTimes { dash, smoke, emp, dash_multiplier, move_speed }),
            r matches Err(e) ==> if !(0 <= dash_multiplier <= MAX_MULTIPLIER) {
                e == ConfigError::MultiplierOutOfRange
            } else {
                e == ConfigError::SpeedOutOfRange
            },
    {
        if dash_multiplier < 0 || dash_multiplier > MAX_MULTIPLIER {
            Err(ConfigError::MultiplierOutOfRange)
        } else if move_speed < 0 || move_speed > MAX_SPEED {
            Err(ConfigError::SpeedOutOfRange)
        } else {
            Ok(SpellTimes { dash, smoke, emp, dash_multiplier, move_speed })
        }
    }

    /// The base table: the game's built-in constants, with no modifiers.
    pub fn standard() -> (r: SpellTimes)
        ensures
            r == Self::spec_standard(),
            r.valid(),
    {
        SpellTimes {
            dash: KindTimes {
                cast_ms: DASH_CAST_MS,
                cd_ms: DASH_CD_MS,
                duration_ms: DASH_DURATION_MS,
            },
            smoke: KindTimes {
                cast_ms: SMOKE_CAST_MS,
                cd_ms: SMOKE_CD_MS,
                duration_ms: SMOKE_DURATION_MS,
            },
            emp: KindTimes { cast_ms: EMP_CAST_MS, cd_ms: EMP_CD_MS, duration_ms: EMP_DURATION_MS },
            dash_multiplier: DASH_VEL_MULTI,
            move_speed: PLAYER_SPEED,
        }
    }

    pub open spec fn spec_standard() -> SpellTimes {
        SpellTimes {
            dash: KindTimes {
                cast_ms: DASH_CAST_MS,
                cd_ms: DASH_CD_MS,
                duration_ms: DASH_DURATION_MS,
            },
            smoke: KindTimes {
                cast_ms: SMOKE_CAST_MS,
                cd_ms: SMOKE_CD_MS,
                duration_ms: SMOKE_DURATION_MS,
            },
            emp: KindTimes { cast_ms: EMP_CAST_MS, cd_ms: EMP_CD_MS, duration_ms: EMP_DURATION_MS },
            dash_multiplier: DASH_VEL_MULTI,
            move_speed: PLAYER_SPEED,
        }
    }

    pub open spec fn spec_times_of(self, kind: SpellKind) -> KindTimes {
        match kind {
            SpellKind::Dash => self.dash,
            SpellKind::Smoke => self.smoke,
            SpellKind::Emp => self.emp,
        }
    }

    /// Milliseconds the ability's cast bar must fill before its effect
    /// resolves.
    pub fn cast_time(&self, kind: SpellKind) -> (r: u64)
        ensures
            r == self.spec_times_of(kind).cast_ms,
    {
        match kind {
            SpellKind::Dash => self.dash.cast_ms,
            SpellKind::Smoke => self.smoke.cast_ms,
            SpellKind::Emp => self.emp.cast_ms,
        }
    }

    /// Milliseconds after resolution before the ability is ready again.
    pub fn cd_time(&self, kind: SpellKind) -> (r: u64)
        ensures
            r == self.spec_times_of(kind).cd_ms,
    {
        match kind {
            SpellKind::Dash => self.dash.cd_ms,
            SpellKind::Smoke => self.smoke.cd_ms,
            SpellKind::Emp => self.emp.cd_ms,
        }
    }

    /// Milliseconds the ability's resulting effect persists.
    pub fn duration(&self, kind: SpellKind) -> (r: u64)
        ensures
            r == self.spec_times_of(kind).duration_ms,
    {
        match kind {
            SpellKind::Dash => self.dash.duration_ms,
            SpellKind::Smoke => self.smoke.duration_ms,
            SpellKind::Emp => self.emp.duration_ms,
        }
    }
}

} // verus!
